//! What the operations of this crate are for, said of the fields of the values that they work on.

pub mod checks;
pub mod copies;
pub mod counts;
pub mod errors;
pub mod event;
pub mod lengths;
pub mod naming;
pub mod options;
pub mod registration;
pub mod run;
pub mod search;
pub mod storage;
pub mod texts;
