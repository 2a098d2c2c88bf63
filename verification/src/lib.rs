//! Commands of a chat bot: how they are stored, checked against Discord's rules, registered as
//! application commands and found again when an interaction arrives.

pub mod discord;
pub mod dispatch;
pub mod laws;
pub mod names;
pub mod seqs;
pub mod string_map;
pub mod structs;
pub mod text;
