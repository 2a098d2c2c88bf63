//! Commands, the storages that hold them, and what is reported about them.

pub mod cloning;
pub mod command;
pub mod command_override;
pub mod command_storage;
pub mod consistency;
pub mod errors;
pub mod length;
pub mod naming;
pub mod options;
pub mod qualified_names;
pub mod registration;
pub mod rules;
pub mod updateable;
