//! The `note` command.
pub mod get_notes;
