//! The command grammar, its dispatcher, and login.

pub mod commands;
pub mod login;
