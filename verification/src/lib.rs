//! Session gateway core for the nightRAID text protocol.
//!
//! A client opens a connection, logs in with a secret token and sends
//! commands, one line each. This crate holds what decides: the registry of
//! open sessions, the command grammar, the dispatcher and the error model.
//! It does no input or output itself. Each entry point takes what arrived and
//! answers with a [`game::commands::Response`], which says what the caller
//! is to do next:
//!
//! - send a text, or send a farewell and close the connection;
//! - ask the credential store for the user of a token, and hand the answer
//!   to [`game::login::login`];
//! - write a user record back to the store, and hand the result to
//!   [`game::login::confirm`].
//!
//! An error is a [`errors::TextError`]. Its public message is all that a
//! client is shown; its cause is for the local log.

pub mod db;
pub mod errors;
pub mod game;
pub mod text;
pub mod ws;
