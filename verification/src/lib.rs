//! Administration client library for a MINT network-access-control server:
//! the typed command model, its line-oriented JSON wire encoding, and the
//! interpretation of the server's JSON replies.
pub mod addr;
pub mod commands;
pub mod jsonval;
pub mod reply;
pub mod text;
