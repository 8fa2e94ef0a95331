//! Records conversation entries into one lazily created thread of a chat
//! channel.
//!
//! The crate decides what is sent and when; sending is left to the caller,
//! who posts each request and hands the service's answer back. Every
//! function here is verified against its contract, except the few that call
//! into another crate: those are marked and say what is taken on trust.

pub mod cell;
pub mod clock;
pub mod laws;
pub mod logger;
pub mod message;
pub mod slack;
pub mod text;
