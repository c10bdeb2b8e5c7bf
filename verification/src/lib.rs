//! Session and submission orchestration for the pbinfo.ro judge.
//!
//! The remote service is browser-oriented: sessions live in cookies, form
//! tokens hide in HTML, and failures arrive as free-text strings. This crate
//! holds the verified core of a client for it: the cookie and token
//! extractors, the response classifiers, and the protocol state machines
//! (login renewal, submit with backoff, bounded polling, range scanning).
//! The surrounding binary performs the actual HTTP calls and drives the
//! machines with what came back.

pub mod api;
pub mod args;
pub mod bot_args;
pub mod cli_args;
pub mod config;
pub mod display;
pub mod json;
pub mod parse;
pub mod scan;
pub mod solution;
pub mod text;
pub mod user_config;
