//! The client's view of the remote service, one module per endpoint
//! family: login and session renewal, solution upload, score polling and
//! listing, and the fetch-and-submit flow.

pub mod login;
pub mod score;
pub mod solve;
pub mod upload;
