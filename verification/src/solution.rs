//! The older single-submission flow: upload, and on a missing login,
//! log in once and try again. Its replies are read with the older
//! vocabulary of `parse`; the second failure of any kind is fatal to
//! the run, as the caller sees it.

use vstd::prelude::*;

use crate::api::login::LoginError;
use crate::api::upload::{spec_reply_class, spec_solution_id, ReplyClass};
use crate::json::parsed_json;
use crate::parse::parse_response;

verus! {

/// What ends the older upload flow without a solution id. Every case
/// was fatal to the original run.
#[derive(Debug, PartialEq, Eq)]
pub enum UploadFlowError {
    /// The upload request itself never completed.
    Network { err: String },
    /// The reply was not JSON at all.
    InvalidResponse { response: String },
    /// The reply named a failure this flow does not handle.
    UnknownReply { response: String },
    /// The session was still rejected right after a login.
    NotLoggedIn,
    /// The login itself failed.
    Login(LoginError),
}

/// What the caller saw for one upload attempt.
#[derive(Debug, PartialEq, Eq)]
pub enum UploadAttempt {
    Sent { reply: String },
    TransportFailed { err: String },
}

/// Where the older upload flow stands.
#[derive(Debug, PartialEq, Eq)]
pub enum UploadFlowPhase {
    /// An upload attempt is owed.
    Attempt { after_login: bool },
    /// A fresh login is owed before the one retry.
    Login,
    /// The flow ended.
    Done(Result<String, UploadFlowError>),
}

/// The older submit-then-relogin policy as a state machine.
#[derive(Debug, PartialEq, Eq)]
pub struct UploadFlowMachine {
    pub phase: UploadFlowPhase,
}

impl UploadFlowMachine {
    /// A fresh flow: one upload, at most one login and retry.
    pub fn start() -> (m: UploadFlowMachine)
        ensures
            m.phase == (UploadFlowPhase::Attempt { after_login: false }),
    {
        UploadFlowMachine { phase: UploadFlowPhase::Attempt { after_login: false } }
    }

    /// Consumes one upload attempt. A reply that asks for a login sends
    /// the flow there once; read failures and unknown verdicts are
    /// fatal, and so is a login that still does not stick.
    pub fn attempted(&mut self, outcome: UploadAttempt)
        requires
            old(self).phase matches UploadFlowPhase::Attempt { after_login: _ },
        ensures
            ({
                let after_login = old(self).phase->Attempt_after_login;
                match outcome {
                    UploadAttempt::TransportFailed { err } => final(self).phase
                        == UploadFlowPhase::Done(Err(UploadFlowError::Network { err })),
                    UploadAttempt::Sent { reply } => match spec_reply_class(
                        parsed_json(reply@),
                    ) {
                        ReplyClass::Success => final(self).phase matches UploadFlowPhase::Done(
                            Ok(id),
                        ) && id@ == spec_solution_id(parsed_json(reply@).unwrap()),
                        ReplyClass::NotJson => final(self).phase == UploadFlowPhase::Done(
                            Err(UploadFlowError::InvalidResponse { response: reply }),
                        ),
                        ReplyClass::NotLoggedIn => {
                            if after_login {
                                final(self).phase == UploadFlowPhase::Done(
                                    Err(UploadFlowError::NotLoggedIn),
                                )
                            } else {
                                final(self).phase == UploadFlowPhase::Login
                            }
                        },
                        _ => final(self).phase == UploadFlowPhase::Done(
                            Err(UploadFlowError::UnknownReply { response: reply }),
                        ),
                    },
                }
            }),
    {
        let after_login = match &self.phase {
            UploadFlowPhase::Attempt { after_login } => *after_login,
            _ => false,
        };
        match outcome {
            UploadAttempt::TransportFailed { err } => {
                self.phase = UploadFlowPhase::Done(Err(UploadFlowError::Network { err }));
            },
            UploadAttempt::Sent { reply } => match parse_response(&reply) {
                Ok(id) => {
                    self.phase = UploadFlowPhase::Done(Ok(id));
                },
                Err(crate::parse::ResponseType::ParseError) => {
                    self.phase = UploadFlowPhase::Done(
                        Err(UploadFlowError::InvalidResponse { response: reply }),
                    );
                },
                Err(crate::parse::ResponseType::LipsaAuth) => {
                    if after_login {
                        self.phase = UploadFlowPhase::Done(Err(UploadFlowError::NotLoggedIn));
                    } else {
                        self.phase = UploadFlowPhase::Login;
                    }
                },
                Err(crate::parse::ResponseType::UnknownUploadError) => {
                    self.phase = UploadFlowPhase::Done(
                        Err(UploadFlowError::UnknownReply { response: reply }),
                    );
                },
            },
        }
    }

    /// Consumes the login's outcome: success spends the one retry, a
    /// failure is fatal.
    pub fn logged_in(&mut self, outcome: Result<(), LoginError>)
        requires
            old(self).phase == UploadFlowPhase::Login,
        ensures
            match outcome {
                Ok(u) => final(self).phase == (UploadFlowPhase::Attempt { after_login: true }),
                Err(e) => final(self).phase == UploadFlowPhase::Done(
                    Err(UploadFlowError::Login(e)),
                ),
            },
    {
        match outcome {
            Ok(_) => {
                self.phase = UploadFlowPhase::Attempt { after_login: true };
            },
            Err(e) => {
                self.phase = UploadFlowPhase::Done(Err(UploadFlowError::Login(e)));
            },
        }
    }
}

} // verus!
