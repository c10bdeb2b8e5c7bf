//! The credential and session store, as the verified core sees it.
//!
//! Loading and saving the on-disk file is plain I/O and lives in the
//! binary; here stands the record itself, so that contracts can speak of
//! its fields.

use vstd::prelude::*;

verus! {

/// Credentials plus the two pieces of session state the remote service
/// hands out: the session cookie (`ssid`) and the form token.
pub struct Config {
    pub email: String,
    pub password: String,
    pub ssid: String,
    pub form_token: String,
}

impl Config {
    /// An empty store: every field starts blank and is filled in later,
    /// either by the user or by a successful login.
    pub fn default() -> (r: Config)
        ensures
            r.email@ == Seq::<char>::empty(),
            r.password@ == Seq::<char>::empty(),
            r.ssid@ == Seq::<char>::empty(),
            r.form_token@ == Seq::<char>::empty(),
    {
        Config {
            email: String::new(),
            password: String::new(),
            ssid: String::new(),
            form_token: String::new(),
        }
    }
}

} // verus!
