//! The per-user store of the newer binaries: the same record as
//! `config`, owned by the user-facing type. Reading and writing the
//! on-disk file, and prompting for missing fields, are plain I/O and
//! live in the binary.

use vstd::prelude::*;

verus! {

/// Credentials plus the session state the service hands out.
pub struct UserConfig {
    pub email: String,
    pub password: String,
    pub ssid: String,
    pub form_token: String,
}

impl UserConfig {
    /// An empty store, to be filled by the user or by a login.
    pub fn default() -> (r: UserConfig)
        ensures
            r.email@ == Seq::<char>::empty(),
            r.password@ == Seq::<char>::empty(),
            r.ssid@ == Seq::<char>::empty(),
            r.form_token@ == Seq::<char>::empty(),
    {
        UserConfig {
            email: String::new(),
            password: String::new(),
            ssid: String::new(),
            form_token: String::new(),
        }
    }
}

} // verus!
