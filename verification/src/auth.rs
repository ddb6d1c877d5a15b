//! The decision of the Basic-Auth middleware that stands before the
//! proxy handler. The credential transport is the HTTP layer's business;
//! only the rule itself lives here.

use crate::paths::str_eq;
use vstd::prelude::*;

verus! {

/// The Basic-Auth middleware.
pub struct Auth;

impl Auth {
    /// Whether a request may proceed: either the service is configured
    /// without credentials, or the provided user name and password match
    /// the configured ones exactly.
    pub fn allows(cfg_user: &str, cfg_pwd: &str, user: &str, pwd: Option<&str>) -> (b: bool)
        ensures
            b == ((cfg_user@.len() == 0 && cfg_pwd@.len() == 0) || (user@ == cfg_user@ && (pwd
                matches Some(p) && p@ == cfg_pwd@))),
    {
        if cfg_user.is_empty() && cfg_pwd.is_empty() {
            return true;
        }
        if !str_eq(user, cfg_user) {
            return false;
        }
        match pwd {
            Some(p) => str_eq(p, cfg_pwd),
            None => false,
        }
    }
}

} // verus!
