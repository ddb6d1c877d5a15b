//! The values handed to the session-store collaborator: which user runs
//! which session. The write itself is the collaborator's business, fire
//! and forget; only the pair to write is computed here.

use crate::domain::opt_text;
use crate::inspector::CreateEvent;
use crate::paths::session_id_of_path;
use crate::paths::session_id_or_empty;
use vstd::prelude::*;

verus! {

/// The user identity under which a session is recorded.
pub fn get_user(user: String) -> (r: String)
    ensures
        r == user,
{
    user
}

/// The session identifier under which a user is recorded.
pub fn get_session(id_session: &str) -> (r: &str)
    ensures
        r == id_session,
{
    id_session
}

/// The key-value pair the session store is asked to write after a create
/// event: the derived user identity, and the session id the path
/// addresses, each empty when absent.
pub fn session_store_entry(event: &CreateEvent, path: String) -> (r: (String, String))
    ensures
        r.0@ == opt_text(event.desired_capabilities.soda_user),
        r.1@ == session_id_or_empty(path@),
{
    let user = match &event.desired_capabilities.soda_user {
        Some(u) => u.clone(),
        None => String::new(),
    };
    let session = match session_id_of_path(path) {
        Some(id) => id,
        None => String::new(),
    };
    (user, session)
}

} // verus!
