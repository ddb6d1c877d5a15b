//! The records the inspector produces: session status, desired
//! capabilities, and the navigation command payload.

use vstd::prelude::*;
use vstd::string::StringExecFns;

verus! {

/// The lifecycle stage a classified request addresses.
#[derive(Clone, Copy, Debug, PartialEq, Eq, Structural)]
pub enum SessionStatus {
    Creating,
    UrlCommand,
    Deleting,
}

/// The fixed log text of a session status.
pub open spec fn status_text(s: SessionStatus) -> Seq<char> {
    match s {
        SessionStatus::Creating => "SESSION_CREATING"@,
        SessionStatus::UrlCommand => "SESSION_URL_COMMAND"@,
        SessionStatus::Deleting => "SESSION_DELETING"@,
    }
}

impl SessionStatus {
    /// The fixed log text of this status.
    pub fn as_str(&self) -> (r: &'static str)
        ensures
            r@ == status_text(*self),
    {
        match self {
            SessionStatus::Creating => "SESSION_CREATING",
            SessionStatus::UrlCommand => "SESSION_URL_COMMAND",
            SessionStatus::Deleting => "SESSION_DELETING",
        }
    }
}

/// The characters of an optional text; the empty sequence when absent.
pub open spec fn opt_text(o: Option<String>) -> Seq<char> {
    match o {
        Some(s) => s@,
        None => Seq::empty(),
    }
}

/// The browser, platform and user identity a client asks of a new session.
/// Every field is optional and empty when the request did not carry it.
#[derive(Debug, PartialEq, Eq)]
pub struct DesiredCapabilities {
    pub browser_name: Option<String>,
    pub platform: Option<String>,
    pub soda_user: Option<String>,
}

/// The log text of a set of desired capabilities.
pub open spec fn caps_text(c: DesiredCapabilities) -> Seq<char> {
    "(browser: "@ + opt_text(c.browser_name) + ", platform: "@ + opt_text(c.platform)
        + ", user: "@ + opt_text(c.soda_user) + ")"@
}

impl DesiredCapabilities {
    /// A record with every capability absent.
    pub fn new() -> (r: DesiredCapabilities)
        ensures
            r.browser_name is None,
            r.platform is None,
            r.soda_user is None,
    {
        DesiredCapabilities { browser_name: None, platform: None, soda_user: None }
    }

    /// Renders the capabilities for the event log.
    pub fn log_line(&self) -> (r: String)
        ensures
            r@ == caps_text(*self),
    {
        let mut out = String::from_str("(browser: ");
        match &self.browser_name {
            Some(b) => out.append(b.as_str()),
            None => (),
        }
        out.append(", platform: ");
        match &self.platform {
            Some(p) => out.append(p.as_str()),
            None => (),
        }
        out.append(", user: ");
        match &self.soda_user {
            Some(u) => out.append(u.as_str()),
            None => (),
        }
        out.append(")");
        proof {
            assert(out@ =~= caps_text(*self));
        }
        out
    }
}

/// The top-level payload of a session-creation request.
#[derive(Debug, PartialEq, Eq)]
pub struct Capabilities {
    pub desired_capabilities: DesiredCapabilities,
}

impl Capabilities {
    /// A payload with every capability absent.
    pub fn new() -> (r: Capabilities)
        ensures
            r.desired_capabilities.browser_name is None,
            r.desired_capabilities.platform is None,
            r.desired_capabilities.soda_user is None,
    {
        Capabilities { desired_capabilities: DesiredCapabilities::new() }
    }
}

/// The payload of a navigation command: the address the session is asked
/// to open.
#[derive(Debug, PartialEq, Eq)]
pub struct Command {
    pub url: Option<String>,
}

impl Command {
    /// A command carrying an empty address.
    pub fn new() -> (r: Command)
        ensures
            r.url matches Some(u) && u@ == Seq::<char>::empty(),
    {
        Command { url: Some(String::new()) }
    }

    /// The address carried by the command, empty when absent.
    pub fn url(self) -> (r: String)
        ensures
            r@ == opt_text(self.url),
    {
        match self.url {
            Some(u) => u,
            None => String::new(),
        }
    }
}

/// A server-side session, known by its opaque identifier.
#[derive(Debug, PartialEq, Eq)]
pub struct Session {
    pub session_id: String,
}

} // verus!
