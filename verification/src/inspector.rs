//! Event extraction: classifies a request as a session-lifecycle event and
//! pulls the interesting values out of its path and JSON body. Extraction
//! never fails a request: a body that does not parse degrades to empty
//! fields.

use crate::domain::caps_text;
use crate::domain::opt_text;
use crate::domain::status_text;
use crate::domain::DesiredCapabilities;
use crate::domain::SessionStatus;
use crate::paths::ends_with_url_segment;
use crate::paths::is_a_new_session;
use crate::paths::is_new_session_path;
use crate::paths::path_ends_with_url;
use crate::paths::session_id_of_path;
use crate::paths::session_id_or_empty;
use crate::paths::str_eq;
use vstd::prelude::*;
use vstd::string::StringExecFns;

verus! {

/// What looking up a text field of a JSON document yielded.
#[derive(Debug, PartialEq, Eq)]
pub enum JsonField {
    /// The field is absent or null, no object stands where it would
    /// live, or the document does not parse.
    Missing,
    /// The field is present but holds neither text nor null.
    NotText,
    /// The field holds this text.
    Text(String),
}

/// What the text field `key` of the parsed body holds — looked up inside
/// the object named `outer` when one is given, at the top level when none
/// is. What serde_json finds there is a function of the bytes and the
/// keys alone, which is why the lookup can bear a name.
pub uninterp spec fn json_text_at(body: Seq<u8>, outer: Option<Seq<char>>, key: Seq<char>) -> JsonField;

/// Relies on serde_json::from_slice and serde_json::Value::get: parses
/// the bytes as one JSON document and reads the text field `key`, inside
/// the object `outer` when one is named. A body that does not parse, a
/// lookup step that finds nothing, and a null all yield Missing; a
/// present value of any other non-text kind yields NotText.
#[verifier::external_body]
fn lookup_text_at(body: &[u8], outer: Option<&str>, key: &str) -> (r: JsonField)
    ensures
        r == json_text_at(body@, outer.deep_view(), key@),
{
    let doc: Result<serde_json::Value, serde_json::Error> = serde_json::from_slice(body);
    let field = match (&doc, outer) {
        (Ok(v), None) => v.get(key),
        (Ok(v), Some(o)) => match v.get(o) {
            Some(inner) => inner.get(key),
            None => None,
        },
        (Err(_), _) => None,
    };
    match field {
        None | Some(serde_json::Value::Null) => JsonField::Missing,
        Some(serde_json::Value::String(s)) => JsonField::Text(s.clone()),
        Some(_) => JsonField::NotText,
    }
}

/// The text of a lookup outcome; empty when it holds none.
pub open spec fn text_or_empty(f: JsonField) -> Seq<char> {
    match f {
        JsonField::Text(s) => s@,
        _ => Seq::empty(),
    }
}

/// The capability field a lookup outcome contributes.
pub open spec fn lookup_to_opt(f: JsonField) -> Option<String> {
    match f {
        JsonField::Text(s) => Some(s),
        _ => None,
    }
}

/// The first lookup, or the second where the first found nothing: the
/// user identity historically appears under two different keys.
pub open spec fn field_or(first: JsonField, second: JsonField) -> JsonField {
    if first is Missing {
        second
    } else {
        first
    }
}

/// Whether a lookup found the field present without text.
fn is_not_text(f: &JsonField) -> (b: bool)
    ensures
        b == (f is NotText),
{
    match f {
        JsonField::NotText => true,
        _ => false,
    }
}

/// The capability record carried by a create event, given what the three
/// field lookups yielded: a field that is present with a value of the
/// wrong kind marks the whole payload malformed — every capability then
/// degrades to absent, as a failed deserialization of the whole body
/// would — while a null or absent field leaves only its own capability
/// absent.
pub open spec fn caps_of_lookups(
    browser: JsonField,
    platform: JsonField,
    user: JsonField,
) -> DesiredCapabilities {
    if browser is NotText || platform is NotText || user is NotText {
        DesiredCapabilities { browser_name: None, platform: None, soda_user: None }
    } else {
        DesiredCapabilities {
            browser_name: lookup_to_opt(browser),
            platform: lookup_to_opt(platform),
            soda_user: lookup_to_opt(user),
        }
    }
}

/// The capability record a session-creation body yields: the three text
/// fields of its desiredCapabilities object, with the user identity
/// normalized from its two historical keys into the one soda_user field.
pub open spec fn caps_of_body(body: Seq<u8>) -> DesiredCapabilities {
    caps_of_lookups(
        json_text_at(body, Some("desiredCapabilities"@), "browserName"@),
        json_text_at(body, Some("desiredCapabilities"@), "platform"@),
        field_or(
            json_text_at(body, Some("desiredCapabilities"@), "soda:user"@),
            json_text_at(body, Some("desiredCapabilities"@), "sodaUser"@),
        ),
    )
}

/// The address a navigation-command body yields: its top-level url text
/// field, or the empty text when the body does not parse or carries none.
pub open spec fn url_of_body(body: Seq<u8>) -> Seq<char> {
    text_or_empty(json_text_at(body, None, "url"@))
}

/// The capability field of one lookup outcome.
fn field_to_opt(f: JsonField) -> (r: Option<String>)
    ensures
        r == lookup_to_opt(f),
{
    match f {
        JsonField::Text(s) => Some(s),
        _ => None,
    }
}

/// Builds the capability record of a create event from the three field
/// lookups.
pub fn desired_capabilities_from(
    browser: JsonField,
    platform: JsonField,
    user: JsonField,
) -> (r: DesiredCapabilities)
    ensures
        r == caps_of_lookups(browser, platform, user),
{
    if is_not_text(&browser) || is_not_text(&platform) || is_not_text(&user) {
        DesiredCapabilities::new()
    } else {
        DesiredCapabilities {
            browser_name: field_to_opt(browser),
            platform: field_to_opt(platform),
            soda_user: field_to_opt(user),
        }
    }
}

/// The address a command event carries, for a given lookup outcome.
pub fn command_url_from(field: JsonField) -> (r: String)
    ensures
        r@ == text_or_empty(field),
{
    match field {
        JsonField::Text(s) => s,
        _ => String::new(),
    }
}

/// A session is being created with these desired capabilities.
#[derive(Debug, PartialEq, Eq)]
pub struct CreateEvent {
    pub event: SessionStatus,
    pub desired_capabilities: DesiredCapabilities,
}

/// A session is asked to open an address.
#[derive(Debug, PartialEq, Eq)]
pub struct CommandEvent {
    pub event: SessionStatus,
    pub session_id: String,
    pub url: String,
}

/// A session is being deleted.
#[derive(Debug, PartialEq, Eq)]
pub struct DeleteEvent {
    pub event: SessionStatus,
    pub session_id: String,
}

/// The session-lifecycle event one request produces, at most one of three.
#[derive(Debug, PartialEq, Eq)]
pub enum SessionEvent {
    Create(CreateEvent),
    Command(CommandEvent),
    Delete(DeleteEvent),
}

/// The log text of a create event.
pub open spec fn create_text(e: CreateEvent) -> Seq<char> {
    "["@ + status_text(e.event) + "] "@ + caps_text(e.desired_capabilities)
}

/// The log text of a command event.
pub open spec fn command_text(e: CommandEvent) -> Seq<char> {
    "["@ + status_text(e.event) + "] ["@ + e.session_id@ + "] ["@ + e.url@ + "]"@
}

/// The log text of a delete event.
pub open spec fn delete_text(e: DeleteEvent) -> Seq<char> {
    "["@ + status_text(e.event) + "] ["@ + e.session_id@ + "]"@
}

impl CreateEvent {
    /// Renders the event for the log sink.
    pub fn log_line(&self) -> (r: String)
        ensures
            r@ == create_text(*self),
    {
        let mut out = String::from_str("[");
        out.append(self.event.as_str());
        out.append("] ");
        let caps = self.desired_capabilities.log_line();
        out.append(caps.as_str());
        out
    }
}

impl CommandEvent {
    /// Renders the event for the log sink.
    pub fn log_line(&self) -> (r: String)
        ensures
            r@ == command_text(*self),
    {
        let mut out = String::from_str("[");
        out.append(self.event.as_str());
        out.append("] [");
        out.append(self.session_id.as_str());
        out.append("] [");
        out.append(self.url.as_str());
        out.append("]");
        out
    }
}

impl DeleteEvent {
    /// Renders the event for the log sink.
    pub fn log_line(&self) -> (r: String)
        ensures
            r@ == delete_text(*self),
    {
        let mut out = String::from_str("[");
        out.append(self.event.as_str());
        out.append("] [");
        out.append(self.session_id.as_str());
        out.append("]");
        out
    }
}

/// Classifies a deletion: the session id is read from the path, and is
/// empty when the path addresses none.
pub fn capture_delete_event(path: String) -> (r: DeleteEvent)
    ensures
        r.event == SessionStatus::Deleting,
        r.session_id@ == session_id_or_empty(path@),
{
    let session_id = match session_id_of_path(path) {
        Some(id) => id,
        None => String::new(),
    };
    DeleteEvent { event: SessionStatus::Deleting, session_id }
}

/// Classifies a session creation. The body is read for the nested
/// desiredCapabilities object; any failure to parse degrades to a record
/// with every capability absent, never to an error.
pub fn capture_create_event(body: &[u8]) -> (r: CreateEvent)
    ensures
        r.event == SessionStatus::Creating,
        r.desired_capabilities == caps_of_body(body@),
{
    let browser = lookup_text_at(body, Some("desiredCapabilities"), "browserName");
    let platform = lookup_text_at(body, Some("desiredCapabilities"), "platform");
    let user = match lookup_text_at(body, Some("desiredCapabilities"), "soda:user") {
        JsonField::Missing => lookup_text_at(body, Some("desiredCapabilities"), "sodaUser"),
        found => found,
    };
    let desired_capabilities = desired_capabilities_from(browser, platform, user);
    CreateEvent { event: SessionStatus::Creating, desired_capabilities }
}

/// Classifies a navigation command: produced exactly when the path's final
/// non-empty segment is `url`. The session id is read from the path and the
/// address from the body; a body that does not parse yields an empty
/// address, never an error.
pub fn capture_url_event(path: String, body: &[u8]) -> (r: Option<CommandEvent>)
    ensures
        (r is Some) == ends_with_url_segment(path@),
        r matches Some(c) ==> c.event == SessionStatus::UrlCommand && c.session_id@
            == session_id_or_empty(path@) && c.url@ == url_of_body(body@),
{
    if !path_ends_with_url(path.as_str()) {
        return None;
    }
    let url = command_url_from(lookup_text_at(body, None, "url"));
    let session_id = match session_id_of_path(path) {
        Some(id) => id,
        None => String::new(),
    };
    Some(CommandEvent { event: SessionStatus::UrlCommand, session_id, url })
}

/// A new-session creation: a POST addressed to the collection route.
pub fn is_a_new_create_session(method: &str, path: &str) -> (b: bool)
    ensures
        b == (method@ == "POST"@ && is_new_session_path(path@)),
{
    str_eq(method, "POST") && is_a_new_session(path)
}

/// Inspects one request and produces its session event, if any: a DELETE
/// always yields a delete event; a POST to the collection route yields a
/// create event; any other POST yields a command event exactly when the
/// path's final segment is `url`; no other request yields an event.
pub fn extract(method: &str, path: &str, body: &[u8]) -> (r: Option<SessionEvent>)
    ensures
        method@ == "DELETE"@ ==> (r matches Some(SessionEvent::Delete(d)) && d.event
            == SessionStatus::Deleting && d.session_id@ == session_id_or_empty(path@)),
        method@ != "DELETE"@ && method@ == "POST"@ && is_new_session_path(path@) ==> (r matches Some(
            SessionEvent::Create(c),
        ) && c.event == SessionStatus::Creating && c.desired_capabilities == caps_of_body(body@)),
        method@ != "DELETE"@ && method@ == "POST"@ && !is_new_session_path(path@)
            && ends_with_url_segment(path@) ==> (r matches Some(SessionEvent::Command(c)) && c.event
            == SessionStatus::UrlCommand && c.session_id@ == session_id_or_empty(path@) && c.url@
            == url_of_body(body@)),
        method@ != "DELETE"@ && method@ == "POST"@ && !is_new_session_path(path@)
            && !ends_with_url_segment(path@) ==> r is None,
        method@ != "DELETE"@ && method@ != "POST"@ ==> r is None,
{
    if str_eq(method, "DELETE") {
        Some(SessionEvent::Delete(capture_delete_event(path.to_owned())))
    } else if is_a_new_create_session(method, path) {
        Some(SessionEvent::Create(capture_create_event(body)))
    } else if str_eq(method, "POST") {
        match capture_url_event(path.to_owned(), body) {
            Some(c) => Some(SessionEvent::Command(c)),
            None => None,
        }
    } else {
        None
    }
}

} // verus!
