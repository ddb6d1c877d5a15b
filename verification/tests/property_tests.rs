use grid_proxy::auth::Auth;
use grid_proxy::config::timeout_or_default;
use grid_proxy::config::validate_format;
use grid_proxy::dispatch::policy_for_request;
use grid_proxy::dispatch::timeout_for_request;
use grid_proxy::dispatch::Dispatcher;
use grid_proxy::dispatch::RetryOutcome;
use grid_proxy::dispatch::RetryPolicy;
use grid_proxy::domain::Capabilities;
use grid_proxy::domain::Command;
use grid_proxy::domain::SessionStatus;
use grid_proxy::inspector::capture_delete_event;
use grid_proxy::inspector::extract;
use grid_proxy::inspector::SessionEvent;
use grid_proxy::paths::is_a_new_session;
use grid_proxy::paths::session_id_of_path;
use grid_proxy::proxy::build_client_response;
use grid_proxy::proxy::extend_forwarded_for;
use grid_proxy::proxy::target_url;
use grid_proxy::proxy::RequestContext;
use grid_proxy::proxy::UpstreamResponse;
use grid_proxy::store::get_session;
use grid_proxy::store::get_user;
use grid_proxy::store::session_store_entry;

#[test]
fn route_with_trailing_slashes_is_a_new_session() {
    assert!(is_a_new_session("/wd/hub/session"));
    assert!(is_a_new_session("/wd/hub/session/"));
    assert!(is_a_new_session("/wd/hub/session///"));
}

#[test]
fn route_followed_by_id_is_an_existing_session() {
    assert!(!is_a_new_session("/wd/hub/session/abc"));
    assert_eq!(
        session_id_of_path("/wd/hub/session/abc".to_string()),
        Some("abc".to_string())
    );
}

#[test]
fn unrelated_routes_never_yield_a_session_id() {
    assert!(session_id_of_path("/xwd/hub/session/123".to_string()).is_none());
    assert!(session_id_of_path("/status".to_string()).is_none());
}

#[test]
fn session_id_is_read_from_the_text_following_the_route() {
    assert_eq!(
        session_id_of_path("/foo/wd/hub/session/123".to_string()),
        Some("123".to_string())
    );
}

#[test]
fn delete_to_session_path_yields_delete_event() {
    let event = extract("DELETE", "/wd/hub/session/123", b"");
    match event {
        Some(SessionEvent::Delete(d)) => {
            assert_eq!(d.event, SessionStatus::Deleting);
            assert_eq!(d.session_id, "123".to_string());
        }
        other => panic!("expected a delete event, got {:?}", other),
    }
}

#[test]
fn post_to_collection_route_yields_create_event_with_capabilities() {
    let body =
        br#"{"desiredCapabilities":{"browserName":"chrome","platform":"LINUX","soda:user":"u1"}}"#;
    let event = extract("POST", "/wd/hub/session", body);
    match event {
        Some(SessionEvent::Create(c)) => {
            assert_eq!(c.event, SessionStatus::Creating);
            assert_eq!(c.desired_capabilities.browser_name, Some("chrome".to_string()));
            assert_eq!(c.desired_capabilities.platform, Some("LINUX".to_string()));
            assert_eq!(c.desired_capabilities.soda_user, Some("u1".to_string()));
        }
        other => panic!("expected a create event, got {:?}", other),
    }
}

#[test]
fn create_event_accepts_the_alternate_user_identity_key() {
    let body = br#"{"desiredCapabilities":{"sodaUser":"u2"}}"#;
    let event = extract("POST", "/wd/hub/session", body);
    match event {
        Some(SessionEvent::Create(c)) => {
            assert_eq!(c.desired_capabilities.soda_user, Some("u2".to_string()));
        }
        other => panic!("expected a create event, got {:?}", other),
    }
}

#[test]
fn post_to_collection_route_with_unparsable_body_yields_empty_create_event() {
    let event = extract("POST", "/wd/hub/session", b"this is not json");
    match event {
        Some(SessionEvent::Create(c)) => {
            assert_eq!(c.event, SessionStatus::Creating);
            assert_eq!(c.desired_capabilities.browser_name, None);
            assert_eq!(c.desired_capabilities.platform, None);
            assert_eq!(c.desired_capabilities.soda_user, None);
        }
        other => panic!("expected a create event, got {:?}", other),
    }
}

#[test]
fn null_capability_field_degrades_alone() {
    let body = br#"{"desiredCapabilities":{"browserName":null,"platform":"LINUX"}}"#;
    let event = extract("POST", "/wd/hub/session", body);
    match event {
        Some(SessionEvent::Create(c)) => {
            assert_eq!(c.desired_capabilities.browser_name, None);
            assert_eq!(c.desired_capabilities.platform, Some("LINUX".to_string()));
            assert_eq!(c.desired_capabilities.soda_user, None);
        }
        other => panic!("expected a create event, got {:?}", other),
    }
}

#[test]
fn non_text_capability_field_empties_the_whole_record() {
    let body = br#"{"desiredCapabilities":{"browserName":42,"platform":"LINUX"}}"#;
    let event = extract("POST", "/wd/hub/session", body);
    match event {
        Some(SessionEvent::Create(c)) => {
            assert_eq!(c.desired_capabilities.browser_name, None);
            assert_eq!(c.desired_capabilities.platform, None);
            assert_eq!(c.desired_capabilities.soda_user, None);
        }
        other => panic!("expected a create event, got {:?}", other),
    }
}

#[test]
fn null_url_field_yields_empty_url() {
    let event = extract("POST", "/wd/hub/session/abc/url", br#"{"url":null}"#);
    match event {
        Some(SessionEvent::Command(c)) => {
            assert_eq!(c.url, "".to_string());
        }
        other => panic!("expected a command event, got {:?}", other),
    }
}

#[test]
fn post_to_url_command_yields_command_event() {
    let event = extract(
        "POST",
        "/wd/hub/session/abc/url",
        br#"{"url":"https://example.com/"}"#,
    );
    match event {
        Some(SessionEvent::Command(c)) => {
            assert_eq!(c.event, SessionStatus::UrlCommand);
            assert_eq!(c.session_id, "abc".to_string());
            assert_eq!(c.url, "https://example.com/".to_string());
        }
        other => panic!("expected a command event, got {:?}", other),
    }
}

#[test]
fn post_to_url_command_with_unparsable_body_yields_empty_url() {
    let event = extract("POST", "/wd/hub/session/abc/url", b"{{{");
    match event {
        Some(SessionEvent::Command(c)) => {
            assert_eq!(c.session_id, "abc".to_string());
            assert_eq!(c.url, "".to_string());
        }
        other => panic!("expected a command event, got {:?}", other),
    }
}

#[test]
fn get_to_any_path_yields_no_event() {
    assert!(extract("GET", "/wd/hub/session/abc/url", b"").is_none());
    assert!(extract("POST", "/status", b"").is_none());
}

#[test]
fn transport_failures_are_retried_three_times_then_surfaced() {
    let mut d = Dispatcher::new(policy_for_request(false));
    let first: RetryOutcome<u16, String> = d.classify_attempt(Err("down".to_string()));
    assert_eq!(first, RetryOutcome::Retry("down".to_string()));
    let second: RetryOutcome<u16, String> = d.classify_attempt(Err("down".to_string()));
    assert_eq!(second, RetryOutcome::Retry("down".to_string()));
    let third: RetryOutcome<u16, String> = d.classify_attempt(Err("down".to_string()));
    assert_eq!(third, RetryOutcome::Retry("down".to_string()));
    let fourth: RetryOutcome<u16, String> = d.classify_attempt(Err("down".to_string()));
    assert_eq!(fourth, RetryOutcome::GiveUp("down".to_string()));
    assert_eq!(d.delay_ms(), 100);
}

#[test]
fn create_session_failures_are_never_retried() {
    let mut d = Dispatcher::new(policy_for_request(true));
    assert_eq!(d.policy, RetryPolicy::NoRetry);
    let outcome: RetryOutcome<u16, String> = d.classify_attempt(Err("down".to_string()));
    assert_eq!(outcome, RetryOutcome::GiveUp("down".to_string()));
}

#[test]
fn successful_attempt_passes_through() {
    let mut d = Dispatcher::new(policy_for_request(false));
    let outcome: RetryOutcome<u16, String> = d.classify_attempt(Ok(200));
    assert_eq!(outcome, RetryOutcome::Success(200));
}

#[test]
fn create_session_requests_get_no_timeout_and_others_the_configured_one() {
    assert_eq!(timeout_for_request(true, 60), None);
    assert_eq!(timeout_for_request(false, 60), Some(60));
    assert_eq!(timeout_for_request(false, 7), Some(7));
}

#[test]
fn response_round_trip_keeps_status_and_body_and_drops_connection_header() {
    let upstream = UpstreamResponse {
        status: 502,
        headers: vec![
            ("content-type".to_string(), "application/json".to_string()),
            ("connection".to_string(), "keep-alive".to_string()),
            ("x-trace".to_string(), "t1".to_string()),
        ],
        body: vec![1, 2, 3, 255],
    };
    let client = build_client_response(&upstream);
    assert_eq!(client.status, 502);
    assert_eq!(client.body, vec![1, 2, 3, 255]);
    assert_eq!(
        client.headers,
        vec![
            ("content-type".to_string(), "application/json".to_string()),
            ("x-trace".to_string(), "t1".to_string()),
        ]
    );
}

#[test]
fn target_url_joins_scheme_upstream_and_path() {
    assert_eq!(
        target_url("127.0.0.1:4444", "/wd/hub/session?x=1"),
        "http://127.0.0.1:4444/wd/hub/session?x=1".to_string()
    );
}

#[test]
fn request_context_keeps_the_request_and_resolves_the_target() {
    let ctx = RequestContext::new(
        "POST".to_string(),
        "/wd/hub/session".to_string(),
        b"{}".to_vec(),
        "10.0.0.2:4444",
    );
    assert_eq!(ctx.method, "POST".to_string());
    assert_eq!(ctx.path, "/wd/hub/session".to_string());
    assert_eq!(ctx.body, b"{}".to_vec());
    assert_eq!(ctx.target_url, "http://10.0.0.2:4444/wd/hub/session".to_string());
}

#[test]
fn forwarded_for_appends_the_peer_address() {
    assert_eq!(extend_forwarded_for(None, "10.0.0.9"), "10.0.0.9".to_string());
    assert_eq!(
        extend_forwarded_for(Some("10.0.0.1"), "10.0.0.9"),
        "10.0.0.1, 10.0.0.9".to_string()
    );
}

#[test]
fn auth_passes_without_configured_credentials_and_checks_them_otherwise() {
    assert!(Auth::allows("", "", "anyone", None));
    assert!(Auth::allows("admin", "pw", "admin", Some("pw")));
    assert!(!Auth::allows("admin", "pw", "admin", Some("wrong")));
    assert!(!Auth::allows("admin", "pw", "admin", None));
    assert!(!Auth::allows("admin", "pw", "other", Some("pw")));
}

#[test]
fn validate_format_accepts_host_port_and_rejects_the_rest() {
    assert_eq!(validate_format("127.0.0.1:4444".to_string()), Ok(()));
    assert_eq!(
        validate_format("localhost".to_string()),
        Err("Format must be IP:PORT".to_string())
    );
}

#[test]
fn timeout_defaults_to_sixty_seconds() {
    assert_eq!(timeout_or_default(None), 60);
    assert_eq!(timeout_or_default(Some(30)), 30);
}

#[test]
fn log_lines_are_well_formed() {
    let delete = capture_delete_event("/wd/hub/session/123".to_string());
    assert_eq!(delete.log_line(), "[SESSION_DELETING] [123]".to_string());

    let event = extract(
        "POST",
        "/wd/hub/session",
        br#"{"desiredCapabilities":{"browserName":"chrome","platform":"LINUX","soda:user":"u1"}}"#,
    );
    match event {
        Some(SessionEvent::Create(c)) => {
            assert_eq!(
                c.log_line(),
                "[SESSION_CREATING] (browser: chrome, platform: LINUX, user: u1)".to_string()
            );
        }
        other => panic!("expected a create event, got {:?}", other),
    }

    let event = extract(
        "POST",
        "/wd/hub/session/abc/url",
        br#"{"url":"https://example.com/"}"#,
    );
    match event {
        Some(SessionEvent::Command(c)) => {
            assert_eq!(
                c.log_line(),
                "[SESSION_URL_COMMAND] [abc] [https://example.com/]".to_string()
            );
        }
        other => panic!("expected a command event, got {:?}", other),
    }
}

#[test]
fn session_store_entry_pairs_user_and_session() {
    let body = br#"{"desiredCapabilities":{"soda:user":"u1"}}"#;
    let event = extract("POST", "/wd/hub/session", body);
    match event {
        Some(SessionEvent::Create(c)) => {
            let (user, session) = session_store_entry(&c, "/wd/hub/session/xyz".to_string());
            assert_eq!(user, "u1".to_string());
            assert_eq!(session, "xyz".to_string());
        }
        other => panic!("expected a create event, got {:?}", other),
    }
    assert_eq!(get_user("u1".to_string()), "u1".to_string());
    assert_eq!(get_session("xyz"), "xyz");
}

#[test]
fn empty_payload_constructors_hold_empty_fields() {
    let caps = Capabilities::new();
    assert_eq!(caps.desired_capabilities.browser_name, None);
    assert_eq!(caps.desired_capabilities.platform, None);
    assert_eq!(caps.desired_capabilities.soda_user, None);

    let command = Command::new();
    assert_eq!(command.url, Some("".to_string()));
    assert_eq!(Command::new().url(), "".to_string());
    assert_eq!(Command { url: None }.url(), "".to_string());
}
