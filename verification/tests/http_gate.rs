use axum::http::HeaderMap;
use whisper_mcp_server::http_gate::{
    check_auth, finish_post, get_session_id, handle_delete, refusal_reply, screen_post,
    PostAdmission, Refusal, ReplyBody, SessionStore, STATUS_ACCEPTED, STATUS_BAD_REQUEST,
    STATUS_NOT_FOUND, STATUS_OK, STATUS_UNAUTHORIZED, STATUS_UNSUPPORTED_MEDIA_TYPE,
};

fn headers(pairs: &[(&'static str, &str)]) -> HeaderMap {
    let mut h = HeaderMap::new();
    for (name, value) in pairs {
        h.insert(*name, value.parse().unwrap());
    }
    h
}

const INIT_BODY: &str = r#"{"jsonrpc":"2.0","id":1,"method":"initialize","params":{}}"#;
const LIST_BODY: &str = r#"{"jsonrpc":"2.0","id":2,"method":"tools/list"}"#;

#[test]
fn test_check_auth_valid() {
    let mut headers = HeaderMap::new();
    headers.insert("authorization", "Bearer secret123".parse().unwrap());

    let result = check_auth(Some("secret123"), &headers);
    assert!(result.is_ok());
}

#[test]
fn test_check_auth_invalid() {
    let mut headers = HeaderMap::new();
    headers.insert("authorization", "Bearer wrong".parse().unwrap());

    let result = check_auth(Some("secret123"), &headers);
    assert!(result.is_err());
}

#[test]
fn test_check_auth_missing() {
    let headers = HeaderMap::new();

    let result = check_auth(Some("secret123"), &headers);
    assert!(result.is_err());
}

#[test]
fn test_no_token_configured() {
    let headers = HeaderMap::new();

    let result = check_auth(None, &headers);
    assert!(result.is_ok());
}

#[test]
fn test_session_lifecycle() {
    let mut sessions = SessionStore::new();

    // Add a session
    let session_id = uuid::Uuid::new_v4().to_string();
    sessions.insert(session_id.clone());
    assert!(sessions.contains(&session_id));

    // Remove the session
    assert!(sessions.remove(&session_id));
    assert!(!sessions.contains(&session_id));
}

#[test]
fn test_missing_session_id() {
    let headers = HeaderMap::new();
    assert!(get_session_id(&headers).is_none());
}

#[test]
fn test_get_session_id_present() {
    let mut headers = HeaderMap::new();
    headers.insert("mcp-session-id", "test-id-123".parse().unwrap());
    assert_eq!(get_session_id(&headers), Some("test-id-123".to_string()));
}

#[test]
fn check_auth_refuses_other_schemes_and_reports_401() {
    let h = headers(&[("authorization", "Basic secret123")]);
    assert_eq!(check_auth(Some("secret123"), &h), Err(STATUS_UNAUTHORIZED));
    let h = headers(&[("authorization", "Bearer secret1234")]);
    assert_eq!(check_auth(Some("secret123"), &h), Err(STATUS_UNAUTHORIZED));
    let h = headers(&[("authorization", "bearer secret123")]);
    assert_eq!(check_auth(Some("secret123"), &h), Err(STATUS_UNAUTHORIZED));
}

#[test]
fn check_auth_reads_the_first_authorization_value() {
    let mut h = HeaderMap::new();
    h.append("authorization", "Bearer secret123".parse().unwrap());
    h.append("authorization", "Bearer other".parse().unwrap());
    assert!(check_auth(Some("secret123"), &h).is_ok());
}

#[test]
fn session_id_that_is_not_text_is_absent() {
    let mut h = HeaderMap::new();
    h.insert(
        "mcp-session-id",
        axum::http::HeaderValue::from_bytes(b"caf\xc3\xa9").unwrap(),
    );
    assert_eq!(get_session_id(&h), None);
}

#[test]
fn session_store_insert_reports_novelty() {
    let mut sessions = SessionStore::new();
    assert!(sessions.insert("a".to_string()));
    assert!(!sessions.insert("a".to_string()));
    assert!(sessions.insert("b".to_string()));
    assert!(sessions.remove("a"));
    assert!(!sessions.remove("a"));
    assert!(sessions.contains("b"));
}

#[test]
fn opened_session_ids_are_v4_uuids() {
    let mut sessions = SessionStore::new();
    let id = sessions.open_session();
    assert_eq!(id.len(), 36);
    assert_eq!(&id[14..15], "4");
    assert!(matches!(&id[19..20], "8" | "9" | "a" | "b"));
    for (i, c) in id.chars().enumerate() {
        if [8, 13, 18, 23].contains(&i) {
            assert_eq!(c, '-');
        } else {
            assert!(c.is_ascii_hexdigit() && !c.is_ascii_uppercase());
        }
    }
    assert!(sessions.contains(&id));
    let other = sessions.open_session();
    assert_ne!(id, other);
}

#[test]
fn post_screening_order() {
    let sessions = SessionStore::new();
    let token = Some("t");
    // Authentication comes first.
    let h = headers(&[("content-type", "text/plain")]);
    assert_eq!(screen_post(token, &h, LIST_BODY, &sessions), PostAdmission::Refused(Refusal::Unauthorized));
    // Then the content type.
    let h = headers(&[("authorization", "Bearer t"), ("content-type", "text/plain")]);
    assert_eq!(
        screen_post(token, &h, LIST_BODY, &sessions),
        PostAdmission::Refused(Refusal::UnsupportedMediaType)
    );
    let h = headers(&[("authorization", "Bearer t")]);
    assert_eq!(
        screen_post(token, &h, INIT_BODY, &sessions),
        PostAdmission::Refused(Refusal::UnsupportedMediaType)
    );
    // `initialize` needs no session.
    let h = headers(&[
        ("authorization", "Bearer t"),
        ("content-type", "application/json; charset=utf-8"),
    ]);
    assert_eq!(
        screen_post(token, &h, INIT_BODY, &sessions),
        PostAdmission::Admitted { initialize: true }
    );
    // Anything else does.
    assert_eq!(
        screen_post(token, &h, LIST_BODY, &sessions),
        PostAdmission::Refused(Refusal::MissingSessionId)
    );
    assert_eq!(
        screen_post(token, &h, "not json", &sessions),
        PostAdmission::Refused(Refusal::MissingSessionId)
    );
    let h = headers(&[("content-type", "application/json"), ("mcp-session-id", "nope")]);
    assert_eq!(
        screen_post(None, &h, LIST_BODY, &sessions),
        PostAdmission::Refused(Refusal::InvalidSessionId)
    );
}

#[test]
fn refusals_have_their_texts() {
    let r = refusal_reply(Refusal::Unauthorized);
    assert_eq!(r.status, STATUS_UNAUTHORIZED);
    assert!(matches!(r.body, ReplyBody::Empty));
    let r = refusal_reply(Refusal::UnsupportedMediaType);
    assert_eq!(r.status, STATUS_UNSUPPORTED_MEDIA_TYPE);
    assert!(matches!(r.body, ReplyBody::Text(ref t) if t == "Content-Type must be application/json"));
    let r = refusal_reply(Refusal::MissingSessionId);
    assert_eq!(r.status, STATUS_BAD_REQUEST);
    assert!(matches!(r.body, ReplyBody::Text(ref t) if t == "Missing Mcp-Session-Id header"));
    let r = refusal_reply(Refusal::InvalidSessionId);
    assert_eq!(r.status, STATUS_BAD_REQUEST);
    assert!(matches!(r.body, ReplyBody::Text(ref t) if t == "Invalid session ID"));
}

#[test]
fn http_session_lifecycle() {
    let mut sessions = SessionStore::new();
    let token = Some("secret123");
    let base = [
        ("authorization", "Bearer secret123"),
        ("content-type", "application/json"),
    ];

    // initialize opens a session and hands out its id.
    let h = headers(&base);
    assert_eq!(
        screen_post(token, &h, INIT_BODY, &sessions),
        PostAdmission::Admitted { initialize: true }
    );
    let reply = finish_post(Some("{}".to_string()), true, &mut sessions);
    assert_eq!(reply.status, STATUS_OK);
    assert!(matches!(reply.body, ReplyBody::Json(ref j) if j == "{}"));
    let id = reply.session_id.expect("initialize opens a session");

    // Later requests with the id are admitted.
    let h = headers(&[base[0], base[1], ("mcp-session-id", &id)]);
    assert_eq!(
        screen_post(token, &h, LIST_BODY, &sessions),
        PostAdmission::Admitted { initialize: false }
    );
    let reply = finish_post(Some("{}".to_string()), false, &mut sessions);
    assert!(reply.session_id.is_none());

    // A notification is accepted without a body.
    let reply = finish_post(None, false, &mut sessions);
    assert_eq!(reply.status, STATUS_ACCEPTED);
    assert!(matches!(reply.body, ReplyBody::Text(ref t) if t.is_empty()));

    // Deleting works once.
    let h_del = headers(&[base[0], ("mcp-session-id", &id)]);
    let reply = handle_delete(token, &h_del, &mut sessions);
    assert_eq!(reply.status, STATUS_OK);
    assert!(matches!(reply.body, ReplyBody::Text(ref t) if t == "Session terminated"));
    let reply = handle_delete(token, &h_del, &mut sessions);
    assert_eq!(reply.status, STATUS_NOT_FOUND);
    assert!(matches!(reply.body, ReplyBody::Text(ref t) if t == "Session not found"));

    // The id is refused afterwards.
    assert_eq!(
        screen_post(token, &h, LIST_BODY, &sessions),
        PostAdmission::Refused(Refusal::InvalidSessionId)
    );
}

#[test]
fn delete_needs_auth_and_an_id() {
    let mut sessions = SessionStore::new();
    sessions.insert("s1".to_string());
    let h = headers(&[("mcp-session-id", "s1")]);
    let reply = handle_delete(Some("k"), &h, &mut sessions);
    assert_eq!(reply.status, STATUS_UNAUTHORIZED);
    assert!(matches!(reply.body, ReplyBody::Empty));
    assert!(sessions.contains("s1"));
    let h = headers(&[("authorization", "Bearer k")]);
    let reply = handle_delete(Some("k"), &h, &mut sessions);
    assert_eq!(reply.status, STATUS_BAD_REQUEST);
    assert!(matches!(reply.body, ReplyBody::Text(ref t) if t == "Missing Mcp-Session-Id header"));
    assert!(sessions.contains("s1"));
}
