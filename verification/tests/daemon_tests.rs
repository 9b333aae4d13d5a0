use safe_surf_core::daemon::{
    connect_refusal, fetch_failure, health_check, init_session, proxy_fetched_response, proxy_page_body, proxy_preflight,
    ssp_reply, wrap_sanitized,
};
use safe_surf_core::protocol::{HandshakeInit, Message, PageContent};
use safe_surf_core::sanitization::ContentSanitizer;
use safe_surf_core::session::SessionManager;
use std::collections::HashMap;

#[test]
fn handshake_message_is_answered_with_zero_key_and_salt() {
    let init = HandshakeInit { client_version: "0.1.0".to_string(), ephemeral_public_key: [0u8; 32] };
    match ssp_reply(&Message::HandshakeInit(init)) {
        Some(Message::HandshakeResponse(r)) => {
            assert_eq!(r.server_version, "0.1.0");
            assert_eq!(r.ephemeral_public_key, [0u8; 32]);
            assert_eq!(r.salt, [0u8; 16]);
        }
        other => panic!("unexpected reply {:?}", other),
    }
}

#[test]
fn page_content_is_answered_with_risk_report() {
    let p = PageContent { url: "u".to_string(), html: "<b>urgent</b>".to_string(), headers: HashMap::new() };
    match ssp_reply(&Message::PageContent(p)) {
        Some(Message::RiskReport(r)) => {
            assert_eq!(r.score_tenths, 1);
            assert_eq!(r.findings, vec!["Contains urgency/scareword markers".to_string()]);
        }
        other => panic!("unexpected reply {:?}", other),
    }
}

#[test]
fn other_messages_get_no_reply() {
    assert!(ssp_reply(&Message::Ping).is_none());
    assert!(ssp_reply(&Message::Pong).is_none());
    assert!(ssp_reply(&Message::Error { code: 1, message: "x".to_string() }).is_none());
}

#[test]
fn init_session_creates_one_session() {
    let mut m = SessionManager::new();
    let init = HandshakeInit { client_version: "0.1.0".to_string(), ephemeral_public_key: [7u8; 32] };
    let (id, r) = init_session(&mut m, &init);
    assert_eq!(m.get_session(&id).unwrap().id, id);
    assert_eq!(r.server_version, "0.1.0");
    assert_eq!(r.salt, [0u8; 16]);
}

#[test]
fn proxy_bodies() {
    assert_eq!(health_check(), "SafeSurf Protocol Daemon Active");
    assert!(connect_refusal().starts_with("HTTPS Tunneling via CONNECT"));
    assert_eq!(fetch_failure("timeout"), "Failed to fetch: timeout");
    assert_eq!(wrap_sanitized("<b>x</b>", "<b>x</b>".to_string()), "<b>x</b>");
    assert_eq!(
        wrap_sanitized("<script>1</script>x", "x".to_string()),
        "<!-- SafeSurf: This page has been sanitized for your safety -->\nx"
    );
    let s = ContentSanitizer::default();
    assert_eq!(proxy_page_body(&s, "<b>ok</b>"), "<b>ok</b>");
    assert_eq!(
        proxy_page_body(&s, "<script>x</script><b>ok</b>"),
        "<!-- SafeSurf: This page has been sanitized for your safety -->\n<b>ok</b>"
    );
}

#[test]
fn proxy_refuses_connect_and_reports_fetch_failures() {
    let r = proxy_preflight(true).unwrap();
    assert_eq!(r.status, 501);
    assert_eq!(r.body, connect_refusal());
    assert!(proxy_preflight(false).is_none());
    let s = ContentSanitizer::default();
    let failed = proxy_fetched_response(&s, Err("dns error"));
    assert_eq!(failed.status, 502);
    assert_eq!(failed.body, "Failed to fetch: dns error");
    let ok = proxy_fetched_response(&s, Ok("<script>x()</script><p>hi</p>"));
    assert_eq!(ok.status, 200);
    assert_eq!(ok.body, "<!-- SafeSurf: This page has been sanitized for your safety -->\n<p>hi</p>");
    let clean = proxy_fetched_response(&s, Ok("<b>ok</b>"));
    assert_eq!(clean.status, 200);
    assert_eq!(clean.body, "<b>ok</b>");
}
