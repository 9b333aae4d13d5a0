use vstd::prelude::*;
use crate::crypto::{hkdf_sha256_okm32, session_key_info};
use crate::protocol::{HandshakeInit, HandshakeResponse, Message};
use crate::risk_scorer::{is_report_for, signals_of, unicode_lowercase, RiskScorer};
use crate::sanitization::{ammonia_clean_html, ContentSanitizer};
use crate::session::SessionManager;

verus! {

/// The version the daemon announces in handshakes.
pub open spec fn server_version() -> Seq<char> {
    "0.1.0"@
}

/// What the health endpoint reports.
pub open spec fn health_text() -> Seq<char> {
    "SafeSurf Protocol Daemon Active"@
}

/// What the proxy answers to a CONNECT request.
pub open spec fn connect_refusal_text() -> Seq<char> {
    "HTTPS Tunneling via CONNECT not yet implemented in this reference. Please use HTTP for sanitization demonstration."@
}

/// The comment the proxy puts in front of a page it had to change.
pub open spec fn sanitized_banner() -> Seq<char> {
    "<!-- SafeSurf: This page has been sanitized for your safety -->\n"@
}

/// The body the proxy serves for a page: the sanitized page, behind the
/// banner when sanitizing changed it.
pub open spec fn wrapped_body(html: Seq<char>, sanitized: Seq<char>) -> Seq<char> {
    if sanitized != html {
        sanitized_banner() + sanitized
    } else {
        sanitized
    }
}

/// The handshake answer of the daemon: its version, and an all-zero
/// ephemeral key and salt (the key exchange is not performed).
pub open spec fn is_handshake_answer(r: HandshakeResponse) -> bool {
    &&& r.server_version@ == server_version()
    &&& r.ephemeral_public_key@ == Seq::new(32, |i: int| 0u8)
    &&& r.salt@ == Seq::new(16, |i: int| 0u8)
}

/// The daemon's health message.
pub fn health_check() -> (s: String)
    ensures
        s@ == health_text(),
{
    "SafeSurf Protocol Daemon Active".to_string()
}

fn handshake_answer() -> (r: HandshakeResponse)
    ensures
        is_handshake_answer(r),
{
    let r = HandshakeResponse {
        server_version: "0.1.0".to_string(),
        ephemeral_public_key: [0u8; 32],
        salt: [0u8; 16],
    };
    assert(r.ephemeral_public_key@ =~= Seq::new(32, |i: int| 0u8));
    assert(r.salt@ =~= Seq::new(16, |i: int| 0u8));
    r
}

/// Answers a session request: creates a session keyed from an all-zero
/// shared secret and salt, and returns its identifier and the handshake
/// answer.
pub fn init_session(manager: &mut SessionManager, _payload: &HandshakeInit) -> (r: (u128, HandshakeResponse))
    ensures
        is_handshake_answer(r.1),
        final(manager)@.contains_key(r.0),
        final(manager)@[r.0].id == r.0,
        final(manager)@[r.0].session_key@ == hkdf_sha256_okm32(
            Some(Seq::new(16, |i: int| 0u8)),
            Seq::new(32, |i: int| 0u8),
            session_key_info(),
        ),
        final(manager)@.remove(r.0) == old(manager)@.remove(r.0),
{
    let salt = [0u8; 16];
    let shared_secret = [0u8; 32];
    assert(salt@ =~= Seq::new(16, |i: int| 0u8));
    assert(shared_secret@ =~= Seq::new(32, |i: int| 0u8));
    let id = manager.create_session(shared_secret.as_slice(), salt.as_slice());
    (id, handshake_answer())
}

/// The daemon's answer to a message of the encrypted protocol: a handshake
/// answer to a handshake, a risk report to page content, nothing otherwise.
pub fn ssp_reply(msg: &Message) -> (r: Option<Message>)
    ensures
        msg matches Message::HandshakeInit(_) ==> r matches Some(Message::HandshakeResponse(h)) && is_handshake_answer(h),
        msg matches Message::PageContent(p) ==> r matches Some(Message::RiskReport(rep)) && is_report_for(
            rep,
            signals_of(p.html@, unicode_lowercase(p.html@)),
        ),
        !(msg is HandshakeInit || msg is PageContent) ==> r is None,
{
    match msg {
        Message::HandshakeInit(_) => Some(Message::HandshakeResponse(handshake_answer())),
        Message::PageContent(p) => Some(Message::RiskReport(RiskScorer::analyze(p))),
        _ => None,
    }
}

/// The proxy's answer to a CONNECT request.
pub fn connect_refusal() -> (s: String)
    ensures
        s@ == connect_refusal_text(),
{
    "HTTPS Tunneling via CONNECT not yet implemented in this reference. Please use HTTP for sanitization demonstration.".to_string()
}

/// The proxy's answer when a page cannot be fetched.
pub fn fetch_failure(reason: &str) -> (s: String)
    ensures
        s@ == "Failed to fetch: "@ + reason@,
{
    let s = String::from_str("Failed to fetch: ");
    s.concat(reason)
}

/// The body served for a page given its sanitized form: behind the
/// banner when sanitizing changed it.
pub fn wrap_sanitized(html: &str, sanitized: String) -> (s: String)
    ensures
        s@ == wrapped_body(html@, sanitized@),
{
    let page = html.to_string();
    if sanitized != page {
        let banner = String::from_str("<!-- SafeSurf: This page has been sanitized for your safety -->\n");
        banner.concat(sanitized.as_str())
    } else {
        sanitized
    }
}

/// The body the proxy serves for a fetched page.
pub fn proxy_page_body(sanitizer: &ContentSanitizer, html: &str) -> (s: String)
    ensures
        s@ == wrapped_body(
            html@,
            ammonia_clean_html(sanitizer.allowed_tags(), sanitizer.allowed_attributes(), sanitizer.dropped_content_tags(), html@),
        ),
{
    let sanitized = sanitizer.sanitize(html);
    wrap_sanitized(html, sanitized)
}

/// An answer of the proxy: its HTTP status code and its body.
pub struct ProxyResponse {
    pub status: u16,
    pub body: String,
}

/// The status of a page the proxy serves (200 OK).
pub const STATUS_OK: u16 = 200;

/// The status of a CONNECT request, which the proxy does not tunnel
/// (501 Not Implemented).
pub const STATUS_NOT_IMPLEMENTED: u16 = 501;

/// The status of a page the proxy could not fetch (502 Bad Gateway).
pub const STATUS_BAD_GATEWAY: u16 = 502;

/// The proxy's answer to a request before anything is fetched: a CONNECT
/// request is refused; any other request is to be fetched (`None`).
pub fn proxy_preflight(is_connect: bool) -> (r: Option<ProxyResponse>)
    ensures
        r is Some <==> is_connect,
        r matches Some(resp) ==> resp.status == STATUS_NOT_IMPLEMENTED && resp.body@ == connect_refusal_text(),
{
    if is_connect {
        Some(ProxyResponse { status: STATUS_NOT_IMPLEMENTED, body: connect_refusal() })
    } else {
        None
    }
}

/// The proxy's answer once the fetch is over: the page's body, sanitized,
/// when it was fetched; the failure's reason when it was not.
pub fn proxy_fetched_response(sanitizer: &ContentSanitizer, fetched: Result<&str, &str>) -> (r: ProxyResponse)
    ensures
        match fetched {
            Ok(html) => r.status == STATUS_OK && r.body@ == wrapped_body(
                html@,
                ammonia_clean_html(sanitizer.allowed_tags(), sanitizer.allowed_attributes(), sanitizer.dropped_content_tags(), html@),
            ),
            Err(reason) => r.status == STATUS_BAD_GATEWAY && r.body@ == "Failed to fetch: "@ + reason@,
        },
{
    match fetched {
        Ok(html) => ProxyResponse { status: STATUS_OK, body: proxy_page_body(sanitizer, html) },
        Err(reason) => ProxyResponse { status: STATUS_BAD_GATEWAY, body: fetch_failure(reason) },
    }
}

/// The proxy marks a page exactly when sanitizing changed it: where the
/// sanitized page differs from the fetched one in any character, the body
/// is the banner "<!-- SafeSurf: This page has been sanitized for your
/// safety -->" and a line break, followed by the whole sanitized page;
/// where it is the same, the body is the page as fetched.
pub proof fn law_banner_marks_changed_pages(html: Seq<char>, sanitized: Seq<char>)
    ensures
        sanitized != html ==> wrapped_body(html, sanitized)
            == "<!-- SafeSurf: This page has been sanitized for your safety -->\n"@ + sanitized,
        sanitized == html ==> wrapped_body(html, sanitized) == html,
        sanitized != html ==> wrapped_body(html, sanitized).len() == sanitized.len() + 64,
{
    reveal_strlit("<!-- SafeSurf: This page has been sanitized for your safety -->\n");
}

} // verus!
