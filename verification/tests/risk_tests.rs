use safe_surf_core::protocol::PageContent;
use safe_surf_core::risk_scorer::{RiskScorer, RiskSignals};
use std::collections::HashMap;

fn page(html: &str) -> PageContent {
    PageContent { url: "http://example.onion".to_string(), html: html.to_string(), headers: HashMap::new() }
}

const CRITICAL: &str = "CRITICAL: Do not provide credentials. Page is highly suspicious.";
const WARNING: &str = "WARNING: Use caution. Inspect sources before interacting.";
const NEUTRAL: &str = "Neutral: No immediate threats detected.";

#[test]
fn neutral_page_has_no_findings() {
    let r = RiskScorer::analyze(&page("<html><body>Hello there</body></html>"));
    assert_eq!(r.score_tenths, 0);
    assert!(r.findings.is_empty());
    assert_eq!(r.recommended_action, NEUTRAL);
}

#[test]
fn keywords_are_matched_case_insensitively() {
    let r = RiskScorer::analyze(&page("<h1>LOGIN to your Account</h1>"));
    assert_eq!(r.score_tenths, 2);
    assert_eq!(r.findings, vec!["Contains authentication keywords".to_string()]);
    assert_eq!(r.recommended_action, NEUTRAL);
}

#[test]
fn sdk_example_page_is_flagged() {
    // The synthetic page of the SDK usage example: a login form without a
    // <form> tag, so only the keyword signal fires.
    let r = RiskScorer::analyze(&page("<html><body><h1>Login</h1><input type='password' /></body></html>"));
    assert_eq!(r.score_tenths, 2);
    assert_eq!(r.recommended_action, NEUTRAL);
}

#[test]
fn password_form_and_keywords_warn() {
    let r = RiskScorer::analyze(&page("<form><input type=\"password\"></form> please sign in: password"));
    assert_eq!(r.score_tenths, 6);
    assert_eq!(
        r.findings,
        vec!["Contains authentication keywords".to_string(), "Contains password input form".to_string()]
    );
    assert_eq!(r.recommended_action, WARNING);
}

#[test]
fn seven_tenths_is_critical() {
    // 0.2 + 0.1 + 0.4 in single precision lands above 0.7.
    let r = RiskScorer::analyze(&page("<form><input type='password'></form> Urgent: account locked"));
    assert_eq!(r.score_tenths, 7);
    assert_eq!(r.recommended_action, CRITICAL);
    // 0.4 + 0.3 as well.
    let r = RiskScorer::report_for(RiskSignals {
        auth_keywords: false,
        urgency_markers: false,
        password_form: true,
        external_resources: true,
    });
    assert_eq!(r.score_tenths, 7);
    assert_eq!(r.recommended_action, CRITICAL);
}

#[test]
fn three_tenths_is_not_a_warning() {
    let r = RiskScorer::analyze(&page("<img src='http://tracker.example/p.gif'>"));
    assert_eq!(r.score_tenths, 3);
    assert_eq!(r.findings, vec!["Loads external resources (potential tracking)".to_string()]);
    assert_eq!(r.recommended_action, NEUTRAL);
    let r = RiskScorer::analyze(&page("password now, it is urgent"));
    assert_eq!(r.score_tenths, 3);
    assert_eq!(r.recommended_action, NEUTRAL);
}

#[test]
fn all_signals_score_one() {
    let r = RiskScorer::analyze(&page(
        "<form><input type=\"password\"></form> verify your login <script src=\"https://evil.example/a.js\"></script>",
    ));
    assert_eq!(r.score_tenths, 10);
    assert_eq!(r.findings.len(), 4);
    assert_eq!(r.recommended_action, CRITICAL);
}

#[test]
fn report_for_every_combination_of_signals() {
    for m in 0u32..16 {
        let s = RiskSignals {
            auth_keywords: m & 1 != 0,
            urgency_markers: m & 2 != 0,
            password_form: m & 4 != 0,
            external_resources: m & 8 != 0,
        };
        let r = RiskScorer::report_for(s);
        let expected = 2 * (m & 1) + ((m >> 1) & 1) + 4 * ((m >> 2) & 1) + 3 * ((m >> 3) & 1);
        assert_eq!(r.score_tenths, expected);
        assert_eq!(r.findings.len() as u32, m.count_ones());
        let action = if expected >= 7 { CRITICAL } else if expected >= 4 { WARNING } else { NEUTRAL };
        assert_eq!(r.recommended_action, action);
    }
}

#[test]
fn uppercase_form_tag_is_not_a_form() {
    // The structural checks look at the page as written.
    let r = RiskScorer::analyze(&page("<FORM><input type=\"text\"></FORM>"));
    assert_eq!(r.score_tenths, 0);
}

#[test]
fn analysis_and_sanitization_accept_arbitrary_text() {
    let sanitizer = safe_surf_core::sanitization::ContentSanitizer::default();
    for html in ["", "<", "<<<>>>", "\u{0}\u{ffff}", "<form", "src='http", "ÄÖÜ LOGIN ß", "<script>"] {
        let r = RiskScorer::analyze(&page(html));
        assert!(r.score_tenths <= 10);
        let _ = sanitizer.sanitize(html);
    }
}

#[test]
fn grown_page_keeps_findings_and_score() {
    let small = "<p>Please LOGIN now</p>";
    let grown = format!("<form><input type=\"password\"></form>{}<img src=\"http://t/x.png\">", small);
    let a = RiskScorer::analyze(&page(small));
    let b = RiskScorer::analyze(&page(&grown));
    for f in &a.findings {
        assert!(b.findings.contains(f));
    }
    assert!(a.score_tenths <= b.score_tenths);
    assert_eq!(a.score_tenths, 2);
    assert_eq!(b.score_tenths, 9);
    let c = RiskScorer::assess("xx <b>Verify</b>", "xx <b>verify</b>");
    let d = RiskScorer::assess("account xx <b>Verify</b>!", "account xx <b>verify</b>!");
    assert_eq!(c.score_tenths, 1);
    assert_eq!(d.score_tenths, 3);
}

#[test]
fn grown_page_with_context_dependent_lowercase_keeps_keywords() {
    let small = "VERIFY your ACCOUNT";
    let a = RiskScorer::analyze(&page(small));
    assert_eq!(a.score_tenths, 3);
    for grown in [format!("ΣΣ{}Σ", small), format!("İ{}K", small), format!("Σ{}", small)] {
        let b = RiskScorer::analyze(&page(&grown));
        assert_eq!(b.findings, a.findings);
        assert_eq!(b.score_tenths, a.score_tenths);
    }
}
