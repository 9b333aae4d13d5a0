use safe_surf_core::sanitization::ContentSanitizer;

#[test]
fn test_sanitization() {
    let sanitizer = ContentSanitizer::default();
    let dirty_html = "<div>Hello <script>alert('xss')</script> <img src='x' onerror='alert(1)'> <b>world</b></div>";
    let clean_html = sanitizer.sanitize(dirty_html);

    assert!(!clean_html.contains("<script>"));
    assert!(!clean_html.contains("onerror"));
    assert!(clean_html.contains("<b>world</b>"));
}

#[test]
fn sanitizer_drops_content_of_dangerous_tags() {
    let s = ContentSanitizer::default();
    let out = s.sanitize("<p>a</p><iframe>frame text</iframe><style>body{}</style><object>obj</object>");
    assert_eq!(out, "<p>a</p>");
}

#[test]
fn sanitizer_keeps_style_only_where_allowed() {
    let s = ContentSanitizer::default();
    assert_eq!(s.sanitize("<p style=\"color:red\">x</p>"), "<p style=\"color:red\">x</p>");
    assert_eq!(s.sanitize("<b style=\"color:red\">x</b>"), "<b>x</b>");
    assert_eq!(s.sanitize("<a href=\"http://x\">link</a>"), "link");
}

#[test]
fn redaction_leaves_text_unchanged() {
    let s = ContentSanitizer::default();
    assert_eq!(s.redact_sensitive_info("user: admin, pw: hunter2"), "user: admin, pw: hunter2");
}

#[test]
fn sanitized_output_is_stable_on_examples() {
    let s = ContentSanitizer::default();
    for html in [
        "<p>a</p><script>alert(1)</script>",
        "<b onclick=\"x()\">bold</b><a href=\"http://x\">link</a>",
        "<p style=\"color:red\">x</p><iframe>f</iframe>",
        "plain & text < 3",
    ] {
        let once = s.sanitize(html);
        assert_eq!(s.sanitize(&once), once);
    }
}
