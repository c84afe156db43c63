use s3_proxy_rs::content_type::{classify, classify_guess, header_safe, is_html};

#[test]
fn known_extensions_are_classified() {
    assert_eq!(classify("logo.png"), "image/png");
    assert_eq!(classify("site.css"), "text/css");
    assert_eq!(classify("app.js"), "text/javascript");
    assert_eq!(classify("data.json"), "application/json");
    assert_eq!(classify("photo.jpg"), "image/jpeg");
    assert_eq!(classify("page.html"), "text/html");
}

#[test]
fn classification_goes_by_the_last_segment() {
    assert_eq!(classify("a.png/b.css"), "text/css");
    assert_eq!(classify("a.png/b"), "text/html");
    assert_eq!(classify("/deep/down/the/tree/logo.png"), "image/png");
}

#[test]
fn missing_extension_is_html() {
    assert_eq!(classify("about"), "text/html");
    assert_eq!(classify(""), "text/html");
    assert_eq!(classify("dir/"), "text/html");
    assert_eq!(classify("trailing."), "text/html");
}

#[test]
fn unknown_extension_is_html() {
    assert_eq!(classify("file.no-such-extension"), "text/html");
}

#[test]
fn classification_is_a_header_value() {
    for path in ["a.png", "b", "c.docm", "d.psc1", "e.svg", "f.woff2", ""] {
        assert!(header_safe(&classify(path)), "{path}");
    }
}

#[test]
fn types_are_written_in_lower_case() {
    assert_eq!(classify("script.psc1"), "application/powershell");
}

#[test]
fn a_found_type_is_kept() {
    assert_eq!(classify_guess(Some("image/png".to_string())), "image/png");
    assert_eq!(classify_guess(Some("text/html".to_string())), "text/html");
    assert_eq!(classify_guess(Some("a b".to_string())), "a b");
}

#[test]
fn no_type_falls_back_to_html() {
    assert_eq!(classify_guess(None), "text/html");
}

#[test]
fn an_unusable_type_falls_back_to_html() {
    assert_eq!(classify_guess(Some(String::new())), "text/html");
    assert_eq!(classify_guess(Some("text/pl\u{e4}in".to_string())), "text/html");
    assert_eq!(classify_guess(Some("text/plain\r\nX-Other: 1".to_string())), "text/html");
}

#[test]
fn printable_ascii_is_header_safe() {
    assert!(header_safe("text/html"));
    assert!(header_safe("image/svg+xml"));
    assert!(header_safe(" "));
    assert!(header_safe("~"));
    assert!(header_safe("text/plain; charset=utf-8"));
}

#[test]
fn other_text_is_not_header_safe() {
    assert!(!header_safe(""));
    assert!(!header_safe("a\tb"));
    assert!(!header_safe("a\nb"));
    assert!(!header_safe("\u{7f}"));
    assert!(!header_safe("\u{1f}"));
    assert!(!header_safe("caf\u{e9}"));
}

#[test]
fn only_the_html_type_is_html() {
    assert!(is_html("text/html"));
    assert!(!is_html("text/htm"));
    assert!(!is_html("text/html "));
    assert!(!is_html("TEXT/HTML"));
    assert!(!is_html("image/png"));
    assert!(!is_html(""));
}
