use twingate_tray::utils::{extract_url_from_line, extract_url_from_text, extract_url_with_pattern};

#[test]
fn test_extract_url_from_line_https() {
    let line = "Visit https://example.com for more info";
    let url = extract_url_from_line(line).unwrap();
    assert_eq!(url, "https://example.com");
}

#[test]
fn test_extract_url_from_line_http() {
    let line = "Visit http://example.com for more info";
    let url = extract_url_from_line(line).unwrap();
    assert_eq!(url, "http://example.com");
}

#[test]
fn test_extract_url_from_line_with_trailing_punctuation() {
    let test_cases = vec![
        ("Visit https://example.com.", "https://example.com"),
        ("Visit https://example.com,", "https://example.com"),
        ("Visit https://example.com)", "https://example.com"),
        ("Visit https://example.com]", "https://example.com"),
        ("Visit https://example.com}", "https://example.com"),
        ("Visit https://example.com\"", "https://example.com"),
    ];

    for (input, expected) in test_cases {
        let url = extract_url_from_line(input).unwrap();
        assert_eq!(url, expected, "Failed for input: {}", input);
    }
}

#[test]
fn test_extract_url_from_line_complex_url() {
    let line = "Visit https://twingate.com/auth?token=abc123&redirect=true";
    let url = extract_url_from_line(line).unwrap();
    assert_eq!(url, "https://twingate.com/auth?token=abc123&redirect=true");
}

#[test]
fn test_extract_url_from_line_multiple_urls() {
    let line = "Visit https://first.com and https://second.com";
    let url = extract_url_from_line(line).unwrap();
    assert_eq!(url, "https://first.com");
}

#[test]
fn test_extract_url_from_line_no_url() {
    let line = "This line has no URL";
    let url = extract_url_from_line(line);
    assert_eq!(url, None);
}

#[test]
fn test_extract_url_from_line_short_url() {
    let line = "Visit http://a.co";
    let url = extract_url_from_line(line).unwrap();
    assert_eq!(url, "http://a.co");
}

#[test]
fn test_extract_url_from_line_too_short() {
    let line = "Visit http://a";
    let url = extract_url_from_line(line);
    assert_eq!(url, None);
}

#[test]
fn test_extract_url_from_line_just_protocol() {
    let line = "Visit https://";
    let url = extract_url_from_line(line);
    assert_eq!(url, None);
}

#[test]
fn test_extract_url_from_text_single_line() {
    let text = "Visit https://example.com for more info";
    let url = extract_url_from_text(text).unwrap();
    assert_eq!(url, "https://example.com");
}

#[test]
fn test_extract_url_from_text_multiple_lines() {
    let text = "Line 1 has no URL\nLine 2 has https://example.com\nLine 3 also has no URL";
    let url = extract_url_from_text(text).unwrap();
    assert_eq!(url, "https://example.com");
}

#[test]
fn test_extract_url_from_text_multiple_urls() {
    let text = "First line: https://first.com\nSecond line: https://second.com";
    let url = extract_url_from_text(text).unwrap();
    assert_eq!(url, "https://first.com");
}

#[test]
fn test_extract_url_from_text_no_url() {
    let text = "Line 1 has no URL\nLine 2 also has no URL\nLine 3 still has no URL";
    let url = extract_url_from_text(text);
    assert_eq!(url, None);
}

#[test]
fn test_extract_url_from_text_empty() {
    let text = "";
    let url = extract_url_from_text(text);
    assert_eq!(url, None);
}

#[test]
fn test_extract_url_with_pattern_basic() {
    let text = "Please visit: https://example.com to continue";
    let patterns = &["visit:"];
    let url = extract_url_with_pattern(text, patterns).unwrap();
    assert_eq!(url, "https://example.com");
}

#[test]
fn test_extract_url_with_pattern_multiple_patterns() {
    let text = "Please go to: https://example.com to continue";
    let patterns = &["visit:", "go to:", "open:"];
    let url = extract_url_with_pattern(text, patterns).unwrap();
    assert_eq!(url, "https://example.com");
}

#[test]
fn test_extract_url_with_pattern_case_insensitive() {
    let text = "Please VISIT: https://example.com to continue";
    let patterns = &["visit:"];
    let url = extract_url_with_pattern(text, patterns).unwrap();
    assert_eq!(url, "https://example.com");
}

#[test]
fn test_extract_url_with_pattern_fallback_to_any_url() {
    let text = "Authentication required. URL: https://example.com";
    let patterns = &["visit:", "go to:"];
    let url = extract_url_with_pattern(text, patterns).unwrap();
    assert_eq!(url, "https://example.com");
}

#[test]
fn test_extract_url_with_pattern_multiple_lines() {
    let text = "Line 1: Authentication required\nLine 2: Please visit: https://auth.example.com\nLine 3: Complete the process";
    let patterns = &["visit:"];
    let url = extract_url_with_pattern(text, patterns).unwrap();
    assert_eq!(url, "https://auth.example.com");
}

#[test]
fn test_extract_url_with_pattern_no_match() {
    let text = "Please authenticate but no URL provided";
    let patterns = &["visit:", "go to:"];
    let url = extract_url_with_pattern(text, patterns);
    assert_eq!(url, None);
}

#[test]
fn test_extract_url_with_pattern_empty_patterns() {
    let text = "Visit https://example.com";
    let patterns: &[&str] = &[];
    let url = extract_url_with_pattern(text, patterns).unwrap();
    assert_eq!(url, "https://example.com");
}

#[test]
fn test_extract_url_with_pattern_auth_scenario() {
    let text = "User authentication is required. Please navigate to: https://auth.twingate.com?token=abc123 to complete the authentication process.";
    let patterns = &["navigate to:", "visit:", "go to:"];
    let url = extract_url_with_pattern(text, patterns).unwrap();
    assert_eq!(url, "https://auth.twingate.com?token=abc123");
}

#[test]
fn test_extract_url_with_pattern_real_world_scenario() {
    let text = r#"
twingate status output:
Status: Authenticating
Please visit: https://mycompany.twingate.com/auth/device?code=ABCD1234&session=xyz789
to complete device authentication.
        "#;
    let patterns = &["visit:", "go to:", "open:"];
    let url = extract_url_with_pattern(text, patterns).unwrap();
    assert_eq!(url, "https://mycompany.twingate.com/auth/device?code=ABCD1234&session=xyz789");
}

#[test]
fn test_url_extraction_edge_cases() {
    let url = extract_url_from_line("https://example.com is the URL").unwrap();
    assert_eq!(url, "https://example.com");

    let url = extract_url_from_line("The URL is https://example.com").unwrap();
    assert_eq!(url, "https://example.com");

    let url = extract_url_from_line("Visit https://example.com:8080/path").unwrap();
    assert_eq!(url, "https://example.com:8080/path");

    let url = extract_url_from_line("Visit https://example.com/page#section").unwrap();
    assert_eq!(url, "https://example.com/page#section");
}

#[test]
fn url_stops_at_brackets_and_angle_brackets() {
    assert_eq!(
        extract_url_from_text("see <https://example.com/a>").as_deref(),
        Some("https://example.com/a")
    );
    assert_eq!(
        extract_url_from_text("(https://example.com/b)").as_deref(),
        Some("https://example.com/b")
    );
}

#[test]
fn url_stops_at_unicode_space() {
    // U+3000 IDEOGRAPHIC SPACE is white space.
    assert_eq!(
        extract_url_from_text("https://example.com/x\u{3000}tail").as_deref(),
        Some("https://example.com/x")
    );
}

#[test]
fn url_trailing_run_of_punctuation_is_removed() {
    assert_eq!(
        extract_url_from_text("at https://example.com.\"").as_deref(),
        Some("https://example.com")
    );
    assert_eq!(extract_url_from_text("https://abc.de.\"").as_deref(), Some("https://abc.de"));
    assert_eq!(
        extract_url_from_text("(see \"https://example.com/x.\").").as_deref(),
        Some("https://example.com/x")
    );
}

#[test]
fn url_short_match_is_passed_over() {
    assert_eq!(
        extract_url_from_text("see http://a then https://example.com").as_deref(),
        Some("https://example.com")
    );
}

#[test]
fn url_scheme_is_case_sensitive() {
    assert_eq!(extract_url_from_text("HTTPS://EXAMPLE.COM/path"), None);
}

#[test]
fn pattern_url_keeps_case_of_original_text() {
    let url = extract_url_with_pattern("OPEN: https://Example.com/ABC", &["open:"]).unwrap();
    assert_eq!(url, "https://Example.com/ABC");
}

#[test]
fn pattern_order_decides_over_text_order() {
    let text = "go to: https://first.example.com then visit: https://second.example.com";
    let url = extract_url_with_pattern(text, &["visit:", "go to:"]).unwrap();
    assert_eq!(url, "https://second.example.com");
}

#[test]
fn pattern_at_end_of_text_falls_back() {
    let text = "https://example.com/fallback visit:";
    let url = extract_url_with_pattern(text, &["visit:"]).unwrap();
    assert_eq!(url, "https://example.com/fallback");
}

#[test]
fn pattern_with_capitals_matches_without_regard_to_case() {
    let text = "https://a.example.com visit: https://b.example.com";
    let url = extract_url_with_pattern(text, &["VISIT:"]).unwrap();
    assert_eq!(url, "https://b.example.com");
}

#[test]
fn pattern_search_keeps_positions_with_non_ascii_text() {
    // Characters whose lower case is longer do not shift the search.
    let text = "İİİİ visit: https://auth.example.com/x";
    let url = extract_url_with_pattern(text, &["visit:"]).unwrap();
    assert_eq!(url, "https://auth.example.com/x");
}
