use insights_core_updater::metadata::update_needed;
use insights_core_updater::metadata::CoreInfo;
use insights_core_updater::record::load_record;
use insights_core_updater::record::parse_record;
use insights_core_updater::record::render_record;

#[test]
fn render_both_fields_present() {
    let m = CoreInfo { etag: Some("abc".to_string()), last_modified: Some("date".to_string()) };
    let text = render_record(&m);
    assert_eq!(text, "etag=abc\nlast_modified=date\n");
}

#[test]
fn render_both_fields_absent() {
    let m = CoreInfo::new();
    let text = render_record(&m);
    assert_eq!(text, "etag-\nlast_modified-\n");
}

#[test]
fn render_keeps_quotes_in_token() {
    let m = CoreInfo { etag: Some("\"xyz\"".to_string()), last_modified: None };
    let text = render_record(&m);
    assert_eq!(text, "etag=\"xyz\"\nlast_modified-\n");
}

#[test]
fn parse_inverts_render() {
    let m = CoreInfo {
        etag: Some("\"abc-123\"".to_string()),
        last_modified: Some("Thu, 01 Jan 1970 00:00:00 GMT".to_string()),
    };
    let text = render_record(&m);
    let back = parse_record(text.as_str()).expect("rendered record must parse");
    assert_eq!(back.etag, m.etag);
    assert_eq!(back.last_modified, m.last_modified);
}

#[test]
fn parse_inverts_render_absent_values() {
    let m = CoreInfo { etag: None, last_modified: Some("now".to_string()) };
    let text = render_record(&m);
    let back = parse_record(text.as_str()).expect("rendered record must parse");
    assert_eq!(back.etag, None);
    assert_eq!(back.last_modified, Some("now".to_string()));
}

#[test]
fn parse_rejects_malformed_content() {
    assert!(parse_record("").is_none());
    assert!(parse_record("garbage").is_none());
    assert!(parse_record("etag=abc\n").is_none());
    assert!(parse_record("etag=abc\nlast_modified=date").is_none());
    assert!(parse_record("etag=abc\nlast_modified=date\nextra\n").is_none());
    assert!(parse_record("etag abc\nlast_modified-\n").is_none());
    assert!(parse_record("{\"etag\": \"abc\"}").is_none());
}

#[test]
fn load_missing_file_gives_empty_record() {
    let m = load_record(None);
    assert_eq!(m.etag, None);
    assert_eq!(m.last_modified, None);
}

#[test]
fn load_corrupt_file_gives_empty_record() {
    let m = load_record(Some("not a record at all"));
    assert_eq!(m.etag, None);
    assert_eq!(m.last_modified, None);
}

#[test]
fn load_valid_file_gives_stored_record() {
    let m = load_record(Some("etag=abc\nlast_modified-\n"));
    assert_eq!(m.etag, Some("abc".to_string()));
    assert_eq!(m.last_modified, None);
}

#[test]
fn from_headers_keeps_wire_values() {
    let m = CoreInfo::from_headers(Some("\"abc\"".to_string()), Some("date".to_string()));
    assert_eq!(m.etag, Some("\"abc\"".to_string()));
    assert_eq!(m.last_modified, Some("date".to_string()));
}

#[test]
fn from_headers_drops_value_with_line_break() {
    let m = CoreInfo::from_headers(Some("a\nb".to_string()), Some("date".to_string()));
    assert_eq!(m.etag, None);
    assert_eq!(m.last_modified, Some("date".to_string()));
}

#[test]
fn update_needed_on_differing_tokens() {
    let cached = CoreInfo { etag: Some("abc".to_string()), last_modified: None };
    let remote = CoreInfo { etag: Some("xyz".to_string()), last_modified: None };
    assert!(update_needed(&cached, &remote));
}

#[test]
fn no_update_on_equal_tokens() {
    let cached = CoreInfo { etag: Some("abc".to_string()), last_modified: None };
    let remote = CoreInfo { etag: Some("abc".to_string()), last_modified: Some("d".to_string()) };
    assert!(!update_needed(&cached, &remote));
}

#[test]
fn update_needed_when_either_token_is_absent() {
    let absent = CoreInfo::new();
    let present = CoreInfo { etag: Some("abc".to_string()), last_modified: None };
    assert!(update_needed(&absent, &present));
    assert!(update_needed(&present, &absent));
    assert!(update_needed(&absent, &absent));
}
