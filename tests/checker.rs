use omnistream::checker::{classify_streamlink_error, StreamlinkChecker};

#[test]
fn offline_messages_are_not_errors() {
    assert_eq!(classify_streamlink_error("No playable streams found on this URL"), Ok(false));
    assert_eq!(classify_streamlink_error("error: No Streams Found"), Ok(false));
    assert_eq!(classify_streamlink_error("Channel IS OFFLINE"), Ok(false));
    assert_eq!(
        classify_streamlink_error("Unable to open URL: timeout"),
        Err("Streamlink check failed: Unable to open URL: timeout".to_string())
    );
}

#[test]
fn probe_output_reads_as_live_or_not() {
    assert_eq!(StreamlinkChecker::read_liveness("   ", "", true), Ok(false));
    assert_eq!(StreamlinkChecker::read_liveness("", "  is offline \n", false), Ok(false));
    assert_eq!(
        StreamlinkChecker::read_liveness("", " boom ", false),
        Err("Streamlink check failed: boom".to_string())
    );
    assert_eq!(
        StreamlinkChecker::read_liveness(r#"{"streams": {"best": {}, "720p": {}}}"#, "", true),
        Ok(true)
    );
    assert_eq!(StreamlinkChecker::read_liveness(r#"{"streams": {}}"#, "", true), Ok(false));
    assert_eq!(StreamlinkChecker::read_liveness(r#"{"plugin": "x"}"#, "", true), Ok(false));
    assert_eq!(
        StreamlinkChecker::read_liveness(r#"{"error": "No playable streams found on this URL"}"#, "", false),
        Ok(false)
    );
    assert_eq!(
        StreamlinkChecker::read_liveness(r#"{"error": "403"}"#, "", false),
        Err("Streamlink check failed: 403".to_string())
    );
    assert_eq!(
        StreamlinkChecker::read_liveness("not json", "", true),
        Err("Failed to parse streamlink output".to_string())
    );
}

#[test]
fn probe_title_prefers_metadata() {
    assert_eq!(
        StreamlinkChecker::read_title(r#"{"metadata": {"title": "  Finals "}, "title": "x"}"#),
        Some("Finals".to_string())
    );
    assert_eq!(
        StreamlinkChecker::read_title(r#"{"metadata": {"title": "  "}, "title": " Top "}"#),
        Some("Top".to_string())
    );
    assert_eq!(StreamlinkChecker::read_title(r#"{"streams": {}}"#), None);
    assert_eq!(StreamlinkChecker::read_title("  "), None);
    assert_eq!(StreamlinkChecker::read_title("{"), None);
    assert_eq!(StreamlinkChecker::new(), StreamlinkChecker);
}
