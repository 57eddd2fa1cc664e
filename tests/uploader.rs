use omnistream::model::UploadConfig;
use omnistream::uploader::{BilibiliUploader, ConfigError, UploadTarget};

#[test]
fn blank_live_title_falls_back_to_the_task_name() {
    let merged = BilibiliUploader::merge_title("{title} 录播 %Y-%m-%d", Some("  "), "Alice");
    assert_eq!(merged, "Alice 录播 %Y-%m-%d");
    let before = chrono::Local::now().format("%Y-%m-%d").to_string();
    let rendered = BilibiliUploader::render_title("{title} 录播 %Y-%m-%d", Some("  "), "Alice");
    let after = chrono::Local::now().format("%Y-%m-%d").to_string();
    assert!(rendered == format!("Alice 录播 {before}") || rendered == format!("Alice 录播 {after}"));
}

#[test]
fn live_title_is_trimmed_into_every_placeholder() {
    assert_eq!(
        BilibiliUploader::merge_title("[{title}] {title}", Some("  Big match "), "Alice"),
        "[Big match] Big match"
    );
    assert_eq!(BilibiliUploader::merge_title("{title}", None, "Alice"), "Alice");
    assert_eq!(BilibiliUploader::merge_title("no placeholder", Some("x"), "Alice"), "no placeholder");
    assert_eq!(BilibiliUploader::merge_title("{titl{title}}", Some("x"), "A"), "{titlx}");
}

#[test]
fn templates_without_tokens_render_literally() {
    assert_eq!(BilibiliUploader::render_title("{title} replay", Some("Cup"), "A"), "Cup replay");
    assert_eq!(BilibiliUploader::render_title("bad %Q token", None, "A"), "bad %Q token");
}

#[test]
fn submission_title_is_trimmed_and_optional() {
    let mut c = UploadConfig::default();
    assert_eq!(BilibiliUploader::submission_title(&c, Some("x"), "A"), None);
    c.title = Some("  {title}  ".to_string());
    assert_eq!(BilibiliUploader::submission_title(&c, Some("Cup"), "A"), Some("Cup".to_string()));
    c.title = Some("   ".to_string());
    assert_eq!(BilibiliUploader::submission_title(&c, None, "A"), None);
}

#[test]
fn tag_line_joins_or_defaults() {
    assert_eq!(BilibiliUploader::submission_tag(&vec![]), "omnistream");
    assert_eq!(BilibiliUploader::submission_tag(&vec!["a".to_string()]), "a");
    assert_eq!(
        BilibiliUploader::submission_tag(&vec!["a".to_string(), "游戏".to_string(), "c".to_string()]),
        "a,游戏,c"
    );
}

#[test]
fn profiles_are_validated_in_order() {
    let mut c = UploadConfig::default();
    assert_eq!(BilibiliUploader::validate_config(&c), Ok(()));
    c.copyright = 2;
    assert_eq!(BilibiliUploader::validate_config(&c), Ok(()));
    c.copyright = 3;
    assert_eq!(BilibiliUploader::validate_config(&c), Err(ConfigError::InvalidCopyright));
    c.tid = 0;
    assert_eq!(BilibiliUploader::validate_config(&c), Err(ConfigError::MissingTid));
    c.account_file = "  ".to_string();
    assert_eq!(BilibiliUploader::validate_config(&c), Err(ConfigError::MissingAccountFile));
    assert_eq!(ConfigError::MissingAccountFile.message(), "account_file is required");
    assert_eq!(ConfigError::MissingTid.message(), "tid is required");
    assert_eq!(
        ConfigError::InvalidCopyright.message(),
        "copyright must be 1 (Original) or 2 (Reprint)"
    );
    assert_eq!(UploadTarget::Bilibili.create_uploader(), BilibiliUploader::new());
}

#[test]
fn blank_live_title_renders_with_the_task_name_at_a_fixed_instant() {
    // 2024-01-02 00:00:00 UTC
    let secs = 1_704_153_600;
    assert_eq!(
        BilibiliUploader::render_title_at("{title} 录播 %Y-%m-%d", Some("  "), "Alice", secs, 0),
        "Alice 录播 2024-01-02"
    );
    assert_eq!(
        BilibiliUploader::render_title_at("{title} %Y-%m-%d %H:%M", None, "Alice", secs, 9 * 3600),
        "Alice 2024-01-02 09:00"
    );
}

#[test]
fn percent_in_the_fill_is_printed_as_it_stands() {
    let secs = 1_704_153_600;
    assert_eq!(
        BilibiliUploader::render_title_at("{title} %Y", Some("100% hype %d"), "A", secs, 0),
        "100% hype %d 2024"
    );
    assert_eq!(BilibiliUploader::render_title_at("bad %Q {title}", Some("x"), "A", secs, 0), "bad %Q x");
}
