use omnistream::model::{
    parse_status, stringify_status, RecordingSettings, StreamTask, TaskStatus, UploadConfig,
};
use omnistream::model::DownloadConfig;
use omnistream::settings::{
    capture_plan, custom_settings, effective_settings, normalize_quality, quality_for_url, sanitize,
};

#[test]
fn upload_config_default_values_are_stable() {
    let config = UploadConfig::default();
    assert_eq!(config.title, None);
    assert!(config.tags.is_empty());
    assert_eq!(config.tid, 171);
    assert_eq!(config.copyright, 1);
    assert_eq!(config.description, "");
    assert_eq!(config.dynamic, "");
    assert_eq!(config.account_file, "cookies.json");
}

#[test]
fn status_text_round_trips_with_special_characters() {
    let statuses = vec![
        TaskStatus::Idle,
        TaskStatus::Recording,
        TaskStatus::Uploading,
        TaskStatus::Completed,
        TaskStatus::Error("Upload 1 failed: \"quota\" : 50% / 录播\n".to_string()),
        TaskStatus::Error(String::new()),
    ];
    for s in statuses {
        let text = stringify_status(&s);
        assert_eq!(parse_status(&text), s);
    }
}

#[test]
fn status_texts_are_exact() {
    assert_eq!(stringify_status(&TaskStatus::Idle), "Idle");
    assert_eq!(stringify_status(&TaskStatus::Completed), "Completed");
    assert_eq!(stringify_status(&TaskStatus::Error("x".to_string())), "Error:x");
    assert_eq!(parse_status("Error:No files generated"), TaskStatus::Error("No files generated".to_string()));
    assert_eq!(parse_status("Uploading"), TaskStatus::Uploading);
    assert_eq!(parse_status("garbage"), TaskStatus::Idle);
    assert_eq!(parse_status("Error"), TaskStatus::Idle);
    assert_eq!(parse_status(""), TaskStatus::Idle);
}

#[test]
fn copied_config_keeps_every_field() {
    let c = UploadConfig {
        title: Some("{title}".to_string()),
        tags: vec!["a".to_string(), "b".to_string()],
        tid: 17,
        copyright: 2,
        description: "d".to_string(),
        dynamic: "y".to_string(),
        account_file: "acc.json".to_string(),
    };
    assert_eq!(c.copied(), c);
}

#[test]
fn task_status_busy_only_while_owned() {
    assert!(TaskStatus::Recording.busy());
    assert!(TaskStatus::Uploading.busy());
    assert!(!TaskStatus::Idle.busy());
    assert!(!TaskStatus::Completed.busy());
    assert!(!TaskStatus::Error("e".to_string()).busy());
    let t = StreamTask {
        id: "1".to_string(),
        name: "n".to_string(),
        url: "u".to_string(),
        status: TaskStatus::Idle,
        filename: String::new(),
        upload_configs: vec![],
    };
    assert!(!t.status.busy());
}

#[test]
fn sanitize_drops_zero_ceilings_and_normalises_quality() {
    let mut s = RecordingSettings::default();
    s.segment_size_mb = Some(0);
    s.segment_time_sec = Some(0);
    s.quality.bilibili = "  720p  ".to_string();
    s.quality.douyu = "   ".to_string();
    s.auto_cleanup_after_upload = true;
    let r = sanitize(s);
    assert_eq!(r.segment_size_mb, None);
    assert_eq!(r.segment_time_sec, None);
    assert_eq!(r.quality.bilibili, "720p");
    assert_eq!(r.quality.douyu, "best");
    assert_eq!(r.quality.huya, "best");
    assert!(r.auto_cleanup_after_upload);

    let mut kept = RecordingSettings::default();
    kept.segment_size_mb = Some(512);
    kept.segment_time_sec = Some(3600);
    let r = sanitize(kept);
    assert_eq!(r.segment_size_mb, Some(512));
    assert_eq!(r.segment_time_sec, Some(3600));

    let mut q = String::from("\tsource ");
    normalize_quality(&mut q);
    assert_eq!(q, "source");
}

#[test]
fn quality_follows_the_source_host() {
    let mut s = RecordingSettings::default();
    s.quality.bilibili = "b".to_string();
    s.quality.douyu = "d".to_string();
    s.quality.huya = "h".to_string();
    s.quality.twitch = "t".to_string();
    s.quality.youtube = "y".to_string();
    s.quality.default_quality = "x".to_string();
    assert_eq!(quality_for_url("https://live.BILIBILI.com/123", &s.quality), "b");
    assert_eq!(quality_for_url("https://b23.tv/abc", &s.quality), "b");
    assert_eq!(quality_for_url("https://www.douyu.com/1", &s.quality), "d");
    assert_eq!(quality_for_url("https://www.huya.com/1", &s.quality), "h");
    assert_eq!(quality_for_url("https://www.Twitch.tv/x", &s.quality), "t");
    assert_eq!(quality_for_url("https://youtu.be/x", &s.quality), "y");
    assert_eq!(quality_for_url("https://www.youtube.com/live", &s.quality), "y");
    assert_eq!(quality_for_url("https://example.org/", &s.quality), "x");
}

#[test]
fn capture_plan_converts_ceilings() {
    let mut s = RecordingSettings::default();
    s.segment_size_mb = Some(2);
    s.segment_time_sec = Some(5);
    let p = capture_plan("https://twitch.tv/a", &s);
    assert_eq!(p.segment_size_bytes, Some(2 * 1024 * 1024));
    assert_eq!(p.segment_time_sec, Some(5));
    assert_eq!(p.quality, "best");
    assert!(!p.auto_cleanup_after_upload);

    s.segment_size_mb = Some(u64::MAX);
    s.segment_time_sec = Some(0);
    let p = capture_plan("u", &s);
    assert_eq!(p.segment_size_bytes, None);
    assert_eq!(p.segment_time_sec, None);
}

#[test]
fn settings_fall_back_to_hour_long_segments() {
    let s = omnistream::settings::initial_settings(None);
    assert_eq!(s.segment_time_sec, Some(3600));
    assert_eq!(s.segment_size_mb, None);
    assert_eq!(s.quality.youtube, "best");
    let mut stored = RecordingSettings::default();
    stored.segment_size_mb = Some(100);
    assert_eq!(omnistream::settings::initial_settings(Some(stored.clone())), stored);
}

#[test]
fn source_override_replaces_global_settings_whole() {
    let mut global = RecordingSettings::default();
    global.segment_time_sec = Some(60);
    global.auto_cleanup_after_upload = true;
    let mut own = RecordingSettings::default();
    own.segment_size_mb = Some(10);
    let mut d = DownloadConfig { recording_settings: Some(own.clone()), ..Default::default() };
    assert_eq!(effective_settings(&d, &global), &global);
    assert_eq!(custom_settings(&d), None);
    d.use_custom_recording_settings = true;
    assert_eq!(effective_settings(&d, &global), &own);
    assert_eq!(effective_settings(&d, &global).segment_time_sec, None);
    d.recording_settings = None;
    assert_eq!(effective_settings(&d, &global), &global);
}
