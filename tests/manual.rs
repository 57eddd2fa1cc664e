use omnistream::manual::{
    find_download, is_media_file, manual_cleanup_flag, manual_upload_configs, select_recordings,
    ManualError,
};
use omnistream::model::{DownloadConfig, RecordingSettings, UploadConfig, UploadTemplate};

fn source(id: &str, links: &[&str]) -> DownloadConfig {
    DownloadConfig {
        id: id.to_string(),
        name: id.to_string(),
        url: format!("https://live.example/{id}"),
        linked_upload_ids: links.iter().map(|s| s.to_string()).collect(),
        ..Default::default()
    }
}

fn strings(v: &[&str]) -> Vec<String> {
    v.iter().map(|s| s.to_string()).collect()
}

#[test]
fn manual_trigger_resolves_source_and_profiles() {
    let ds = vec![source("a", &[]), source("b", &["p"]), source("b", &[])];
    assert_eq!(find_download(&ds, "b"), Ok(1));
    assert_eq!(find_download(&ds, "z"), Err(ManualError::SourceNotFound));
    let ts = vec![UploadTemplate { id: "p".to_string(), name: "P".to_string(), config: UploadConfig::default() }];
    assert_eq!(manual_upload_configs(&ds[0], &ts), Err(ManualError::NoLinkedTemplates));
    assert_eq!(manual_upload_configs(&source("c", &["q"]), &ts), Err(ManualError::TemplatesMissing));
    assert_eq!(manual_upload_configs(&ds[1], &ts), Ok(vec![UploadConfig::default()]));
    assert_eq!(ManualError::NoLinkedTemplates.message(), "no linked upload templates");
}

#[test]
fn only_media_files_are_picked_and_sorted() {
    assert!(is_media_file("a.MP4"));
    assert!(is_media_file("x.y.ts"));
    assert!(!is_media_file(".mp4"));
    assert!(!is_media_file("notes.txt"));
    assert!(!is_media_file("mp4"));
    let names = strings(&["b.flv", "a.mkv", "c.txt", "d.Ts"]);
    let paths = strings(&["dir/b.flv", "dir/a.mkv", "dir/c.txt", "dir/d.Ts"]);
    assert_eq!(select_recordings(&names, &paths), Ok(strings(&["dir/a.mkv", "dir/b.flv", "dir/d.Ts"])));
    assert_eq!(
        select_recordings(&strings(&["x.txt"]), &strings(&["dir/x.txt"])),
        Err(ManualError::NoRecordings)
    );
}

#[test]
fn manual_cleanup_follows_the_source_settings() {
    let mut global = RecordingSettings::default();
    global.auto_cleanup_after_upload = true;
    let mut d = source("a", &[]);
    assert!(manual_cleanup_flag(&d, &global));
    d.use_custom_recording_settings = true;
    assert!(!manual_cleanup_flag(&d, &global));
    let mut own = RecordingSettings::default();
    own.auto_cleanup_after_upload = true;
    d.recording_settings = Some(own);
    assert!(manual_cleanup_flag(&d, &global));
}

#[test]
fn manual_errors_and_ids() {
    assert_eq!(ManualError::SourceNotFound.message(), "download config not found");
    assert_eq!(ManualError::TemplatesMissing.message(), "linked upload templates are missing");
    assert_eq!(ManualError::NoRecordings.message(), "no recording files found");
    let id = omnistream::manual::manual_task_id();
    assert!(id.starts_with("manual-upload-"));
    assert_eq!(id.len(), 50);
    assert_ne!(id, omnistream::manual::manual_task_id());
}
