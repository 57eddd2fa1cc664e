use omnistream::paths::{join_path, recording_task_dir, sanitize_for_filename, segment_path};
use omnistream::settings::size_limit_reached;

#[test]
fn file_names_lose_illegal_characters() {
    assert_eq!(sanitize_for_filename("a/b:c*d?e\"f<g>h|i\\j"), "a_b_c_d_e_f_g_h_i_j");
    assert_eq!(sanitize_for_filename("__主播\u{7}名__"), "主播_名");
    assert_eq!(sanitize_for_filename("///"), "task");
    assert_eq!(sanitize_for_filename(""), "task");
    assert_eq!(sanitize_for_filename("plain name"), "plain name");
}

#[test]
fn paths_are_joined_like_pathbuf() {
    assert_eq!(join_path("data/recordings", "x"), "data/recordings/x");
    assert_eq!(join_path("data/recordings/", "x"), "data/recordings/x");
    assert_eq!(join_path("", "x"), "x");
    assert_eq!(recording_task_dir("data/recordings", "Alice: live"), "data/recordings/Alice_ live");
    assert_eq!(
        segment_path("data/recordings/Alice", "Alice", "20240101_120000"),
        "data/recordings/Alice/Alice-20240101_120000.mp4"
    );
}

#[test]
fn size_ceiling_is_met_or_exceeded() {
    assert!(size_limit_reached(100, Some(100)));
    assert!(size_limit_reached(101, Some(100)));
    assert!(!size_limit_reached(99, Some(100)));
    assert!(!size_limit_reached(u64::MAX, None));
}
