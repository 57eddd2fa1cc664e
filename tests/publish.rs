use omnistream::model::{TaskStatus, UploadConfig};
use omnistream::publish::{
    conclude, distinct_files, final_status, finish_run, next_profile, publish_start, PublishOutcome,
    PublishStart,
};
use omnistream::uploader::Uploader;

struct Scripted {
    answers: Vec<Result<(), String>>,
    calls: Vec<(Vec<String>, Option<String>)>,
}

impl Scripted {
    fn new(answers: Vec<Result<(), String>>) -> Self {
        Scripted { answers, calls: Vec::new() }
    }
}

impl Uploader for Scripted {
    fn upload(
        &mut self,
        filenames: &Vec<String>,
        config: &UploadConfig,
        _live_title: Option<&str>,
        _task_name: &str,
    ) -> Result<(), String> {
        let n = self.calls.len();
        self.calls.push((filenames.clone(), config.title.clone()));
        self.answers[n].clone()
    }
}

/// Runs the pipeline the way the engine does: one call per profile, in the
/// order `next_profile` gives, then `finish_run`.
fn publish(
    up: &mut Scripted,
    files: &Vec<String>,
    configs: &Vec<UploadConfig>,
    live_title: Option<&str>,
    task_name: &str,
    cleanup: bool,
) -> PublishOutcome {
    let mut outcomes = Vec::new();
    while let Some(i) = next_profile(files.len(), configs.len(), outcomes.len()) {
        outcomes.push(up.upload(files, &configs[i], live_title, task_name));
    }
    finish_run(files, configs.len(), outcomes, cleanup)
}

fn profile(title: &str) -> UploadConfig {
    let mut c = UploadConfig::default();
    c.title = Some(title.to_string());
    c
}

fn files(names: &[&str]) -> Vec<String> {
    names.iter().map(|s| s.to_string()).collect()
}

#[test]
fn empty_profile_list_completes_without_publishing() {
    let mut up = Scripted::new(vec![]);
    let out = publish(&mut up, &files(&["a.mp4", "b.mp4"]), &vec![], None, "Alice", true);
    assert_eq!(out.status, Some(TaskStatus::Completed));
    assert!(up.calls.is_empty());
    assert!(out.cleanup.is_empty());
}

#[test]
fn empty_batch_is_a_no_op() {
    let mut up = Scripted::new(vec![Ok(())]);
    let out = publish(&mut up, &vec![], &vec![profile("p")], None, "Alice", true);
    assert_eq!(out.status, None);
    assert!(up.calls.is_empty());
    assert!(out.outcomes.is_empty());
}

#[test]
fn failed_first_profile_still_tries_the_second() {
    let mut up = Scripted::new(vec![Err("login expired".to_string()), Ok(())]);
    let batch = files(&["a.mp4", "b.mp4"]);
    let out = publish(&mut up, &batch, &vec![profile("one"), profile("two")], None, "Alice", true);
    let calls = &up.calls;
    assert_eq!(calls.len(), 2);
    assert_eq!(calls[0], (batch.clone(), Some("one".to_string())));
    assert_eq!(calls[1], (batch.clone(), Some("two".to_string())));
    assert_eq!(out.status, Some(TaskStatus::Error("login expired".to_string())));
    assert!(out.cleanup.is_empty());
}

#[test]
fn last_failure_names_the_status() {
    let outcomes = vec![Err("a".to_string()), Ok(()), Err("c".to_string())];
    assert_eq!(final_status(&outcomes), TaskStatus::Error("c".to_string()));
    assert_eq!(final_status(&vec![Ok(()), Ok(())]), TaskStatus::Completed);
    assert_eq!(final_status(&vec![]), TaskStatus::Completed);
    let many: Vec<Result<(), String>> =
        (0..12).map(|i| if i == 11 { Err("z".to_string()) } else { Ok(()) }).collect();
    assert_eq!(final_status(&many), TaskStatus::Error("z".to_string()));
}

#[test]
fn cleanup_deletes_each_distinct_file_once() {
    let mut up = Scripted::new(vec![Ok(()), Ok(())]);
    let batch = files(&["a.mp4", "a.mp4", "b.mp4"]);
    let out = publish(&mut up, &batch, &vec![profile("one"), profile("two")], Some("t"), "Alice", true);
    assert_eq!(out.status, Some(TaskStatus::Completed));
    assert_eq!(out.cleanup, files(&["a.mp4", "b.mp4"]));
    assert_eq!(up.calls[0].0, batch);
}

#[test]
fn no_cleanup_without_the_flag() {
    let mut up = Scripted::new(vec![Ok(())]);
    let out = publish(&mut up, &files(&["a.mp4"]), &vec![profile("one")], None, "Alice", false);
    assert_eq!(out.status, Some(TaskStatus::Completed));
    assert!(out.cleanup.is_empty());
}

#[test]
fn distinct_files_keep_first_order() {
    assert_eq!(
        distinct_files(&files(&["b", "a", "b", "c", "a"])),
        files(&["b", "a", "c"])
    );
    assert!(distinct_files(&vec![]).is_empty());
}

#[test]
fn run_start_depends_on_files_then_profiles() {
    assert_eq!(publish_start(0, 0), PublishStart::Nothing);
    assert_eq!(publish_start(0, 3), PublishStart::Nothing);
    assert_eq!(publish_start(2, 0), PublishStart::CompleteUnpublished);
    assert_eq!(publish_start(2, 1), PublishStart::Upload);
}

#[test]
fn conclusion_cleans_only_after_full_success() {
    let batch = files(&["a.mp4", "b.mp4", "a.mp4"]);
    let ok = conclude(&batch, vec![Ok(()), Ok(())], true);
    assert_eq!(ok.status, Some(TaskStatus::Completed));
    assert_eq!(ok.cleanup, files(&["a.mp4", "b.mp4"]));
    let bad = conclude(&batch, vec![Ok(()), Err("e".to_string())], true);
    assert_eq!(bad.status, Some(TaskStatus::Error("e".to_string())));
    assert!(bad.cleanup.is_empty());
}

#[test]
fn profiles_are_tried_in_order_whatever_came_back() {
    assert_eq!(next_profile(2, 3, 0), Some(0));
    assert_eq!(next_profile(2, 3, 1), Some(1));
    assert_eq!(next_profile(2, 3, 2), Some(2));
    assert_eq!(next_profile(2, 3, 3), None);
    assert_eq!(next_profile(0, 3, 0), None);
    assert_eq!(next_profile(2, 0, 0), None);
}
