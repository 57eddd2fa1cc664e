use omnistream::model::{
    CreateTaskRequest, DownloadConfig, StreamTask, TaskStatus, UploadConfig, UploadTemplate,
};
use omnistream::monitor::{
    admit_if_live, begin_probe, create_manual_task, create_monitor_task, resolve_download_status,
    resolve_upload_configs,
};
use omnistream::recorder::{
    job_task_name, resolve_race, JobEnd, NextStep, RecorderJob, SegmentEnd, StopReason,
};
use omnistream::registry::{RecorderHandle, Registries};

fn handle(rt: &tokio::runtime::Runtime) -> RecorderHandle {
    let job = rt.spawn(async {
        tokio::time::sleep(std::time::Duration::from_secs(3600)).await;
    });
    RecorderHandle { abort_handle: job.abort_handle() }
}

fn runtime() -> tokio::runtime::Runtime {
    tokio::runtime::Builder::new_current_thread().enable_time().build().unwrap()
}

fn source(id: &str, name: &str, url: &str, links: &[&str]) -> DownloadConfig {
    DownloadConfig {
        id: id.to_string(),
        name: name.to_string(),
        url: url.to_string(),
        linked_upload_ids: links.iter().map(|s| s.to_string()).collect(),
        ..Default::default()
    }
}

fn template(id: &str, title: &str) -> UploadTemplate {
    let mut config = UploadConfig::default();
    config.title = Some(title.to_string());
    UploadTemplate { id: id.to_string(), name: id.to_string(), config }
}

#[test]
fn three_empty_segments_fail_the_task_and_drop_its_handle() {
    let rt = runtime();
    let mut regs = Registries::new();
    let d = source("s1", "Alice", "https://live.example/alice", &[]);
    let id = create_monitor_task(&mut regs, &d, &vec![]).unwrap();
    assert!(regs.begin_recording(&id));
    assert!(regs.register_handle(id.clone(), handle(&rt)));

    let mut job = RecorderJob::new();
    assert_eq!(job.after_segment("s1.mp4".to_string(), false, SegmentEnd::Exited), NextStep::CheckLive);
    assert_eq!(RecorderJob::after_live_check(&Ok(true)), NextStep::Restart);
    assert_eq!(job.after_segment("s2.mp4".to_string(), false, SegmentEnd::Exited), NextStep::CheckLive);
    assert_eq!(
        job.after_segment("s3.mp4".to_string(), false, SegmentEnd::Exited),
        NextStep::Stop(StopReason::Unavailable)
    );
    let reason = match job.finish(StopReason::Unavailable) {
        JobEnd::Fail(m) => m,
        JobEnd::Publish(_) => panic!("nothing was recorded"),
    };
    assert!(reason.contains("empty segments"));
    regs.finish(&id, TaskStatus::Error(reason.clone()));
    assert_eq!(regs.task(&id).unwrap().status, TaskStatus::Error(reason));
    assert!(!regs.has_handle(&id));
}

#[test]
fn a_produced_segment_resets_the_empty_run() {
    let mut job = RecorderJob::new();
    job.after_segment("a".to_string(), false, SegmentEnd::Exited);
    job.after_segment("b".to_string(), false, SegmentEnd::Exited);
    assert_eq!(job.after_segment("c.mp4".to_string(), true, SegmentEnd::Exited), NextStep::CheckLive);
    assert_eq!(job.empty_streak, 0);
    assert_eq!(job.files, vec!["c.mp4".to_string()]);
    assert_eq!(RecorderJob::after_live_check(&Ok(false)), NextStep::Stop(StopReason::StreamEnded));
    assert_eq!(
        RecorderJob::after_live_check(&Err("timeout".to_string())),
        NextStep::Stop(StopReason::StreamEnded)
    );
    match job.finish(StopReason::StreamEnded) {
        JobEnd::Publish(f) => assert_eq!(f, vec!["c.mp4".to_string()]),
        JobEnd::Fail(_) => panic!("a segment was recorded"),
    }
}

#[test]
fn time_ceiling_rotates_segments() {
    let mut job = RecorderJob::new();
    for i in 0..10 {
        let step = job.after_segment(format!("seg{i}.mp4"), true, SegmentEnd::TimeLimit);
        assert_eq!(step, NextStep::NewSegment);
    }
    for _ in 0..5 {
        let step = job.after_segment("gone.mp4".to_string(), false, SegmentEnd::SizeLimit);
        assert_eq!(step, NextStep::NewSegment);
    }
    assert_eq!(job.files.len(), 10);
    assert_eq!(job.empty_streak, 5);
}

#[test]
fn process_exit_wins_a_tie() {
    assert_eq!(resolve_race(true, true, true), Some(SegmentEnd::Exited));
    assert_eq!(resolve_race(false, true, true), Some(SegmentEnd::TimeLimit));
    assert_eq!(resolve_race(false, false, true), Some(SegmentEnd::SizeLimit));
    assert_eq!(resolve_race(false, false, false), None);
}

#[test]
fn empty_job_without_unavailability_reports_no_files() {
    match RecorderJob::new().finish(StopReason::StreamEnded) {
        JobEnd::Fail(m) => assert_eq!(m, "No files generated"),
        JobEnd::Publish(_) => panic!("nothing was recorded"),
    }
    match RecorderJob::new().finish(StopReason::SetupFailed) {
        JobEnd::Fail(m) => assert_eq!(m, "No files generated"),
        JobEnd::Publish(_) => panic!("nothing was recorded"),
    }
}

#[test]
fn cancelling_twice_is_a_no_op() {
    let rt = runtime();
    let mut regs = Registries::new();
    let id = create_manual_task(
        &mut regs,
        CreateTaskRequest { name: "Bob".to_string(), url: "https://live.example/bob".to_string() },
    )
    .unwrap();
    assert_eq!(regs.task(&id).unwrap().filename, format!("{id}.mp4"));
    assert!(regs.begin_recording(&id));
    assert!(regs.register_handle(id.clone(), handle(&rt)));
    assert!(regs.cancel(&id));
    assert_eq!(regs.task(&id).unwrap().status, TaskStatus::Idle);
    assert!(!regs.has_handle(&id));
    assert!(!regs.cancel(&id));
    assert_eq!(regs.task(&id).unwrap().status, TaskStatus::Idle);
    assert!(!regs.cancel("no-such-task"));
}

#[test]
fn a_source_is_captured_once_at_a_time() {
    let mut regs = Registries::new();
    let d = source("s1", "Alice", "https://live.example/alice", &[]);
    let first = create_monitor_task(&mut regs, &d, &vec![]).unwrap();
    let second = create_monitor_task(&mut regs, &d, &vec![]).unwrap();
    assert!(!regs.is_url_busy(&d.url));
    assert!(regs.begin_recording(&first));
    assert!(regs.is_url_busy(&d.url));
    assert!(!regs.begin_recording(&second));
    assert_eq!(regs.task(&second).unwrap().status, TaskStatus::Idle);
    regs.begin_upload(&first);
    assert_eq!(regs.task(&first).unwrap().status, TaskStatus::Uploading);
    assert!(!regs.begin_recording(&second));
    regs.finish(&first, TaskStatus::Completed);
    assert!(!regs.is_url_busy(&d.url));
    assert!(regs.begin_recording(&second));
}

#[test]
fn monitor_task_snapshots_linked_profiles() {
    let mut regs = Registries::new();
    let templates = vec![template("p1", "one"), template("p2", "two"), template("p1", "shadowed")];
    let d = source("s1", "Alice", "https://live.example/alice", &["p2", "missing", "p1", "p2"]);
    let id = create_monitor_task(&mut regs, &d, &templates).unwrap();
    let t = regs.task(&id).unwrap();
    let titles: Vec<Option<String>> = t.upload_configs.iter().map(|c| c.title.clone()).collect();
    assert_eq!(
        titles,
        vec![Some("two".to_string()), Some("one".to_string()), Some("two".to_string())]
    );
    assert_eq!(t.status, TaskStatus::Idle);
    assert_eq!(t.name, "Alice");
    assert_eq!(t.filename, format!("Alice-{id}.mp4"));
    assert_eq!(id.len(), 36);
    assert!(resolve_upload_configs(&vec!["x".to_string()], &templates).is_empty());
}

#[test]
fn task_name_falls_back_to_the_id() {
    let mut regs = Registries::new();
    let d = source("s1", "Alice", "u", &[]);
    let id = create_monitor_task(&mut regs, &d, &vec![]).unwrap();
    assert_eq!(job_task_name(&regs, &id), "Alice");
    assert_eq!(job_task_name(&regs, "gone"), "gone");
    regs.set_filename(&id, "x.mp4".to_string());
    assert_eq!(regs.task(&id).unwrap().filename, "x.mp4");
}

#[test]
fn source_labels_follow_precedence() {
    let mut regs = Registries::new();
    let url = "https://live.example/alice";
    assert_eq!(resolve_download_status(&regs, url), "空闲");
    let d = source("s1", "Alice", url, &[]);
    let a = create_monitor_task(&mut regs, &d, &vec![]).unwrap();
    let b = create_monitor_task(&mut regs, &d, &vec![]).unwrap();
    regs.finish(&a, TaskStatus::Completed);
    assert_eq!(resolve_download_status(&regs, url), "已完成");
    regs.finish(&b, TaskStatus::Error("x".to_string()));
    assert_eq!(resolve_download_status(&regs, url), "失败");
    regs.mark_checking(url.to_string());
    assert!(regs.is_checking(url));
    assert_eq!(resolve_download_status(&regs, url), "检测中");
    regs.clear_checking(url);
    assert!(regs.begin_recording(&a));
    assert_eq!(resolve_download_status(&regs, url), "下载中");
    regs.begin_upload(&a);
    assert_eq!(resolve_download_status(&regs, url), "上传中");
    assert_eq!(regs.list_tasks().len(), 2);
}

#[test]
fn monitor_skips_busy_sources_and_admits_live_ones() {
    let mut regs = Registries::new();
    let d = source("s1", "Alice", "https://live.example/alice", &[]);
    assert!(begin_probe(&mut regs, &d.url));
    assert!(regs.is_checking(&d.url));
    assert_eq!(admit_if_live(&mut regs, &d, &vec![], &Ok(false)), Ok(None));
    assert_eq!(admit_if_live(&mut regs, &d, &vec![], &Err("timeout".to_string())), Ok(None));
    assert!(regs.list_tasks().is_empty());
    let id = admit_if_live(&mut regs, &d, &vec![], &Ok(true)).unwrap().unwrap();
    assert!(regs.begin_recording(&id));
    regs.clear_checking(&d.url);
    assert!(!regs.is_checking(&d.url));
    assert!(!begin_probe(&mut regs, &d.url));
    assert!(!regs.is_checking(&d.url));
}

#[test]
fn restored_busy_tasks_come_back_as_interrupted() {
    let mut regs = Registries::new();
    let task = |id: &str, status: TaskStatus| StreamTask {
        id: id.to_string(),
        name: "Alice".to_string(),
        url: "https://live.example/alice".to_string(),
        status,
        filename: "a.mp4".to_string(),
        upload_configs: vec![],
    };
    assert!(regs.restore_task(task("a", TaskStatus::Recording)));
    assert!(regs.restore_task(task("b", TaskStatus::Completed)));
    assert!(!regs.restore_task(task("a", TaskStatus::Idle)));
    assert_eq!(
        regs.task("a").unwrap().status,
        TaskStatus::Error("Interrupted: the process stopped before the task finished".to_string())
    );
    assert_eq!(regs.task("b").unwrap().status, TaskStatus::Completed);
    assert!(!regs.is_url_busy("https://live.example/alice"));
}
