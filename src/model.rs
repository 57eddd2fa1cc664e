//! The data the engine works on: tasks, their status, destination profiles and
//! capture settings.

use vstd::prelude::*;
use vstd::string::*;
use crate::text::{owned, same_text};

verus! {

/// Where a capture attempt stands.
#[derive(Debug, Clone, PartialEq)]
pub enum TaskStatus {
    Idle,
    Recording,
    Uploading,
    Completed,
    Error(String),
}

impl TaskStatus {
    /// A recorder job or a publication run owns the task.
    pub open spec fn is_busy(&self) -> bool {
        self is Recording || self is Uploading
    }

    /// Whether a recorder job or a publication run owns the task.
    pub fn busy(&self) -> (r: bool)
        ensures
            r == self.is_busy(),
    {
        match self {
            TaskStatus::Recording => true,
            TaskStatus::Uploading => true,
            _ => false,
        }
    }

    /// A copy of this status.
    pub fn copied(&self) -> (r: TaskStatus)
        ensures
            r == *self,
    {
        match self {
            TaskStatus::Idle => TaskStatus::Idle,
            TaskStatus::Recording => TaskStatus::Recording,
            TaskStatus::Uploading => TaskStatus::Uploading,
            TaskStatus::Completed => TaskStatus::Completed,
            TaskStatus::Error(m) => TaskStatus::Error(m.clone()),
        }
    }
}

/// The stored text of a status: the variant's name, and for an error
/// `Error:` followed by the reason.
pub open spec fn status_text(s: TaskStatus) -> Seq<char> {
    match s {
        TaskStatus::Idle => "Idle"@,
        TaskStatus::Recording => "Recording"@,
        TaskStatus::Uploading => "Uploading"@,
        TaskStatus::Completed => "Completed"@,
        TaskStatus::Error(m) => "Error:"@ + m@,
    }
}

/// `s` is what the stored text `t` reads as. Text that names no status reads as `Idle`.
pub open spec fn reads_as(t: Seq<char>, s: TaskStatus) -> bool {
    if t == "Idle"@ {
        s is Idle
    } else if t == "Recording"@ {
        s is Recording
    } else if t == "Uploading"@ {
        s is Uploading
    } else if t == "Completed"@ {
        s is Completed
    } else if t.len() >= 6 && t.subrange(0, 6) == "Error:"@ {
        s matches TaskStatus::Error(m) && m@ == t.subrange(6, t.len() as int)
    } else {
        s is Idle
    }
}

/// The stored text of `status`.
pub fn stringify_status(status: &TaskStatus) -> (r: String)
    ensures
        r@ == status_text(*status),
{
    match status {
        TaskStatus::Idle => owned("Idle"),
        TaskStatus::Recording => owned("Recording"),
        TaskStatus::Uploading => owned("Uploading"),
        TaskStatus::Completed => owned("Completed"),
        TaskStatus::Error(e) => owned("Error:").concat(e.as_str()),
    }
}

/// The status that the stored text `raw` names.
pub fn parse_status(raw: &str) -> (r: TaskStatus)
    ensures
        reads_as(raw@, r),
{
    if same_text(raw, "Idle") {
        TaskStatus::Idle
    } else if same_text(raw, "Recording") {
        TaskStatus::Recording
    } else if same_text(raw, "Uploading") {
        TaskStatus::Uploading
    } else if same_text(raw, "Completed") {
        TaskStatus::Completed
    } else {
        let n = raw.unicode_len();
        if n >= 6 && same_text(raw.substring_char(0, 6), "Error:") {
            TaskStatus::Error(owned(raw.substring_char(6, n)))
        } else {
            TaskStatus::Idle
        }
    }
}

/// Reading the stored text of a status gives the same status back, whatever
/// characters an error reason holds.
pub proof fn lemma_status_text_round_trip(s: TaskStatus)
    ensures
        reads_as(status_text(s), s),
{
    reveal_strlit("Idle");
    reveal_strlit("Recording");
    reveal_strlit("Uploading");
    reveal_strlit("Completed");
    reveal_strlit("Error:");
    let t = status_text(s);
    if let TaskStatus::Error(m) = s {
        assert(t[0] == 'E');
        assert(t.subrange(0, 6) =~= "Error:"@);
        assert(t.subrange(6, t.len() as int) =~= m@);
        assert(t != "Idle"@ && t != "Recording"@ && t != "Uploading"@ && t != "Completed"@) by {
            assert("Idle"@[0] != 'E');
            assert("Recording"@[0] != 'E');
            assert("Uploading"@[0] != 'E');
            assert("Completed"@[0] != 'E');
        }
    } else {
        assert("Idle"@.len() != "Recording"@.len());
        assert("Idle"@.len() != "Uploading"@.len());
        assert("Idle"@.len() != "Completed"@.len());
        assert("Recording"@[0] != "Uploading"@[0]);
        assert("Recording"@[0] != "Completed"@[0]);
        assert("Uploading"@[0] != "Completed"@[0]);
    }
}

/// One capture attempt.
#[derive(Debug, Clone, PartialEq)]
pub struct StreamTask {
    pub id: String,
    pub name: String,
    pub url: String,
    pub status: TaskStatus,
    /// The most recently started output segment.
    pub filename: String,
    /// The destination profiles, as they stood when the task was created.
    pub upload_configs: Vec<UploadConfig>,
}

/// A request to start a capture by hand.
#[derive(Debug, Clone, PartialEq)]
pub struct CreateTaskRequest {
    pub name: String,
    pub url: String,
}

/// The category a profile publishes to unless it names one.
pub fn default_tid() -> (r: u16)
    ensures
        r == 171,
{
    171
}

/// The copyright flag a profile carries unless it names one: self-made work.
pub fn default_copyright() -> (r: u8)
    ensures
        r == 1,
{
    1
}

/// The account file a profile logs in with unless it names one.
pub fn default_account_file() -> (r: String)
    ensures
        r@ == "cookies.json"@,
{
    owned("cookies.json")
}

/// The publication settings of one destination profile.
#[derive(Debug, Clone, PartialEq)]
pub struct UploadConfig {
    /// Title template; `{title}` stands for the live title, `%` tokens for the date.
    pub title: Option<String>,
    pub tags: Vec<String>,
    pub tid: u16,
    pub copyright: u8,
    pub description: String,
    pub dynamic: String,
    pub account_file: String,
}

/// `a` and `b` hold the same publication settings.
pub open spec fn same_config(a: UploadConfig, b: UploadConfig) -> bool {
    &&& a.title == b.title
    &&& a.tags@ == b.tags@
    &&& a.tid == b.tid
    &&& a.copyright == b.copyright
    &&& a.description == b.description
    &&& a.dynamic == b.dynamic
    &&& a.account_file == b.account_file
}

impl UploadConfig {
    /// A copy of these settings.
    pub fn copied(&self) -> (r: UploadConfig)
        ensures
            same_config(r, *self),
    {
        let mut tags: Vec<String> = Vec::new();
        let mut i: usize = 0;
        while i < self.tags.len()
            invariant
                i <= self.tags@.len(),
                tags@ == self.tags@.subrange(0, i as int),
            decreases self.tags@.len() - i,
        {
            tags.push(self.tags[i].clone());
            i += 1;
            assert(tags@ =~= self.tags@.subrange(0, i as int));
        }
        assert(tags@ =~= self.tags@);
        let title = match &self.title {
            Some(t) => Some(t.clone()),
            None => None,
        };
        UploadConfig {
            title,
            tags,
            tid: self.tid,
            copyright: self.copyright,
            description: self.description.clone(),
            dynamic: self.dynamic.clone(),
            account_file: self.account_file.clone(),
        }
    }
}

impl Default for UploadConfig {
    fn default() -> (r: UploadConfig)
        ensures
            r.title is None,
            r.tags@.len() == 0,
            r.tid == 171,
            r.copyright == 1,
            r.description@.len() == 0,
            r.dynamic@.len() == 0,
            r.account_file@ == "cookies.json"@,
    {
        UploadConfig {
            title: None,
            tags: Vec::new(),
            tid: default_tid(),
            copyright: default_copyright(),
            description: String::new(),
            dynamic: String::new(),
            account_file: default_account_file(),
        }
    }
}

/// A configured live-stream source.
#[derive(Debug, Clone, PartialEq, Default)]
pub struct DownloadConfig {
    pub id: String,
    pub name: String,
    pub url: String,
    /// The destination profiles this source publishes to, by id.
    pub linked_upload_ids: Vec<String>,
    /// A status label computed for display; never stored.
    pub current_status: Option<String>,
    pub use_custom_recording_settings: bool,
    /// The source's own capture settings, used in place of the global ones when enabled.
    pub recording_settings: Option<RecordingSettings>,
}

/// A named destination profile.
#[derive(Debug, Clone, PartialEq)]
pub struct UploadTemplate {
    pub id: String,
    pub name: String,
    pub config: UploadConfig,
}

/// A publication account known from a saved credential file.
#[derive(Debug, Clone, PartialEq, Default)]
pub struct UploadAccount {
    pub id: String,
    pub name: String,
    pub mid: Option<u64>,
    pub account_file: String,
    pub valid: bool,
    pub error: Option<String>,
}

/// Segment limits as the capture tool names them.
#[derive(Debug, Clone, PartialEq, Default)]
pub struct BiliupConfig {
    /// Segment size in bytes; `None` or 0 means no size limit.
    pub segment_size: Option<u64>,
    /// Segment duration in seconds; `None` or 0 means no time limit.
    pub segment_time: Option<u64>,
}

/// The capture quality asked for, per kind of source.
#[derive(Debug, Clone, PartialEq)]
pub struct PlatformQualityConfig {
    pub bilibili: String,
    pub douyu: String,
    pub huya: String,
    pub twitch: String,
    pub youtube: String,
    pub default_quality: String,
}

impl Default for PlatformQualityConfig {
    fn default() -> (r: PlatformQualityConfig)
        ensures
            r.bilibili@ == "best"@,
            r.douyu@ == "best"@,
            r.huya@ == "best"@,
            r.twitch@ == "best"@,
            r.youtube@ == "best"@,
            r.default_quality@ == "best"@,
    {
        PlatformQualityConfig {
            bilibili: owned("best"),
            douyu: owned("best"),
            huya: owned("best"),
            twitch: owned("best"),
            youtube: owned("best"),
            default_quality: owned("best"),
        }
    }
}

/// The capture settings: segment limits, quality per kind of source, and
/// whether published files are deleted.
#[derive(Debug, Clone, PartialEq)]
pub struct RecordingSettings {
    /// Segment size ceiling in MiB.
    pub segment_size_mb: Option<u64>,
    /// Segment time ceiling in seconds.
    pub segment_time_sec: Option<u64>,
    pub quality: PlatformQualityConfig,
    pub auto_cleanup_after_upload: bool,
}

impl Default for RecordingSettings {
    fn default() -> (r: RecordingSettings)
        ensures
            r.segment_size_mb is None,
            r.segment_time_sec is None,
            r.quality.default_quality@ == "best"@,
            !r.auto_cleanup_after_upload,
    {
        RecordingSettings {
            segment_size_mb: None,
            segment_time_sec: None,
            quality: PlatformQualityConfig::default(),
            auto_cleanup_after_upload: false,
        }
    }
}

} // verus!

