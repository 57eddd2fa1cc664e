//! Capture settings: how stored settings are cleaned, and what a recorder job
//! takes from them for one source.

use vstd::prelude::*;
use crate::model::{DownloadConfig, PlatformQualityConfig, RecordingSettings};
use crate::text::{
    ascii_lower_seq, chars_of, contains_text, has_infix, owned, to_ascii_lower, trim_of, trimmed,
};

verus! {

/// A quality string as it is stored: trimmed, and `best` where nothing is left.
pub open spec fn normal_quality(q: Seq<char>) -> Seq<char> {
    if trim_of(q).len() == 0 {
        "best"@
    } else {
        trim_of(q)
    }
}

/// Trims a quality string in place, and sets it to `best` where nothing is left.
pub fn normalize_quality(v: &mut String)
    ensures
        final(v)@ == normal_quality(old(v)@),
{
    let t = trimmed(v.as_str());
    if t.unicode_len() == 0 {
        *v = owned("best");
    } else {
        *v = t;
    }
}

/// A segment ceiling of 0 means no ceiling.
pub open spec fn nonzero(v: Option<u64>) -> Option<u64> {
    match v {
        Some(0) => None,
        _ => v,
    }
}

/// Settings as they are stored: zero ceilings dropped, quality strings normalised.
pub open spec fn is_sanitized_from(r: RecordingSettings, s: RecordingSettings) -> bool {
    &&& r.segment_size_mb == nonzero(s.segment_size_mb)
    &&& r.segment_time_sec == nonzero(s.segment_time_sec)
    &&& r.quality.bilibili@ == normal_quality(s.quality.bilibili@)
    &&& r.quality.douyu@ == normal_quality(s.quality.douyu@)
    &&& r.quality.huya@ == normal_quality(s.quality.huya@)
    &&& r.quality.twitch@ == normal_quality(s.quality.twitch@)
    &&& r.quality.youtube@ == normal_quality(s.quality.youtube@)
    &&& r.quality.default_quality@ == normal_quality(s.quality.default_quality@)
    &&& r.auto_cleanup_after_upload == s.auto_cleanup_after_upload
}

/// Cleans settings before they are stored.
pub fn sanitize(settings: RecordingSettings) -> (r: RecordingSettings)
    ensures
        is_sanitized_from(r, settings),
{
    let mut settings = settings;
    if let Some(0) = settings.segment_size_mb {
        settings.segment_size_mb = None;
    }
    if let Some(0) = settings.segment_time_sec {
        settings.segment_time_sec = None;
    }
    normalize_quality(&mut settings.quality.bilibili);
    normalize_quality(&mut settings.quality.douyu);
    normalize_quality(&mut settings.quality.huya);
    normalize_quality(&mut settings.quality.twitch);
    normalize_quality(&mut settings.quality.youtube);
    normalize_quality(&mut settings.quality.default_quality);
    settings
}

/// The quality asked for when capturing `url`, chosen by the host the url names.
pub open spec fn quality_spec(url: Seq<char>, q: PlatformQualityConfig) -> Seq<char> {
    let u = ascii_lower_seq(url);
    if has_infix(u, "bilibili.com"@) || has_infix(u, "b23.tv"@) {
        q.bilibili@
    } else if has_infix(u, "douyu.com"@) {
        q.douyu@
    } else if has_infix(u, "huya.com"@) {
        q.huya@
    } else if has_infix(u, "twitch.tv"@) {
        q.twitch@
    } else if has_infix(u, "youtube.com"@) || has_infix(u, "youtu.be"@) {
        q.youtube@
    } else {
        q.default_quality@
    }
}

/// The quality asked for when capturing `url`.
pub fn quality_for_url(url: &str, quality: &PlatformQualityConfig) -> (r: String)
    ensures
        r@ == quality_spec(url@, *quality),
{
    let u = to_ascii_lower(url);
    if contains_text(&u, &chars_of("bilibili.com")) || contains_text(&u, &chars_of("b23.tv")) {
        quality.bilibili.clone()
    } else if contains_text(&u, &chars_of("douyu.com")) {
        quality.douyu.clone()
    } else if contains_text(&u, &chars_of("huya.com")) {
        quality.huya.clone()
    } else if contains_text(&u, &chars_of("twitch.tv")) {
        quality.twitch.clone()
    } else if contains_text(&u, &chars_of("youtube.com")) || contains_text(
        &u,
        &chars_of("youtu.be"),
    ) {
        quality.youtube.clone()
    } else {
        quality.default_quality.clone()
    }
}

/// Bytes in one MiB.
pub const MIB: u64 = 1048576;

/// What a recorder job takes from the settings, fixed when it starts.
#[derive(Debug, Clone, PartialEq)]
pub struct CapturePlan {
    /// Size ceiling of a segment in bytes.
    pub segment_size_bytes: Option<u64>,
    /// Time ceiling of a segment in seconds.
    pub segment_time_sec: Option<u64>,
    pub quality: String,
    pub auto_cleanup_after_upload: bool,
}

/// The size ceiling in bytes for a ceiling of `mb` MiB: none for 0, and none
/// where the byte count does not fit in 64 bits.
pub open spec fn size_ceiling(mb: Option<u64>) -> Option<u64> {
    match mb {
        Some(m) => if 0 < m && m * MIB <= u64::MAX {
            Some((m * MIB) as u64)
        } else {
            None
        },
        None => None,
    }
}

/// The settings a recorder job for `url` runs with.
pub fn capture_plan(url: &str, settings: &RecordingSettings) -> (r: CapturePlan)
    ensures
        r.segment_size_bytes == size_ceiling(settings.segment_size_mb),
        r.segment_time_sec == nonzero(settings.segment_time_sec),
        r.quality@ == quality_spec(url@, settings.quality),
        r.auto_cleanup_after_upload == settings.auto_cleanup_after_upload,
{
    let segment_size_bytes = match settings.segment_size_mb {
        Some(m) => match m.checked_mul(MIB) {
            Some(b) => if b > 0 {
                Some(b)
            } else {
                None
            },
            None => None,
        },
        None => None,
    };
    let segment_time_sec = match settings.segment_time_sec {
        Some(t) => if t > 0 {
            Some(t)
        } else {
            None
        },
        None => None,
    };
    CapturePlan {
        segment_size_bytes,
        segment_time_sec,
        quality: quality_for_url(url, &settings.quality),
        auto_cleanup_after_upload: settings.auto_cleanup_after_upload,
    }
}

/// The settings a source asks for in place of the global ones, if it does.
pub open spec fn override_of(d: DownloadConfig) -> Option<RecordingSettings> {
    if d.use_custom_recording_settings {
        d.recording_settings
    } else {
        None
    }
}

/// The source's own settings, where it has them enabled.
pub fn custom_settings(download: &DownloadConfig) -> (r: Option<&RecordingSettings>)
    ensures
        r matches Some(s) ==> override_of(*download) == Some(*s),
        r is None ==> override_of(*download) is None,
{
    if download.use_custom_recording_settings {
        match &download.recording_settings {
            Some(s) => Some(s),
            None => None,
        }
    } else {
        None
    }
}

/// The settings that apply to a job for `download`: its own where enabled,
/// else the global ones, whole and unmerged.
pub fn effective_settings<'a>(
    download: &'a DownloadConfig,
    global: &'a RecordingSettings,
) -> (r: &'a RecordingSettings)
    ensures
        *r == (match override_of(*download) {
            Some(s) => s,
            None => *global,
        }),
{
    match custom_settings(download) {
        Some(s) => s,
        None => global,
    }
}

/// Whether a segment file of `size` bytes has reached the ceiling `limit`.
pub fn size_limit_reached(size: u64, limit: Option<u64>) -> (r: bool)
    ensures
        r == (match limit {
            Some(l) => size >= l,
            None => false,
        }),
{
    match limit {
        Some(l) => size >= l,
        None => false,
    }
}

/// The settings the engine starts with: those stored, else one-hour
/// segments with no size ceiling, best quality and no cleanup.
pub fn initial_settings(stored: Option<RecordingSettings>) -> (r: RecordingSettings)
    ensures
        stored matches Some(s) ==> r == s,
        stored is None ==> r.segment_size_mb is None && r.segment_time_sec == Some(3600u64)
            && r.quality.default_quality@ == "best"@ && !r.auto_cleanup_after_upload,
{
    match stored {
        Some(s) => s,
        None => {
            let mut s = RecordingSettings::default();
            s.segment_time_sec = Some(3600);
            s
        },
    }
}

} // verus!
