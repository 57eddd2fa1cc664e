//! The liveness collaborator's side of the library: how the output of a
//! `streamlink --json` probe reads as live, offline or failed, and which
//! title it carries.

use vstd::prelude::*;
use vstd::string::*;
use serde_json::Value;
use crate::text::{chars_of, contains_text, has_infix, lower_of, lowercased, owned, trim_of, trimmed};

verus! {

/// The program that probes and captures streams.
pub const STREAMLINK_PATH: &'static str = "streamlink";

/// The fields of a `streamlink --json` report that the engine reads.
#[derive(Debug, Clone, PartialEq)]
pub struct ProbeReport {
    /// The top-level `error` string.
    pub error: Option<String>,
    /// How many entries the top-level `streams` object has.
    pub stream_count: usize,
    /// The string at `metadata.title`.
    pub metadata_title: Option<String>,
    /// The top-level `title` string.
    pub title: Option<String>,
}

/// What `read_probe` finds in a probe's output; `None` where it is not JSON.
pub uninterp spec fn probe_report_of(stdout: Seq<char>) -> Option<ProbeReport>;

/// Relies on `serde_json::from_str` and on `Value::get`, `pointer`, `as_str`
/// and `as_object`: the report fields of the JSON text `stdout`, which depend on
/// that text alone.
#[verifier::external_body]
fn read_probe(stdout: &str) -> (r: Option<ProbeReport>)
    ensures
        r == probe_report_of(stdout@),
{
    let v: Value = serde_json::from_str(stdout).ok()?;
    Some(ProbeReport {
        error: v.get("error").and_then(Value::as_str).map(str::to_string),
        stream_count: v.get("streams").and_then(Value::as_object).map_or(0, serde_json::Map::len),
        metadata_title: v.pointer("/metadata/title").and_then(Value::as_str).map(str::to_string),
        title: v.get("title").and_then(Value::as_str).map(str::to_string),
    })
}

/// Probe messages that mean the source is offline rather than broken.
pub open spec fn offline_message(lower: Seq<char>) -> bool {
    has_infix(lower, "no playable streams found"@) || has_infix(lower, "no streams found"@)
        || has_infix(lower, "is offline"@)
}

/// A probe error reads as offline or as a failure.
pub open spec fn error_verdict(message: Seq<char>, r: Result<bool, String>) -> bool {
    if offline_message(lower_of(message)) {
        r == Ok::<bool, String>(false)
    } else {
        r matches Err(e) && e@ == "Streamlink check failed: "@ + message
    }
}

/// Reads a probe error: offline where it says there is no stream, else a failure.
pub fn classify_streamlink_error(message: &str) -> (r: Result<bool, String>)
    ensures
        error_verdict(message@, r),
{
    let msg = chars_of(lowercased(message).as_str());
    if contains_text(&msg, &chars_of("no playable streams found")) || contains_text(
        &msg,
        &chars_of("no streams found"),
    ) || contains_text(&msg, &chars_of("is offline")) {
        Ok(false)
    } else {
        Err(owned("Streamlink check failed: ").concat(message))
    }
}

/// The verdict of a probe that printed `stdout` and `stderr` and exited
/// successfully or not.
pub open spec fn probe_verdict(
    stdout: Seq<char>,
    stderr: Seq<char>,
    success: bool,
    r: Result<bool, String>,
) -> bool {
    if trim_of(stdout).len() == 0 {
        if success {
            r == Ok::<bool, String>(false)
        } else {
            error_verdict(trim_of(stderr), r)
        }
    } else {
        match probe_report_of(stdout) {
            None => r matches Err(e) && e@ == "Failed to parse streamlink output"@,
            Some(rep) => match rep.error {
                Some(e) => error_verdict(e@, r),
                None => r == Ok::<bool, String>(rep.stream_count > 0),
            },
        }
    }
}

/// The trimmed text of `s`, where it is not blank.
pub open spec fn nonblank(s: Option<String>) -> Option<Seq<char>> {
    match s {
        Some(x) => if trim_of(x@).len() > 0 {
            Some(trim_of(x@))
        } else {
            None
        },
        None => None,
    }
}

/// The title of a report: `metadata.title`, else the top-level title, each
/// trimmed and only where not blank.
pub open spec fn report_title(rep: ProbeReport) -> Option<Seq<char>> {
    match nonblank(rep.metadata_title) {
        Some(t) => Some(t),
        None => nonblank(rep.title),
    }
}

fn nonblank_text(s: &Option<String>) -> (r: Option<String>)
    ensures
        r matches Some(x) ==> nonblank(*s) == Some(x@),
        r is None ==> nonblank(*s) is None,
{
    match s {
        Some(x) => {
            let t = trimmed(x.as_str());
            if t.unicode_len() > 0 {
                Some(t)
            } else {
                None
            }
        },
        None => None,
    }
}

/// Probes and captures through streamlink.
#[derive(Debug, Clone, Copy, PartialEq, Eq)]
pub struct StreamlinkChecker;

impl StreamlinkChecker {
    pub fn new() -> (r: StreamlinkChecker)
        ensures
            r == StreamlinkChecker,
    {
        StreamlinkChecker
    }

    /// Whether a probe's output shows the source live.
    pub fn read_liveness(stdout: &str, stderr: &str, success: bool) -> (r: Result<bool, String>)
        ensures
            probe_verdict(stdout@, stderr@, success, r),
    {
        let out = trimmed(stdout);
        if out.unicode_len() == 0 {
            if success {
                return Ok(false);
            }
            let err = trimmed(stderr);
            return classify_streamlink_error(err.as_str());
        }
        match read_probe(stdout) {
            None => Err(owned("Failed to parse streamlink output")),
            Some(rep) => match &rep.error {
                Some(e) => classify_streamlink_error(e.as_str()),
                None => Ok(rep.stream_count > 0),
            },
        }
    }

    /// The live title a probe's output carries, if any.
    pub fn read_title(stdout: &str) -> (r: Option<String>)
        ensures
            trim_of(stdout@).len() == 0 ==> r is None,
            trim_of(stdout@).len() > 0 ==> match probe_report_of(stdout@) {
                None => r is None,
                Some(rep) => match report_title(rep) {
                    Some(t) => r is Some && r->0@ == t,
                    None => r is None,
                },
            },
    {
        let out = trimmed(stdout);
        if out.unicode_len() == 0 {
            return None;
        }
        match read_probe(stdout) {
            None => None,
            Some(rep) => match nonblank_text(&rep.metadata_title) {
                Some(t) => Some(t),
                None => nonblank_text(&rep.title),
            },
        }
    }
}

} // verus!
