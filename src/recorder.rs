//! The recorder job as a state machine. The caller runs the capture process,
//! waits, and probes liveness; after each event it asks the job what to do next.

use vstd::prelude::*;
use vstd::string::*;
use crate::registry::Registries;
use crate::text::owned;

verus! {

/// Empty segments in a row after which a source counts as unavailable.
pub const EMPTY_SEGMENT_LIMIT: u8 = 3;

/// Seconds between two checks of the segment file's size.
pub const SIZE_POLL_SECS: u64 = 5;

/// Seconds to wait before restarting a capture that ended while the source stayed live.
pub const RESTART_BACKOFF_SECS: u64 = 5;

/// Why a segment's capture process stopped.
#[derive(Debug, Clone, Copy, PartialEq, Eq)]
pub enum SegmentEnd {
    /// The process exited on its own.
    Exited,
    /// The time ceiling elapsed and the process was stopped.
    TimeLimit,
    /// The file reached the size ceiling and the process was stopped.
    SizeLimit,
}

impl SegmentEnd {
    /// The segment was cut by a ceiling: normal rotation, not a failure.
    pub open spec fn is_limit(self) -> bool {
        self is TimeLimit || self is SizeLimit
    }
}

/// Which of the events that fired at once ends the segment: the process's own
/// exit first, since its file is already final, then the timer, then the size check.
pub fn resolve_race(exited: bool, time_up: bool, size_full: bool) -> (r: Option<SegmentEnd>)
    ensures
        r == (if exited {
            Some(SegmentEnd::Exited)
        } else if time_up {
            Some(SegmentEnd::TimeLimit)
        } else if size_full {
            Some(SegmentEnd::SizeLimit)
        } else {
            None
        }),
{
    if exited {
        Some(SegmentEnd::Exited)
    } else if time_up {
        Some(SegmentEnd::TimeLimit)
    } else if size_full {
        Some(SegmentEnd::SizeLimit)
    } else {
        None
    }
}

/// Why the segment loop stopped.
#[derive(Debug, Clone, Copy, PartialEq, Eq)]
pub enum StopReason {
    /// The source is no longer live, or the liveness check failed.
    StreamEnded,
    /// Too many segments in a row produced no file.
    Unavailable,
    /// The output directory or the capture process could not be set up.
    SetupFailed,
}

/// What the job does next.
#[derive(Debug, Clone, Copy, PartialEq, Eq)]
pub enum NextStep {
    /// Start the next segment at once.
    NewSegment,
    /// Ask the liveness collaborator whether the source is still live.
    CheckLive,
    /// Wait the restart backoff, then start the next segment.
    Restart,
    /// Leave the segment loop.
    Stop(StopReason),
}

/// The empty-segment count after a segment: back to 0 where it left a file,
/// else one more, saturating.
pub open spec fn next_streak(streak: u8, produced: bool) -> u8 {
    if produced {
        0
    } else if streak < 255 {
        (streak + 1) as u8
    } else {
        255
    }
}

/// The step after a segment, given the updated empty-segment count.
pub open spec fn step_after(streak: u8, end: SegmentEnd) -> NextStep {
    if end.is_limit() {
        NextStep::NewSegment
    } else if streak >= EMPTY_SEGMENT_LIMIT {
        NextStep::Stop(StopReason::Unavailable)
    } else {
        NextStep::CheckLive
    }
}

/// How a finished job hands over.
pub enum JobEnd {
    /// Publish these segments, in the order they were recorded.
    Publish(Vec<String>),
    /// Nothing was recorded: the task ends in an error with this reason.
    Fail(String),
}

/// The reason recorded when a job produced no file.
pub open spec fn no_files_text(reason: StopReason) -> Seq<char> {
    if reason is Unavailable {
        "No files generated: 3 consecutive empty segments, stream appears unavailable"@
    } else {
        "No files generated"@
    }
}

/// The segments a recorder job has produced and its run of empty segments.
pub struct RecorderJob {
    pub files: Vec<String>,
    pub empty_streak: u8,
}

impl RecorderJob {
    /// A job that has recorded nothing yet.
    pub fn new() -> (r: RecorderJob)
        ensures
            r.files@.len() == 0,
            r.empty_streak == 0,
    {
        RecorderJob { files: Vec::new(), empty_streak: 0 }
    }

    /// Takes in a finished segment written to `path`: kept where its file
    /// exists. A segment cut by a ceiling is followed by the next at once;
    /// otherwise the job stops after too many empty segments in a row, or
    /// checks whether the source is still live.
    pub fn after_segment(&mut self, path: String, file_exists: bool, end: SegmentEnd) -> (r:
        NextStep)
        ensures
            final(self).files@ == (if file_exists {
                old(self).files@.push(path)
            } else {
                old(self).files@
            }),
            final(self).empty_streak == next_streak(old(self).empty_streak, file_exists),
            r == step_after(final(self).empty_streak, end),
    {
        if file_exists {
            self.files.push(path);
            self.empty_streak = 0;
        } else if self.empty_streak < 255 {
            self.empty_streak = self.empty_streak + 1;
        }
        match end {
            SegmentEnd::TimeLimit => NextStep::NewSegment,
            SegmentEnd::SizeLimit => NextStep::NewSegment,
            SegmentEnd::Exited => if self.empty_streak >= EMPTY_SEGMENT_LIMIT {
                NextStep::Stop(StopReason::Unavailable)
            } else {
                NextStep::CheckLive
            },
        }
    }

    /// The step after a liveness check: restart while the source is live;
    /// stop where it is not, or where the check failed.
    pub fn after_live_check(live: &Result<bool, String>) -> (r: NextStep)
        ensures
            r == (if live matches Ok(true) {
                NextStep::Restart
            } else {
                NextStep::Stop(StopReason::StreamEnded)
            }),
    {
        match live {
            Ok(true) => NextStep::Restart,
            _ => NextStep::Stop(StopReason::StreamEnded),
        }
    }

    /// How the job hands over once its loop stopped for `reason`.
    pub fn finish(self, reason: StopReason) -> (r: JobEnd)
        ensures
            self.files@.len() > 0 ==> (r matches JobEnd::Publish(f) && f@ == self.files@),
            self.files@.len() == 0 ==> (r matches JobEnd::Fail(m) && m@ == no_files_text(reason)),
    {
        if self.files.len() > 0 {
            JobEnd::Publish(self.files)
        } else if let StopReason::Unavailable = reason {
            JobEnd::Fail(
                owned("No files generated: 3 consecutive empty segments, stream appears unavailable"),
            )
        } else {
            JobEnd::Fail(owned("No files generated"))
        }
    }
}

/// Three segments in a row that end on their own without a file stop the
/// job as unavailable, whatever came before them.
pub proof fn lemma_three_empty_segments_stop(streak: u8)
    ensures
        step_after(
            next_streak(next_streak(next_streak(streak, false), false), false),
            SegmentEnd::Exited,
        ) == NextStep::Stop(StopReason::Unavailable),
{
}

/// A segment cut by the time ceiling is always followed by the next one at
/// once, whatever its file and the run of empty segments: capture rotates for
/// as long as the job runs.
pub proof fn lemma_time_limit_rotates(streak: u8, produced: bool)
    ensures
        step_after(next_streak(streak, produced), SegmentEnd::TimeLimit) == NextStep::NewSegment,
{
}

/// The name the job's files are derived from: the task's current name, or its
/// id where the task is gone.
pub fn job_task_name(regs: &Registries, task_id: &str) -> (r: String)
    ensures
        r@ == (if regs.tasks().contains_key(task_id@) {
            regs.tasks()[task_id@].name@
        } else {
            task_id@
        }),
{
    match regs.task(task_id) {
        Some(t) => t.name,
        None => owned(task_id),
    }
}

} // verus!
