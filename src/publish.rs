//! The publication pipeline: one batch of files, an ordered list of
//! destination profiles, and the task outcome that follows.

use vstd::prelude::*;
use vstd::string::*;
use crate::model::TaskStatus;
use crate::text::same_text;

verus! {

/// The text of each string of `v`.
pub open spec fn texts(v: Seq<String>) -> Seq<Seq<char>> {
    v.map_values(|s: String| s@)
}

/// The entries of `s` in order of first occurrence, each once.
pub open spec fn first_occurrences(s: Seq<Seq<char>>) -> Seq<Seq<char>>
    decreases s.len(),
{
    if s.len() == 0 {
        Seq::empty()
    } else {
        let d = first_occurrences(s.drop_last());
        if d.contains(s.last()) {
            d
        } else {
            d.push(s.last())
        }
    }
}

/// No entry of `s` occurs twice.
pub open spec fn no_repeats(s: Seq<Seq<char>>) -> bool {
    forall|i: int, j: int| 0 <= i < s.len() && 0 <= j < s.len() && i != j ==> s[i] != s[j]
}

/// The files of a batch, each once, in order of first occurrence. Files are
/// compared by their text: vstd models hash-set keys for integer types only.
pub fn distinct_files(files: &Vec<String>) -> (r: Vec<String>)
    ensures
        texts(r@) == first_occurrences(texts(files@)),
{
    let mut out: Vec<String> = Vec::new();
    let mut i: usize = 0;
    assert(texts(files@).subrange(0, 0) =~= Seq::<Seq<char>>::empty());
    while i < files.len()
        invariant
            i <= files@.len(),
            texts(out@) == first_occurrences(texts(files@).subrange(0, i as int)),
        decreases files@.len() - i,
    {
        let mut seen = false;
        let mut k: usize = 0;
        while k < out.len()
            invariant
                k <= out@.len(),
                i < files@.len(),
                seen == exists|j: int| 0 <= j < k && out@[j]@ == files@[i as int]@,
            decreases out@.len() - k,
        {
            if same_text(out[k].as_str(), files[i].as_str()) {
                seen = true;
            }
            k += 1;
        }
        let ghost pre = texts(files@).subrange(0, i + 1);
        assert(pre.drop_last() =~= texts(files@).subrange(0, i as int));
        assert(pre.last() == files@[i as int]@);
        assert(seen == texts(out@).contains(files@[i as int]@)) by {
            if seen {
                let j = choose|j: int| 0 <= j < k && out@[j]@ == files@[i as int]@;
                assert(texts(out@)[j] == files@[i as int]@);
            }
            if texts(out@).contains(files@[i as int]@) {
                let j = choose|j: int| 0 <= j < texts(out@).len() && texts(out@)[j] == files@[i as int]@;
                assert(out@[j]@ == files@[i as int]@);
            }
        }
        if !seen {
            out.push(files[i].clone());
            assert(texts(out@) =~= first_occurrences(pre));
        }
        i += 1;
    }
    assert(texts(files@).subrange(0, files@.len() as int) =~= texts(files@));
    out
}

proof fn lemma_first_occurrences(s: Seq<Seq<char>>)
    ensures
        no_repeats(first_occurrences(s)),
        forall|x: Seq<char>| first_occurrences(s).contains(x) <==> s.contains(x),
    decreases s.len(),
{
    if s.len() > 0 {
        let d = first_occurrences(s.drop_last());
        lemma_first_occurrences(s.drop_last());
        let t = s.drop_last();
        assert forall|x: Seq<char>| s.contains(x) <==> (t.contains(x) || x == s.last()) by {
            if s.contains(x) {
                let j = choose|j: int| 0 <= j < s.len() && s[j] == x;
                if j < s.len() - 1 {
                    assert(t[j] == x);
                }
            }
            if t.contains(x) {
                let j = choose|j: int| 0 <= j < t.len() && t[j] == x;
                assert(s[j] == x);
            }
            if x == s.last() {
                assert(s[s.len() - 1] == x);
            }
        }
        if !d.contains(s.last()) {
            let e = d.push(s.last());
            assert forall|x: Seq<char>| e.contains(x) <==> (d.contains(x) || x == s.last()) by {
                if e.contains(x) {
                    let j = choose|j: int| 0 <= j < e.len() && e[j] == x;
                    if j < d.len() {
                        assert(d[j] == x);
                    }
                }
                if d.contains(x) {
                    let j = choose|j: int| 0 <= j < d.len() && d[j] == x;
                    assert(e[j] == x);
                }
                if x == s.last() {
                    assert(e[d.len() as int] == x);
                }
            }
            assert forall|i: int, j: int| 0 <= i < e.len() && 0 <= j < e.len() && i != j implies e[i]
                != e[j] by {
                if i < d.len() && j < d.len() {
                } else if i < d.len() {
                    assert(d.contains(d[i]));
                } else if j < d.len() {
                    assert(d.contains(d[j]));
                }
            }
        }
    }
}

/// Cleanup deletes each distinct file of a batch exactly once: the list it
/// works through holds every file of the batch and none twice.
pub proof fn lemma_cleanup_once(files: Seq<String>)
    ensures
        no_repeats(first_occurrences(texts(files))),
        forall|x: Seq<char>|
            first_occurrences(texts(files)).contains(x) <==> texts(files).contains(x),
{
    lemma_first_occurrences(texts(files));
}

/// The message of the last failed profile among `outcomes`, if any failed.
pub open spec fn last_failure(outcomes: Seq<Result<(), String>>) -> Option<Seq<char>>
    decreases outcomes.len(),
{
    if outcomes.len() == 0 {
        None
    } else {
        match outcomes.last() {
            Err(e) => Some(e@),
            Ok(_) => last_failure(outcomes.drop_last()),
        }
    }
}

/// `s` is the status a run with these per-profile outcomes ends in:
/// `Completed` where every profile succeeded, else the error of the last failure.
pub open spec fn status_after(outcomes: Seq<Result<(), String>>, s: TaskStatus) -> bool {
    match last_failure(outcomes) {
        None => s is Completed,
        Some(m) => s matches TaskStatus::Error(x) && x@ == m,
    }
}

/// The status a run ends in, given the outcome of each profile in order.
pub fn final_status(outcomes: &Vec<Result<(), String>>) -> (r: TaskStatus)
    ensures
        status_after(outcomes@, r),
{
    let mut last: Option<String> = None;
    let mut i: usize = 0;
    assert(outcomes@.subrange(0, 0) =~= Seq::<Result<(), String>>::empty());
    while i < outcomes.len()
        invariant
            i <= outcomes@.len(),
            match last {
                Some(m) => last_failure(outcomes@.subrange(0, i as int)) == Some(m@),
                None => last_failure(outcomes@.subrange(0, i as int)) is None,
            },
        decreases outcomes@.len() - i,
    {
        let ghost pre = outcomes@.subrange(0, i + 1);
        assert(pre.drop_last() =~= outcomes@.subrange(0, i as int));
        match &outcomes[i] {
            Err(e) => {
                last = Some(e.clone());
            },
            Ok(_) => {},
        }
        i += 1;
    }
    assert(outcomes@.subrange(0, outcomes@.len() as int) =~= outcomes@);
    match last {
        Some(m) => TaskStatus::Error(m),
        None => TaskStatus::Completed,
    }
}

/// What a publication run came to.
pub struct PublishOutcome {
    /// The task's final status; `None` where there was nothing to publish.
    pub status: Option<TaskStatus>,
    /// The result of each profile, in the order of the profiles.
    pub outcomes: Vec<Result<(), String>>,
    /// The local files to delete now, each once.
    pub cleanup: Vec<String>,
}

/// The profile a run over `n_files` files and `n_configs` profiles tries
/// next, once `done` calls were made: each profile once, in order, whatever
/// the earlier calls returned; none where there are no files.
pub fn next_profile(n_files: usize, n_configs: usize, done: usize) -> (r: Option<usize>)
    ensures
        r == (if n_files > 0 && done < n_configs {
            Some(done)
        } else {
            None::<usize>
        }),
{
    if n_files > 0 && done < n_configs {
        Some(done)
    } else {
        None
    }
}

/// Whether every profile succeeded.
pub open spec fn all_ok(outcomes: Seq<Result<(), String>>) -> bool {
    forall|i: int| 0 <= i < outcomes.len() ==> outcomes[i] is Ok
}

proof fn lemma_all_ok(outcomes: Seq<Result<(), String>>)
    ensures
        all_ok(outcomes) <==> last_failure(outcomes) is None,
    decreases outcomes.len(),
{
    if outcomes.len() > 0 {
        lemma_all_ok(outcomes.drop_last());
        if all_ok(outcomes.drop_last()) && outcomes.last() is Ok {
            assert forall|i: int| 0 <= i < outcomes.len() implies outcomes[i] is Ok by {
                if i < outcomes.len() - 1 {
                    assert(outcomes.drop_last()[i] is Ok);
                }
            }
        }
        if all_ok(outcomes) {
            assert forall|i: int| 0 <= i < outcomes.drop_last().len() implies outcomes.drop_last()[i] is Ok by {
                assert(outcomes[i] is Ok);
            }
        }
    }
}

/// The end of a run over profiles that returned `outcomes`: its status, and
/// the distinct files to delete where every profile succeeded and cleanup is on.
pub fn conclude(
    files: &Vec<String>,
    outcomes: Vec<Result<(), String>>,
    cleanup_after_success: bool,
) -> (r: PublishOutcome)
    ensures
        r.status matches Some(s) && status_after(outcomes@, s),
        r.outcomes@ == outcomes@,
        texts(r.cleanup@) == (if all_ok(outcomes@) && cleanup_after_success {
            first_occurrences(texts(files@))
        } else {
            Seq::empty()
        }),
{
    let status = final_status(&outcomes);
    proof {
        lemma_all_ok(outcomes@);
    }
    let done = match &status {
        TaskStatus::Completed => true,
        _ => false,
    };
    let cleanup = if done && cleanup_after_success {
        distinct_files(files)
    } else {
        let v: Vec<String> = Vec::new();
        assert(texts(v@) =~= Seq::<Seq<char>>::empty());
        v
    };
    PublishOutcome { status: Some(status), outcomes, cleanup }
}

/// How a publication run begins.
#[derive(Debug, Clone, Copy, PartialEq, Eq)]
pub enum PublishStart {
    /// No files: nothing happens at all.
    Nothing,
    /// No profiles: the task completes without publishing.
    CompleteUnpublished,
    /// The task turns `Uploading` and every profile is tried.
    Upload,
}

/// How a run over `n_files` files and `n_configs` profiles begins.
pub fn publish_start(n_files: usize, n_configs: usize) -> (r: PublishStart)
    ensures
        r == (if n_files == 0 {
            PublishStart::Nothing
        } else if n_configs == 0 {
            PublishStart::CompleteUnpublished
        } else {
            PublishStart::Upload
        }),
{
    if n_files == 0 {
        PublishStart::Nothing
    } else if n_configs == 0 {
        PublishStart::CompleteUnpublished
    } else {
        PublishStart::Upload
    }
}

/// The end of a publication run over `files` and `n_configs` profiles, where
/// the calls `next_profile` asked for returned `outcomes`. With no files
/// nothing happens. With no profiles the task completes and nothing is
/// published. Otherwise the run ends as `conclude` says.
pub fn finish_run(
    files: &Vec<String>,
    n_configs: usize,
    outcomes: Vec<Result<(), String>>,
    cleanup_after_success: bool,
) -> (r: PublishOutcome)
    requires
        outcomes@.len() == (if files@.len() > 0 {
            n_configs as int
        } else {
            0
        }),
    ensures
        files@.len() == 0 ==> r.status is None && r.outcomes@.len() == 0 && r.cleanup@.len() == 0,
        files@.len() > 0 && n_configs == 0 ==> r.status == Some(TaskStatus::Completed)
            && r.outcomes@.len() == 0 && r.cleanup@.len() == 0,
        files@.len() > 0 && n_configs > 0 ==> r.outcomes@ == outcomes@ && (r.status matches Some(s)
            && status_after(outcomes@, s)) && texts(r.cleanup@) == (if all_ok(outcomes@)
            && cleanup_after_success {
            first_occurrences(texts(files@))
        } else {
            Seq::empty()
        }),
{
    match publish_start(files.len(), n_configs) {
        PublishStart::Nothing => PublishOutcome {
            status: None,
            outcomes: Vec::new(),
            cleanup: Vec::new(),
        },
        PublishStart::CompleteUnpublished => PublishOutcome {
            status: Some(TaskStatus::Completed),
            outcomes: Vec::new(),
            cleanup: Vec::new(),
        },
        PublishStart::Upload => conclude(files, outcomes, cleanup_after_success),
    }
}

} // verus!
