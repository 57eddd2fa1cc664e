//! Where recordings are written: directory and segment names derived from a
//! task's name.

use vstd::prelude::*;
use vstd::string::*;
use crate::text::{chars_of, owned, string_from_chars, strip_both, trim_char};

verus! {

/// `char::is_control`: the code points of general category Cc.
pub open spec fn is_control(c: char) -> bool {
    (c as u32) <= 0x1f || (0x7f <= (c as u32) && (c as u32) <= 0x9f)
}

/// Characters that cannot stand in a file name.
pub open spec fn is_illegal(c: char) -> bool {
    is_control(c) || c == '/' || c == '\\' || c == ':' || c == '*' || c == '?' || c == '"' || c
        == '<' || c == '>' || c == '|'
}

/// `s` with every illegal character replaced by `_`.
pub open spec fn underscored(s: Seq<char>) -> Seq<char> {
    Seq::new(s.len(), |i: int| if is_illegal(s[i]) { '_' } else { s[i] })
}

/// A task name made safe for a file name: illegal characters become `_`,
/// leading and trailing `_` are dropped, and an empty result becomes `task`.
pub open spec fn safe_name(raw: Seq<char>) -> Seq<char> {
    let s = strip_both(underscored(raw), '_');
    if s.len() == 0 {
        "task"@
    } else {
        s
    }
}

fn illegal_char(c: char) -> (r: bool)
    ensures
        r == is_illegal(c),
{
    let n = c as u32;
    n <= 0x1f || (0x7f <= n && n <= 0x9f) || c == '/' || c == '\\' || c == ':' || c == '*' || c
        == '?' || c == '"' || c == '<' || c == '>' || c == '|'
}

/// The file-name form of a task name.
pub fn sanitize_for_filename(raw: &str) -> (r: String)
    ensures
        r@ == safe_name(raw@),
{
    let cs = chars_of(raw);
    let mut mapped: Vec<char> = Vec::new();
    let mut i: usize = 0;
    while i < cs.len()
        invariant
            cs@ == raw@,
            i <= cs@.len(),
            mapped@ == underscored(raw@).subrange(0, i as int),
        decreases cs@.len() - i,
    {
        let c = cs[i];
        if illegal_char(c) {
            mapped.push('_');
        } else {
            mapped.push(c);
        }
        i += 1;
        assert(mapped@ =~= underscored(raw@).subrange(0, i as int));
    }
    assert(mapped@ =~= underscored(raw@));
    let stripped = trim_char(&mapped, '_');
    if stripped.len() == 0 {
        owned("task")
    } else {
        string_from_chars(&stripped)
    }
}

/// `PathBuf::join` of a relative name without separators onto `dir`.
pub open spec fn joined(dir: Seq<char>, name: Seq<char>) -> Seq<char> {
    if dir.len() == 0 {
        name
    } else if dir.last() == '/' {
        dir + name
    } else {
        dir + "/"@ + name
    }
}

/// `name` placed in directory `dir`.
pub fn join_path(dir: &str, name: &str) -> (r: String)
    ensures
        r@ == joined(dir@, name@),
{
    let n = dir.unicode_len();
    if n == 0 {
        owned(name)
    } else if dir.get_char(n - 1) == '/' {
        owned(dir).concat(name)
    } else {
        owned(dir).concat("/").concat(name)
    }
}

/// The directory that holds the recordings of a task named `task_name`,
/// under the recordings root `root`.
pub fn recording_task_dir(root: &str, task_name: &str) -> (r: String)
    ensures
        r@ == joined(root@, safe_name(task_name@)),
{
    let name = sanitize_for_filename(task_name);
    join_path(root, name.as_str())
}

/// The file name of a segment: the safe task name, the start time, `.mp4`.
pub open spec fn segment_name(task_name: Seq<char>, stamp: Seq<char>) -> Seq<char> {
    safe_name(task_name) + "-"@ + stamp + ".mp4"@
}

/// The path of a segment of task `task_name` started at `stamp`, in `task_dir`.
pub fn segment_path(task_dir: &str, task_name: &str, stamp: &str) -> (r: String)
    ensures
        r@ == joined(task_dir@, segment_name(task_name@, stamp@)),
{
    let base = sanitize_for_filename(task_name).concat("-").concat(stamp).concat(".mp4");
    join_path(task_dir, base.as_str())
}

} // verus!
