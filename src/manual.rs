//! Publication triggered by hand for a source: which profiles and which
//! recorded files it runs with.

use vstd::prelude::*;
use vstd::string::*;
use crate::model::{DownloadConfig, RecordingSettings, UploadConfig, UploadTemplate, same_config};
use crate::monitor::{linked_templates, new_task_id, resolve_upload_configs};
use crate::publish::texts;
use crate::text::{ascii_lower_seq, chars_of, owned, same_text, to_ascii_lower};

verus! {

/// Why a publication by hand cannot start.
#[derive(Debug, Clone, Copy, PartialEq, Eq)]
pub enum ManualError {
    /// No source has the given id.
    SourceNotFound,
    /// The source links no destination profile.
    NoLinkedTemplates,
    /// None of the linked profiles exists.
    TemplatesMissing,
    /// The source's recording directory holds no media file.
    NoRecordings,
}

impl ManualError {
    /// The message shown for this error.
    pub fn message(&self) -> (r: String)
        ensures
            r@ == manual_error_text(*self),
    {
        match self {
            ManualError::SourceNotFound => owned("download config not found"),
            ManualError::NoLinkedTemplates => owned("no linked upload templates"),
            ManualError::TemplatesMissing => owned("linked upload templates are missing"),
            ManualError::NoRecordings => owned("no recording files found"),
        }
    }
}

/// The message of each error.
pub open spec fn manual_error_text(e: ManualError) -> Seq<char> {
    match e {
        ManualError::SourceNotFound => "download config not found"@,
        ManualError::NoLinkedTemplates => "no linked upload templates"@,
        ManualError::TemplatesMissing => "linked upload templates are missing"@,
        ManualError::NoRecordings => "no recording files found"@,
    }
}

/// The index of the first source with id `id`, if any.
pub open spec fn first_source(ds: Seq<DownloadConfig>, id: Seq<char>) -> Option<int> {
    if exists|i: int| 0 <= i < ds.len() && ds[i].id@ == id {
        let i = choose|i: int|
            0 <= i < ds.len() && ds[i].id@ == id && forall|j: int| 0 <= j < i ==> ds[j].id@ != id;
        Some(i)
    } else {
        None
    }
}

/// The position of the source with id `id` among `downloads`.
pub fn find_download(downloads: &Vec<DownloadConfig>, id: &str) -> (r: Result<usize, ManualError>)
    ensures
        r matches Ok(i) ==> i < downloads@.len() && downloads@[i as int].id@ == id@ && forall|j: int|
            0 <= j < i ==> downloads@[j].id@ != id@,
        r matches Err(e) ==> e == ManualError::SourceNotFound && forall|j: int|
            0 <= j < downloads@.len() ==> downloads@[j].id@ != id@,
{
    let mut i: usize = 0;
    while i < downloads.len()
        invariant
            i <= downloads@.len(),
            forall|j: int| 0 <= j < i ==> downloads@[j].id@ != id@,
        decreases downloads@.len() - i,
    {
        if same_text(downloads[i].id.as_str(), id) {
            return Ok(i);
        }
        i += 1;
    }
    Err(ManualError::SourceNotFound)
}

/// The profiles a publication by hand for `download` runs with: refused where
/// the source links none or none of its links exists.
pub fn manual_upload_configs(download: &DownloadConfig, templates: &Vec<UploadTemplate>) -> (r:
    Result<Vec<UploadConfig>, ManualError>)
    ensures
        download.linked_upload_ids@.len() == 0 ==> r == Err::<Vec<UploadConfig>, ManualError>(
            ManualError::NoLinkedTemplates,
        ),
        download.linked_upload_ids@.len() > 0 && linked_templates(
            download.linked_upload_ids@,
            templates@,
        ).len() == 0 ==> r == Err::<Vec<UploadConfig>, ManualError>(ManualError::TemplatesMissing),
        download.linked_upload_ids@.len() > 0 && linked_templates(
            download.linked_upload_ids@,
            templates@,
        ).len() > 0 ==> r is Ok,
        r is Ok ==> {
            let ix = linked_templates(download.linked_upload_ids@, templates@);
            &&& ix.len() > 0
            &&& r->Ok_0@.len() == ix.len()
            &&& forall|i: int|
                0 <= i < ix.len() ==> same_config(
                    #[trigger] r->Ok_0@[i],
                    templates@[ix[i]].config,
                )
        },
{
    if download.linked_upload_ids.len() == 0 {
        return Err(ManualError::NoLinkedTemplates);
    }
    let configs = resolve_upload_configs(&download.linked_upload_ids, templates);
    if configs.len() == 0 {
        return Err(ManualError::TemplatesMissing);
    }
    Ok(configs)
}

/// The cleanup flag of a publication by hand: the source's own setting where
/// it uses its own settings (off where it has none), else the global one.
pub fn manual_cleanup_flag(download: &DownloadConfig, global: &RecordingSettings) -> (r: bool)
    ensures
        r == (if download.use_custom_recording_settings {
            download.recording_settings matches Some(s) && s.auto_cleanup_after_upload
        } else {
            global.auto_cleanup_after_upload
        }),
{
    if download.use_custom_recording_settings {
        match &download.recording_settings {
            Some(s) => s.auto_cleanup_after_upload,
            None => false,
        }
    } else {
        global.auto_cleanup_after_upload
    }
}

/// The extension of a file name, as `Path::extension` reads it: the text after
/// the last `.`, where that `.` is not the name's first character.
pub open spec fn extension_of(name: Seq<char>) -> Option<Seq<char>> {
    if exists|i: int| 0 < i < name.len() && name[i] == '.' {
        let i = choose|i: int|
            0 < i < name.len() && name[i] == '.' && forall|j: int| i < j < name.len() ==> name[j]
                != '.';
        Some(name.subrange(i + 1, name.len() as int))
    } else {
        None
    }
}

/// A file name whose extension marks a recording: mp4, flv, mkv or ts, in any case.
pub open spec fn is_media_name(name: Seq<char>) -> bool {
    match extension_of(name) {
        Some(e) => {
            let l = ascii_lower_seq(e);
            l == "mp4"@ || l == "flv"@ || l == "mkv"@ || l == "ts"@
        },
        None => false,
    }
}

/// Whether `file_name` names a recording.
pub fn is_media_file(file_name: &str) -> (r: bool)
    ensures
        r == is_media_name(file_name@),
{
    let cs = chars_of(file_name);
    let n = cs.len();
    let mut i: usize = n;
    while i > 0 && cs[i - 1] != '.'
        invariant
            cs@ == file_name@,
            n == cs@.len(),
            i <= n,
            forall|j: int| i <= j < n ==> cs@[j] != '.',
        decreases i,
    {
        i -= 1;
    }
    if i <= 1 {
        assert(!exists|j: int| 0 < j < n && file_name@[j] == '.') by {
            if exists|j: int| 0 < j < n && file_name@[j] == '.' {
                let j = choose|j: int| 0 < j < n && file_name@[j] == '.';
                assert(j < i as int);
            }
        }
        return false;
    }
    let d = i - 1;
    proof {
        let k = choose|k: int|
            0 < k < n && file_name@[k] == '.' && forall|j: int| k < j < n ==> file_name@[j] != '.';
        assert(k == d as int) by {
            if k < d {
                assert(file_name@[d as int] == '.');
            }
            if k > d {
                assert(cs@[k] != '.');
            }
        }
    }
    let ext = file_name.substring_char(d + 1, n);
    let l = to_ascii_lower(ext);
    let s = crate::text::string_from_chars(&l);
    same_text(s.as_str(), "mp4") || same_text(s.as_str(), "flv") || same_text(s.as_str(), "mkv")
        || same_text(s.as_str(), "ts")
}

/// `a` comes before or equals `b` in code point order, as `str`'s `Ord` compares.
pub open spec fn text_le(a: Seq<char>, b: Seq<char>) -> bool
    decreases a.len(),
{
    if a.len() == 0 {
        true
    } else if b.len() == 0 {
        false
    } else if a[0] != b[0] {
        (a[0] as u32) < (b[0] as u32)
    } else {
        text_le(a.drop_first(), b.drop_first())
    }
}

/// Relies on `slice::sort` over `String`, whose order compares code points
/// lexicographically: the same strings, in ascending order.
#[verifier::external_body]
fn sort_texts(v: &mut Vec<String>)
    ensures
        texts(final(v)@).to_multiset() == texts(old(v)@).to_multiset(),
        forall|i: int, j: int|
            0 <= i < j < final(v)@.len() ==> text_le(final(v)@[i]@, final(v)@[j]@),
{
    v.sort();
}

/// The recordings to publish by hand: of the file `names` found in the
/// source's directory, those with a media extension, joined onto `dir`'s
/// entries `paths` in the same order, sorted ascending.
pub fn select_recordings(names: &Vec<String>, paths: &Vec<String>) -> (r: Result<
    Vec<String>,
    ManualError,
>)
    requires
        names@.len() == paths@.len(),
    ensures
        r matches Ok(v) ==> v@.len() > 0 && (forall|i: int, j: int|
            0 <= i < j < v@.len() ==> text_le(v@[i]@, v@[j]@)) && texts(v@).to_multiset()
            == texts(media_paths(names@, paths@)).to_multiset(),
        r matches Err(e) ==> e == ManualError::NoRecordings && media_paths(names@, paths@).len()
            == 0,
{
    let mut out: Vec<String> = Vec::new();
    let mut i: usize = 0;
    assert(names@.subrange(0, 0) =~= Seq::<String>::empty());
    while i < names.len()
        invariant
            names@.len() == paths@.len(),
            i <= names@.len(),
            out@ == media_paths(names@.subrange(0, i as int), paths@.subrange(0, i as int)),
        decreases names@.len() - i,
    {
        let ghost pn = names@.subrange(0, i + 1);
        let ghost pp = paths@.subrange(0, i + 1);
        assert(pn.drop_last() =~= names@.subrange(0, i as int));
        assert(pp.drop_last() =~= paths@.subrange(0, i as int));
        if is_media_file(names[i].as_str()) {
            out.push(paths[i].clone());
        }
        i += 1;
    }
    assert(names@.subrange(0, names@.len() as int) =~= names@);
    assert(paths@.subrange(0, paths@.len() as int) =~= paths@);
    if out.len() == 0 {
        return Err(ManualError::NoRecordings);
    }
    let ghost before = out@;
    sort_texts(&mut out);
    proof {
        texts(before).to_multiset_ensures();
        texts(out@).to_multiset_ensures();
        assert(texts(out@).len() == out@.len());
        assert(texts(before).len() == before.len());
    }
    Ok(out)
}

/// The paths whose file names are recordings, in order.
pub open spec fn media_paths(names: Seq<String>, paths: Seq<String>) -> Seq<String>
    decreases names.len(),
{
    if names.len() == 0 || paths.len() == 0 {
        Seq::empty()
    } else {
        let rest = media_paths(names.drop_last(), paths.drop_last());
        if is_media_name(names.last()@) {
            rest.push(paths.last())
        } else {
            rest
        }
    }
}

/// The id a publication run made by hand goes under: no task carries it.
pub fn manual_task_id() -> (r: String)
    ensures
        r@.len() == 50,
        r@.subrange(0, 14) == "manual-upload-"@,
{
    let id = new_task_id();
    proof {
        reveal_strlit("manual-upload-");
    }
    let r = owned("manual-upload-").concat(id.as_str());
    assert(r@.subrange(0, 14) =~= "manual-upload-"@);
    r
}

} // verus!
