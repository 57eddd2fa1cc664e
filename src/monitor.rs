//! The liveness monitor's decisions: which profiles a new task carries, how
//! tasks are created, and the status label of a source.

use vstd::prelude::*;
use vstd::string::*;
use crate::model::{CreateTaskRequest, StreamTask, TaskStatus, UploadConfig, UploadTemplate, same_config, DownloadConfig};
use crate::registry::{url_busy, Registries};
use crate::text::{owned, same_text};

verus! {

/// Seconds between two monitor ticks.
pub const MONITOR_INTERVAL_SECS: u64 = 60;

/// Relies on `uuid::Uuid::new_v4` and its `Display`: a random id in the
/// 36-character hyphenated form.
#[verifier::external_body]
pub(crate) fn new_task_id() -> (r: String)
    ensures
        r@.len() == 36,
{
    uuid::Uuid::new_v4().to_string()
}

/// The index of the first template with id `id`, if any.
pub open spec fn first_with_id(ts: Seq<UploadTemplate>, id: Seq<char>) -> Option<int>
    decreases ts.len(),
{
    if ts.len() == 0 {
        None
    } else {
        match first_with_id(ts.drop_last(), id) {
            Some(i) => Some(i),
            None => if ts.last().id@ == id {
                Some(ts.len() - 1)
            } else {
                None
            },
        }
    }
}

/// For each linked id in order, the template it names; ids that name none are dropped.
pub open spec fn linked_templates(linked: Seq<String>, ts: Seq<UploadTemplate>) -> Seq<int>
    decreases linked.len(),
{
    if linked.len() == 0 {
        Seq::empty()
    } else {
        let rest = linked_templates(linked.drop_last(), ts);
        match first_with_id(ts, linked.last()@) {
            Some(i) => rest.push(i),
            None => rest,
        }
    }
}

fn find_template(templates: &Vec<UploadTemplate>, id: &str) -> (r: Option<usize>)
    ensures
        r matches Some(i) ==> first_with_id(templates@, id@) == Some(i as int) && i
            < templates@.len(),
        r is None ==> first_with_id(templates@, id@) is None,
{
    let mut k: usize = 0;
    assert(templates@.subrange(0, 0) =~= Seq::<UploadTemplate>::empty());
    while k < templates.len()
        invariant
            k <= templates@.len(),
            first_with_id(templates@.subrange(0, k as int), id@) is None,
        decreases templates@.len() - k,
    {
        let ghost pre = templates@.subrange(0, k + 1);
        assert(pre.drop_last() =~= templates@.subrange(0, k as int));
        if same_text(templates[k].id.as_str(), id) {
            proof {
                lemma_prefix_keeps_first(templates@, id@, k + 1);
            }
            return Some(k);
        }
        k += 1;
    }
    assert(templates@.subrange(0, templates@.len() as int) =~= templates@);
    None
}

proof fn lemma_prefix_keeps_first(ts: Seq<UploadTemplate>, id: Seq<char>, n: int)
    requires
        0 <= n <= ts.len(),
        first_with_id(ts.subrange(0, n), id) is Some,
    ensures
        first_with_id(ts, id) == first_with_id(ts.subrange(0, n), id),
    decreases ts.len() - n,
{
    if n < ts.len() {
        let p = ts.subrange(0, n + 1);
        assert(p.drop_last() =~= ts.subrange(0, n));
        lemma_prefix_keeps_first(ts, id, n + 1);
    } else {
        assert(ts.subrange(0, n) =~= ts);
    }
}

/// The destination profiles a task for a source carries: for each linked id
/// in order, the settings of the first profile with that id.
pub fn resolve_upload_configs(linked: &Vec<String>, templates: &Vec<UploadTemplate>) -> (r: Vec<
    UploadConfig,
>)
    ensures
        r@.len() == linked_templates(linked@, templates@).len(),
        forall|i: int|
            0 <= i < r@.len() ==> same_config(
                #[trigger] r@[i],
                templates@[linked_templates(linked@, templates@)[i]].config,
            ),
{
    let mut out: Vec<UploadConfig> = Vec::new();
    let mut i: usize = 0;
    assert(linked@.subrange(0, 0) =~= Seq::<String>::empty());
    while i < linked.len()
        invariant
            i <= linked@.len(),
            out@.len() == linked_templates(linked@.subrange(0, i as int), templates@).len(),
            forall|j: int|
                0 <= j < out@.len() ==> same_config(
                    #[trigger] out@[j],
                    templates@[linked_templates(linked@.subrange(0, i as int), templates@)[j]].config,
                ),
        decreases linked@.len() - i,
    {
        let ghost pre = linked@.subrange(0, i + 1);
        assert(pre.drop_last() =~= linked@.subrange(0, i as int));
        match find_template(templates, linked[i].as_str()) {
            Some(k) => {
                let c = templates[k].config.copied();
                out.push(c);
            },
            None => {},
        }
        i += 1;
    }
    assert(linked@.subrange(0, linked@.len() as int) =~= linked@);
    out
}

/// The file name a monitor-created task starts with.
pub open spec fn monitor_filename(name: Seq<char>, id: Seq<char>) -> Seq<char> {
    name + "-"@ + id + ".mp4"@
}

/// From `a` to `b` exactly one task was added, under the fresh id `id`: an
/// idle task for `download` carrying a snapshot of its linked profiles.
pub open spec fn monitor_task_added(
    a: Registries,
    b: Registries,
    download: DownloadConfig,
    templates: Seq<UploadTemplate>,
    id: Seq<char>,
) -> bool {
    let t = b.tasks()[id];
    let ix = linked_templates(download.linked_upload_ids@, templates);
    &&& !a.tasks().contains_key(id)
    &&& b.tasks() == a.tasks().insert(id, t)
    &&& t.id@ == id
    &&& t.name@ == download.name@
    &&& t.url@ == download.url@
    &&& t.status is Idle
    &&& t.filename@ == monitor_filename(download.name@, id)
    &&& t.upload_configs@.len() == ix.len()
    &&& forall|i: int|
        0 <= i < ix.len() ==> same_config(#[trigger] t.upload_configs@[i], templates[ix[i]].config)
}

/// No held task id has the length of a new random id.
pub open spec fn no_random_ids(a: Registries) -> bool {
    forall|k: Seq<char>| #[trigger] a.tasks().contains_key(k) ==> k.len() != 36
}

/// Creates an idle task for a live source, carrying a snapshot of the
/// source's linked profiles, and returns its id. Where the new random id is
/// already held nothing is created and that id is returned as the error.
pub fn create_monitor_task(
    regs: &mut Registries,
    download: &DownloadConfig,
    templates: &Vec<UploadTemplate>,
) -> (r: Result<String, String>)
    requires
        old(regs).wf(),
    ensures
        final(regs).wf(),
        final(regs).handle_ids() == old(regs).handle_ids(),
        final(regs).checking() == old(regs).checking(),
        r matches Ok(id) ==> monitor_task_added(*old(regs), *final(regs), *download, templates@, id@),
        r matches Err(id) ==> old(regs).tasks().contains_key(id@) && id@.len() == 36
            && final(regs).tasks() == old(regs).tasks(),
        no_random_ids(*old(regs)) ==> r is Ok,
{
    let id = new_task_id();
    let filename = download.name.clone().concat("-").concat(id.as_str()).concat(".mp4");
    let task = StreamTask {
        id: id.clone(),
        name: download.name.clone(),
        url: download.url.clone(),
        status: TaskStatus::Idle,
        filename,
        upload_configs: resolve_upload_configs(&download.linked_upload_ids, templates),
    };
    if regs.add_task(task) {
        Ok(id)
    } else {
        Err(id)
    }
}

/// Creates an idle task from a request made by hand, with no destination
/// profiles, and returns its id. Where the new random id is already held
/// nothing is created and that id is returned as the error.
pub fn create_manual_task(regs: &mut Registries, req: CreateTaskRequest) -> (r: Result<String, String>)
    requires
        old(regs).wf(),
    ensures
        final(regs).wf(),
        final(regs).handle_ids() == old(regs).handle_ids(),
        final(regs).checking() == old(regs).checking(),
        r matches Ok(id) ==> {
            let t = final(regs).tasks()[id@];
            &&& !old(regs).tasks().contains_key(id@)
            &&& final(regs).tasks() == old(regs).tasks().insert(id@, t)
            &&& t.id@ == id@
            &&& t.name@ == req.name@
            &&& t.url@ == req.url@
            &&& t.status is Idle
            &&& t.filename@ == id@ + ".mp4"@
            &&& t.upload_configs@.len() == 0
        },
        r matches Err(id) ==> old(regs).tasks().contains_key(id@) && id@.len() == 36
            && final(regs).tasks() == old(regs).tasks(),
        no_random_ids(*old(regs)) ==> r is Ok,
{
    let id = new_task_id();
    let filename = id.clone().concat(".mp4");
    let task = StreamTask {
        id: id.clone(),
        name: req.name,
        url: req.url,
        status: TaskStatus::Idle,
        filename,
        upload_configs: Vec::new(),
    };
    if regs.add_task(task) {
        Ok(id)
    } else {
        Err(id)
    }
}

/// The start of a source's turn in a monitor tick: a source with a busy
/// task is skipped; any other is marked as being probed.
pub fn begin_probe(regs: &mut Registries, url: &str) -> (r: bool)
    requires
        old(regs).wf(),
    ensures
        final(regs).wf(),
        r == !url_busy(old(regs).tasks(), url@),
        final(regs).checking() == (if r {
            old(regs).checking().insert(url@)
        } else {
            old(regs).checking()
        }),
        final(regs).tasks() == old(regs).tasks(),
        final(regs).handle_ids() == old(regs).handle_ids(),
{
    if regs.is_url_busy(url) {
        return false;
    }
    regs.mark_checking(owned(url));
    true
}

/// The answer of the liveness probe for `download`: a live source gets a new
/// task, as `create_monitor_task` makes it (`Ok(Some(id))`, or `Err(id)` where
/// the random id was already held); an offline source, or a failed probe,
/// gets nothing (`Ok(None)`).
pub fn admit_if_live(
    regs: &mut Registries,
    download: &DownloadConfig,
    templates: &Vec<UploadTemplate>,
    live: &Result<bool, String>,
) -> (r: Result<Option<String>, String>)
    requires
        old(regs).wf(),
    ensures
        final(regs).wf(),
        final(regs).handle_ids() == old(regs).handle_ids(),
        final(regs).checking() == old(regs).checking(),
        !(live matches Ok(true)) ==> (r matches Ok(None) && final(regs).tasks() == old(regs).tasks()),
        live matches Ok(true) ==> !(r matches Ok(None)),
        r matches Ok(Some(id)) ==> monitor_task_added(
            *old(regs),
            *final(regs),
            *download,
            templates@,
            id@,
        ),
        r matches Err(id) ==> old(regs).tasks().contains_key(id@) && id@.len() == 36
            && final(regs).tasks() == old(regs).tasks(),
        live matches Ok(true) && no_random_ids(*old(regs)) ==> r matches Ok(Some(_)),
{
    match live {
        Ok(true) => match create_monitor_task(regs, download, templates) {
            Ok(id) => Ok(Some(id)),
            Err(id) => Err(id),
        },
        _ => Ok(None),
    }
}

/// Some task for `url` has a status of the given kind.
pub open spec fn url_has(t: Map<Seq<char>, StreamTask>, url: Seq<char>, kind: int) -> bool {
    exists|k: Seq<char>|
        #[trigger] t.contains_key(k) && t[k].url@ == url && status_kind(t[k].status) == kind
}

/// 0 idle, 1 recording, 2 uploading, 3 completed, 4 error.
pub open spec fn status_kind(s: TaskStatus) -> int {
    match s {
        TaskStatus::Idle => 0,
        TaskStatus::Recording => 1,
        TaskStatus::Uploading => 2,
        TaskStatus::Completed => 3,
        TaskStatus::Error(_) => 4,
    }
}

fn kind_of(s: &TaskStatus) -> (r: u8)
    ensures
        r as int == status_kind(*s),
{
    match s {
        TaskStatus::Idle => 0,
        TaskStatus::Recording => 1,
        TaskStatus::Uploading => 2,
        TaskStatus::Completed => 3,
        TaskStatus::Error(_) => 4,
    }
}

/// The label shown for a source: recording, uploading, being probed, failed,
/// completed or idle, in that order of precedence.
pub open spec fn source_label(
    t: Map<Seq<char>, StreamTask>,
    checking: Set<Seq<char>>,
    url: Seq<char>,
) -> Seq<char> {
    if url_has(t, url, 1) {
        "下载中"@
    } else if url_has(t, url, 2) {
        "上传中"@
    } else if checking.contains(url) {
        "检测中"@
    } else if url_has(t, url, 4) {
        "失败"@
    } else if url_has(t, url, 3) {
        "已完成"@
    } else {
        "空闲"@
    }
}

/// The label shown for the source at `url`.
pub fn resolve_download_status(regs: &Registries, url: &str) -> (r: String)
    requires
        regs.wf(),
    ensures
        r@ == source_label(regs.tasks(), regs.checking(), url@),
{
    let all = regs.list_tasks();
    let mut seen: [bool; 5] = [false, false, false, false, false];
    let mut i: usize = 0;
    while i < all.len()
        invariant
            i <= all@.len(),
            forall|j: int| 0 <= j < all@.len() ==> regs.tasks().contains_key(#[trigger] all@[j].id@)
                && regs.tasks()[all@[j].id@] == all@[j],
            forall|q: int|
                0 <= q < 5 ==> (seen@[q] <==> exists|j: int|
                    0 <= j < i && #[trigger] all@[j].url@ == url@ && status_kind(all@[j].status) == q),
        decreases all@.len() - i,
    {
        if same_text(all[i].url.as_str(), url) {
            let q = kind_of(&all[i].status) as usize;
            seen.set(q, true);
        }
        i += 1;
    }
    proof {
        assert forall|q: int| 0 <= q < 5 implies (seen@[q] <==> url_has(regs.tasks(), url@, q)) by {
            if seen@[q] {
                let j = choose|j: int|
                    0 <= j < i && #[trigger] all@[j].url@ == url@ && status_kind(all@[j].status) == q;
                assert(regs.tasks().contains_key(all@[j].id@));
            }
            if url_has(regs.tasks(), url@, q) {
                let k = choose|k: Seq<char>|
                    #[trigger] regs.tasks().contains_key(k) && regs.tasks()[k].url@ == url@
                        && status_kind(regs.tasks()[k].status) == q;
                let j = choose|j: int| 0 <= j < all@.len() && #[trigger] all@[j] == regs.tasks()[k];
                assert(all@[j].url@ == url@);
            }
        }
    }
    if seen[1] {
        owned("下载中")
    } else if seen[2] {
        owned("上传中")
    } else if regs.is_checking(url) {
        owned("检测中")
    } else if seen[4] {
        owned("失败")
    } else if seen[3] {
        owned("已完成")
    } else {
        owned("空闲")
    }
}

} // verus!
