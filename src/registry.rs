//! The task registry and the cancellation registry: concurrent maps from task
//! id to task state and to the handle that stops the task's recorder job,
//! together with the set of source urls being probed.

use vstd::prelude::*;
use dashmap::DashMap;
use tokio::task::AbortHandle;
use crate::model::{StreamTask, TaskStatus};
use crate::text::{owned, same_text};

verus! {

/// dashmap's concurrent hash map, held opaque: what a map holds is named below.
#[verifier::external_type_specification]
#[verifier::external_body]
#[verifier::reject_recursive_types(K)]
#[verifier::reject_recursive_types(V)]
#[verifier::reject_recursive_types(S)]
pub struct ExDashMap<K, V, S>(DashMap<K, V, S>);

/// tokio's handle that aborts a spawned task.
#[verifier::external_type_specification]
#[verifier::external_body]
pub struct ExAbortHandle(AbortHandle);

/// Relies on `tokio::task::AbortHandle::abort`: asks the runtime to stop the
/// task at its next suspension point; it never blocks.
pub assume_specification[ AbortHandle::abort ](h: &AbortHandle);

/// The capability that stops a running recorder job.
pub struct RecorderHandle {
    pub abort_handle: AbortHandle,
}

/// The map under the task registry.
pub type TaskMap = DashMap<String, StreamTask>;

/// The map under the cancellation registry.
pub type HandleMap = DashMap<String, RecorderHandle>;

/// The map under the set of urls being probed.
pub type CheckMap = DashMap<String, ()>;

/// The tasks a task map holds, by id.
pub uninterp spec fn task_entries(m: TaskMap) -> Map<Seq<char>, StreamTask>;

/// The task ids a handle map holds a handle for.
pub uninterp spec fn handle_ids(m: HandleMap) -> Set<Seq<char>>;

/// The urls a check map holds.
pub uninterp spec fn checking_urls(m: CheckMap) -> Set<Seq<char>>;

/// Relies on `DashMap::new`: a new map is empty.
#[verifier::external_body]
fn new_task_map() -> (r: TaskMap)
    ensures
        task_entries(r).dom() == Set::<Seq<char>>::empty(),
{
    DashMap::new()
}

/// Relies on `DashMap::insert`: the key now maps to the value, other keys are untouched.
#[verifier::external_body]
fn task_map_insert(m: &mut TaskMap, id: String, task: StreamTask)
    ensures
        task_entries(*final(m)) == task_entries(*old(m)).insert(id@, task),
{
    m.insert(id, task);
}

/// Relies on `DashMap::get`: a copy of the task stored under `id`, if any.
#[verifier::external_body]
fn task_map_get(m: &TaskMap, id: &str) -> (r: Option<StreamTask>)
    ensures
        r is Some <==> task_entries(*m).contains_key(id@),
        r is Some ==> r->0 == task_entries(*m)[id@],
{
    m.get(id).map(|e| e.value().clone())
}

/// `x` is the task stored under some id of `t`.
pub open spec fn stored(t: Map<Seq<char>, StreamTask>, x: StreamTask) -> bool {
    exists|k: Seq<char>| t.contains_key(k) && t[k] == x
}

/// `x` is one of the tasks of `v`.
pub open spec fn listed(v: Seq<StreamTask>, x: StreamTask) -> bool {
    exists|i: int| 0 <= i < v.len() && v[i] == x
}

/// Relies on `DashMap::iter`: a copy of every stored task, each entry once.
#[verifier::external_body]
fn task_map_values(m: &TaskMap) -> (r: Vec<StreamTask>)
    ensures
        forall|i: int| 0 <= i < r@.len() ==> stored(task_entries(*m), #[trigger] r@[i]),
        forall|k: Seq<char>| #[trigger]
            task_entries(*m).contains_key(k) ==> listed(r@, task_entries(*m)[k]),
{
    m.iter().map(|e| e.value().clone()).collect()
}

/// Replaces the status of the task under `id`, if there is one.
fn task_map_set_status(m: &mut TaskMap, id: &str, status: TaskStatus)
    ensures
        task_entries(*final(m)) == with_status(task_entries(*old(m)), id@, status),
{
    if let Some(t) = task_map_get(m, id) {
        task_map_insert(m, owned(id), StreamTask { status, ..t });
    }
}

/// Replaces the file name of the task under `id`, if there is one.
fn task_map_set_filename(m: &mut TaskMap, id: &str, filename: String)
    ensures
        task_entries(*final(m)) == (if task_entries(*old(m)).contains_key(id@) {
            task_entries(*old(m)).insert(
                id@,
                StreamTask { filename: filename, ..task_entries(*old(m))[id@] },
            )
        } else {
            task_entries(*old(m))
        }),
{
    if let Some(t) = task_map_get(m, id) {
        task_map_insert(m, owned(id), StreamTask { filename, ..t });
    }
}

/// Relies on `DashMap::new`: a new map is empty.
#[verifier::external_body]
fn new_handle_map() -> (r: HandleMap)
    ensures
        handle_ids(r) == Set::<Seq<char>>::empty(),
{
    DashMap::new()
}

/// Relies on `DashMap::insert`: the id now has a handle.
#[verifier::external_body]
fn handle_map_insert(m: &mut HandleMap, id: String, h: RecorderHandle)
    ensures
        handle_ids(*final(m)) == handle_ids(*old(m)).insert(id@),
{
    m.insert(id, h);
}

/// Relies on `DashMap::remove`: takes the handle out, if there is one.
#[verifier::external_body]
fn handle_map_remove(m: &mut HandleMap, id: &str) -> (r: Option<RecorderHandle>)
    ensures
        r is Some <==> handle_ids(*old(m)).contains(id@),
        handle_ids(*final(m)) == handle_ids(*old(m)).remove(id@),
{
    m.remove(id).map(|(_, h)| h)
}

/// Relies on `DashMap::contains_key`.
#[verifier::external_body]
fn handle_map_contains(m: &HandleMap, id: &str) -> (r: bool)
    ensures
        r == handle_ids(*m).contains(id@),
{
    m.contains_key(id)
}

/// Relies on `DashMap::new`: a new map is empty.
#[verifier::external_body]
fn new_check_map() -> (r: CheckMap)
    ensures
        checking_urls(r) == Set::<Seq<char>>::empty(),
{
    DashMap::new()
}

/// Relies on `DashMap::insert`: the url is now in the map.
#[verifier::external_body]
fn check_map_insert(m: &mut CheckMap, url: String)
    ensures
        checking_urls(*final(m)) == checking_urls(*old(m)).insert(url@),
{
    m.insert(url, ());
}

/// Relies on `DashMap::remove`: the url is no longer in the map.
#[verifier::external_body]
fn check_map_remove(m: &mut CheckMap, url: &str)
    ensures
        checking_urls(*final(m)) == checking_urls(*old(m)).remove(url@),
{
    m.remove(url);
}

/// Relies on `DashMap::contains_key`.
#[verifier::external_body]
fn check_map_contains(m: &CheckMap, url: &str) -> (r: bool)
    ensures
        r == checking_urls(*m).contains(url@),
{
    m.contains_key(url)
}

/// Task `k` is held, owned by a recorder job or a publication run.
pub open spec fn busy_at(t: Map<Seq<char>, StreamTask>, k: Seq<char>) -> bool {
    t.contains_key(k) && t[k].status.is_busy()
}

/// Some task for `url` is held and busy.
pub open spec fn url_busy(t: Map<Seq<char>, StreamTask>, url: Seq<char>) -> bool {
    exists|k: Seq<char>| #[trigger] busy_at(t, k) && t[k].url@ == url
}

/// No two busy tasks share a source url.
pub open spec fn single_capture(t: Map<Seq<char>, StreamTask>) -> bool {
    forall|a: Seq<char>, b: Seq<char>|
        #[trigger] busy_at(t, a) && #[trigger] busy_at(t, b) && t[a].url@ == t[b].url@ ==> a == b
}

/// `t` with the status of task `id`, if it is held, replaced by `s`.
pub open spec fn with_status(t: Map<Seq<char>, StreamTask>, id: Seq<char>, s: TaskStatus) -> Map<
    Seq<char>,
    StreamTask,
> {
    if t.contains_key(id) {
        t.insert(id, StreamTask { status: s, ..t[id] })
    } else {
        t
    }
}

/// What one invocation of a task's cancellation handle did, from `a` to `b`:
/// `r` tells whether the task had a handle; the handle is gone afterwards, and
/// a task that had one is back to `Idle`.
pub open spec fn cancelled(a: Registries, b: Registries, id: Seq<char>, r: bool) -> bool {
    &&& r == a.handle_ids().contains(id)
    &&& b.handle_ids() == a.handle_ids().remove(id)
    &&& b.tasks() == (if r {
        with_status(a.tasks(), id, TaskStatus::Idle)
    } else {
        a.tasks()
    })
    &&& b.checking() == a.checking()
}

/// The reason a restored task carries when its job was lost.
pub open spec fn interrupted_text() -> Seq<char> {
    "Interrupted: the process stopped before the task finished"@
}

/// The live state of the engine: tasks by id, cancellation handles by task id,
/// and the urls being probed right now.
pub struct Registries {
    tasks: TaskMap,
    handles: HandleMap,
    checking: CheckMap,
}

impl Registries {
    /// The tasks, by id.
    pub closed spec fn tasks(&self) -> Map<Seq<char>, StreamTask> {
        task_entries(self.tasks)
    }

    /// The ids of the tasks whose recorder job can be cancelled.
    pub closed spec fn handle_ids(&self) -> Set<Seq<char>> {
        handle_ids(self.handles)
    }

    /// The urls being probed.
    pub closed spec fn checking(&self) -> Set<Seq<char>> {
        checking_urls(self.checking)
    }

    /// Each task is stored under its own id, no two busy tasks share a url,
    /// and only busy tasks have a cancellation handle.
    pub open spec fn wf(&self) -> bool {
        &&& forall|k: Seq<char>| #[trigger]
            self.tasks().contains_key(k) ==> self.tasks()[k].id@ == k
        &&& single_capture(self.tasks())
        &&& forall|k: Seq<char>| #[trigger]
            self.handle_ids().contains(k) ==> busy_at(self.tasks(), k)
    }

    /// Empty registries.
    pub fn new() -> (r: Registries)
        ensures
            r.wf(),
            r.tasks().dom() == Set::<Seq<char>>::empty(),
            r.handle_ids() == Set::<Seq<char>>::empty(),
            r.checking() == Set::<Seq<char>>::empty(),
    {
        Registries { tasks: new_task_map(), handles: new_handle_map(), checking: new_check_map() }
    }

    /// A copy of the task with id `id`, if there is one.
    pub fn task(&self, id: &str) -> (r: Option<StreamTask>)
        ensures
            r is Some <==> self.tasks().contains_key(id@),
            r is Some ==> r->0 == self.tasks()[id@],
    {
        task_map_get(&self.tasks, id)
    }

    /// Copies of all tasks, in no particular order.
    pub fn list_tasks(&self) -> (r: Vec<StreamTask>)
        requires
            self.wf(),
        ensures
            forall|i: int| 0 <= i < r@.len() ==> self.tasks().contains_key(#[trigger] r@[i].id@)
                && self.tasks()[r@[i].id@] == r@[i],
            forall|k: Seq<char>| #[trigger]
                self.tasks().contains_key(k) ==> exists|i: int|
                    0 <= i < r@.len() && #[trigger] r@[i] == self.tasks()[k],
    {
        let r = task_map_values(&self.tasks);
        assert forall|i: int| 0 <= i < r@.len() implies self.tasks().contains_key(
            #[trigger] r@[i].id@,
        ) && self.tasks()[r@[i].id@] == r@[i] by {
            assert(stored(self.tasks(), r@[i]));
            let k = choose|k: Seq<char>| self.tasks().contains_key(k) && self.tasks()[k] == r@[i];
            assert(self.tasks()[k].id@ == k);
        }
        assert forall|k: Seq<char>| #[trigger]
            self.tasks().contains_key(k) implies exists|i: int|
                0 <= i < r@.len() && #[trigger] r@[i] == self.tasks()[k] by {
            assert(listed(r@, self.tasks()[k]));
        }
        r
    }

    /// Adds `task` under its id, unless that id is taken or the task is busy
    /// while another busy task has its url.
    pub fn add_task(&mut self, task: StreamTask) -> (r: bool)
        requires
            old(self).wf(),
        ensures
            final(self).wf(),
            r == (!old(self).tasks().contains_key(task.id@) && (!task.status.is_busy()
                || !url_busy(old(self).tasks(), task.url@))),
            final(self).tasks() == (if r {
                old(self).tasks().insert(task.id@, task)
            } else {
                old(self).tasks()
            }),
            final(self).handle_ids() == old(self).handle_ids(),
            final(self).checking() == old(self).checking(),
    {
        if task_map_get(&self.tasks, task.id.as_str()).is_some() {
            return false;
        }
        if task.status.busy() && self.is_url_busy(task.url.as_str()) {
            return false;
        }
        let ghost t0 = self.tasks();
        let id = task.id.clone();
        task_map_insert(&mut self.tasks, id, task);
        proof {
            let t1 = self.tasks();
            assert forall|a: Seq<char>, b: Seq<char>|
                #[trigger] busy_at(t1, a) && #[trigger] busy_at(t1, b) && t1[a].url@ == t1[b].url@
                    implies a == b by {
                if a != task.id@ && b != task.id@ {
                    assert(busy_at(t0, a) && busy_at(t0, b));
                } else if a == task.id@ && b != task.id@ {
                    assert(busy_at(t0, b));
                } else if a != task.id@ && b == task.id@ {
                    assert(busy_at(t0, a));
                }
            }
            assert forall|k: Seq<char>| #[trigger] self.handle_ids().contains(k) implies busy_at(
                t1,
                k,
            ) by {
                assert(old(self).handle_ids().contains(k));
                assert(busy_at(t0, k));
            }
        }
        true
    }

    /// Brings back a task read from storage, unless its id is held already. A
    /// task stored as recording or uploading lost its job with the process
    /// that ran it: it comes back as an error with `interrupted_text` as reason.
    pub fn restore_task(&mut self, task: StreamTask) -> (r: bool)
        requires
            old(self).wf(),
        ensures
            final(self).wf(),
            r == !old(self).tasks().contains_key(task.id@),
            final(self).handle_ids() == old(self).handle_ids(),
            final(self).checking() == old(self).checking(),
            !r ==> final(self).tasks() == old(self).tasks(),
            r ==> {
                let t = final(self).tasks()[task.id@];
                &&& final(self).tasks() == old(self).tasks().insert(task.id@, t)
                &&& t == (StreamTask { status: t.status, ..task })
                &&& if task.status.is_busy() {
                    t.status matches TaskStatus::Error(m) && m@ == interrupted_text()
                } else {
                    t.status == task.status
                }
            },
    {
        let busy = task.status.busy();
        let status = if busy {
            TaskStatus::Error(owned("Interrupted: the process stopped before the task finished"))
        } else {
            task.status.copied()
        };
        let ghost before = task;
        let back = StreamTask { status, ..task };
        assert(back == (StreamTask { status: back.status, ..before }));
        self.add_task(back)
    }

    /// Marks task `id` as recording, unless it is not held or some busy task
    /// (itself included) already has its url.
    pub fn begin_recording(&mut self, id: &str) -> (r: bool)
        requires
            old(self).wf(),
        ensures
            final(self).wf(),
            r == (old(self).tasks().contains_key(id@) && !url_busy(
                old(self).tasks(),
                old(self).tasks()[id@].url@,
            )),
            final(self).tasks() == (if r {
                with_status(old(self).tasks(), id@, TaskStatus::Recording)
            } else {
                old(self).tasks()
            }),
            final(self).handle_ids() == old(self).handle_ids(),
            final(self).checking() == old(self).checking(),
    {
        let task = match task_map_get(&self.tasks, id) {
            Some(t) => t,
            None => return false,
        };
        if self.is_url_busy(task.url.as_str()) {
            return false;
        }
        let ghost t0 = self.tasks();
        task_map_set_status(&mut self.tasks, id, TaskStatus::Recording);
        proof {
            let t1 = self.tasks();
            assert forall|a: Seq<char>, b: Seq<char>|
                #[trigger] busy_at(t1, a) && #[trigger] busy_at(t1, b) && t1[a].url@ == t1[b].url@
                    implies a == b by {
                if a != id@ && b != id@ {
                    assert(busy_at(t0, a) && busy_at(t0, b));
                } else if a == id@ && b != id@ {
                    assert(busy_at(t0, b));
                } else if a != id@ && b == id@ {
                    assert(busy_at(t0, a));
                }
            }
            assert forall|k: Seq<char>| #[trigger] self.handle_ids().contains(k) implies busy_at(
                t1,
                k,
            ) by {
                assert(old(self).handle_ids().contains(k));
                assert(busy_at(t0, k));
            }
        }
        true
    }

    /// Records `h` as the cancellation handle of task `id`, if that task is busy.
    pub fn register_handle(&mut self, id: String, h: RecorderHandle) -> (r: bool)
        requires
            old(self).wf(),
        ensures
            final(self).wf(),
            r == busy_at(old(self).tasks(), id@),
            final(self).handle_ids() == (if r {
                old(self).handle_ids().insert(id@)
            } else {
                old(self).handle_ids()
            }),
            final(self).tasks() == old(self).tasks(),
            final(self).checking() == old(self).checking(),
    {
        let busy = match task_map_get(&self.tasks, id.as_str()) {
            Some(t) => t.status.busy(),
            None => false,
        };
        if busy {
            handle_map_insert(&mut self.handles, id, h);
            assert forall|k: Seq<char>| #[trigger] self.handle_ids().contains(k) implies busy_at(
                self.tasks(),
                k,
            ) by {
                if k != id@ {
                    assert(old(self).handle_ids().contains(k));
                }
            }
        }
        busy
    }

    /// Whether task `id` has a cancellation handle.
    pub fn has_handle(&self, id: &str) -> (r: bool)
        ensures
            r == self.handle_ids().contains(id@),
    {
        handle_map_contains(&self.handles, id)
    }

    /// Records `filename` as the segment task `id` is writing.
    pub fn set_filename(&mut self, id: &str, filename: String)
        requires
            old(self).wf(),
        ensures
            final(self).wf(),
            final(self).tasks() == (if old(self).tasks().contains_key(id@) {
                old(self).tasks().insert(id@, StreamTask { filename: filename, ..old(self).tasks()[id@] })
            } else {
                old(self).tasks()
            }),
            final(self).handle_ids() == old(self).handle_ids(),
            final(self).checking() == old(self).checking(),
    {
        let ghost t0 = self.tasks();
        task_map_set_filename(&mut self.tasks, id, filename);
        proof {
            let t1 = self.tasks();
            assert forall|a: Seq<char>, b: Seq<char>|
                #[trigger] busy_at(t1, a) && #[trigger] busy_at(t1, b) && t1[a].url@ == t1[b].url@
                    implies a == b by {
                assert(busy_at(t0, a) && busy_at(t0, b));
            }
            assert forall|k: Seq<char>| #[trigger] self.handle_ids().contains(k) implies busy_at(
                t1,
                k,
            ) by {
                assert(old(self).handle_ids().contains(k));
                assert(busy_at(t0, k));
            }
        }
    }

    /// Marks a busy task `id` as uploading; any other task is left as it is.
    pub fn begin_upload(&mut self, id: &str)
        requires
            old(self).wf(),
        ensures
            final(self).wf(),
            final(self).tasks() == (if busy_at(old(self).tasks(), id@) {
                with_status(old(self).tasks(), id@, TaskStatus::Uploading)
            } else {
                old(self).tasks()
            }),
            final(self).handle_ids() == old(self).handle_ids(),
            final(self).checking() == old(self).checking(),
    {
        let busy = match task_map_get(&self.tasks, id) {
            Some(t) => t.status.busy(),
            None => false,
        };
        if !busy {
            return;
        }
        let ghost t0 = self.tasks();
        task_map_set_status(&mut self.tasks, id, TaskStatus::Uploading);
        proof {
            let t1 = self.tasks();
            assert forall|a: Seq<char>, b: Seq<char>|
                #[trigger] busy_at(t1, a) && #[trigger] busy_at(t1, b) && t1[a].url@ == t1[b].url@
                    implies a == b by {
                assert(busy_at(t0, a) && busy_at(t0, b));
            }
            assert forall|k: Seq<char>| #[trigger] self.handle_ids().contains(k) implies busy_at(
                t1,
                k,
            ) by {
                assert(old(self).handle_ids().contains(k));
                assert(busy_at(t0, k));
            }
        }
    }

    /// Gives task `id` its final status and drops its cancellation handle:
    /// the one point where a task's run ends.
    pub fn finish(&mut self, id: &str, status: TaskStatus)
        requires
            old(self).wf(),
            !status.is_busy(),
        ensures
            final(self).wf(),
            final(self).tasks() == with_status(old(self).tasks(), id@, status),
            final(self).handle_ids() == old(self).handle_ids().remove(id@),
            final(self).checking() == old(self).checking(),
    {
        let ghost t0 = self.tasks();
        let ghost s = status;
        task_map_set_status(&mut self.tasks, id, status);
        let _ = handle_map_remove(&mut self.handles, id);
        proof {
            let t1 = self.tasks();
            assert forall|a: Seq<char>, b: Seq<char>|
                #[trigger] busy_at(t1, a) && #[trigger] busy_at(t1, b) && t1[a].url@ == t1[b].url@
                    implies a == b by {
                assert(busy_at(t0, a) && busy_at(t0, b));
            }
            assert forall|k: Seq<char>| #[trigger] self.handle_ids().contains(k) implies busy_at(
                t1,
                k,
            ) by {
                assert(old(self).handle_ids().contains(k));
                assert(busy_at(t0, k));
            }
        }
    }

    /// Invokes the cancellation handle of task `id`: the recorder job is told
    /// to stop, the handle is dropped and the task goes back to `Idle`. Without
    /// a handle nothing happens and the result is `false`.
    pub fn cancel(&mut self, id: &str) -> (r: bool)
        requires
            old(self).wf(),
        ensures
            final(self).wf(),
            cancelled(*old(self), *final(self), id@, r),
    {
        match handle_map_remove(&mut self.handles, id) {
            Some(h) => {
                h.abort_handle.abort();
                let ghost t0 = self.tasks();
                task_map_set_status(&mut self.tasks, id, TaskStatus::Idle);
                proof {
                    let t1 = self.tasks();
                    assert forall|a: Seq<char>, b: Seq<char>|
                        #[trigger] busy_at(t1, a) && #[trigger] busy_at(t1, b) && t1[a].url@
                            == t1[b].url@ implies a == b by {
                        assert(busy_at(t0, a) && busy_at(t0, b));
                    }
                    assert forall|k: Seq<char>| #[trigger]
                        self.handle_ids().contains(k) implies busy_at(t1, k) by {
                        assert(old(self).handle_ids().contains(k));
                        assert(busy_at(t0, k));
                    }
                }
                true
            },
            None => {
                assert(self.handle_ids() =~= old(self).handle_ids());
                false
            },
        }
    }

    /// Notes that `url` is being probed.
    pub fn mark_checking(&mut self, url: String)
        requires
            old(self).wf(),
        ensures
            final(self).wf(),
            final(self).checking() == old(self).checking().insert(url@),
            final(self).tasks() == old(self).tasks(),
            final(self).handle_ids() == old(self).handle_ids(),
    {
        check_map_insert(&mut self.checking, url);
        assert forall|k: Seq<char>| #[trigger] self.handle_ids().contains(k) implies busy_at(
            self.tasks(),
            k,
        ) by {
            assert(old(self).handle_ids().contains(k));
        }
    }

    /// Notes that `url` is no longer being probed.
    pub fn clear_checking(&mut self, url: &str)
        requires
            old(self).wf(),
        ensures
            final(self).wf(),
            final(self).checking() == old(self).checking().remove(url@),
            final(self).tasks() == old(self).tasks(),
            final(self).handle_ids() == old(self).handle_ids(),
    {
        check_map_remove(&mut self.checking, url);
        assert forall|k: Seq<char>| #[trigger] self.handle_ids().contains(k) implies busy_at(
            self.tasks(),
            k,
        ) by {
            assert(old(self).handle_ids().contains(k));
        }
    }

    /// Whether `url` is being probed.
    pub fn is_checking(&self, url: &str) -> (r: bool)
        ensures
            r == self.checking().contains(url@),
    {
        check_map_contains(&self.checking, url)
    }

    /// Whether some task for `url` is recording or uploading.
    pub fn is_url_busy(&self, url: &str) -> (r: bool)
        ensures
            r == url_busy(self.tasks(), url@),
    {
        let all = task_map_values(&self.tasks);
        let mut i: usize = 0;
        while i < all.len()
            invariant
                i <= all@.len(),
                forall|j: int| 0 <= j < all@.len() ==> stored(self.tasks(), #[trigger] all@[j]),
                forall|k: Seq<char>| #[trigger]
                    self.tasks().contains_key(k) ==> listed(all@, self.tasks()[k]),
                forall|j: int| 0 <= j < i ==> !(#[trigger] all@[j].status.is_busy() && all@[j].url@
                    == url@),
            decreases all@.len() - i,
        {
            if all[i].status.busy() && same_text(&all[i].url, url) {
                assert(stored(self.tasks(), all@[i as int]));
                let ghost k = choose|k: Seq<char>|
                    self.tasks().contains_key(k) && self.tasks()[k] == all@[i as int];
                assert(busy_at(self.tasks(), k));
                return true;
            }
            i += 1;
        }
        assert forall|k: Seq<char>| !(#[trigger] busy_at(self.tasks(), k) && self.tasks()[k].url@
            == url@) by {
            if busy_at(self.tasks(), k) && self.tasks()[k].url@ == url@ {
                assert(listed(all@, self.tasks()[k]));
                let j = choose|j: int| 0 <= j < all@.len() && all@[j] == self.tasks()[k];
                assert(all@[j].status.is_busy());
            }
        }
        false
    }
}

/// No two tasks that are recording or uploading share a source url, in every
/// state the registries can reach.
pub proof fn lemma_single_capture(r: Registries, a: Seq<char>, b: Seq<char>)
    requires
        r.wf(),
        busy_at(r.tasks(), a),
        busy_at(r.tasks(), b),
        r.tasks()[a].url@ == r.tasks()[b].url@,
    ensures
        a == b,
{
}

/// Invoking a task's cancellation handle a second time finds no handle,
/// reports so, and changes nothing.
pub proof fn lemma_cancel_twice(
    a: Registries,
    b: Registries,
    c: Registries,
    id: Seq<char>,
    first: bool,
    second: bool,
)
    requires
        cancelled(a, b, id, first),
        cancelled(b, c, id, second),
    ensures
        !second,
        !c.handle_ids().contains(id),
        c.tasks() == b.tasks(),
        c.handle_ids() == b.handle_ids(),
        c.checking() == b.checking(),
{
    assert(b.handle_ids().remove(id) =~= b.handle_ids());
}

} // verus!
