//! The supervisor: a registry of named background tasks (the running
//! dispatch loops), with spawn, lookup, pruning of finished tasks, and the
//! decision that drives a graceful shutdown.
use crate::bindings::{new_runtime, spawn_on, task_is_finished};
use std::future::Future;
use tokio::runtime::Runtime;
use tokio::task::JoinHandle;
use vstd::prelude::*;

verus! {

/// How long a shutdown waits between two looks at the running tasks.
pub const SHUTDOWN_POLL_MILLIS: u64 = 2000;

/// One registered task: its name and the handle to it.
pub struct TaskEntry {
    pub name: String,
    pub handle: JoinHandle<()>,
}

/// Runs tasks on its own runtime and keeps, for each name, the handle of the
/// task last spawned under it.
pub struct TaskMaster {
    runtime: Runtime,
    tasks: Vec<TaskEntry>,
}

/// The registered names after a spawn under `name`: a new name is added at
/// the end, a known one keeps its place and now stands for the new task.
pub open spec fn spawned_names(names: Seq<Seq<char>>, name: Seq<char>) -> Seq<Seq<char>> {
    if names.contains(name) {
        names
    } else {
        names.push(name)
    }
}

/// Every entry of `after` whose name was registered in `before` still holds
/// the handle it had there.
pub open spec fn handles_kept(before: TaskMaster, after: TaskMaster) -> bool {
    forall|i: int, j: int|
        #![trigger after.names()[i], before.names()[j]]
        0 <= i < after.names().len() && 0 <= j < before.names().len() && after.names()[i]
            == before.names()[j] ==> after.handle_at(i) == before.handle_at(j)
}

/// The text of each string, in order.
pub open spec fn views(strings: Seq<String>) -> Seq<Seq<char>> {
    strings.map_values(|s: String| s@)
}

/// The items whose flag in `finished` is false, in their order.
pub open spec fn kept<A>(items: Seq<A>, finished: Seq<bool>) -> Seq<A>
    decreases items.len(),
{
    if items.len() == 0 {
        Seq::empty()
    } else {
        let rest = kept(items.drop_last(), finished.drop_last());
        if finished.last() {
            rest
        } else {
            rest.push(items.last())
        }
    }
}

/// What a shutdown does after looking at the running tasks.
#[derive(Debug, Clone, Copy, PartialEq, Eq, Structural)]
pub enum ShutdownStep {
    /// No task is left: the shutdown returns.
    Finished,
    /// Tasks are still running: wait this many milliseconds and look again.
    Wait(u64),
}

/// Keeping items by flags keeps only items that were there, and keeps them
/// distinct if they were.
pub proof fn lemma_kept<A>(items: Seq<A>, finished: Seq<bool>)
    requires
        finished.len() == items.len(),
    ensures
        forall|x: A| kept(items, finished).contains(x) ==> items.contains(x),
        items.no_duplicates() ==> kept(items, finished).no_duplicates(),
    decreases items.len(),
{
    if items.len() > 0 {
        let init = items.drop_last();
        lemma_kept(init, finished.drop_last());
        let rest = kept(init, finished.drop_last());
        assert forall|x: A| kept(items, finished).contains(x) implies items.contains(x) by {
            if rest.contains(x) {
                assert(init.contains(x));
                let j = choose|j: int| 0 <= j < init.len() && init[j] == x;
                assert(items[j] == x);
            } else {
                assert(items[items.len() - 1] == x);
            }
        }
        if items.no_duplicates() {
            assert(init.no_duplicates()) by {
                assert forall|i: int, j: int| 0 <= i < j < init.len() implies init[i] != init[j] by {
                    assert(items[i] == init[i] && items[j] == init[j]);
                }
            }
            if !finished.last() {
                assert(!init.contains(items.last())) by {
                    if init.contains(items.last()) {
                        let j = choose|j: int| 0 <= j < init.len() && init[j] == items.last();
                        assert(items[j] == items[items.len() - 1]);
                    }
                }
                assert(!rest.contains(items.last()));
                let k = kept(items, finished);
                assert forall|i: int, j: int| 0 <= i < j < k.len() implies k[i] != k[j] by {
                    if j == k.len() - 1 {
                        assert(rest[i] == k[i]);
                    } else {
                        assert(rest[i] == k[i] && rest[j] == k[j]);
                    }
                }
            }
        }
    }
}

impl TaskMaster {
    /// The registered names, in registration order.
    pub closed spec fn names(&self) -> Seq<Seq<char>> {
        self.tasks@.map_values(|e: TaskEntry| e.name@)
    }

    /// The handle registered at position `i`.
    pub closed spec fn handle_at(&self, i: int) -> JoinHandle<()> {
        self.tasks@[i].handle
    }

    /// No name is registered twice.
    pub open spec fn wf(&self) -> bool {
        self.names().no_duplicates()
    }

    /// A supervisor with its own runtime of `worker_threads` workers and no
    /// task; `None` when the system refuses the runtime's threads.
    pub fn new(worker_threads: usize) -> (r: Option<Self>)
        requires
            worker_threads > 0,
        ensures
            r matches Some(m) ==> m.wf() && m.names().len() == 0,
    {
        match new_runtime(worker_threads) {
            Some(runtime) => {
                let m = TaskMaster { runtime, tasks: Vec::new() };
                assert(m.names() =~= Seq::<Seq<char>>::empty());
                Some(m)
            },
            None => None,
        }
    }

    /// How many tasks are registered.
    pub fn task_count(&self) -> (r: usize)
        ensures
            r == self.names().len(),
    {
        self.tasks.len()
    }

    fn position(&self, name: &String) -> (r: Option<usize>)
        ensures
            r matches Some(i) ==> i < self.names().len() && self.names()[i as int] == name@,
            r is None ==> !self.names().contains(name@),
    {
        let mut i: usize = 0;
        while i < self.tasks.len()
            invariant
                i <= self.tasks@.len(),
                forall|j: int| 0 <= j < i ==> self.names()[j] != name@,
            decreases self.tasks@.len() - i,
        {
            if self.tasks[i].name == *name {
                return Some(i);
            }
            i = i + 1;
        }
        None
    }

    /// Records `handle` under `name`, in place of any handle recorded under
    /// that name before; every other entry keeps its place and its handle.
    pub fn register(&mut self, name: String, handle: JoinHandle<()>)
        requires
            old(self).wf(),
        ensures
            final(self).wf(),
            final(self).names() == spawned_names(old(self).names(), name@),
            forall|k: int|
                0 <= k < final(self).names().len() && #[trigger] final(self).names()[k] == name@
                    ==> final(self).handle_at(k) == handle,
            forall|j: int|
                0 <= j < old(self).names().len() && #[trigger] old(self).names()[j] != name@
                    ==> final(self).handle_at(j) == old(self).handle_at(j),
    {
        match self.position(&name) {
            Some(i) => {
                self.tasks.set(i, TaskEntry { name, handle });
                assert(self.names() =~= old(self).names());
            },
            None => {
                self.tasks.push(TaskEntry { name, handle });
                assert(self.names() =~= old(self).names().push(name@));
            },
        }
        assert forall|k: int|
            0 <= k < self.names().len() && #[trigger] self.names()[k] == name@ implies self.handle_at(k)
                == handle by {
            assert(self.names()[k] == self.tasks@[k].name@);
            if k < old(self).names().len() {
                assert(old(self).names()[k] == self.names()[k]);
            }
        }
    }

    /// Starts `task` on the runtime and registers it under `name`, in place
    /// of any task registered under that name before; every other entry
    /// keeps its place and its handle.
    pub fn spawn<F>(&mut self, name: String, task: F)
        where F: Future<Output = ()> + Send + 'static,
        requires
            old(self).wf(),
        ensures
            final(self).wf(),
            final(self).names() == spawned_names(old(self).names(), name@),
            forall|j: int|
                0 <= j < old(self).names().len() && #[trigger] old(self).names()[j] != name@
                    ==> final(self).handle_at(j) == old(self).handle_at(j),
            forall|k: int, j: int|
                #![trigger final(self).names()[k], old(self).handle_at(j)]
                0 <= k < final(self).names().len() && final(self).names()[k] == name@ && 0 <= j
                    < old(self).names().len() ==> final(self).handle_at(k) != old(self).handle_at(j),
    {
        let handle = spawn_on(&self.runtime, task, &self.tasks);
        self.register(name, handle);
    }

    /// The handle registered under `name`, if any.
    pub fn get_task(&self, name: &str) -> (r: Option<&JoinHandle<()>>)
        ensures
            r is Some <==> self.names().contains(name@),
            r matches Some(h) ==> exists|i: int|
                0 <= i < self.names().len() && self.names()[i] == name@ && *h == self.handle_at(i),
    {
        let key = name.to_owned();
        match self.position(&key) {
            Some(i) => {
                let h = &self.tasks[i].handle;
                assert(self.names()[i as int] == name@ && *h == self.handle_at(i as int));
                Some(h)
            },
            None => None,
        }
    }

    /// Drops the entries whose flag in `finished` is set, keeping the others
    /// in order.
    pub fn remove_finished(&mut self, finished: &Vec<bool>)
        requires
            old(self).wf(),
            finished@.len() == old(self).names().len(),
        ensures
            final(self).wf(),
            final(self).names() == kept(old(self).names(), finished@),
            handles_kept(*old(self), *final(self)),
    {
        let ghost names = self.names();
        let mut rest: Vec<TaskEntry> = Vec::new();
        std::mem::swap(&mut rest, &mut self.tasks);
        let ghost all = rest@;
        let n: usize = rest.len();
        let mut i: usize = 0;
        while i < n
            invariant
                n == all.len(),
                names == all.map_values(|e: TaskEntry| e.name@),
                finished@.len() == n,
                i <= n,
                rest@ == all.skip(i as int),
                self.names() == kept(names.take(i as int), finished@.take(i as int)),
                names.no_duplicates(),
                forall|a: int, b: int|
                    #![trigger self.names()[a], names[b]]
                    0 <= a < self.names().len() && 0 <= b < n && self.names()[a] == names[b]
                        ==> self.handle_at(a) == all[b].handle,
            decreases n - i,
        {
            let entry = rest.remove(0);
            assert(rest@ =~= all.skip(i + 1));
            assert(names.take(i + 1).drop_last() =~= names.take(i as int));
            assert(finished@.take(i + 1).drop_last() =~= finished@.take(i as int));
            assert(entry == all[i as int]);
            let ghost before = self.tasks@;
            if !finished[i] {
                self.tasks.push(entry);
                assert forall|a: int, b: int|
                    0 <= a < self.names().len() && 0 <= b < n && #[trigger] self.names()[a]
                        == #[trigger] names[b] implies self.handle_at(a) == all[b].handle by {
                    assert(self.names()[a] == self.tasks@[a].name@);
                    assert(names[b] == all[b].name@);
                    if a < before.len() {
                        assert(self.tasks@[a] == before[a]);
                        assert(before.map_values(|e: TaskEntry| e.name@)[a] == self.names()[a]);
                    } else {
                        assert(names[i as int] == all[i as int].name@);
                    }
                }
            }
            assert(self.names() =~= kept(names.take(i + 1), finished@.take(i + 1)));
            i = i + 1;
        }
        assert(names.take(n as int) =~= names);
        assert(finished@.take(n as int) =~= finished@);
        proof {
            lemma_kept(names, finished@);
        }
    }

    /// Drops the entries of tasks that have ended; no task is stopped.
    pub fn clear_finished(&mut self)
        requires
            old(self).wf(),
        ensures
            final(self).wf(),
            exists|f: Seq<bool>| f.len() == old(self).names().len()
                && final(self).names() == kept(old(self).names(), f),
            handles_kept(*old(self), *final(self)),
    {
        let mut finished: Vec<bool> = Vec::new();
        let mut i: usize = 0;
        while i < self.tasks.len()
            invariant
                i <= self.tasks@.len(),
                finished@.len() == i,
            decreases self.tasks@.len() - i,
        {
            finished.push(task_is_finished(&self.tasks[i].handle));
            i = i + 1;
        }
        self.remove_finished(&finished);
    }

    /// The names of the tasks still running, after dropping those that ended.
    pub fn list_running_tasks(&mut self) -> (r: Vec<String>)
        requires
            old(self).wf(),
        ensures
            final(self).wf(),
            views(r@) == final(self).names(),
            views(r@).no_duplicates(),
            handles_kept(*old(self), *final(self)),
            exists|f: Seq<bool>| f.len() == old(self).names().len()
                && final(self).names() == kept(old(self).names(), f),
    {
        self.clear_finished();
        let mut out: Vec<String> = Vec::new();
        let mut i: usize = 0;
        while i < self.tasks.len()
            invariant
                i <= self.tasks@.len(),
                views(out@) == self.names().take(i as int),
            decreases self.tasks@.len() - i,
        {
            let name = self.tasks[i].name.clone();
            assert(name@ == self.names()[i as int]);
            let ghost prev = out@;
            assert(self.names().len() == self.tasks@.len());
            assert(views(prev).len() == i);
            out.push(name);
            assert forall|j: int| 0 <= j < i + 1 implies #[trigger] views(out@)[j]
                == self.names().take(i + 1)[j] by {
                if j < i {
                    assert(views(prev)[j] == self.names().take(i as int)[j]);
                    assert(out@[j] == prev[j]);
                }
            }
            assert(views(out@) =~= self.names().take(i + 1));
            i = i + 1;
        }
        assert(self.names().take(i as int) =~= self.names());
        out
    }
}

/// Starts `task` on `master` under `name`.
pub fn _spawn<F>(master: &mut TaskMaster, name: String, task: F)
    where F: Future<Output = ()> + Send + 'static,
    requires
        old(master).wf(),
    ensures
        final(master).wf(),
        final(master).names() == spawned_names(old(master).names(), name@),
        forall|j: int|
            0 <= j < old(master).names().len() && #[trigger] old(master).names()[j] != name@
                ==> final(master).handle_at(j) == old(master).handle_at(j),
        forall|k: int, j: int|
            #![trigger final(master).names()[k], old(master).handle_at(j)]
            0 <= k < final(master).names().len() && final(master).names()[k] == name@ && 0 <= j
                < old(master).names().len() ==> final(master).handle_at(k) != old(master).handle_at(j),
{
    master.spawn(name, task);
}

/// The shutdown decision: return once no task runs, otherwise wait and look
/// again. Tasks are never cancelled, so a task whose queue keeps a live
/// producer holds the shutdown for as long as it runs.
pub fn shutdown_step(running: &Vec<String>) -> (r: ShutdownStep)
    ensures
        r == ShutdownStep::Finished <==> running@.len() == 0,
        r matches ShutdownStep::Wait(ms) ==> ms == SHUTDOWN_POLL_MILLIS,
{
    if running.len() == 0 {
        ShutdownStep::Finished
    } else {
        ShutdownStep::Wait(SHUTDOWN_POLL_MILLIS)
    }
}

} // verus!
