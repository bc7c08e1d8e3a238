//! Fire-and-forget launch jobs, handed from the UI and hook threads to the
//! launch worker in arrival order.

use vstd::prelude::*;

use crate::text::str_eq;

verus! {

/// A launch taking at least this long is logged as slow (near the
/// low-level-hook timeout).
pub const SLOW_LAUNCH_MS: u128 = 250;

/// Why a job could not be queued.
#[derive(Clone, Copy, Debug, PartialEq, Eq, Structural)]
pub enum QueueError {
    /// The launch worker is not running.
    NotStarted,
}

/// Jobs waiting for the worker, first in first out.
pub struct LaunchQueue<J> {
    started: bool,
    pending: Vec<J>,
}

impl<J> LaunchQueue<J> {
    pub closed spec fn spec_started(&self) -> bool {
        self.started
    }

    pub closed spec fn spec_pending(&self) -> Seq<J> {
        self.pending@
    }

    /// No worker yet, nothing pending.
    pub fn new() -> (r: LaunchQueue<J>)
        ensures
            !r.spec_started(),
            r.spec_pending().len() == 0,
    {
        LaunchQueue { started: false, pending: Vec::new() }
    }

    /// The worker is running: jobs are accepted.
    pub fn start(&mut self)
        ensures
            final(self).spec_started(),
            final(self).spec_pending() == old(self).spec_pending(),
    {
        self.started = true;
    }

    /// The queue is closed: later jobs are refused; the worker still runs
    /// the ones already queued, then exits.
    pub fn stop(&mut self)
        ensures
            !final(self).spec_started(),
            final(self).spec_pending() == old(self).spec_pending(),
    {
        self.started = false;
    }

    /// Next job for the worker, oldest first.
    pub fn take_next(&mut self) -> (r: Option<J>)
        ensures
            old(self).spec_pending().len() == 0 ==> r is None && final(self).spec_pending()
                == old(self).spec_pending(),
            old(self).spec_pending().len() > 0 ==> r == Some(old(self).spec_pending()[0])
                && final(self).spec_pending() == old(self).spec_pending().drop_first(),
            final(self).spec_started() == old(self).spec_started(),
    {
        if self.pending.len() == 0 {
            None
        } else {
            Some(self.pending.remove(0))
        }
    }
}

/// The slot registry as the launch path reads it: slot ids with their slots,
/// looked up by exact id (`"01"` and `"1"` are different ids). When an id
/// occurs twice, its first entry is the one found.
pub struct SlotTable<S> {
    entries: Vec<(String, S)>,
}

/// The slot of the first entry with this id.
pub open spec fn table_find<S>(entries: Seq<(Seq<char>, S)>, id: Seq<char>) -> Option<S>
    decreases entries.len(),
{
    if entries.len() == 0 {
        None
    } else if entries[0].0 == id {
        Some(entries[0].1)
    } else {
        table_find(entries.drop_first(), id)
    }
}

impl<S: Copy> SlotTable<S> {
    pub closed spec fn spec_entries(&self) -> Seq<(Seq<char>, S)> {
        self.entries@.map_values(|e: (String, S)| (e.0@, e.1))
    }

    pub fn new() -> (r: SlotTable<S>)
        ensures
            r.spec_entries() == Seq::<(Seq<char>, S)>::empty(),
    {
        let r = SlotTable { entries: Vec::new() };
        assert(r.spec_entries() =~= Seq::<(Seq<char>, S)>::empty());
        r
    }

    /// Register `slot` under `id` (after the entries already there).
    pub fn add(&mut self, id: String, slot: S)
        ensures
            final(self).spec_entries() == old(self).spec_entries().push((id@, slot)),
    {
        let ghost before = self.spec_entries();
        self.entries.push((id, slot));
        assert(self.spec_entries() =~= before.push((id@, slot)));
    }

    /// The slot registered under `id`.
    pub fn get(&self, id: &str) -> (r: Option<S>)
        ensures
            r == table_find(self.spec_entries(), id@),
    {
        let ghost all = self.spec_entries();
        assert(all.subrange(0, all.len() as int) =~= all);
        let mut i: usize = 0;
        while i < self.entries.len()
            invariant
                0 <= i <= self.entries.len(),
                all == self.spec_entries(),
                all.len() == self.entries@.len(),
                table_find(all, id@) == table_find(all.subrange(i as int, all.len() as int), id@),
            decreases self.entries.len() - i,
        {
            let ghost rest = all.subrange(i as int, all.len() as int);
            assert(rest[0] == all[i as int]);
            assert(rest.drop_first() =~= all.subrange(i as int + 1, all.len() as int));
            if str_eq(self.entries[i].0.as_str(), id) {
                return Some(self.entries[i].1);
            }
            i += 1;
        }
        assert(all.subrange(i as int, all.len() as int).len() == 0);
        None
    }

    /// A copy of the table, for a job to carry.
    pub fn snapshot(&self) -> (r: SlotTable<S>)
        ensures
            r.spec_entries() == self.spec_entries(),
    {
        let mut out: Vec<(String, S)> = Vec::new();
        let mut i: usize = 0;
        while i < self.entries.len()
            invariant
                0 <= i <= self.entries.len(),
                out@.len() == i,
                forall|k: int|
                    0 <= k < i ==> (#[trigger] out@[k]).0@ == self.entries@[k].0@ && out@[k].1
                        == self.entries@[k].1,
            decreases self.entries.len() - i,
        {
            let id = self.entries[i].0.clone();
            let slot = self.entries[i].1;
            out.push((id, slot));
            i += 1;
        }
        let r = SlotTable { entries: out };
        assert(r.spec_entries() =~= self.spec_entries());
        r
    }
}

/// One launch for the worker: the slot, the directory its relative paths
/// start from, the registry its chain may refer to, whether only its working
/// folder is opened, and the window told when it fails (0: none).
pub struct LaunchJob<S> {
    pub slot: S,
    pub exe_dir: String,
    pub registry: SlotTable<S>,
    pub folder_only: bool,
    pub notify_host: isize,
}

pub open spec fn job_is<S: Copy>(
    j: LaunchJob<S>,
    slot: S,
    exe_dir: Seq<char>,
    registry: Seq<(Seq<char>, S)>,
    folder_only: bool,
    notify_host: isize,
) -> bool {
    &&& j.slot == slot
    &&& j.exe_dir@ == exe_dir
    &&& j.registry.spec_entries() == registry
    &&& j.folder_only == folder_only
    &&& j.notify_host == notify_host
}

/// `after` is `before` with exactly one job more, at the end, made of these.
pub open spec fn queued_one<S: Copy>(
    before: Seq<LaunchJob<S>>,
    after: Seq<LaunchJob<S>>,
    slot: S,
    exe_dir: Seq<char>,
    registry: Seq<(Seq<char>, S)>,
    folder_only: bool,
    notify_host: isize,
) -> bool {
    &&& after.len() == before.len() + 1
    &&& after.take(before.len() as int) == before
    &&& job_is(after.last(), slot, exe_dir, registry, folder_only, notify_host)
}

/// Build the job for `slot` and queue it.
pub fn queue_launch<S: Copy>(
    q: &mut LaunchQueue<LaunchJob<S>>,
    slot: S,
    exe_dir: &str,
    registry: &SlotTable<S>,
    folder_only: bool,
    notify_host: isize,
) -> (r: Result<(), QueueError>)
    ensures
        r is Ok <==> old(q).spec_started(),
        final(q).spec_started() == old(q).spec_started(),
        r is Ok ==> queued_one(
            old(q).spec_pending(),
            final(q).spec_pending(),
            slot,
            exe_dir@,
            registry.spec_entries(),
            folder_only,
            notify_host,
        ),
        r is Err ==> final(q).spec_pending() == old(q).spec_pending(),
{
    let job = LaunchJob {
        slot,
        exe_dir: crate::text::string_of(exe_dir),
        registry: registry.snapshot(),
        folder_only,
        notify_host,
    };
    let ghost before = q.spec_pending();
    let r = queue(q, job);
    proof {
        if r is Ok {
            assert(q.spec_pending().take(before.len() as int) =~= before);
        }
    }
    r
}

/// What the worker does next.
#[derive(Clone, Copy, Debug, PartialEq, Eq, Structural)]
pub enum WorkerStep<J> {
    /// Run this job (the oldest pending one).
    Run(J),
    /// Nothing pending: pump the thread's window messages and wait a little.
    Idle,
    /// Closed and drained: leave the loop.
    Exit,
}

impl<J> LaunchQueue<J> {
    /// The worker loop's next step.
    pub fn worker_step(&mut self) -> (r: WorkerStep<J>)
        ensures
            old(self).spec_pending().len() > 0 ==> r == WorkerStep::Run(old(self).spec_pending()[0])
                && final(self).spec_pending() == old(self).spec_pending().drop_first(),
            old(self).spec_pending().len() == 0 ==> final(self).spec_pending() == old(self).spec_pending()
                && r == (if old(self).spec_started() {
                WorkerStep::<J>::Idle
            } else {
                WorkerStep::<J>::Exit
            }),
            final(self).spec_started() == old(self).spec_started(),
    {
        match self.take_next() {
            Some(job) => WorkerStep::Run(job),
            None => if self.started {
                WorkerStep::Idle
            } else {
                WorkerStep::Exit
            },
        }
    }
}

/// Queue a job: refused when the worker is not running, otherwise appended.
pub fn queue<J>(q: &mut LaunchQueue<J>, job: J) -> (r: Result<(), QueueError>)
    ensures
        r is Ok <==> old(q).spec_started(),
        r is Ok ==> final(q).spec_pending() == old(q).spec_pending().push(job),
        r is Err ==> final(q).spec_pending() == old(q).spec_pending() && r == Err::<(), QueueError>(
            QueueError::NotStarted,
        ),
        final(q).spec_started() == old(q).spec_started(),
{
    if !q.started {
        return Err(QueueError::NotStarted);
    }
    q.pending.push(job);
    Ok(())
}

/// Jobs come out in the order they went in: two jobs queued one after the
/// other on a running queue come out after everything already pending, the
/// first before the second.
pub proof fn lemma_fifo<J>(pending: Seq<J>, a: J, b: J)
    ensures
        ({
            let q = pending.push(a).push(b);
            &&& q.len() == pending.len() + 2
            &&& forall|i: int| 0 <= i < pending.len() ==> q[i] == pending[i]
            &&& q[pending.len() as int] == a
            &&& q[pending.len() as int + 1] == b
        }),
{
}

/// Label of a job in the launch log.
#[derive(Clone, Copy, Debug, PartialEq, Eq, Structural)]
pub enum JobKind {
    Launch,
    OpenWorkdir,
}

pub fn job_kind(folder_only: bool) -> (r: JobKind)
    ensures
        r == (if folder_only {
            JobKind::OpenWorkdir
        } else {
            JobKind::Launch
        }),
{
    if folder_only {
        JobKind::OpenWorkdir
    } else {
        JobKind::Launch
    }
}

/// Whether a launch of `ms` milliseconds is logged as slow.
pub fn launch_is_slow(ms: u128) -> (r: bool)
    ensures
        r == (ms >= SLOW_LAUNCH_MS),
{
    ms >= SLOW_LAUNCH_MS
}

/// A failed job tells its host window (when it named one).
pub fn notify_failure(ok: bool, notify_host: isize) -> (r: bool)
    ensures
        r == (!ok && notify_host != 0),
{
    !ok && notify_host != 0
}

} // verus!
