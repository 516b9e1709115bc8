//! The processes that are running.

use vstd::prelude::*;
use vstd::string::*;

use crate::runner;
use crate::runner::{MetricsSnapshot, ProcessMetrics, BYTES_PER_MB};
use crate::table::Table;
use crate::text;

verus! {

/// A reading of a clock that never goes back, in nanoseconds.
#[derive(Debug, Clone, Copy, PartialEq, Eq, Structural)]
pub struct Moment {
    pub nanos: u64,
}

/// The whole seconds from one moment to another; none where the second one is not later.
pub open spec fn seconds_between(since: Moment, now: Moment) -> u64 {
    if now.nanos > since.nanos {
        ((now.nanos - since.nanos) / 1_000_000_000) as u64
    } else {
        0
    }
}

impl Moment {
    /// The whole seconds that have passed since this moment.
    pub fn elapsed_secs(&self, now: Moment) -> (r: u64)
        ensures
            r == seconds_between(*self, now),
    {
        if now.nanos > self.nanos {
            (now.nanos - self.nanos) / 1_000_000_000
        } else {
            0
        }
    }
}

/// What asking a child process for its exit status gave.
#[derive(Debug, Clone, Copy, PartialEq, Eq, Structural)]
pub enum Poll {
    /// It has exited.
    Exited,
    /// It has not exited yet.
    Alive,
    /// It could not be asked.
    Failed,
}

/// What is known of the running projects, each under the project's identifier. `P` is the handle
/// of a child process, `S` that of an S3 server, `C` the type of a processor usage reading.
#[derive(Debug)]
pub struct ProcessManager<P, S, C> {
    processes: Table<P>,
    s3_processes: Table<S>,
    last_activity: Table<Moment>,
    pids: Table<u32>,
    start_times: Table<Moment>,
    metrics: Table<ProcessMetrics<C>>,
}

/// The same, as maps.
#[verifier::ext_equal]
pub struct Registry<P, S, C> {
    pub processes: Map<Seq<char>, P>,
    pub s3_processes: Map<Seq<char>, S>,
    pub last_activity: Map<Seq<char>, Moment>,
    pub pids: Map<Seq<char>, u32>,
    pub start_times: Map<Seq<char>, Moment>,
    pub metrics: Map<Seq<char>, ProcessMetrics<C>>,
}

impl<P, S, C> Registry<P, S, C> {
    /// Nothing is tracked.
    pub open spec fn nothing() -> Registry<P, S, C> {
        Registry {
            processes: Map::empty(),
            s3_processes: Map::empty(),
            last_activity: Map::empty(),
            pids: Map::empty(),
            start_times: Map::empty(),
            metrics: Map::empty(),
        }
    }

    /// A request for the project came in.
    pub open spec fn active(self, id: Seq<char>, now: Moment) -> Registry<P, S, C> {
        Registry { last_activity: self.last_activity.insert(id, now), ..self }
    }

    /// The project was started, and counts as active from then on.
    pub open spec fn started(
        self,
        id: Seq<char>,
        pid: u32,
        child: P,
        s3: S,
        now: Moment,
    ) -> Registry<P, S, C> {
        Registry {
            processes: self.processes.insert(id, child),
            s3_processes: self.s3_processes.insert(id, s3),
            last_activity: self.last_activity.insert(id, now),
            pids: self.pids.insert(id, pid),
            start_times: self.start_times.insert(id, now),
            metrics: self.metrics,
        }
    }

    /// The project's child process was taken out, to be killed.
    pub open spec fn taken(self, id: Seq<char>) -> Registry<P, S, C> {
        Registry { processes: self.processes.remove(id), ..self }
    }

    /// The project's process is gone, and its S3 server with it. When it was last active, and what
    /// it used, stays known.
    pub open spec fn gone(self, id: Seq<char>) -> Registry<P, S, C> {
        Registry {
            processes: self.processes.remove(id),
            s3_processes: self.s3_processes.remove(id),
            pids: self.pids.remove(id),
            start_times: self.start_times.remove(id),
            ..self
        }
    }

    /// True for a project that has a process and was not used for so many minutes.
    pub open spec fn idle(self, id: Seq<char>, timeout_mins: u64, now: Moment) -> bool {
        &&& self.processes.contains_key(id)
        &&& self.last_activity.contains_key(id)
        &&& seconds_between(self.last_activity[id], now) >= timeout_mins * 60
    }

    /// Seconds that the project has been up; none where it was not started.
    pub open spec fn uptime(self, id: Seq<char>, now: Moment) -> u64 {
        if self.start_times.contains_key(id) {
            seconds_between(self.start_times[id], now)
        } else {
            0
        }
    }
}

/// The value of a key, where it has one.
pub open spec fn lookup<V>(m: Map<Seq<char>, V>, k: Seq<char>) -> Option<V> {
    if m.contains_key(k) {
        Some(m[k])
    } else {
        None
    }
}

impl<P, S, C> View for ProcessManager<P, S, C> {
    type V = Registry<P, S, C>;

    closed spec fn view(&self) -> Registry<P, S, C> {
        Registry {
            processes: self.processes@,
            s3_processes: self.s3_processes@,
            last_activity: self.last_activity@,
            pids: self.pids@,
            start_times: self.start_times@,
            metrics: self.metrics@,
        }
    }
}

impl<P, S, C> ProcessManager<P, S, C> {
    /// The tables hold no identifier twice.
    pub closed spec fn wf(self) -> bool {
        &&& self.processes.wf()
        &&& self.s3_processes.wf()
        &&& self.last_activity.wf()
        &&& self.pids.wf()
        &&& self.start_times.wf()
        &&& self.metrics.wf()
    }

    /// Nothing is tracked.
    pub fn new() -> (r: ProcessManager<P, S, C>)
        ensures
            r.wf(),
            r@ == Registry::<P, S, C>::nothing(),
    {
        ProcessManager {
            processes: Table::new(),
            s3_processes: Table::new(),
            last_activity: Table::new(),
            pids: Table::new(),
            start_times: Table::new(),
            metrics: Table::new(),
        }
    }

    /// The handle of a project's child process, to be asked for its exit status.
    pub fn process_mut(&mut self, project_id: &str) -> (r: Option<&mut P>)
        requires
            old(self).wf(),
        ensures
            final(self).wf(),
            match r {
                Some(child) => {
                    &&& old(self)@.processes.contains_key(project_id@)
                    &&& *child == old(self)@.processes[project_id@]
                    &&& final(self)@ == (Registry {
                        processes: old(self)@.processes.insert(project_id@, *final(child)),
                        ..old(self)@
                    })
                },
                None => !old(self)@.processes.contains_key(project_id@) && final(self)@ == old(
                    self,
                )@,
            },
    {
        self.processes.get_mut(project_id)
    }

    /// True when the project has a process that has not exited. `polled` is what asking it gave; a
    /// process that has exited is no longer tracked.
    pub fn is_running(&mut self, project_id: &str, polled: Poll) -> (r: bool)
        requires
            old(self).wf(),
        ensures
            final(self).wf(),
            r == (old(self)@.processes.contains_key(project_id@) && polled == Poll::Alive),
            final(self)@ == (if old(self)@.processes.contains_key(project_id@) && polled
                == Poll::Exited {
                old(self)@.gone(project_id@)
            } else {
                old(self)@
            }),
    {
        if self.processes.contains_key(project_id) {
            match polled {
                Poll::Exited => {
                    self.processes.remove(project_id);
                    self.s3_processes.remove(project_id);
                    self.pids.remove(project_id);
                    self.start_times.remove(project_id);
                    false
                },
                Poll::Alive => true,
                Poll::Failed => false,
            }
        } else {
            false
        }
    }

    /// Notes that a request for the project came in.
    pub fn record_activity(&mut self, project_id: &str, now: Moment)
        requires
            old(self).wf(),
        ensures
            final(self).wf(),
            final(self)@ == old(self)@.active(project_id@, now),
    {
        self.last_activity.insert(project_id, now);
    }

    /// Seconds since the project was last active; `None` where it never was.
    pub fn idle_seconds(&self, project_id: &str, now: Moment) -> (r: Option<u64>)
        requires
            self.wf(),
        ensures
            r == (match lookup(self@.last_activity, project_id@) {
                Some(t) => Some(seconds_between(t, now)),
                None => None,
            }),
    {
        match self.last_activity.get(project_id) {
            Some(t) => Some(t.elapsed_secs(now)),
            None => None,
        }
    }

    /// The projects that have a process, each once, in no particular order.
    pub fn active_projects(&self) -> (r: Vec<String>)
        requires
            self.wf(),
        ensures
            text::views(r@).no_duplicates(),
            forall|id: Seq<char>| #[trigger]
                text::views(r@).contains(id) <==> self@.processes.contains_key(id),
    {
        self.processes.keys()
    }

    /// The projects to suspend: those that have a process and were not used for so many minutes, each
    /// once, in no particular order.
    pub fn idle_projects(&self, timeout_mins: u64, now: Moment) -> (r: Vec<String>)
        requires
            self.wf(),
        ensures
            text::views(r@).no_duplicates(),
            forall|id: Seq<char>| #[trigger]
                text::views(r@).contains(id) <==> self@.idle(id, timeout_mins, now),
    {
        let active = self.active_projects();
        let ghost ids = text::views(active@);
        let mut r: Vec<String> = Vec::new();
        let mut i: usize = 0;
        while i < active.len()
            invariant
                self.wf(),
                i <= active@.len(),
                ids == text::views(active@),
                ids.no_duplicates(),
                forall|id: Seq<char>| #[trigger]
                    ids.contains(id) <==> self@.processes.contains_key(id),
                text::views(r@).no_duplicates(),
                forall|id: Seq<char>| #[trigger]
                    text::views(r@).contains(id) <==> ids.take(i as int).contains(id)
                        && self@.idle(id, timeout_mins, now),
            decreases active@.len() - i,
        {
            let ghost before = text::views(r@);
            let ghost here = active@[i as int]@;
            let id = &active[i];
            proof {
                assert(ids[i as int] == here);
                assert(ids.contains(here));
                assert(!ids.take(i as int).contains(here));
                assert forall|k: Seq<char>| #[trigger]
                    ids.take(i as int + 1).contains(k) <==> ids.take(i as int).contains(k) || k
                        == here by {
                    assert(ids.take(i as int + 1) =~= ids.take(i as int).push(here));
                    if ids.take(i as int).contains(k) {
                        let j = choose|j: int|
                            0 <= j < ids.take(i as int).len() && ids.take(i as int)[j] == k;
                        assert(ids.take(i as int + 1)[j] == k);
                    }
                    if k == here {
                        assert(ids.take(i as int + 1)[i as int] == k);
                    }
                }
            }
            let is_idle = match self.idle_seconds(id.as_str(), now) {
                Some(secs) => secs / 60 >= timeout_mins,
                None => false,
            };
            if is_idle {
                r.push(id.clone());
                proof {
                    let after = text::views(r@);
                    assert(after =~= before.push(here));
                    assert(!before.contains(here));
                    assert forall|a: int, b: int|
                        0 <= a < b < after.len() implies after[a] != after[b] by {
                        assert(before.contains(before[a]));
                    }
                    assert forall|k: Seq<char>| #[trigger]
                        after.contains(k) <==> before.contains(k) || k == here by {
                        if before.contains(k) {
                            let j = choose|j: int| 0 <= j < before.len() && before[j] == k;
                            assert(after[j] == k);
                        }
                        if k == here {
                            assert(after[before.len() as int] == k);
                        }
                    }
                }
            }
            i += 1;
        }
        assert(ids.take(active@.len() as int) =~= ids);
        r
    }

    /// The process identifier of a project.
    pub fn get_pid(&self, project_id: &str) -> (r: Option<u32>)
        requires
            self.wf(),
        ensures
            r == lookup(self@.pids, project_id@),
    {
        match self.pids.get(project_id) {
            Some(pid) => Some(*pid),
            None => None,
        }
    }

    /// The metrics of a project, where it was read at least once.
    pub fn metrics_of(&self, project_id: &str) -> (r: Option<&ProcessMetrics<C>>)
        requires
            self.wf(),
        ensures
            match r {
                Some(m) => lookup(self@.metrics, project_id@) == Some(*m),
                None => !self@.metrics.contains_key(project_id@),
            },
    {
        self.metrics.get(project_id)
    }

    /// Tracks a project that was just started.
    pub fn register(&mut self, project_id: &str, pid: u32, child: P, s3: S, now: Moment)
        requires
            old(self).wf(),
        ensures
            final(self).wf(),
            final(self)@ == old(self)@.started(project_id@, pid, child, s3, now),
    {
        self.pids.insert(project_id, pid);
        self.start_times.insert(project_id, now);
        self.processes.insert(project_id, child);
        self.s3_processes.insert(project_id, s3);
        self.record_activity(project_id, now);
    }

    /// Takes the child process of a project out, to be killed; `None` where it has none.
    pub fn begin_kill(&mut self, project_id: &str) -> (r: Option<P>)
        requires
            old(self).wf(),
        ensures
            final(self).wf(),
            final(self)@ == old(self)@.taken(project_id@),
            r == lookup(old(self)@.processes, project_id@),
    {
        self.processes.remove(project_id)
    }

    /// Drops the rest of what is tracked of a project whose child process was killed, its S3 server
    /// included.
    pub fn finish_kill(&mut self, project_id: &str)
        requires
            old(self).wf(),
        ensures
            final(self).wf(),
            final(self)@ == (Registry {
                processes: old(self)@.processes,
                ..old(self)@.gone(project_id@)
            }),
    {
        self.s3_processes.remove(project_id);
        self.pids.remove(project_id);
        self.start_times.remove(project_id);
    }

    /// The projects with a process identifier, each once, with it, in no particular order.
    pub fn tracked_pids(&self) -> (r: Vec<(String, u32)>)
        requires
            self.wf(),
        ensures
            r@.map_values(|e: (String, u32)| e.0@).no_duplicates(),
            forall|i: int|
                0 <= i < r@.len() ==> lookup(self@.pids, (#[trigger] r@[i]).0@) == Some(r@[i].1),
            forall|id: Seq<char>| #[trigger]
                self@.pids.contains_key(id) ==> r@.map_values(|e: (String, u32)| e.0@).contains(id),
    {
        let ids = self.pids.keys();
        let mut r: Vec<(String, u32)> = Vec::new();
        let mut i: usize = 0;
        while i < ids.len()
            invariant
                self.wf(),
                i <= ids@.len(),
                r@.len() == i,
                forall|k: Seq<char>| #[trigger]
                    text::views(ids@).contains(k) <==> self@.pids.contains_key(k),
                forall|j: int| 0 <= j < i ==> (#[trigger] r@[j]).0@ == ids@[j]@,
                forall|j: int|
                    0 <= j < r@.len() ==> lookup(self@.pids, (#[trigger] r@[j]).0@) == Some(r@[j].1),
            decreases ids@.len() - i,
        {
            assert(text::views(ids@)[i as int] == ids@[i as int]@);
            assert(text::views(ids@).contains(ids@[i as int]@));
            match self.pids.get(ids[i].as_str()) {
                Some(pid) => {
                    r.push((ids[i].clone(), *pid));
                },
                None => {},
            }
            i += 1;
        }
        proof {
            let found = r@.map_values(|e: (String, u32)| e.0@);
            assert(found =~= text::views(ids@));
        }
        r
    }
}

/// What a project's process uses: the processor usage reading, and the bytes of memory.
#[derive(Debug)]
pub struct Sample<C> {
    pub cpu: C,
    pub memory: u64,
}

impl<C: Copy> Clone for Sample<C> {
    fn clone(&self) -> (r: Sample<C>)
        ensures
            r == *self,
    {
        *self
    }
}

impl<C: Copy> Copy for Sample<C> {

}

impl<P, S, C: Copy> ProcessManager<P, S, C> {
    /// The metrics of a project, or those of a process that was not read yet.
    pub fn metrics_or_new(&self, project_id: &str, zero: C) -> (r: ProcessMetrics<C>)
        requires
            self.wf(),
        ensures
            match lookup(self@.metrics, project_id@) {
                Some(m) => {
                    &&& r.cpu_percent == m.cpu_percent
                    &&& r.ram_mb == m.ram_mb
                    &&& r.uptime_secs == m.uptime_secs
                    &&& r.history@ == m.history@
                },
                None => {
                    &&& r.cpu_percent == zero
                    &&& r.ram_mb == 0
                    &&& r.uptime_secs == 0
                    &&& r.history@.len() == 0
                },
            },
    {
        match self.metrics.get(project_id) {
            Some(m) => m.duplicate(),
            None => ProcessMetrics::new(zero),
        }
    }

    /// Takes in one reading of a project's process; a process that was not found uses nothing.
    pub fn refresh_one(
        &mut self,
        project_id: &str,
        sample: Option<Sample<C>>,
        zero: C,
        now: Moment,
        ts: u64,
    )
        requires
            old(self).wf(),
        ensures
            final(self).wf(),
            final(self)@ == (Registry { metrics: final(self)@.metrics, ..old(self)@ }),
            final(self)@.metrics.remove(project_id@) == old(self)@.metrics.remove(project_id@),
            final(self)@.metrics.contains_key(project_id@),
            refreshed(
                old(self)@,
                project_id@,
                sample,
                zero,
                now,
                ts,
                final(self)@.metrics[project_id@],
            ),
    {
        let cpu: C;
        let ram_mb: u64;
        match sample {
            Some(s) => {
                cpu = s.cpu;
                ram_mb = s.memory / BYTES_PER_MB;
            },
            None => {
                cpu = zero;
                ram_mb = 0;
            },
        }
        let uptime: u64 = match self.start_times.get(project_id) {
            Some(t) => t.elapsed_secs(now),
            None => 0,
        };
        let ghost before = self.metrics@;
        let mut m = match self.metrics.remove(project_id) {
            Some(m) => m,
            None => ProcessMetrics::new(zero),
        };
        assert(m.history@ == history_of(before, project_id@));
        m.record(cpu, ram_mb, uptime, ts);
        self.metrics.insert(project_id, m);
        proof {
            assert(self.metrics@.remove(project_id@) =~= before.remove(project_id@));
        }
    }

    /// Takes in one reading of each of the given projects' processes.
    pub fn refresh_metrics(
        &mut self,
        samples: &Vec<(String, Option<Sample<C>>)>,
        zero: C,
        now: Moment,
        ts: u64,
    )
        requires
            old(self).wf(),
            samples@.map_values(|e: (String, Option<Sample<C>>)| e.0@).no_duplicates(),
        ensures
            final(self).wf(),
            final(self)@ == (Registry { metrics: final(self)@.metrics, ..old(self)@ }),
            forall|i: int|
                0 <= i < samples@.len() ==> {
                    let id = (#[trigger] samples@[i]).0@;
                    &&& final(self)@.metrics.contains_key(id)
                    &&& refreshed(
                        old(self)@,
                        id,
                        samples@[i].1,
                        zero,
                        now,
                        ts,
                        final(self)@.metrics[id],
                    )
                },
            forall|id: Seq<char>|
                !samples@.map_values(|e: (String, Option<Sample<C>>)| e.0@).contains(id)
                    ==> #[trigger] lookup(final(self)@.metrics, id) == lookup(
                    old(self)@.metrics,
                    id,
                ),
    {
        let ghost start = self@;
        let ghost ids = samples@.map_values(|e: (String, Option<Sample<C>>)| e.0@);
        let mut i: usize = 0;
        while i < samples.len()
            invariant
                self.wf(),
                i <= samples@.len(),
                ids == samples@.map_values(|e: (String, Option<Sample<C>>)| e.0@),
                ids.no_duplicates(),
                self@ == (Registry { metrics: self@.metrics, ..start }),
                forall|j: int|
                    0 <= j < i ==> {
                        let id = (#[trigger] samples@[j]).0@;
                        &&& self@.metrics.contains_key(id)
                        &&& refreshed(
                            start,
                            id,
                            samples@[j].1,
                            zero,
                            now,
                            ts,
                            self@.metrics[id],
                        )
                    },
                forall|id: Seq<char>|
                    !ids.take(i as int).contains(id) ==> #[trigger] lookup(self@.metrics, id)
                        == lookup(start.metrics, id),
            decreases samples@.len() - i,
        {
            let ghost before = self@;
            let ghost id = samples@[i as int].0@;
            proof {
                assert(ids[i as int] == id);
                assert(!ids.take(i as int).contains(id));
                assert(lookup(before.metrics, id) == lookup(start.metrics, id));
            }
            self.refresh_one(samples[i].0.as_str(), samples[i].1, zero, now, ts);
            proof {
                let after = self@;
                assert forall|k: Seq<char>| k != id implies #[trigger] lookup(after.metrics, k)
                    == lookup(before.metrics, k) by {
                    assert(lookup(after.metrics.remove(id), k) == lookup(
                        before.metrics.remove(id),
                        k,
                    ));
                }
                assert forall|j: int| 0 <= j < i implies {
                    let k = (#[trigger] samples@[j]).0@;
                    &&& after.metrics.contains_key(k)
                    &&& refreshed(start, k, samples@[j].1, zero, now, ts, after.metrics[k])
                } by {
                    let k = samples@[j].0@;
                    assert(ids[j] == k && ids[i as int] == id);
                    assert(lookup(after.metrics, k) == lookup(before.metrics, k));
                }
                assert forall|k: Seq<char>| !ids.take(i as int + 1).contains(k) implies #[trigger]
                lookup(after.metrics, k) == lookup(start.metrics, k) by {
                    assert(ids.take(i as int + 1)[i as int] == id);
                    if ids.take(i as int).contains(k) {
                        let j = choose|j: int| 0 <= j < i && ids.take(i as int)[j] == k;
                        assert(ids.take(i as int + 1)[j] == k);
                    }
                    assert(lookup(before.metrics, k) == lookup(start.metrics, k));
                    assert(lookup(after.metrics, k) == lookup(before.metrics, k));
                }
            }
            i += 1;
        }
        assert(ids.take(samples@.len() as int) =~= ids);
    }
}

/// The processor usage of a sample; a process that was not found uses nothing.
pub open spec fn sampled_cpu<C>(sample: Option<Sample<C>>, zero: C) -> C {
    match sample {
        Some(s) => s.cpu,
        None => zero,
    }
}

/// The memory of a sample, in MB; a process that was not found uses none.
pub open spec fn sampled_ram<C>(sample: Option<Sample<C>>) -> u64 {
    match sample {
        Some(s) => (s.memory / BYTES_PER_MB) as u64,
        None => 0,
    }
}

/// The snapshots known of a project.
pub open spec fn history_of<C>(metrics: Map<Seq<char>, ProcessMetrics<C>>, id: Seq<char>) -> Seq<
    MetricsSnapshot<C>,
> {
    if metrics.contains_key(id) {
        metrics[id].history@
    } else {
        Seq::empty()
    }
}

/// True for what a project's metrics become when one more reading is taken in.
pub open spec fn refreshed<P, S, C>(
    before: Registry<P, S, C>,
    id: Seq<char>,
    sample: Option<Sample<C>>,
    zero: C,
    now: Moment,
    ts: u64,
    after: ProcessMetrics<C>,
) -> bool {
    let cpu_percent = sampled_cpu(sample, zero);
    let ram_mb = sampled_ram(sample);
    &&& after.cpu_percent == cpu_percent
    &&& after.ram_mb == ram_mb
    &&& after.uptime_secs == before.uptime(id, now)
    &&& after.history@ == runner::with_snapshot(
        history_of(before.metrics, id),
        MetricsSnapshot { cpu_percent, ram_mb, ts },
    )
}

// ---------------------------------------------------------------------------------------------
// Laws
// ---------------------------------------------------------------------------------------------

/// A project that was started has the process identifier it was started with, is active, has not
/// been idle, and is up for no time yet.
pub proof fn law_started<P, S, C>(
    before: Registry<P, S, C>,
    id: Seq<char>,
    pid: u32,
    child: P,
    s3: S,
    now: Moment,
)
    ensures
        ({
            let after = before.started(id, pid, child, s3, now);
            &&& lookup(after.pids, id) == Some(pid)
            &&& lookup(after.processes, id) == Some(child)
            &&& lookup(after.s3_processes, id) == Some(s3)
            &&& lookup(after.last_activity, id) == Some(now)
            &&& after.uptime(id, now) == 0
        }),
{
}

/// A project that was used is idle from then on: for no time at once, and for a second more with
/// each second that passes without a request.
pub proof fn law_idle_since_last_use<P, S, C>(
    before: Registry<P, S, C>,
    id: Seq<char>,
    used: Moment,
    now: Moment,
)
    requires
        used.nanos <= now.nanos,
    ensures
        ({
            let after = before.active(id, used);
            &&& lookup(after.last_activity, id) == Some(used)
            &&& seconds_between(used, used) == 0
            &&& seconds_between(used, now) * 1_000_000_000 <= now.nanos - used.nanos < (
            seconds_between(used, now) + 1) * 1_000_000_000
        }),
{
}

/// A project that was used less than the timeout ago is not suspended, and nor is one that has no
/// process.
pub proof fn law_used_is_not_suspended<P, S, C>(
    before: Registry<P, S, C>,
    id: Seq<char>,
    used: Moment,
    timeout_mins: u64,
    now: Moment,
)
    requires
        used.nanos <= now.nanos,
        now.nanos - used.nanos < timeout_mins * 60 * 1_000_000_000,
    ensures
        !before.active(id, used).idle(id, timeout_mins, now),
        !before.gone(id).idle(id, timeout_mins, now),
{
}

/// After a kill nothing of the project is tracked but when it was last active and what it used.
/// Killing it is taking its child out and dropping the rest.
pub proof fn law_killed<P, S, C>(before: Registry<P, S, C>, id: Seq<char>)
    ensures
        (Registry { processes: before.taken(id).processes, ..before.taken(id).gone(id) })
            == before.gone(id),
        ({
            let after = before.gone(id);
            &&& !after.processes.contains_key(id)
            &&& !after.s3_processes.contains_key(id)
            &&& !after.pids.contains_key(id)
            &&& !after.start_times.contains_key(id)
            &&& after.last_activity == before.last_activity
            &&& after.metrics == before.metrics
        }),
{
    let killed = Registry { processes: before.taken(id).processes, ..before.taken(id).gone(id) };
    assert(killed =~= before.gone(id));
}

/// Starting a project and killing it leaves what was tracked before, but for when it was last
/// active, where the project was not running.
pub proof fn law_start_and_kill<P, S, C>(
    before: Registry<P, S, C>,
    id: Seq<char>,
    pid: u32,
    child: P,
    s3: S,
    now: Moment,
)
    requires
        !before.processes.contains_key(id),
        !before.s3_processes.contains_key(id),
        !before.pids.contains_key(id),
        !before.start_times.contains_key(id),
    ensures
        before.started(id, pid, child, s3, now).gone(id) == before.active(id, now),
{
    assert(before.started(id, pid, child, s3, now).gone(id) =~= before.active(id, now));
}

/// What is tracked of one project.
pub open spec fn tracked_of<P, S, C>(r: Registry<P, S, C>, id: Seq<char>) -> (
    Option<P>,
    Option<S>,
    Option<Moment>,
    Option<u32>,
    Option<Moment>,
    Option<ProcessMetrics<C>>,
) {
    (
        lookup(r.processes, id),
        lookup(r.s3_processes, id),
        lookup(r.last_activity, id),
        lookup(r.pids, id),
        lookup(r.start_times, id),
        lookup(r.metrics, id),
    )
}

/// Starting, killing or using a project changes nothing that is tracked of another.
pub proof fn law_others_untouched<P, S, C>(
    before: Registry<P, S, C>,
    id: Seq<char>,
    other: Seq<char>,
    pid: u32,
    child: P,
    s3: S,
    now: Moment,
)
    requires
        other != id,
    ensures
        tracked_of(before.started(id, pid, child, s3, now), other) == tracked_of(before, other),
        tracked_of(before.active(id, now), other) == tracked_of(before, other),
        tracked_of(before.taken(id), other) == tracked_of(before, other),
        tracked_of(before.gone(id), other) == tracked_of(before, other),
{
}

/// The processes, the S3 servers, the process identifiers and the start times are those of the same
/// projects.
pub open spec fn aligned<P, S, C>(r: Registry<P, S, C>) -> bool {
    &&& r.processes.dom() == r.pids.dom()
    &&& r.processes.dom() == r.start_times.dom()
    &&& r.processes.dom() == r.s3_processes.dom()
}

/// What is tracked of processes is tracked of the same projects, at first and after each start,
/// each exit, each kill and each request.
pub proof fn law_tables_aligned<P, S, C>(
    before: Registry<P, S, C>,
    id: Seq<char>,
    pid: u32,
    child: P,
    s3: S,
    now: Moment,
)
    requires
        aligned(before),
    ensures
        aligned(Registry::<P, S, C>::nothing()),
        aligned(before.started(id, pid, child, s3, now)),
        aligned(before.gone(id)),
        aligned(before.active(id, now)),
{
    let started = before.started(id, pid, child, s3, now);
    assert(started.processes.dom() =~= started.pids.dom());
    assert(started.processes.dom() =~= started.start_times.dom());
    assert(started.processes.dom() =~= started.s3_processes.dom());
    let gone = before.gone(id);
    assert(gone.processes.dom() =~= gone.pids.dom());
    assert(gone.processes.dom() =~= gone.start_times.dom());
    assert(gone.processes.dom() =~= gone.s3_processes.dom());
}

} // verus!
