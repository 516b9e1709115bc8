//! Running projects: what is tracked of each process, and how it is started and stopped.

use std::collections::VecDeque;

use vstd::prelude::*;
use vstd::string::*;

use crate::text;

pub mod bundle;
pub mod launch;
pub mod laws;
pub mod logs;
pub mod process;
pub mod proxy;

verus! {

// ---------------------------------------------------------------------------------------------
// Metrics
// ---------------------------------------------------------------------------------------------

/// Number of snapshots that a history holds.
pub const HISTORY_LEN: usize = 30;

/// Bytes in a MB.
pub const BYTES_PER_MB: u64 = 1_048_576;

/// What a process used at one time. `C` is the type of a processor usage reading.
#[derive(Debug)]
pub struct MetricsSnapshot<C> {
    pub cpu_percent: C,
    pub ram_mb: u64,
    /// Seconds since the Unix epoch.
    pub ts: u64,
}

/// What a process uses now, and what it used at the last readings, the oldest first.
#[derive(Debug)]
pub struct ProcessMetrics<C> {
    pub cpu_percent: C,
    pub ram_mb: u64,
    pub uptime_secs: u64,
    pub history: VecDeque<MetricsSnapshot<C>>,
}

/// A history with one more snapshot, which pushes the oldest one out where the history is full.
pub open spec fn with_snapshot<T>(history: Seq<T>, snapshot: T) -> Seq<T> {
    if history.len() >= HISTORY_LEN {
        history.drop_first().push(snapshot)
    } else {
        history.push(snapshot)
    }
}

/// How long `s` seconds are, in the two largest units that apply.
pub open spec fn uptime_text(s: nat) -> Seq<char> {
    if s < 60 {
        text::decimal(s) + "s"@
    } else if s < 3600 {
        text::decimal(s / 60) + "m "@ + text::decimal(s % 60) + "s"@
    } else {
        text::decimal(s / 3600) + "h "@ + text::decimal((s % 3600) / 60) + "m"@
    }
}

impl<C> ProcessMetrics<C> {
    /// The history is not overfull.
    pub open spec fn wf(self) -> bool {
        self.history@.len() <= HISTORY_LEN
    }

    /// The metrics of a process that was not read yet.
    pub fn new(zero: C) -> (r: ProcessMetrics<C>)
        ensures
            r.cpu_percent == zero,
            r.ram_mb == 0,
            r.uptime_secs == 0,
            r.history@ == Seq::<MetricsSnapshot<C>>::empty(),
    {
        ProcessMetrics {
            cpu_percent: zero,
            ram_mb: 0,
            uptime_secs: 0,
            history: VecDeque::with_capacity(HISTORY_LEN),
        }
    }

    /// How long the process has been up.
    pub fn uptime_display(&self) -> (r: String)
        ensures
            r@ == uptime_text(self.uptime_secs as nat),
    {
        let s = self.uptime_secs;
        if s < 60 {
            let mut r = text::decimal_of(s);
            r.append("s");
            r
        } else if s < 3600 {
            let mut r = text::decimal_of(s / 60);
            r.append("m ");
            r.append(text::decimal_of(s % 60).as_str());
            r.append("s");
            r
        } else {
            let mut r = text::decimal_of(s / 3600);
            r.append("h ");
            r.append(text::decimal_of((s % 3600) / 60).as_str());
            r.append("m");
            r
        }
    }
}

impl<C: Copy> ProcessMetrics<C> {
    /// The metrics after one more reading.
    pub open spec fn reads(
        before: ProcessMetrics<C>,
        cpu: C,
        ram_mb: u64,
        uptime_secs: u64,
        ts: u64,
        after: ProcessMetrics<C>,
    ) -> bool {
        &&& after.cpu_percent == cpu
        &&& after.ram_mb == ram_mb
        &&& after.uptime_secs == uptime_secs
        &&& after.history@ == with_snapshot(
            before.history@,
            MetricsSnapshot { cpu_percent: cpu, ram_mb, ts },
        )
    }

    /// The same metrics again.
    pub fn duplicate(&self) -> (r: ProcessMetrics<C>)
        ensures
            r.cpu_percent == self.cpu_percent,
            r.ram_mb == self.ram_mb,
            r.uptime_secs == self.uptime_secs,
            r.history@ == self.history@,
    {
        let mut history: VecDeque<MetricsSnapshot<C>> = VecDeque::with_capacity(HISTORY_LEN);
        let n: usize = self.history.len();
        let mut i: usize = 0;
        while i < n
            invariant
                n == self.history@.len(),
                i <= n,
                history@ == self.history@.take(i as int),
            decreases n - i,
        {
            let s = &self.history[i];
            let copy = MetricsSnapshot { cpu_percent: s.cpu_percent, ram_mb: s.ram_mb, ts: s.ts };
            history.push_back(copy);
            assert(self.history@.take(i as int + 1) =~= self.history@.take(i as int).push(
                self.history@[i as int],
            ));
            i += 1;
        }
        assert(self.history@.take(n as int) =~= self.history@);
        ProcessMetrics {
            cpu_percent: self.cpu_percent,
            ram_mb: self.ram_mb,
            uptime_secs: self.uptime_secs,
            history,
        }
    }

    /// Takes in one more reading.
    pub fn record(&mut self, cpu: C, ram_mb: u64, uptime_secs: u64, ts: u64)
        ensures
            ProcessMetrics::reads(*old(self), cpu, ram_mb, uptime_secs, ts, *final(self)),
            old(self).wf() ==> final(self).wf(),
    {
        self.cpu_percent = cpu;
        self.ram_mb = ram_mb;
        self.uptime_secs = uptime_secs;
        if self.history.len() >= HISTORY_LEN {
            self.history.pop_front();
            assert(self.history@ =~= old(self).history@.drop_first());
        }
        self.history.push_back(MetricsSnapshot { cpu_percent: cpu, ram_mb, ts });
    }
}

/// A history that is not overfull keeps the latest snapshots, all of them while there are at most
/// as many as it holds.
pub proof fn law_history_keeps_the_latest<T>(history: Seq<T>, snapshot: T)
    requires
        history.len() <= HISTORY_LEN,
    ensures
        with_snapshot(history, snapshot).len() <= HISTORY_LEN,
        with_snapshot(history, snapshot).is_suffix_of(history.push(snapshot)),
        history.len() < HISTORY_LEN ==> with_snapshot(history, snapshot) == history.push(snapshot),
{
    let all = history.push(snapshot);
    let r = with_snapshot(history, snapshot);
    assert(r =~= all.subrange(all.len() - r.len(), all.len() as int));
}

} // verus!
