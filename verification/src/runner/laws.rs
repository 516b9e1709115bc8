//! What holds of choosing binaries, of tracking processes and of reading logs.

use vstd::prelude::*;

use crate::config::Config;
use crate::paths;
use crate::runner;
use crate::runner::bundle;
use crate::runner::bundle::{BinaryError, SnapshotSource};
use crate::runner::launch;
use crate::runner::logs;
use crate::runner::logs::FileChange;
use crate::runner::process;
use crate::runner::process::{Moment, Poll, ProcessManager, Registry, Sample};
use crate::runner::{MetricsSnapshot, ProcessMetrics};
use crate::text;
use crate::tree;
use crate::tree::{Entry, FileEntry};

verus! {

// ---------------------------------------------------------------------------------------------
// Binaries
// ---------------------------------------------------------------------------------------------

/// A file may be executed where its owner, its group or anybody may execute it, and it is a
/// regular one.
pub proof fn law_executable(file: FileEntry)
    ensures
        file.spec_is_executable() <==> file.regular && (file.mode & 0o100 != 0 || file.mode & 0o010
            != 0 || file.mode & 0o001 != 0),
{
    let mode = file.mode;
    assert(mode & 0o111 != 0 <==> (mode & 0o100 != 0 || mode & 0o010 != 0 || mode & 0o001 != 0))
        by (bit_vector);
}

/// Of the entries of a directory, the first file that may be executed is taken, whatever comes
/// behind it; directories and other files are passed over. Where there is none, none is taken.
pub proof fn law_first_executable(dir: Seq<char>, entries: Seq<Entry>, i: int, file: FileEntry)
    requires
        forall|j: int|
            0 <= j < i && j < entries.len() ==> !((#[trigger] entries[j]) matches Entry::File(f)
                && f.spec_is_executable()),
    ensures
        0 <= i < entries.len() && entries[i] == Entry::File(file) && file.spec_is_executable()
            ==> bundle::first_executable(dir, entries) == Some(paths::joined(dir, file.name@)),
        i >= entries.len() ==> bundle::first_executable(dir, entries) is None,
    decreases entries.len(),
{
    if entries.len() > 0 {
        let rest = entries.drop_last();
        law_first_executable(dir, rest, i, file);
        assert(entries.last() == entries[entries.len() - 1]);
    }
}

/// Of the entries of a directory, the first regular file is taken, whatever comes behind it.
pub proof fn law_first_regular(dir: Seq<char>, entries: Seq<Entry>, i: int, file: FileEntry)
    requires
        forall|j: int|
            0 <= j < i && j < entries.len() ==> !((#[trigger] entries[j]) matches Entry::File(f)
                && f.regular),
    ensures
        0 <= i < entries.len() && entries[i] == Entry::File(file) && file.regular
            ==> bundle::first_regular(dir, entries) == Some(paths::joined(dir, file.name@)),
        i >= entries.len() ==> bundle::first_regular(dir, entries) is None,
    decreases entries.len(),
{
    if entries.len() > 0 {
        let rest = entries.drop_last();
        law_first_regular(dir, rest, i, file);
        assert(entries.last() == entries[entries.len() - 1]);
    }
}

/// A project is started with the first file in its directory that may be executed; only where there
/// is none, with the first regular file; and with nothing where there is neither or no directory.
pub proof fn law_binary_of(dir: Seq<char>, entries: Vec<Entry>, i: int, file: FileEntry)
    requires
        0 <= i < entries@.len(),
        entries@[i] == Entry::File(file),
        file.regular,
        forall|j: int|
            0 <= j < i ==> !((#[trigger] entries@[j]) matches Entry::File(f)
                && f.spec_is_executable()),
    ensures
        file.spec_is_executable() ==> launch::binary_of(dir, Some(entries)) == Some(
            paths::joined(dir, file.name@),
        ),
        (forall|j: int|
            0 <= j < entries@.len() ==> !((#[trigger] entries@[j]) matches Entry::File(f)
                && f.spec_is_executable())) && (forall|j: int|
            0 <= j < i ==> !((#[trigger] entries@[j]) matches Entry::File(f) && f.regular))
            ==> launch::binary_of(dir, Some(entries)) == Some(paths::joined(dir, file.name@)),
        launch::binary_of(dir, None) is None,
{
    law_first_executable(dir, entries@, i, file);
    if forall|j: int|
        0 <= j < entries@.len() ==> !((#[trigger] entries@[j]) matches Entry::File(f)
            && f.spec_is_executable()) {
        law_first_executable(dir, entries@, entries@.len() as int, file);
    }
    if forall|j: int| 0 <= j < i ==> !((#[trigger] entries@[j]) matches Entry::File(f) && f.regular) {
        law_first_regular(dir, entries@, i, file);
    }
}

/// A search for a file goes through the entries in their order and through each directory where it
/// stands: the first entry that is such a file, or holds one, gives the result.
pub proof fn law_search_goes_in_order(
    dir: Seq<char>,
    entries: Seq<Entry>,
    i: int,
    name: Seq<char>,
)
    requires
        0 <= i < entries.len(),
        forall|j: int| 0 <= j < i ==> tree::named_entry(dir, #[trigger] entries[j], name) is None,
        tree::named_entry(dir, entries[i], name) is Some,
    ensures
        tree::named_file(dir, entries, name) == tree::named_entry(dir, entries[i], name),
    decreases entries.len(),
{
    let rest = entries.drop_last();
    if i < rest.len() {
        assert forall|j: int| 0 <= j < i implies tree::named_entry(
            dir,
            #[trigger] rest[j],
            name,
        ) is None by {
            assert(rest[j] == entries[j]);
        }
        law_search_goes_in_order(dir, rest, i, name);
    } else {
        lemma_nothing_found(dir, rest, name);
    }
}

proof fn lemma_nothing_found(dir: Seq<char>, entries: Seq<Entry>, name: Seq<char>)
    requires
        forall|j: int|
            0 <= j < entries.len() ==> tree::named_entry(dir, #[trigger] entries[j], name) is None,
    ensures
        tree::named_file(dir, entries, name) is None,
    decreases entries.len(),
{
    if entries.len() > 0 {
        let rest = entries.drop_last();
        assert forall|j: int| 0 <= j < rest.len() implies tree::named_entry(
            dir,
            #[trigger] rest[j],
            name,
        ) is None by {
            assert(rest[j] == entries[j]);
        }
        lemma_nothing_found(dir, rest, name);
        assert(entries.last() == entries[entries.len() - 1]);
    }
}

/// A search looks at names alone: a file of the name is found where it lies, one of another name
/// is not, and a directory is searched, whatever its own name is.
pub proof fn law_search_looks_at_names(
    dir: Seq<char>,
    file: FileEntry,
    sub: String,
    inner: Vec<Entry>,
    name: Seq<char>,
)
    ensures
        file.name@ == name ==> tree::named_entry(dir, Entry::File(file), name) == Some(
            paths::joined(dir, name),
        ),
        file.name@ != name ==> tree::named_entry(dir, Entry::File(file), name) is None,
        tree::named_entry(dir, Entry::Dir(sub, inner), name) == tree::named_file(
            paths::joined(dir, sub@),
            inner@,
            name,
        ),
{
    reveal_with_fuel(tree::named_entry, 2);
}

/// Where nothing of that name is anywhere, nothing is found, and where something is found, its path
/// ends in the name.
pub proof fn law_found_has_the_name(dir: Seq<char>, entries: Seq<Entry>, name: Seq<char>)
    requires
        paths::is_component(name),
    ensures
        tree::named_file(dir, entries, name) matches Some(path) ==> name.is_suffix_of(path),
    decreases entries,
{
    if entries.len() > 0 {
        law_found_has_the_name(dir, entries.drop_last(), name);
        lemma_found_has_the_name(dir, entries.last(), name);
    }
}

proof fn lemma_found_has_the_name(dir: Seq<char>, entry: Entry, name: Seq<char>)
    requires
        paths::is_component(name),
    ensures
        tree::named_entry(dir, entry, name) matches Some(path) ==> name.is_suffix_of(path),
    decreases entry,
{
    match entry {
        Entry::Dir(sub, inner) => {
            law_found_has_the_name(paths::joined(dir, sub@), inner@, name);
        },
        Entry::File(f) => {
            let path = paths::joined(dir, name);
            assert(name[0] != '/') by {
                assert(name.contains(name[0]));
            }
            assert(path.subrange(path.len() - name.len(), path.len() as int) =~= name);
        },
    }
}

/// What is taken of an unpacked bundle: a file with the project's name, wherever it lies; where
/// there is none, the first file at the top that may be executed; where there is none either, the
/// place where a file with the project's name would lie.
pub proof fn law_bundle_binary(dir: Seq<char>, entries: Seq<Entry>, name: Seq<char>)
    ensures
        tree::named_file(dir, entries, name) matches Some(path) ==> bundle::bundle_binary(
            dir,
            entries,
            name,
        ) == path,
        tree::named_file(dir, entries, name) is None ==> {
            &&& bundle::first_executable(dir, entries) matches Some(path) ==> bundle::bundle_binary(
                dir,
                entries,
                name,
            ) == path
            &&& bundle::first_executable(dir, entries) is None ==> bundle::bundle_binary(
                dir,
                entries,
                name,
            ) == paths::joined(dir, name)
        },
{
}

/// At the top of a workspace a name is found exactly where some entry has it, of whatever sort.
pub proof fn law_found_at_root(dir: Seq<char>, entries: Seq<Entry>, i: int, name: Seq<char>)
    ensures
        0 <= i < entries.len() && entries[i].spec_name() == name ==> bundle::named_at_root(
            dir,
            entries,
            name,
        ) == Some(paths::joined(dir, name)),
        bundle::named_at_root(dir, entries, name) is Some ==> exists|j: int|
            0 <= j < entries.len() && match #[trigger] entries[j] {
                Entry::Dir(n, _) => n@ == name,
                Entry::File(f) => f.name@ == name,
            },
{
    if bundle::named_at_root(dir, entries, name) is Some {
        let j = choose|j: int| 0 <= j < entries.len() && (#[trigger] entries[j]).spec_name() == name;
        assert(match entries[j] {
            Entry::Dir(n, _) => n@ == name,
            Entry::File(f) => f.name@ == name,
        });
    }
}

/// Bytes are taken for a bundle exactly where they start with 1f 8b, whatever follows.
pub proof fn law_gzip_magic(a: u8, b: u8, rest: Seq<u8>)
    ensures
        bundle::has_gzip_magic(seq![a, b] + rest) <==> a == 0x1f && b == 0x8b,
        !bundle::has_gzip_magic(seq![a]),
        !bundle::has_gzip_magic(Seq::empty()),
{
    let bytes = seq![a, b] + rest;
    assert(bytes[0] == a && bytes[1] == b);
}

/// A binary is written under the project's name, with an ending on Windows alone.
pub proof fn law_binary_name(name: Seq<char>)
    ensures
        bundle::binary_name(name, false) == name,
        bundle::binary_name(name, true) == name + ".exe"@,
{
}

/// What is saved before a deploy is what is deployed of the same sort, and the upload itself where
/// nothing of the sort is.
pub proof fn law_snapshot_source(is_bundle: bool, has_current: bool)
    ensures
        bundle::snapshot_source(is_bundle, has_current) == SnapshotSource::Upload <==> !has_current,
        bundle::snapshot_source(is_bundle, has_current) == SnapshotSource::CurrentBundle
            <==> has_current && is_bundle,
        bundle::snapshot_source(is_bundle, has_current) == SnapshotSource::CurrentBinary
            <==> has_current && !is_bundle,
{
}

/// A snapshot lies in the project's own directory for them, and its name tells when it was made and
/// of which sort it is.
pub proof fn law_snapshot_path(config: Config, name: Seq<char>, ts: u64)
    requires
        paths::is_component(name),
    ensures
        bundle::saved_path(config, name, true, ts) == config.spec_project_deploys_dir(name)
            + "/deploy-"@ + text::decimal_int(ts as int) + ".tar.gz"@,
        bundle::saved_path(config, name, false, ts) == config.spec_project_deploys_dir(name)
            + "/deploy-"@ + text::decimal_int(ts as int) + ".bin"@,
        bundle::current_path(config, name, true) == config.spec_project_bundle_path(name),
        bundle::current_path(config, name, false) == config.spec_project_bin_dir(name) + "/"@ + name,
{
    crate::config::lemma_project_dir(config, name);
    let dir = config.spec_project_deploys_dir(name);
    reveal_strlit("deploys");
    reveal_strlit("deploy-");
    reveal_strlit("/deploy-");
    reveal_strlit(".");
    reveal_strlit("tar.gz");
    reveal_strlit(".tar.gz");
    reveal_strlit("bin");
    reveal_strlit(".bin");
    reveal_strlit("/");
    assert(dir.last() == 's');
    let digits = text::decimal(ts as nat);
    assert(("deploy-"@ + digits + "."@ + "tar.gz"@)[0] == 'd');
    assert(("deploy-"@ + digits + "."@ + "bin"@)[0] == 'd');
    assert(dir.push('/') + ("deploy-"@ + digits + "."@ + "tar.gz"@) =~= dir + "/deploy-"@ + digits
        + ".tar.gz"@);
    assert(dir.push('/') + ("deploy-"@ + digits + "."@ + "bin"@) =~= dir + "/deploy-"@ + digits
        + ".bin"@);
    let bin = config.spec_project_bin_dir(name);
    assert(bin.last() == 'n');
    assert(name[0] != '/') by {
        assert(name.contains(name[0]));
    }
    assert(bin.push('/') + name =~= bin + "/"@ + name);
}

// ---------------------------------------------------------------------------------------------
// Processes
// ---------------------------------------------------------------------------------------------

/// What is tracked of a project after it was started, used, taken out and killed, in all its
/// parts: nothing that is not named here changes.
pub proof fn law_tracking<P, S, C>(
    before: Registry<P, S, C>,
    id: Seq<char>,
    pid: u32,
    child: P,
    s3: S,
    now: Moment,
)
    ensures
        process::tracked_of(before.started(id, pid, child, s3, now), id) == (
            Some(child),
            Some(s3),
            Some(now),
            Some(pid),
            Some(now),
            process::lookup(before.metrics, id),
        ),
        ({
            let (p, s, _, k, t, m) = process::tracked_of(before, id);
            &&& process::tracked_of(before.active(id, now), id) == (p, s, Some(now), k, t, m)
        }),
        ({
            let (_, s, a, k, t, m) = process::tracked_of(before, id);
            &&& process::tracked_of(before.taken(id), id) == (None::<P>, s, a, k, t, m)
            &&& process::tracked_of(before.gone(id), id) == (
                None::<P>,
                None::<S>,
                a,
                None::<u32>,
                None::<Moment>,
                m,
            )
        }),
        process::tracked_of(Registry::<P, S, C>::nothing(), id) == (
            None::<P>,
            None::<S>,
            None::<Moment>,
            None::<u32>,
            None::<Moment>,
            None::<ProcessMetrics<C>>,
        ),
{
}

/// Starting a project tracks it with all that belongs to it, and nothing of any other changes.
pub proof fn law_registered<P, S, C>(
    manager: &mut ProcessManager<P, S, C>,
    id: &str,
    other: Seq<char>,
    pid: u32,
    child: P,
    s3: S,
    now: Moment,
)
    requires
        call_ensures(ProcessManager::<P, S, C>::register, (manager, id, pid, child, s3, now), ()),
    ensures
        process::tracked_of(final(manager)@, id@) == (
            Some(child),
            Some(s3),
            Some(now),
            Some(pid),
            Some(now),
            process::lookup(old(manager)@.metrics, id@),
        ),
        other != id@ ==> process::tracked_of(final(manager)@, other) == process::tracked_of(
            old(manager)@,
            other,
        ),
{
    law_tracking(old(manager)@, id@, pid, child, s3, now);
}

/// Noting the activity of a project sets when it was last active, and nothing else, of that project
/// alone.
pub proof fn law_activity_noted<P, S, C>(
    manager: &mut ProcessManager<P, S, C>,
    id: &str,
    other: Seq<char>,
    now: Moment,
)
    requires
        call_ensures(ProcessManager::<P, S, C>::record_activity, (manager, id, now), ()),
    ensures
        ({
            let (p, s, _, k, t, m) = process::tracked_of(old(manager)@, id@);
            process::tracked_of(final(manager)@, id@) == (p, s, Some(now), k, t, m)
        }),
        other != id@ ==> process::tracked_of(final(manager)@, other) == process::tracked_of(
            old(manager)@,
            other,
        ),
{
}

/// A kill takes out the project's own process, whatever the project had, and leaves all others.
pub proof fn law_kill_begun<P, S, C>(
    manager: &mut ProcessManager<P, S, C>,
    id: &str,
    other: Seq<char>,
    taken: Option<P>,
)
    requires
        call_ensures(ProcessManager::<P, S, C>::begin_kill, (manager, id), taken),
    ensures
        taken == process::lookup(old(manager)@.processes, id@),
        ({
            let (_, s, a, k, t, m) = process::tracked_of(old(manager)@, id@);
            process::tracked_of(final(manager)@, id@) == (None::<P>, s, a, k, t, m)
        }),
        other != id@ ==> process::tracked_of(final(manager)@, other) == process::tracked_of(
            old(manager)@,
            other,
        ),
{
}

/// The end of a kill forgets the rest of the project but when it was last active and what it used,
/// and leaves all others.
pub proof fn law_kill_finished<P, S, C>(
    manager: &mut ProcessManager<P, S, C>,
    id: &str,
    other: Seq<char>,
)
    requires
        call_ensures(ProcessManager::<P, S, C>::finish_kill, (manager, id), ()),
    ensures
        ({
            let (p, _, a, _, _, m) = process::tracked_of(old(manager)@, id@);
            process::tracked_of(final(manager)@, id@) == (
                p,
                None::<S>,
                a,
                None::<u32>,
                None::<Moment>,
                m,
            )
        }),
        other != id@ ==> process::tracked_of(final(manager)@, other) == process::tracked_of(
            old(manager)@,
            other,
        ),
{
}

/// A project runs exactly where its process is tracked and has not exited, as far as could be told.
/// One that has exited is forgotten; otherwise nothing changes.
pub proof fn law_poll<P, S, C>(
    manager: &mut ProcessManager<P, S, C>,
    id: &str,
    other: Seq<char>,
    polled: Poll,
    running: bool,
)
    requires
        call_ensures(ProcessManager::<P, S, C>::is_running, (manager, id, polled), running),
    ensures
        running <==> process::lookup(old(manager)@.processes, id@) is Some && polled is Alive,
        running ==> final(manager)@ == old(manager)@,
        polled is Failed ==> final(manager)@ == old(manager)@,
        process::lookup(old(manager)@.processes, id@) is Some && polled is Exited ==> {
            let (_, _, a, _, _, m) = process::tracked_of(old(manager)@, id@);
            process::tracked_of(final(manager)@, id@) == (
                None::<P>,
                None::<S>,
                a,
                None::<u32>,
                None::<Moment>,
                m,
            )
        },
        other != id@ ==> process::tracked_of(final(manager)@, other) == process::tracked_of(
            old(manager)@,
            other,
        ),
{
}

/// What is asked of a project is what is tracked of it: its process identifier, how long it has
/// been idle and what it used. The projects that are listed as idle are those that run and were
/// last used the given minutes ago, or more.
pub proof fn law_asked<P, S, C>(
    manager: ProcessManager<P, S, C>,
    id: &str,
    timeout_mins: u64,
    now: Moment,
    pid: Option<u32>,
    idle: Option<u64>,
    used: Option<&ProcessMetrics<C>>,
    listed: Vec<String>,
    active: Vec<String>,
)
    requires
        call_ensures(ProcessManager::<P, S, C>::get_pid, (&manager, id), pid),
        call_ensures(ProcessManager::<P, S, C>::idle_seconds, (&manager, id, now), idle),
        call_ensures(ProcessManager::<P, S, C>::metrics_of, (&manager, id), used),
        call_ensures(ProcessManager::<P, S, C>::idle_projects, (&manager, timeout_mins, now), listed),
        call_ensures(ProcessManager::<P, S, C>::active_projects, (&manager,), active),
    ensures
        pid == process::lookup(manager@.pids, id@),
        idle is Some <==> process::lookup(manager@.last_activity, id@) is Some,
        process::lookup(manager@.last_activity, id@) matches Some(last) ==> (last.nanos <= now.nanos
            ==> (idle matches Some(secs) && secs * 1_000_000_000 <= now.nanos - last.nanos < (secs
            + 1) * 1_000_000_000)),
        used is Some <==> process::lookup(manager@.metrics, id@) is Some,
        used matches Some(m) ==> process::lookup(manager@.metrics, id@) == Some(*m),
        text::views(active@).contains(id@) <==> process::lookup(manager@.processes, id@) is Some,
        text::views(listed@).contains(id@) <==> {
            &&& process::lookup(manager@.processes, id@) is Some
            &&& process::lookup(manager@.last_activity, id@) matches Some(last)
            &&& timeout_mins == 0 || now.nanos - last.nanos >= timeout_mins * 60 * 1_000_000_000
        },
        text::views(listed@).no_duplicates(),
        text::views(active@).no_duplicates(),
{
    law_idle(manager@, id@, timeout_mins, now);
}

/// A reading of one project changes what that project used, and nothing else.
pub proof fn law_one_refreshed<P, S, C: Copy>(
    manager: &mut ProcessManager<P, S, C>,
    id: &str,
    other: Seq<char>,
    sample: Option<Sample<C>>,
    zero: C,
    now: Moment,
    ts: u64,
)
    requires
        call_ensures(
            ProcessManager::<P, S, C>::refresh_one,
            (manager, id, sample, zero, now, ts),
            (),
        ),
    ensures
        ({
            let (p, s, a, k, t, _) = process::tracked_of(old(manager)@, id@);
            let (p2, s2, a2, k2, t2, m2) = process::tracked_of(final(manager)@, id@);
            &&& (p2, s2, a2, k2, t2) == (p, s, a, k, t)
            &&& m2 matches Some(m)
            &&& m.history@.len() > 0 && m.history@.last().ts == ts
            &&& m.uptime_secs == old(manager)@.uptime(id@, now)
            &&& sample is None ==> m.cpu_percent == zero && m.ram_mb == 0
            &&& sample matches Some(seen) ==> m.cpu_percent == seen.cpu && m.ram_mb * 1024 * 1024
                <= seen.memory < (m.ram_mb + 1) * 1024 * 1024
        }),
        other != id@ ==> process::tracked_of(final(manager)@, other) == process::tracked_of(
            old(manager)@,
            other,
        ),
{
    let before = old(manager)@;
    let after = final(manager)@;
    law_refreshed(before, id@, sample, zero, now, ts, after.metrics[id@]);
    if other != id@ {
        assert(after.metrics.remove(id@).contains_key(other) == before.metrics.remove(
            id@,
        ).contains_key(other));
        if after.metrics.contains_key(other) {
            assert(after.metrics.remove(id@)[other] == before.metrics.remove(id@)[other]);
        }
    }
}

/// A look-up finds what was put in last, and nothing where nothing was.
pub proof fn law_lookup<V>(m: Map<Seq<char>, V>, k: Seq<char>, other: Seq<char>, v: V)
    ensures
        process::lookup(m.insert(k, v), k) == Some(v),
        process::lookup(m.remove(k), k) is None,
        other != k ==> process::lookup(m.insert(k, v), other) == process::lookup(m, other),
{
}

/// Projects are suspended exactly where they run and were last used so many minutes ago, or more.
pub proof fn law_idle<P, S, C>(
    r: Registry<P, S, C>,
    id: Seq<char>,
    timeout_mins: u64,
    now: Moment,
)
    ensures
        r.idle(id, timeout_mins, now) <==> {
            &&& process::lookup(r.processes, id) is Some
            &&& process::lookup(r.last_activity, id) matches Some(used)
            &&& timeout_mins == 0 || now.nanos - used.nanos >= timeout_mins * 60 * 1_000_000_000
        },
{
    match process::lookup(r.last_activity, id) {
        Some(used) => {
            let n = now.nanos - used.nanos;
            let limit = timeout_mins * 60;
            if n > 0 {
                assert(n / 1_000_000_000 >= limit <==> n >= limit * 1_000_000_000);
                assert(0 <= n / 1_000_000_000 <= u64::MAX);
            }
        },
        None => {},
    }
}

/// A project has been up for the whole seconds since its process was started, and for none where
/// it was not.
pub proof fn law_uptime<P, S, C>(r: Registry<P, S, C>, id: Seq<char>, started: Moment, now: Moment)
    requires
        process::lookup(r.start_times, id) == Some(started),
        started.nanos <= now.nanos,
    ensures
        r.uptime(id, now) * 1_000_000_000 <= now.nanos - started.nanos < (r.uptime(id, now) + 1)
            * 1_000_000_000,
        r.gone(id).uptime(id, now) == 0,
{
}

/// A reading takes over what was measured, the memory in whole megabytes, and adds itself to the
/// end of the history, which holds thirty readings at most. A process that could not be measured
/// counts as using nothing.
pub proof fn law_refreshed<P, S, C>(
    before: Registry<P, S, C>,
    id: Seq<char>,
    sample: Option<Sample<C>>,
    zero: C,
    now: Moment,
    ts: u64,
    after: ProcessMetrics<C>,
)
    requires
        process::refreshed(before, id, sample, zero, now, ts, after),
    ensures
        sample matches Some(s) ==> after.cpu_percent == s.cpu && after.ram_mb * 1024 * 1024
            <= s.memory < (after.ram_mb + 1) * 1024 * 1024,
        sample is None ==> after.cpu_percent == zero && after.ram_mb == 0,
        after.uptime_secs == before.uptime(id, now),
        after.history@.len() > 0,
        after.history@.last() == (MetricsSnapshot {
            cpu_percent: after.cpu_percent,
            ram_mb: after.ram_mb,
            ts,
        }),
        process::lookup(before.metrics, id) is None ==> after.history@.len() == 1,
        process::lookup(before.metrics, id) matches Some(m) ==> {
            &&& m.history@.len() < 30 ==> after.history@.drop_last() == m.history@
            &&& m.history@.len() == 30 ==> after.history@.len() == 30 && after.history@.drop_last()
                == m.history@.drop_first()
        },
{
    match process::lookup(before.metrics, id) {
        Some(m) => {
            assert(after.history@.drop_last() =~= (if m.history@.len() >= 30 {
                m.history@.drop_first()
            } else {
                m.history@
            }));
        },
        None => {},
    }
}

/// A reading that is taken by hand does the same.
pub proof fn law_reads<C: Copy>(
    before: ProcessMetrics<C>,
    cpu: C,
    ram_mb: u64,
    uptime_secs: u64,
    ts: u64,
    after: ProcessMetrics<C>,
)
    requires
        ProcessMetrics::reads(before, cpu, ram_mb, uptime_secs, ts, after),
        before.history@.len() <= 30,
    ensures
        after.cpu_percent == cpu,
        after.ram_mb == ram_mb,
        after.uptime_secs == uptime_secs,
        1 <= after.history@.len() <= 30,
        after.history@.last() == (MetricsSnapshot { cpu_percent: cpu, ram_mb, ts }),
        before.history@.len() < 30 ==> after.history@.drop_last() == before.history@,
        before.history@.len() == 30 ==> after.history@.drop_last() == before.history@.drop_first(),
{
    assert(after.history@.drop_last() =~= (if before.history@.len() == 30 {
        before.history@.drop_first()
    } else {
        before.history@
    }));
}

/// The time that a process has been up is told in its two largest units: seconds alone below a
/// minute, minutes and seconds below an hour, and from then on hours and minutes.
pub proof fn law_uptime_text(hours: nat, minutes: nat, seconds: nat)
    requires
        minutes < 60,
        seconds < 60,
    ensures
        runner::uptime_text(seconds) == text::decimal_int(seconds as int) + "s"@,
        minutes > 0 ==> runner::uptime_text(60 * minutes + seconds) == text::decimal_int(
            minutes as int,
        ) + "m "@ + text::decimal_int(seconds as int) + "s"@,
        hours > 0 ==> runner::uptime_text(3600 * hours + 60 * minutes + seconds)
            == text::decimal_int(hours as int) + "h "@ + text::decimal_int(minutes as int) + "m"@,
{
    assert((60 * minutes + seconds) / 60 == minutes);
    assert((60 * minutes + seconds) % 60 == seconds);
    let all = 3600 * hours + 60 * minutes + seconds;
    assert(all / 3600 == hours);
    assert(all % 3600 == 60 * minutes + seconds);
}

// ---------------------------------------------------------------------------------------------
// Logs
// ---------------------------------------------------------------------------------------------

/// A log is rotated from five megabytes on, and left alone below. The oldest file goes first, so
/// that nothing is written over: the older one takes its place, and the log that of the older one.
pub proof fn law_rotation(log_path: Seq<char>, size: u64)
    ensures
        size < 5 * 1024 * 1024 ==> logs::rotation(log_path, size).len() == 0,
        size >= 5 * 1024 * 1024 ==> logs::rotation(log_path, size) == seq![
            FileChange::Remove(log_path + ".2"@),
            FileChange::Rename(log_path + ".1"@, log_path + ".2"@),
            FileChange::Rename(log_path, log_path + ".1"@),
        ],
{
}

/// The lines of several files are those of the first, then those of the next, and so on.
pub proof fn law_lines_of_all(first: Seq<char>, texts: Seq<Seq<char>>)
    ensures
        logs::lines_of_all(Seq::empty()) == Seq::<Seq<char>>::empty(),
        logs::lines_of_all(seq![first] + texts) == text::lines_of(first) + logs::lines_of_all(texts),
    decreases texts.len(),
{
    let all = seq![first] + texts;
    if texts.len() == 0 {
        assert(all =~= seq![first]);
        assert(all.drop_last() =~= Seq::<Seq<char>>::empty());
        assert(logs::lines_of_all(all.drop_last()) =~= Seq::empty());
    } else {
        law_lines_of_all(first, texts.drop_last());
        assert(all.drop_last() =~= seq![first] + texts.drop_last());
        assert(all.last() == texts.last());
    }
}

/// The tail of a list of lines is its last lines in their order: as many as were asked for, or all
/// where there are fewer.
pub proof fn law_last_lines(before: Seq<Seq<char>>, last: Seq<Seq<char>>, n: nat)
    ensures
        logs::last_lines(before + last, last.len()) == last,
        before.len() <= n ==> logs::last_lines(before, n) == before,
{
    let all = before + last;
    if all.len() <= last.len() {
        assert(before.len() == 0);
        assert(all =~= last);
    } else {
        assert(all.skip(all.len() - last.len()) =~= last);
    }
}

/// What can be read of several files is what is in each that could be read, in their order.
pub proof fn law_readable(first: Option<Vec<u8>>, files: Seq<Option<Vec<u8>>>)
    ensures
        logs::readable(Seq::empty()) == Seq::<Seq<char>>::empty(),
        logs::readable(seq![first] + files) == (match first {
            Some(bytes) => seq![text::lossy_text(bytes@)],
            None => Seq::empty(),
        }) + logs::readable(files),
    decreases files.len(),
{
    let all = seq![first] + files;
    if files.len() == 0 {
        assert(all =~= seq![first]);
        assert(all.drop_last() =~= Seq::<Option<Vec<u8>>>::empty());
        assert(logs::readable(all.drop_last()) =~= Seq::empty());
    } else {
        law_readable(first, files.drop_last());
        assert(all.drop_last() =~= seq![first] + files.drop_last());
        assert(all.last() == files.last());
    }
}

/// Of a log file at most the last sixty-four kilobytes are read, and all of a smaller one.
pub proof fn law_tail_start(size: u64, start: u64)
    requires
        call_ensures(logs::tail_start, (size,), start),
    ensures
        size <= 65_536 ==> start == 0,
        size > 65_536 ==> size - start == 65_536,
{
}

/// What is shown of a project's logs is the end of the lines of all files that could be read, the
/// oldest file first: never more than was asked for, and never fewer than there are.
pub proof fn law_log_tail(
    log_path: &str,
    names: Vec<String>,
    files: Vec<Option<Vec<u8>>>,
    n: usize,
    r: Vec<String>,
)
    requires
        call_ensures(logs::log_files, (log_path,), names),
        call_ensures(logs::read_log_tail_multi, (&files, n), r),
    ensures
        text::views(names@) == seq![log_path@ + ".2"@, log_path@ + ".1"@, log_path@],
        text::views(r@).is_suffix_of(logs::lines_of_all(logs::readable(files@))),
        r@.len() <= n,
        r@.len() == n || text::views(r@) == logs::lines_of_all(logs::readable(files@)),
{
    let all = logs::lines_of_all(logs::readable(files@));
    let shown = text::views(r@);
    assert(shown.len() == r@.len());
    if all.len() <= n {
        assert(all.subrange(0, all.len() as int) =~= shown);
    } else {
        assert(all.subrange(all.len() - shown.len(), all.len() as int) =~= shown);
    }
}

/// A single log is read in the same way, and one that cannot be read shows nothing.
pub proof fn law_single_log(bytes: Vec<u8>, n: usize, r: Vec<String>, none: Vec<String>)
    requires
        call_ensures(logs::read_log_tail, (Some(bytes), n), r),
        call_ensures(logs::read_log_tail, (None, n), none),
    ensures
        none@.len() == 0,
        text::views(r@).is_suffix_of(text::lines_of(text::lossy_text(bytes@))),
        r@.len() <= n,
        r@.len() == n || text::views(r@) == text::lines_of(text::lossy_text(bytes@)),
{
    let all = text::lines_of(text::lossy_text(bytes@));
    let shown = text::views(r@);
    assert(shown.len() == r@.len());
    assert(text::views(none@).len() == none@.len());
    if all.len() <= n {
        assert(all.subrange(0, all.len() as int) =~= shown);
    } else {
        assert(all.subrange(all.len() - shown.len(), all.len() as int) =~= shown);
    }
}

/// The binary of a project is the one that was chosen, or what is missing is told by the directory.
pub proof fn law_find_binary(
    dir: &str,
    entries: Vec<Entry>,
    r: Result<String, BinaryError>,
    none: Result<String, BinaryError>,
)
    requires
        call_ensures(bundle::find_binary, (dir, Some(&entries)), r),
        call_ensures(bundle::find_binary, (dir, None), none),
    ensures
        none matches Err(BinaryError::NoDirectory(told)) && told@ == dir@,
        r is Ok <==> launch::binary_of(dir@, Some(entries)) is Some,
        r matches Ok(path) ==> launch::binary_of(dir@, Some(entries)) == Some(path@),
        r matches Err(e) ==> (e matches BinaryError::NoBinary(told) && told@ == dir@),
{
}

/// What a deploy saves beforehand is put under a name that tells the time and the kind, and is what
/// an upload of the same kind replaces.
pub proof fn law_saved(
    config: Config,
    name: &str,
    deploys_dir: &str,
    is_bundle: bool,
    has_current: bool,
    ts: u64,
    saved: (String, SnapshotSource),
    current: String,
    written: String,
)
    requires
        paths::is_component(name@),
        deploys_dir@ == config.spec_project_deploys_dir(name@),
        call_ensures(bundle::save_deploy_snapshot, (deploys_dir, is_bundle, has_current, ts), saved),
        call_ensures(bundle::current_file, (&config, name, is_bundle), current),
        call_ensures(bundle::write_binary, (deploys_dir, name, false), written),
    ensures
        saved.0@ == deploys_dir@ + "/deploy-"@ + text::decimal_int(ts as int) + (if is_bundle {
            ".tar.gz"@
        } else {
            ".bin"@
        }),
        saved.1 == (if !has_current {
            SnapshotSource::Upload
        } else if is_bundle {
            SnapshotSource::CurrentBundle
        } else {
            SnapshotSource::CurrentBinary
        }),
        is_bundle ==> current@ == config.spec_project_bundle_path(name@),
        !is_bundle ==> current@ == config.spec_project_bin_dir(name@) + "/"@ + name@,
        name@.is_suffix_of(written@),
{
    law_snapshot_path(config, name@, ts);
    assert(name@[0] != '/') by {
        assert(name@.contains(name@[0]));
    }
    assert(written@.subrange(written@.len() - name@.len(), written@.len() as int) =~= name@);
}

} // verus!
