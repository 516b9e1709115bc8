//! What is deployed: telling a bundle from a bare binary, finding the binary to run, and keeping a
//! snapshot of it.

use vstd::prelude::*;
use vstd::string::*;

use crate::config;
use crate::config::Config;
use crate::paths;
use crate::text;
use crate::tree;
use crate::tree::Entry;

verus! {

// ---------------------------------------------------------------------------------------------
// Bundles
// ---------------------------------------------------------------------------------------------

/// True for what starts as a gzip file does.
pub open spec fn has_gzip_magic(bytes: Seq<u8>) -> bool {
    bytes.len() >= 2 && bytes[0] == 0x1f && bytes[1] == 0x8b
}

/// True for what starts as a gzip file does: such an upload is a bundle, any other a binary.
pub fn is_gzip(bytes: &[u8]) -> (r: bool)
    ensures
        r == has_gzip_magic(bytes@),
{
    bytes.len() >= 2 && bytes[0] == 0x1f && bytes[1] == 0x8b
}

/// The path of the first of the entries of `dir` that is an executable file. Directories are not
/// looked into.
pub open spec fn first_executable(dir: Seq<char>, entries: Seq<Entry>) -> Option<Seq<char>>
    decreases entries.len(),
{
    if entries.len() == 0 {
        None
    } else {
        match first_executable(dir, entries.drop_last()) {
            Some(path) => Some(path),
            None => match entries.last() {
                Entry::File(f) if f.spec_is_executable() => Some(paths::joined(dir, f.name@)),
                _ => None,
            },
        }
    }
}

proof fn lemma_first_executable_stays(dir: Seq<char>, entries: Seq<Entry>, n: int)
    requires
        0 <= n <= entries.len(),
        first_executable(dir, entries.take(n)) is Some,
    ensures
        first_executable(dir, entries) == first_executable(dir, entries.take(n)),
    decreases entries.len(),
{
    if n == entries.len() {
        assert(entries.take(n) =~= entries);
    } else {
        assert(entries.drop_last().take(n) =~= entries.take(n));
        lemma_first_executable_stays(dir, entries.drop_last(), n);
    }
}

/// The path of the first executable file among the entries of `dir`.
pub fn find_executable(dir: &str, entries: &Vec<Entry>) -> (r: Option<String>)
    ensures
        tree::opt_view(r) == first_executable(dir@, entries@),
{
    let mut i: usize = 0;
    while i < entries.len()
        invariant
            i <= entries@.len(),
            first_executable(dir@, entries@.take(i as int)) is None,
        decreases entries@.len() - i,
    {
        proof {
            assert(entries@.take(i as int + 1).drop_last() =~= entries@.take(i as int));
            assert(entries@.take(i as int + 1).last() == entries@[i as int]);
        }
        match &entries[i] {
            Entry::File(f) => {
                if f.is_executable() {
                    proof {
                        lemma_first_executable_stays(dir@, entries@, i as int + 1);
                    }
                    return Some(paths::join(dir, f.name.as_str()));
                }
            },
            Entry::Dir(_, _) => {},
        }
        i += 1;
    }
    assert(entries@.take(entries@.len() as int) =~= entries@);
    None
}

/// The binary of a bundle that was unpacked into a workspace: the first file named after the
/// project, wherever it lies; else the first executable file at the root of the workspace; else
/// the path that such a file would have there.
pub open spec fn bundle_binary(
    workspace_dir: Seq<char>,
    entries: Seq<Entry>,
    project_name: Seq<char>,
) -> Seq<char> {
    match tree::named_file(workspace_dir, entries, project_name) {
        Some(path) => path,
        None => match first_executable(workspace_dir, entries) {
            Some(path) => path,
            None => paths::joined(workspace_dir, project_name),
        },
    }
}

/// The path of the executable of a bundle. `entries` is what lies in the workspace once the bundle
/// was unpacked there.
pub fn extract_bundle(workspace_dir: &str, entries: &Vec<Entry>, project_name: &str) -> (r: String)
    ensures
        r@ == bundle_binary(workspace_dir@, entries@, project_name@),
{
    match tree::find_exe(workspace_dir, entries, project_name) {
        Some(path) => path,
        None => match find_executable(workspace_dir, entries) {
            Some(path) => path,
            None => paths::join(workspace_dir, project_name),
        },
    }
}

/// The path of the first of the entries of `dir` with this name, be it a file or a directory.
pub open spec fn named_at_root(dir: Seq<char>, entries: Seq<Entry>, name: Seq<char>) -> Option<
    Seq<char>,
> {
    if exists|i: int| 0 <= i < entries.len() && (#[trigger] entries[i]).spec_name() == name {
        Some(paths::joined(dir, name))
    } else {
        None
    }
}

/// The path of the entry of `dir` with this name, if there is one.
pub fn find_at_root(dir: &str, entries: &Vec<Entry>, name: &str) -> (r: Option<String>)
    ensures
        tree::opt_view(r) == named_at_root(dir@, entries@, name@),
{
    let mut i: usize = 0;
    while i < entries.len()
        invariant
            i <= entries@.len(),
            forall|j: int| 0 <= j < i ==> (#[trigger] entries@[j]).spec_name() != name@,
        decreases entries@.len() - i,
    {
        if text::same(entries[i].name(), name) {
            assert(entries@[i as int].spec_name() == name@);
            return Some(paths::join(dir, name));
        }
        i += 1;
    }
    None
}

/// Every name in the tree is a component of a path.
pub open spec fn proper_names(entries: Seq<Entry>) -> bool
    decreases entries,
{
    if entries.len() == 0 {
        true
    } else {
        proper_names(entries.drop_last()) && proper_entry(entries.last())
    }
}

/// Every name at and below the entry is a component of a path.
pub open spec fn proper_entry(entry: Entry) -> bool
    decreases entry,
{
    paths::is_component(entry.spec_name()) && match entry {
        Entry::Dir(_, entries) => proper_names(entries@),
        Entry::File(_) => true,
    }
}

proof fn lemma_named_file_within(dir: Seq<char>, entries: Seq<Entry>, name: Seq<char>)
    requires
        dir.len() > 0,
        dir.last() != '/',
        proper_names(entries),
        tree::named_file(dir, entries, name) is Some,
    ensures
        paths::is_within(tree::named_file(dir, entries, name)->0, dir),
    decreases entries,
{
    reveal_with_fuel(tree::named_file, 2);
    reveal_with_fuel(tree::named_entry, 2);
    reveal_with_fuel(proper_names, 2);
    reveal_with_fuel(proper_entry, 2);
    if entries.len() > 0 {
        if tree::named_file(dir, entries.drop_last(), name) is Some {
            lemma_named_file_within(dir, entries.drop_last(), name);
        } else {
            lemma_named_entry_within(dir, entries.last(), name);
        }
    }
}

proof fn lemma_named_entry_within(dir: Seq<char>, entry: Entry, name: Seq<char>)
    requires
        dir.len() > 0,
        dir.last() != '/',
        proper_entry(entry),
        tree::named_entry(dir, entry, name) is Some,
    ensures
        paths::is_within(tree::named_entry(dir, entry, name)->0, dir),
    decreases entry,
{
    reveal_with_fuel(tree::named_file, 2);
    reveal_with_fuel(tree::named_entry, 2);
    reveal_with_fuel(proper_names, 2);
    reveal_with_fuel(proper_entry, 2);
    paths::lemma_joined_within(dir, entry.spec_name());
    match entry {
        Entry::Dir(sub, entries) => {
            let below = paths::joined(dir, sub@);
            lemma_named_file_within(below, entries@, name);
            paths::lemma_within_transitive(
                tree::named_file(below, entries@, name)->0,
                below,
                dir,
            );
        },
        Entry::File(_) => {},
    }
}

proof fn lemma_first_executable_within(dir: Seq<char>, entries: Seq<Entry>)
    requires
        dir.len() > 0,
        dir.last() != '/',
        proper_names(entries),
        first_executable(dir, entries) is Some,
    ensures
        paths::is_within(first_executable(dir, entries)->0, dir),
    decreases entries.len(),
{
    reveal_with_fuel(proper_names, 2);
    reveal_with_fuel(proper_entry, 2);
    if entries.len() > 0 {
        if first_executable(dir, entries.drop_last()) is Some {
            lemma_first_executable_within(dir, entries.drop_last());
        } else {
            paths::lemma_joined_within(dir, entries.last().spec_name());
        }
    }
}

/// The binary of a bundle lies in the workspace that the bundle was unpacked into.
pub proof fn law_bundle_binary_within(
    workspace_dir: Seq<char>,
    entries: Seq<Entry>,
    project_name: Seq<char>,
)
    requires
        workspace_dir.len() > 0,
        workspace_dir.last() != '/',
        proper_names(entries),
        paths::is_component(project_name),
    ensures
        paths::is_within(bundle_binary(workspace_dir, entries, project_name), workspace_dir),
{
    paths::lemma_joined_within(workspace_dir, project_name);
    if tree::named_file(workspace_dir, entries, project_name) is Some {
        lemma_named_file_within(workspace_dir, entries, project_name);
    } else if first_executable(workspace_dir, entries) is Some {
        lemma_first_executable_within(workspace_dir, entries);
    }
}

// ---------------------------------------------------------------------------------------------
// The binary to run
// ---------------------------------------------------------------------------------------------

/// Why there is no binary to run.
#[derive(Debug)]
pub enum BinaryError {
    /// The directory is not there.
    NoDirectory(String),
    /// The directory holds no regular file.
    NoBinary(String),
}

impl BinaryError {
    /// The text of the error.
    pub open spec fn text(self) -> Seq<char> {
        match self {
            BinaryError::NoDirectory(dir) => "Binary directory does not exist: "@ + dir@,
            BinaryError::NoBinary(dir) => "No binary found in: "@ + dir@,
        }
    }

    /// The text of the error.
    pub fn message(&self) -> (r: String)
        ensures
            r@ == self.text(),
    {
        match self {
            BinaryError::NoDirectory(dir) => "Binary directory does not exist: ".to_owned().concat(
                dir.as_str(),
            ),
            BinaryError::NoBinary(dir) => "No binary found in: ".to_owned().concat(dir.as_str()),
        }
    }
}

/// The path of the first of the entries of `dir` that is a regular file.
pub open spec fn first_regular(dir: Seq<char>, entries: Seq<Entry>) -> Option<Seq<char>>
    decreases entries.len(),
{
    if entries.len() == 0 {
        None
    } else {
        match first_regular(dir, entries.drop_last()) {
            Some(path) => Some(path),
            None => match entries.last() {
                Entry::File(f) if f.regular => Some(paths::joined(dir, f.name@)),
                _ => None,
            },
        }
    }
}

proof fn lemma_first_regular_stays(dir: Seq<char>, entries: Seq<Entry>, n: int)
    requires
        0 <= n <= entries.len(),
        first_regular(dir, entries.take(n)) is Some,
    ensures
        first_regular(dir, entries) == first_regular(dir, entries.take(n)),
    decreases entries.len(),
{
    if n == entries.len() {
        assert(entries.take(n) =~= entries);
    } else {
        assert(entries.drop_last().take(n) =~= entries.take(n));
        lemma_first_regular_stays(dir, entries.drop_last(), n);
    }
}

/// The path of the first regular file among the entries of `dir`.
pub fn find_regular(dir: &str, entries: &Vec<Entry>) -> (r: Option<String>)
    ensures
        tree::opt_view(r) == first_regular(dir@, entries@),
{
    let mut i: usize = 0;
    while i < entries.len()
        invariant
            i <= entries@.len(),
            first_regular(dir@, entries@.take(i as int)) is None,
        decreases entries@.len() - i,
    {
        proof {
            assert(entries@.take(i as int + 1).drop_last() =~= entries@.take(i as int));
            assert(entries@.take(i as int + 1).last() == entries@[i as int]);
        }
        match &entries[i] {
            Entry::File(f) => {
                if f.regular {
                    proof {
                        lemma_first_regular_stays(dir@, entries@, i as int + 1);
                    }
                    return Some(paths::join(dir, f.name.as_str()));
                }
            },
            Entry::Dir(_, _) => {},
        }
        i += 1;
    }
    assert(entries@.take(entries@.len() as int) =~= entries@);
    None
}

/// The binary to run out of a directory: its first executable file, or its first regular file
/// where none is executable. `entries` is what the directory holds, `None` where it is not there.
pub fn find_binary(bin_dir: &str, entries: Option<&Vec<Entry>>) -> (r: Result<String, BinaryError>)
    ensures
        match entries {
            None => r matches Err(BinaryError::NoDirectory(dir)) && dir@ == bin_dir@,
            Some(found) => match first_executable(bin_dir@, found@) {
                Some(path) => r matches Ok(binary) && binary@ == path,
                None => match first_regular(bin_dir@, found@) {
                    Some(path) => r matches Ok(binary) && binary@ == path,
                    None => r matches Err(BinaryError::NoBinary(dir)) && dir@ == bin_dir@,
                },
            },
        },
{
    match entries {
        None => Err(BinaryError::NoDirectory(bin_dir.to_owned())),
        Some(found) => match find_executable(bin_dir, found) {
            Some(path) => Ok(path),
            None => match find_regular(bin_dir, found) {
                Some(path) => Ok(path),
                None => Err(BinaryError::NoBinary(bin_dir.to_owned())),
            },
        },
    }
}

/// The name of a project's binary; on Windows it has an extension.
pub open spec fn binary_name(name: Seq<char>, windows: bool) -> Seq<char> {
    if windows {
        name + ".exe"@
    } else {
        name
    }
}

/// The path that a project's binary is written to.
pub fn write_binary(bin_dir: &str, name: &str, windows: bool) -> (r: String)
    ensures
        r@ == paths::joined(bin_dir@, binary_name(name@, windows)),
{
    if windows {
        paths::join(bin_dir, name.to_owned().concat(".exe").as_str())
    } else {
        paths::join(bin_dir, name)
    }
}

/// A directory that holds an executable file, or any regular file, has a binary to run.
pub proof fn law_binary_found(dir: Seq<char>, entries: Seq<Entry>, i: int)
    requires
        0 <= i < entries.len(),
        entries[i] matches Entry::File(f) && f.regular,
    ensures
        first_regular(dir, entries) is Some,
        entries[i]->File_0.spec_is_executable() ==> first_executable(dir, entries) is Some,
    decreases entries.len(),
{
    if i < entries.len() - 1 {
        law_binary_found(dir, entries.drop_last(), i);
    }
}

// ---------------------------------------------------------------------------------------------
// Snapshots
// ---------------------------------------------------------------------------------------------

/// Where a snapshot's contents come from.
#[derive(Debug, Clone, Copy, PartialEq, Eq, Structural)]
pub enum SnapshotSource {
    /// What was uploaded.
    Upload,
    /// The binary that is there already.
    CurrentBinary,
    /// The bundle that the project was last deployed with.
    CurrentBundle,
}

/// What a snapshot holds: what the upload is about to replace, a bundle for a bundle and a binary
/// for a binary; the upload itself where nothing of its kind is there yet.
pub open spec fn snapshot_source(is_bundle: bool, has_current: bool) -> SnapshotSource {
    if !has_current {
        SnapshotSource::Upload
    } else if is_bundle {
        SnapshotSource::CurrentBundle
    } else {
        SnapshotSource::CurrentBinary
    }
}

/// The extension of a snapshot.
pub open spec fn snapshot_extension(is_bundle: bool) -> Seq<char> {
    if is_bundle {
        "tar.gz"@
    } else {
        "bin"@
    }
}

/// The path of a snapshot taken at a time, in seconds since the Unix epoch.
pub open spec fn snapshot_path(deploys_dir: Seq<char>, is_bundle: bool, ts: u64) -> Seq<char> {
    paths::joined(
        deploys_dir,
        "deploy-"@ + text::decimal(ts as nat) + "."@ + snapshot_extension(is_bundle),
    )
}

/// Where a snapshot goes and what it holds. `has_current` says whether something of the upload's
/// kind is there already: a bundle that the project was deployed with, or a binary.
pub fn save_deploy_snapshot(deploys_dir: &str, is_bundle: bool, has_current: bool, ts: u64) -> (r: (
    String,
    SnapshotSource,
))
    ensures
        r.0@ == snapshot_path(deploys_dir@, is_bundle, ts),
        r.1 == snapshot_source(is_bundle, has_current),
{
    let ext = if is_bundle {
        "tar.gz"
    } else {
        "bin"
    };
    let name = "deploy-".to_owned().concat(text::decimal_of(ts).as_str()).concat(".").concat(ext);
    let path = paths::join(deploys_dir, name.as_str());
    let source = if !has_current {
        SnapshotSource::Upload
    } else if is_bundle {
        SnapshotSource::CurrentBundle
    } else {
        SnapshotSource::CurrentBinary
    };
    (path, source)
}

/// Snapshots that were taken at different times, or that are of different kinds, have different
/// paths.
pub proof fn law_snapshots_apart(
    deploys_dir: Seq<char>,
    a_bundle: bool,
    a: u64,
    b_bundle: bool,
    b: u64,
)
    requires
        a != b || a_bundle != b_bundle,
    ensures
        snapshot_path(deploys_dir, a_bundle, a) != snapshot_path(deploys_dir, b_bundle, b),
{
    reveal_strlit("deploy-");
    reveal_strlit(".");
    reveal_strlit("tar.gz");
    reveal_strlit("bin");
    let da = text::decimal(a as nat);
    let db = text::decimal(b as nat);
    let na = "deploy-"@ + da + "."@ + snapshot_extension(a_bundle);
    let nb = "deploy-"@ + db + "."@ + snapshot_extension(b_bundle);
    let pa = snapshot_path(deploys_dir, a_bundle, a);
    let pb = snapshot_path(deploys_dir, b_bundle, b);
    assert(pa.skip(pa.len() - na.len()) =~= na);
    assert(pb.skip(pb.len() - nb.len()) =~= nb);
    assert(pa.last() == na.last());
    assert(pb.last() == nb.last());
    if pa == pb {
        assert(a_bundle == b_bundle);
        assert(na == nb);
        assert(da =~= na.subrange(7, 7 + da.len() as int));
        assert(db =~= nb.subrange(7, 7 + db.len() as int));
        text::law_decimal_round_trip(a as nat);
        text::law_decimal_round_trip(b as nat);
    }
}

// ---------------------------------------------------------------------------------------------
// Rolling back
// ---------------------------------------------------------------------------------------------

/// What is on disk of a project: its files, and the bundle that its workspace was unpacked from.
pub struct Disk<T> {
    pub files: Map<Seq<char>, T>,
    pub workspace: Option<T>,
}

/// The path of a project's binary.
pub open spec fn binary_path(config: Config, name: Seq<char>) -> Seq<char> {
    paths::joined(config.spec_project_bin_dir(name), name)
}

/// The file that an upload of this kind replaces: the kept bundle, or the binary.
pub open spec fn current_path(config: Config, name: Seq<char>, is_bundle: bool) -> Seq<char> {
    if is_bundle {
        config.spec_project_bundle_path(name)
    } else {
        binary_path(config, name)
    }
}

/// The file that an upload of this kind replaces: the kept bundle, or the binary. A snapshot is a
/// copy of it, where it is there.
pub fn current_file(config: &Config, name: &str, is_bundle: bool) -> (r: String)
    ensures
        r@ == current_path(*config, name@, is_bundle),
{
    if is_bundle {
        config.project_bundle_path(name)
    } else {
        paths::join(config.project_bin_dir(name).as_str(), name)
    }
}

/// The path of the snapshot that a deploy at this time saves.
pub open spec fn saved_path(config: Config, name: Seq<char>, is_bundle: bool, ts: u64) -> Seq<char> {
    snapshot_path(config.spec_project_deploys_dir(name), is_bundle, ts)
}

impl<T> Disk<T> {
    /// The snapshot was saved.
    pub open spec fn with_snapshot(
        self,
        config: Config,
        name: Seq<char>,
        is_bundle: bool,
        ts: u64,
        uploaded: T,
    ) -> Disk<T> {
        let current = current_path(config, name, is_bundle);
        let contents = match snapshot_source(is_bundle, self.files.contains_key(current)) {
            SnapshotSource::Upload => uploaded,
            SnapshotSource::CurrentBinary => self.files[binary_path(config, name)],
            SnapshotSource::CurrentBundle => self.files[config.spec_project_bundle_path(name)],
        };
        Disk {
            files: self.files.insert(saved_path(config, name, is_bundle, ts), contents),
            ..self
        }
    }

    /// A binary was put in place: no bundle is current any more.
    pub open spec fn with_binary(self, config: Config, name: Seq<char>, binary: T) -> Disk<T> {
        Disk {
            files: self.files.insert(binary_path(config, name), binary).remove(
                config.spec_project_bundle_path(name),
            ),
            ..self
        }
    }

    /// A bundle was unpacked and kept, and its binary was copied; where none was found in it, the
    /// binary stays the one that was there.
    pub open spec fn with_bundle(
        self,
        config: Config,
        name: Seq<char>,
        bundle: T,
        binary: Option<T>,
    ) -> Disk<T> {
        let files = self.files.insert(config.spec_project_bundle_path(name), bundle);
        Disk {
            files: match binary {
                Some(b) => files.insert(binary_path(config, name), b),
                None => files,
            },
            workspace: Some(bundle),
        }
    }

    /// The project was deployed again: a snapshot was saved, and the upload was put in place.
    /// `binary_in` gives the binary that a deploy finds in a bundle, wherever it lies.
    pub open spec fn deployed(
        self,
        config: Config,
        name: Seq<char>,
        is_bundle: bool,
        ts: u64,
        uploaded: T,
        binary_in: spec_fn(T) -> Option<T>,
    ) -> Disk<T> {
        let saved = self.with_snapshot(config, name, is_bundle, ts, uploaded);
        if is_bundle {
            saved.with_bundle(config, name, uploaded, binary_in(uploaded))
        } else {
            saved.with_binary(config, name, uploaded)
        }
    }

    /// The project was rolled back to the snapshot of a deploy: what that holds was put in place.
    /// `root_binary` gives what a rollback finds in a bundle: only an entry of the project's name at
    /// its root.
    pub open spec fn rolled_back(
        self,
        config: Config,
        name: Seq<char>,
        is_bundle: bool,
        ts: u64,
        root_binary: spec_fn(T) -> Option<T>,
    ) -> Disk<T> {
        let saved = self.files[saved_path(config, name, is_bundle, ts)];
        if is_bundle {
            self.with_bundle(config, name, saved, root_binary(saved))
        } else {
            self.with_binary(config, name, saved)
        }
    }
}

/// A snapshot is put neither where the project's binary is nor where its bundle is kept, and those
/// two are apart.
proof fn lemma_snapshot_apart(config: Config, name: Seq<char>, is_bundle: bool, ts: u64)
    requires
        paths::is_component(name),
    ensures
        saved_path(config, name, is_bundle, ts) != binary_path(config, name),
        saved_path(config, name, is_bundle, ts) != config.spec_project_bundle_path(name),
        binary_path(config, name) != config.spec_project_bundle_path(name),
{
    let dir = config.spec_project_dir(name);
    let bin = config.spec_project_bin_dir(name);
    let deploys = config.spec_project_deploys_dir(name);
    let kept = config.spec_project_bundle_path(name);
    config::lemma_project_dir(config, name);
    reveal_strlit("bin");
    reveal_strlit("deploys");
    reveal_strlit("bundle.tar.gz");
    paths::lemma_component("bin"@);
    paths::lemma_component("deploys"@);
    paths::lemma_component("bundle.tar.gz"@);
    paths::lemma_joined_within(dir, "bin"@);
    paths::lemma_joined_within(dir, "deploys"@);
    paths::lemma_joined_within(bin, name);
    let file = "deploy-"@ + text::decimal(ts as nat) + "."@ + snapshot_extension(is_bundle);
    reveal_strlit("deploy-");
    reveal_strlit(".");
    reveal_strlit("tar.gz");
    text::lemma_decimal_digits(ts as nat);
    assert forall|i: int| 0 <= i < file.len() implies file[i] != '/' by {
        let n = text::decimal(ts as nat).len();
        if 7 <= i < 7 + n {
            assert(file[i] == text::decimal(ts as nat)[i - 7]);
            assert(text::is_digit(text::decimal(ts as nat)[i - 7]));
        }
    }
    paths::lemma_component(file);
    paths::lemma_joined_within(deploys, file);
    assert("bin"@ != "deploys"@ && "bin"@ != "bundle.tar.gz"@ && "bundle.tar.gz"@ != "deploys"@) by {
        assert("bin"@.len() == 3 && "deploys"@.len() == 7 && "bundle.tar.gz"@.len() == 13);
    }
    paths::lemma_siblings_apart(dir, "bin"@, "deploys"@, binary_path(config, name));
    paths::lemma_siblings_apart(dir, "bin"@, "bundle.tar.gz"@, binary_path(config, name));
    paths::lemma_siblings_apart(dir, "bundle.tar.gz"@, "deploys"@, kept);
}

/// Rolling back to the snapshot that a deploy saved gives exactly that back which the deploy
/// replaced, a bundle for a bundle and a binary for a binary: it is in place again, and a bundle is
/// unpacked again. Where nothing of that kind was there, it gives what was uploaded.
///
/// The binary that is run after a bundle was rolled back is the entry of the project's name at the
/// root of that bundle. Where there is none, it stays the one that the deploy put in place, though
/// the bundle around it is the older one.
pub proof fn law_rollback_restores<T>(
    disk: Disk<T>,
    config: Config,
    name: Seq<char>,
    is_bundle: bool,
    ts: u64,
    uploaded: T,
    binary_in: spec_fn(T) -> Option<T>,
    root_binary: spec_fn(T) -> Option<T>,
)
    requires
        paths::is_component(name),
    ensures
        ({
            let current = current_path(config, name, is_bundle);
            let binary = binary_path(config, name);
            let after = disk.deployed(config, name, is_bundle, ts, uploaded, binary_in);
            let back = after.rolled_back(config, name, is_bundle, ts, root_binary);
            let before = if disk.files.contains_key(current) {
                disk.files[current]
            } else {
                uploaded
            };
            &&& after.files[current] == uploaded
            &&& back.files.contains_key(current)
            &&& back.files[current] == before
            &&& is_bundle ==> after.workspace == Some(uploaded)
            &&& is_bundle ==> back.workspace == Some(before)
            &&& is_bundle ==> back.files[binary] == (match root_binary(before) {
                Some(b) => b,
                None => after.files[binary],
            })
            &&& is_bundle && root_binary(before) is None ==> back.files.contains_key(binary)
                == after.files.contains_key(binary)
            &&& !is_bundle ==> back.workspace == disk.workspace
        }),
{
    lemma_snapshot_apart(config, name, is_bundle, ts);
}

/// After one bundle was deployed over another, rolling back to the snapshot of the second deploy
/// unpacks the first bundle.
pub proof fn law_first_bundle_comes_back<T>(
    disk: Disk<T>,
    config: Config,
    name: Seq<char>,
    first_ts: u64,
    first: T,
    second_ts: u64,
    second: T,
    binary_in: spec_fn(T) -> Option<T>,
    root_binary: spec_fn(T) -> Option<T>,
)
    requires
        paths::is_component(name),
    ensures
        ({
            let once = disk.deployed(config, name, true, first_ts, first, binary_in);
            let twice = once.deployed(config, name, true, second_ts, second, binary_in);
            let back = twice.rolled_back(config, name, true, second_ts, root_binary);
            &&& twice.workspace == Some(second)
            &&& back.workspace == Some(first)
            &&& back.files[config.spec_project_bundle_path(name)] == first
        }),
{
    lemma_snapshot_apart(config, name, true, first_ts);
    lemma_snapshot_apart(config, name, true, second_ts);
}

/// A bundle that a bare binary replaced is not taken for current: the snapshot that the next deploy
/// of a bundle saves does not hold it, but what was uploaded.
pub proof fn law_superseded_bundle_is_not_saved<T>(
    disk: Disk<T>,
    config: Config,
    name: Seq<char>,
    first_ts: u64,
    binary: T,
    second_ts: u64,
    bundle: T,
    binary_in: spec_fn(T) -> Option<T>,
)
    requires
        paths::is_component(name),
    ensures
        ({
            let once = disk.deployed(config, name, false, first_ts, binary, binary_in);
            let twice = once.deployed(config, name, true, second_ts, bundle, binary_in);
            &&& !once.files.contains_key(config.spec_project_bundle_path(name))
            &&& once.files[binary_path(config, name)] == binary
            &&& twice.files[saved_path(config, name, true, second_ts)] == bundle
        }),
{
    lemma_snapshot_apart(config, name, false, first_ts);
    lemma_snapshot_apart(config, name, true, second_ts);
}

} // verus!
