//! What was found in a directory.

use vstd::prelude::*;
use vstd::string::*;

use crate::paths;
use crate::text;

verus! {

/// A file, as far as it matters here.
#[derive(Debug)]
pub struct FileEntry {
    pub name: String,
    /// Size in bytes.
    pub size: u64,
    /// Permission bits.
    pub mode: u32,
    /// True for a regular file; false for anything else that is no directory.
    pub regular: bool,
}

/// An entry of a directory.
#[derive(Debug)]
pub enum Entry {
    /// A directory with its name and its own entries.
    Dir(String, Vec<Entry>),
    /// Anything else.
    File(FileEntry),
}

impl FileEntry {
    /// True for a regular file that somebody may execute.
    pub open spec fn spec_is_executable(self) -> bool {
        self.regular && self.mode & 0o111 != 0
    }

    /// True for a regular file that somebody may execute.
    pub fn is_executable(&self) -> (r: bool)
        ensures
            r == self.spec_is_executable(),
    {
        self.regular && self.mode & 0o111 != 0
    }
}

impl Entry {
    /// The name of the entry.
    pub open spec fn spec_name(self) -> Seq<char> {
        match self {
            Entry::Dir(name, _) => name@,
            Entry::File(f) => f.name@,
        }
    }

    /// The name of the entry.
    pub fn name(&self) -> (r: &str)
        ensures
            r@ == self.spec_name(),
    {
        match self {
            Entry::Dir(name, _) => name.as_str(),
            Entry::File(f) => f.name.as_str(),
        }
    }
}

/// The number of files at and below the entries.
pub open spec fn file_count(entries: Seq<Entry>) -> nat
    decreases entries,
{
    if entries.len() == 0 {
        0
    } else {
        file_count(entries.drop_last()) + entry_file_count(entries.last())
    }
}

/// The number of files at and below the entry.
pub open spec fn entry_file_count(entry: Entry) -> nat
    decreases entry,
{
    match entry {
        Entry::Dir(_, entries) => file_count(entries@),
        Entry::File(_) => 1,
    }
}

// ---------------------------------------------------------------------------------------------
// Search for a file by its name
// ---------------------------------------------------------------------------------------------

/// The path of the first file with this name at or below the entries of `dir`, the entries of a
/// directory being looked at before what follows it.
pub open spec fn named_file(dir: Seq<char>, entries: Seq<Entry>, name: Seq<char>) -> Option<Seq<char>>
    decreases entries,
{
    if entries.len() == 0 {
        None
    } else {
        match named_file(dir, entries.drop_last(), name) {
            Some(path) => Some(path),
            None => named_entry(dir, entries.last(), name),
        }
    }
}

/// The path of the first file with this name at or below one entry of `dir`.
pub open spec fn named_entry(dir: Seq<char>, entry: Entry, name: Seq<char>) -> Option<Seq<char>>
    decreases entry,
{
    match entry {
        Entry::Dir(sub, entries) => named_file(paths::joined(dir, sub@), entries@, name),
        Entry::File(f) => if f.name@ == name {
            Some(paths::joined(dir, f.name@))
        } else {
            None
        },
    }
}

/// The view of an optional string.
pub open spec fn opt_view(s: Option<String>) -> Option<Seq<char>> {
    match s {
        Some(s) => Some(s@),
        None => None,
    }
}

/// The path of the first file with this name at or below the entries of `dir`.
pub fn find_exe(dir: &str, entries: &Vec<Entry>, name: &str) -> (r: Option<String>)
    ensures
        opt_view(r) == named_file(dir@, entries@, name@),
    decreases entries,
{
    let mut i: usize = 0;
    while i < entries.len()
        invariant
            i <= entries@.len(),
            named_file(dir@, entries@.take(i as int), name@) is None,
        decreases entries@.len() - i,
    {
        let entry = &entries[i];
        proof {
            assert(entries@.take(i as int + 1).drop_last() =~= entries@.take(i as int));
            assert(entries@.take(i as int + 1).last() == entry);
        }
        let found = match entry {
            Entry::Dir(sub, below) => find_exe(paths::join(dir, sub.as_str()).as_str(), below, name),
            Entry::File(f) => if text::same(f.name.as_str(), name) {
                Some(paths::join(dir, f.name.as_str()))
            } else {
                None
            },
        };
        proof {
            reveal_with_fuel(named_file, 2);
            reveal_with_fuel(named_entry, 2);
            assert(opt_view(found) == named_entry(dir@, *entry, name@));
            assert(opt_view(found) == named_file(dir@, entries@.take(i as int + 1), name@));
        }
        if found.is_some() {
            proof {
                lemma_named_file_stays(dir@, entries@, name@, i as int + 1);
            }
            return found;
        }
        i += 1;
    }
    assert(entries@.take(entries@.len() as int) =~= entries@);
    None
}

proof fn lemma_named_file_stays(dir: Seq<char>, entries: Seq<Entry>, name: Seq<char>, n: int)
    requires
        0 <= n <= entries.len(),
        named_file(dir, entries.take(n), name) is Some,
    ensures
        named_file(dir, entries, name) == named_file(dir, entries.take(n), name),
    decreases entries.len(),
{
    if n < entries.len() {
        assert(entries.drop_last().take(n) =~= entries.take(n));
        lemma_named_file_stays(dir, entries.drop_last(), name, n);
    } else {
        assert(entries.take(n) =~= entries);
    }
}

} // verus!
