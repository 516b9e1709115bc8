//! Log files: their rotation, and reading their last lines.

use vstd::prelude::*;
use vstd::string::*;

use crate::text;

verus! {

/// The size at which a log file is rotated: 5 MB.
pub const LOG_MAX_BYTES: u64 = 5_242_880;

/// How many bytes at the end of a log file are read to find its last lines.
pub const TAIL_BYTES: u64 = 65_536;

// ---------------------------------------------------------------------------------------------
// Rotation
// ---------------------------------------------------------------------------------------------

/// A change to the files on disk. One that cannot be made is passed over.
#[derive(Debug)]
pub enum FileOp {
    Remove(String),
    Rename { from: String, to: String },
}

/// The same, over paths as sequences of characters.
pub enum FileChange {
    Remove(Seq<char>),
    Rename(Seq<char>, Seq<char>),
}

impl View for FileOp {
    type V = FileChange;

    open spec fn view(&self) -> FileChange {
        match self {
            FileOp::Remove(path) => FileChange::Remove(path@),
            FileOp::Rename { from, to } => FileChange::Rename(from@, to@),
        }
    }
}

/// The changes of a list of them.
pub open spec fn changes(ops: Seq<FileOp>) -> Seq<FileChange> {
    ops.map_values(|op: FileOp| op@)
}

/// The path of the last rotated log file.
pub open spec fn rotated_once(log_path: Seq<char>) -> Seq<char> {
    log_path + ".1"@
}

/// The path of the log file that was rotated before the last one.
pub open spec fn rotated_twice(log_path: Seq<char>) -> Seq<char> {
    log_path + ".2"@
}

/// The changes that rotate a log file of the given size.
pub open spec fn rotation(log_path: Seq<char>, size: u64) -> Seq<FileChange> {
    if size < LOG_MAX_BYTES {
        Seq::empty()
    } else {
        seq![
            FileChange::Remove(rotated_twice(log_path)),
            FileChange::Rename(rotated_once(log_path), rotated_twice(log_path)),
            FileChange::Rename(log_path, rotated_once(log_path)),
        ]
    }
}

/// What to change on disk before a log file of the given size is written to again. A file that is
/// not there has the size 0.
pub fn rotate_log_if_needed(log_path: &str, size: u64) -> (r: Vec<FileOp>)
    ensures
        changes(r@) == rotation(log_path@, size),
{
    let mut r: Vec<FileOp> = Vec::new();
    if size < LOG_MAX_BYTES {
        assert(changes(r@) =~= rotation(log_path@, size));
        return r;
    }
    let log_2 = log_path.to_owned().concat(".2");
    let log_1 = log_path.to_owned().concat(".1");
    r.push(FileOp::Remove(log_2.clone()));
    r.push(FileOp::Rename { from: log_1.clone(), to: log_2 });
    r.push(FileOp::Rename { from: log_path.to_owned(), to: log_1 });
    assert(changes(r@) =~= rotation(log_path@, size));
    r
}

/// The files on disk after a change. A file that is not there is neither removed nor renamed.
pub open spec fn changed<T>(files: Map<Seq<char>, T>, change: FileChange) -> Map<Seq<char>, T> {
    match change {
        FileChange::Remove(path) => files.remove(path),
        FileChange::Rename(from, to) => if files.contains_key(from) {
            files.remove(from).insert(to, files[from])
        } else {
            files
        },
    }
}

/// The files on disk after a list of changes, made in order.
pub open spec fn all_changed<T>(files: Map<Seq<char>, T>, list: Seq<FileChange>) -> Map<
    Seq<char>,
    T,
>
    decreases list.len(),
{
    if list.len() == 0 {
        files
    } else {
        all_changed(changed(files, list[0]), list.drop_first())
    }
}

/// The three paths of a log differ.
proof fn lemma_log_paths_differ(log_path: Seq<char>)
    ensures
        rotated_once(log_path) != log_path,
        rotated_twice(log_path) != log_path,
        rotated_once(log_path) != rotated_twice(log_path),
{
    reveal_strlit(".1");
    reveal_strlit(".2");
    assert(rotated_once(log_path).len() == log_path.len() + 2);
    assert(rotated_twice(log_path).len() == log_path.len() + 2);
    assert(rotated_once(log_path)[log_path.len() as int + 1] == '1');
    assert(rotated_twice(log_path)[log_path.len() as int + 1] == '2');
}

/// Rotating a log that has reached its size makes it the last rotated one, makes the last rotated
/// one the one before, and drops that one. Every other file stays as it is. A log that has not
/// reached its size is left alone.
pub proof fn law_rotation_shifts<T>(
    files: Map<Seq<char>, T>,
    log_path: Seq<char>,
    size: u64,
    other: Seq<char>,
)
    requires
        files.contains_key(log_path),
        other != log_path,
        other != rotated_once(log_path),
        other != rotated_twice(log_path),
    ensures
        ({
            let after = all_changed(files, rotation(log_path, size));
            if size < LOG_MAX_BYTES {
                after == files
            } else {
                &&& !after.contains_key(log_path)
                &&& after.contains_key(rotated_once(log_path))
                &&& after[rotated_once(log_path)] == files[log_path]
                &&& after.contains_key(rotated_twice(log_path)) == files.contains_key(
                    rotated_once(log_path),
                )
                &&& files.contains_key(rotated_once(log_path)) ==> after[rotated_twice(log_path)]
                    == files[rotated_once(log_path)]
                &&& after.contains_key(other) == files.contains_key(other)
                &&& files.contains_key(other) ==> after[other] == files[other]
            }
        }),
{
    lemma_log_paths_differ(log_path);
    let list = rotation(log_path, size);
    if size >= LOG_MAX_BYTES {
        let one = changed(files, list[0]);
        let two = changed(one, list[1]);
        let three = changed(two, list[2]);
        assert(list.drop_first().drop_first().drop_first() =~= Seq::empty());
        assert(list.drop_first()[0] == list[1]);
        assert(list.drop_first().drop_first()[0] == list[2]);
        assert(all_changed(three, Seq::empty()) == three);
        assert(all_changed(two, list.drop_first().drop_first()) == three);
        assert(all_changed(one, list.drop_first()) == three);
        assert(all_changed(files, list) == three);
    } else {
        assert(all_changed(files, list) == files);
    }
}

// ---------------------------------------------------------------------------------------------
// The last lines
// ---------------------------------------------------------------------------------------------

/// The files of a log, the oldest first.
pub fn log_files(log_path: &str) -> (r: Vec<String>)
    ensures
        text::views(r@) == seq![rotated_twice(log_path@), rotated_once(log_path@), log_path@],
{
    let mut r: Vec<String> = Vec::new();
    r.push(log_path.to_owned().concat(".2"));
    r.push(log_path.to_owned().concat(".1"));
    r.push(log_path.to_owned());
    assert(text::views(r@) =~= seq![rotated_twice(log_path@), rotated_once(log_path@), log_path@]);
    r
}

/// Where to start reading a file of the given size: at the start of its last 64 KB.
pub fn tail_start(size: u64) -> (r: u64)
    ensures
        r == (if size > TAIL_BYTES {
            size - TAIL_BYTES
        } else {
            0
        }),
{
    if size > TAIL_BYTES {
        size - TAIL_BYTES
    } else {
        0
    }
}

/// The lines of several texts, in order.
pub open spec fn lines_of_all(texts: Seq<Seq<char>>) -> Seq<Seq<char>>
    decreases texts.len(),
{
    if texts.len() == 0 {
        Seq::empty()
    } else {
        lines_of_all(texts.drop_last()) + text::lines_of(texts.last())
    }
}

/// The last `n` lines, or all of them where there are fewer.
pub open spec fn last_lines(lines: Seq<Seq<char>>, n: nat) -> Seq<Seq<char>> {
    if lines.len() <= n {
        lines
    } else {
        lines.skip(lines.len() - n)
    }
}

/// The last `n` lines of several texts, or all of them where there are fewer.
pub fn tail_of(texts: &Vec<String>, n: usize) -> (r: Vec<String>)
    ensures
        text::views(r@) == last_lines(lines_of_all(text::views(texts@)), n as nat),
{
    let mut all: Vec<String> = Vec::new();
    let mut i: usize = 0;
    assert(text::views(texts@).take(0) =~= Seq::empty());
    assert(text::views(all@) =~= Seq::empty());
    while i < texts.len()
        invariant
            i <= texts@.len(),
            text::views(all@) == lines_of_all(text::views(texts@).take(i as int)),
        decreases texts@.len() - i,
    {
        let ghost before = all@;
        let mut more = text::lines(texts[i].as_str());
        let ghost added = more@;
        all.append(&mut more);
        proof {
            let done = text::views(texts@).take(i as int + 1);
            assert(done.drop_last() =~= text::views(texts@).take(i as int));
            assert(done.last() == texts@[i as int]@);
            assert(text::views(all@) =~= text::views(before) + text::views(added));
        }
        i += 1;
    }
    assert(text::views(texts@).take(texts@.len() as int) =~= text::views(texts@));
    let total: usize = all.len();
    if total <= n {
        all
    } else {
        let ghost every = all@;
        let r = all.split_off(total - n);
        assert(text::views(r@) =~= text::views(every).skip(total - n));
        r
    }
}

/// The texts of the files that could be read.
pub open spec fn readable(files: Seq<Option<Vec<u8>>>) -> Seq<Seq<char>>
    decreases files.len(),
{
    if files.len() == 0 {
        Seq::empty()
    } else {
        match files.last() {
            Some(bytes) => readable(files.drop_last()).push(text::lossy_text(bytes@)),
            None => readable(files.drop_last()),
        }
    }
}

/// The last `n` lines across the files of a log. `files` holds what was read of each, in the order
/// of `log_files`; a file that is not there, or that could not be read, has no lines.
pub fn read_log_tail_multi(files: &Vec<Option<Vec<u8>>>, n: usize) -> (r: Vec<String>)
    ensures
        text::views(r@) == last_lines(lines_of_all(readable(files@)), n as nat),
{
    let mut texts: Vec<String> = Vec::new();
    let mut i: usize = 0;
    assert(files@.take(0) =~= Seq::empty());
    assert(text::views(texts@) =~= Seq::empty());
    while i < files.len()
        invariant
            i <= files@.len(),
            text::views(texts@) == readable(files@.take(i as int)),
        decreases files@.len() - i,
    {
        let ghost before = texts@;
        proof {
            let done = files@.take(i as int + 1);
            assert(done.drop_last() =~= files@.take(i as int));
            assert(done.last() == files@[i as int]);
        }
        match &files[i] {
            Some(bytes) => {
                texts.push(text::from_utf8_lossy(bytes));
                assert(text::views(texts@) =~= text::views(before).push(
                    text::lossy_text(bytes@),
                ));
            },
            None => {},
        }
        i += 1;
    }
    assert(files@.take(files@.len() as int) =~= files@);
    tail_of(&texts, n)
}

/// The last `n` lines of one file; none where it could not be read.
pub fn read_log_tail(file: Option<Vec<u8>>, n: usize) -> (r: Vec<String>)
    ensures
        text::views(r@) == (match file {
            Some(bytes) => last_lines(text::lines_of(text::lossy_text(bytes@)), n as nat),
            None => Seq::empty(),
        }),
{
    match file {
        Some(bytes) => {
            let mut texts: Vec<String> = Vec::new();
            texts.push(text::from_utf8_lossy(&bytes));
            let r = tail_of(&texts, n);
            proof {
                let t = text::lossy_text(bytes@);
                assert(text::views(texts@) =~= seq![t]);
                assert(seq![t].drop_last() =~= Seq::empty());
                assert(lines_of_all(Seq::empty()) == Seq::<Seq<char>>::empty());
                assert(lines_of_all(seq![t]) =~= text::lines_of(t));
            }
            r
        },
        None => {
            let r: Vec<String> = Vec::new();
            assert(text::views(r@) =~= Seq::empty());
            r
        },
    }
}

/// The last lines of a log are what its lines end with, never more than asked for, and as many as
/// asked for where there are that many.
pub proof fn law_tail_is_a_suffix(lines: Seq<Seq<char>>, n: nat)
    ensures
        last_lines(lines, n).is_suffix_of(lines),
        last_lines(lines, n).len() == (if lines.len() <= n {
            lines.len()
        } else {
            n
        }),
{
}

/// While the log was not rotated, the last lines across its files are those of its one file.
pub proof fn law_tail_of_one_file(bytes: Vec<u8>, n: nat)
    ensures
        last_lines(lines_of_all(readable(seq![None, None, Some(bytes)])), n) == last_lines(
            text::lines_of(text::lossy_text(bytes@)),
            n,
        ),
{
    let files: Seq<Option<Vec<u8>>> = seq![None, None, Some(bytes)];
    let t = text::lossy_text(bytes@);
    assert(files.drop_last() =~= seq![None, None]);
    assert(seq![None::<Vec<u8>>, None].drop_last() =~= seq![None]);
    assert(seq![None::<Vec<u8>>].drop_last() =~= Seq::empty());
    assert(readable(Seq::empty()) =~= Seq::empty());
    assert(readable(seq![None::<Vec<u8>>]) =~= Seq::empty());
    assert(readable(seq![None::<Vec<u8>>, None]) =~= Seq::empty());
    assert(readable(files) =~= seq![t]);
    assert(seq![t].drop_last() =~= Seq::empty());
    assert(lines_of_all(Seq::empty()) == Seq::<Seq<char>>::empty());
    assert(lines_of_all(seq![t]) =~= text::lines_of(t));
}

} // verus!
