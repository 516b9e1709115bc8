//! Buckets: directories below the storage root, and the objects in them.

use vstd::prelude::*;
use vstd::string::*;

use crate::config::Config;
use crate::paths;
use crate::text;
use crate::text_laws;
use crate::tree;
use crate::tree::{Entry, FileEntry};

verus! {

/// An object in a bucket.
#[derive(Debug)]
pub struct S3Object {
    pub key: String,
    pub size: u64,
}

impl S3Object {
    /// The key and the size.
    pub open spec fn model(self) -> (Seq<char>, u64) {
        (self.key@, self.size)
    }
}

/// The keys and sizes of a list of objects.
pub open spec fn models(objects: Seq<S3Object>) -> Seq<(Seq<char>, u64)> {
    objects.map_values(|o: S3Object| o.model())
}

/// Directory of a bucket.
pub open spec fn bucket_path(config: Config, bucket_name: Seq<char>) -> Seq<char> {
    paths::joined(config.spec_storage_dir(), bucket_name)
}

/// Directory of everything that one project stores in buckets.
pub open spec fn project_storage_path(config: Config, project_id: Seq<char>) -> Seq<char> {
    paths::joined(config.spec_storage_dir(), project_id)
}

/// Directory of a bucket that one project has to itself.
pub open spec fn project_bucket_path(
    config: Config,
    project_id: Seq<char>,
    bucket_name: Seq<char>,
) -> Seq<char> {
    paths::joined(project_storage_path(config, project_id), bucket_name)
}

/// What an S3 server serves, and where.
#[derive(Debug)]
pub struct ServerPlan {
    /// Directory that it serves; it is created where it does not exist yet.
    pub root: String,
    /// Address that it listens on.
    pub address: String,
}

/// The address for a port on all of the host's interfaces.
pub open spec fn server_address(port: u16) -> Seq<char> {
    "0.0.0.0:"@ + text::decimal(port as nat)
}

/// What the platform's own S3 server serves, and where.
pub fn start_server(config: &Config) -> (r: ServerPlan)
    ensures
        r.root@ == config.spec_storage_dir(),
        r.address@ == server_address(config.s3_port),
{
    ServerPlan {
        root: config.storage_dir(),
        address: "0.0.0.0:".to_owned().concat(text::decimal_of(config.s3_port as u64).as_str()),
    }
}

/// What a project's S3 server serves, and where: all that the project stores, and nothing else.
pub fn start_project_s3(config: &Config, project_id: &str, port: u16) -> (r: ServerPlan)
    ensures
        r.root@ == project_storage_path(*config, project_id@),
        r.address@ == server_address(port),
{
    ServerPlan {
        root: project_storage_dir(config, project_id),
        address: "0.0.0.0:".to_owned().concat(text::decimal_of(port as u64).as_str()),
    }
}

/// The directory to create for a bucket.
pub fn create_bucket(config: &Config, bucket_name: &str) -> (r: String)
    ensures
        r@ == bucket_path(*config, bucket_name@),
{
    paths::join(config.storage_dir().as_str(), bucket_name)
}

/// Directory of everything that one project stores in buckets.
pub fn project_storage_dir(config: &Config, project_id: &str) -> (r: String)
    ensures
        r@ == project_storage_path(*config, project_id@),
{
    paths::join(config.storage_dir().as_str(), project_id)
}

/// The directory to create for a bucket that one project has to itself.
pub fn create_project_bucket(config: &Config, project_id: &str, bucket_name: &str) -> (r: String)
    ensures
        r@ == project_bucket_path(*config, project_id@, bucket_name@),
{
    paths::join(project_storage_dir(config, project_id).as_str(), bucket_name)
}

/// The directory to remove, with all that is in it, to delete a bucket; none where the bucket does
/// not exist.
pub fn delete_bucket(config: &Config, bucket_name: &str, exists: bool) -> (r: Option<String>)
    ensures
        tree::opt_view(r) == (if exists {
            Some(bucket_path(*config, bucket_name@))
        } else {
            None
        }),
{
    if exists {
        Some(create_bucket(config, bucket_name))
    } else {
        None
    }
}

/// The key of the object at a path relative to its bucket: the path with `/` between components.
pub open spec fn key_of(relative: Seq<char>) -> Seq<char> {
    text::substituted(relative, '\\', "/"@)
}

/// The objects at and below the entries of a directory, in the order of the entries, where `prefix`
/// leads from the bucket to the directory.
pub open spec fn objects_in(prefix: Seq<char>, entries: Seq<Entry>) -> Seq<(Seq<char>, u64)>
    decreases entries,
{
    if entries.len() == 0 {
        Seq::empty()
    } else {
        objects_in(prefix, entries.drop_last()) + objects_of(prefix, entries.last())
    }
}

/// The objects at and below one entry.
pub open spec fn objects_of(prefix: Seq<char>, entry: Entry) -> Seq<(Seq<char>, u64)>
    decreases entry,
{
    match entry {
        Entry::Dir(name, entries) => objects_in((prefix + name@).push('/'), entries@),
        Entry::File(f) => seq![(key_of(prefix + f.name@), f.size)],
    }
}

/// Adds the objects at and below the entries of a directory to `out`.
pub fn collect_objects(prefix: &str, entries: &Vec<Entry>, out: &mut Vec<S3Object>)
    ensures
        models(final(out)@) == models(old(out)@) + objects_in(prefix@, entries@),
    decreases entries,
{
    let ghost before = models(out@);
    let mut i: usize = 0;
    assert(models(out@) =~= before + objects_in(prefix@, entries@.take(0)));
    while i < entries.len()
        invariant
            i <= entries@.len(),
            models(out@) == before + objects_in(prefix@, entries@.take(i as int)),
        decreases entries@.len() - i,
    {
        let entry = &entries[i];
        let ghost so_far = models(out@);
        proof {
            assert(entries@.take(i as int + 1).drop_last() =~= entries@.take(i as int));
            assert(entries@.take(i as int + 1).last() == entry);
            reveal_with_fuel(objects_in, 2);
            reveal_with_fuel(objects_of, 2);
        }
        match entry {
            Entry::Dir(name, below) => {
                let mut deeper = prefix.to_owned();
                deeper.append(name.as_str());
                deeper.push('/');
                collect_objects(deeper.as_str(), below, out);
            },
            Entry::File(f) => {
                let mut relative = prefix.to_owned();
                relative.append(f.name.as_str());
                let key = text::replace_char(relative.as_str(), '\\', "/");
                let ghost list = out@;
                out.push(S3Object { key, size: f.size });
                assert(models(out@) =~= models(list).push((key_of(prefix@ + f.name@), f.size)));
                assert(models(out@) =~= so_far + objects_of(prefix@, *entry));
            },
        }
        proof {
            assert(models(out@) == so_far + objects_of(prefix@, *entry));
            assert(before + (objects_in(prefix@, entries@.take(i as int)) + objects_of(
                prefix@,
                *entry,
            )) =~= so_far + objects_of(prefix@, *entry));
        }
        i += 1;
    }
    assert(entries@.take(entries@.len() as int) =~= entries@);
}

/// The objects of a bucket whose directory holds the given entries; none where it does not exist.
pub fn list_bucket_objects(bucket: Option<&Vec<Entry>>) -> (r: Vec<S3Object>)
    ensures
        models(r@) == (match bucket {
            Some(entries) => objects_in(Seq::empty(), entries@),
            None => Seq::empty(),
        }),
{
    let mut objects: Vec<S3Object> = Vec::new();
    assert(models(objects@) =~= Seq::empty());
    match bucket {
        Some(entries) => {
            collect_objects("", entries, &mut objects);
            proof {
                reveal_strlit("");
                assert(""@ =~= Seq::<char>::empty());
                assert(Seq::<(Seq<char>, u64)>::empty() + objects_in(Seq::empty(), entries@)
                    =~= objects_in(Seq::empty(), entries@));
            }
        },
        None => {},
    }
    objects
}

/// A listing has one object for each file, whatever the directories are.
pub proof fn law_one_object_per_file(prefix: Seq<char>, entries: Seq<Entry>)
    ensures
        objects_in(prefix, entries).len() == tree::file_count(entries),
    decreases entries,
{
    if entries.len() > 0 {
        law_one_object_per_file(prefix, entries.drop_last());
        lemma_one_object_per_file(prefix, entries.last());
    }
}

proof fn lemma_one_object_per_file(prefix: Seq<char>, entry: Entry)
    ensures
        objects_of(prefix, entry).len() == tree::entry_file_count(entry),
    decreases entry,
{
    match entry {
        Entry::Dir(name, entries) => {
            law_one_object_per_file((prefix + name@).push('/'), entries@);
        },
        Entry::File(f) => {},
    }
}

/// What one project stores lies apart from what another one does: a path below the storage of one
/// is not below that of the other. Removing a project's storage leaves the others' alone.
pub proof fn law_project_storage_apart(
    config: Config,
    a: Seq<char>,
    b: Seq<char>,
    path: Seq<char>,
)
    requires
        paths::is_component(a),
        paths::is_component(b),
        a != b,
        paths::is_within(path, project_storage_path(config, a)),
    ensures
        !paths::is_within(path, project_storage_path(config, b)),
{
    lemma_storage_dir(config);
    paths::lemma_siblings_apart(config.spec_storage_dir(), a, b, path);
}

/// A project's bucket lies below the project's storage.
pub proof fn law_project_bucket_within(config: Config, id: Seq<char>, bucket_name: Seq<char>)
    requires
        paths::is_component(id),
        paths::is_component(bucket_name),
    ensures
        paths::is_within(
            project_bucket_path(config, id, bucket_name),
            project_storage_path(config, id),
        ),
{
    lemma_storage_dir(config);
    paths::lemma_joined_within(config.spec_storage_dir(), id);
    paths::lemma_joined_within(project_storage_path(config, id), bucket_name);
}

proof fn lemma_storage_dir(config: Config)
    ensures
        config.spec_storage_dir().len() > 0,
        config.spec_storage_dir().last() == 's',
{
    reveal_strlit("buckets");
}

/// The key of an object is its path with `/` between the parts, on every system: a path without
/// backslashes is its own key, and no key holds one.
pub proof fn law_keys(a: Seq<char>, b: Seq<char>)
    ensures
        key_of(a + b) == key_of(a) + key_of(b),
        key_of(seq!['\\']) == seq!['/'],
        !a.contains('\\') ==> key_of(a) == a,
        !key_of(a).contains('\\'),
{
    reveal_strlit("/");
    assert("/"@ =~= seq!['/']);
    text_laws::law_substituted(a, b, '/', '\\', "/"@);
    if !a.contains('\\') {
        assert forall|i: int| 0 <= i < a.len() implies a[i] != '\\' by {
            assert(a.contains(a[i]));
        }
        text::lemma_substituted_absent(a, '\\', "/"@);
    }
    lemma_no_backslash(a);
}

proof fn lemma_no_backslash(a: Seq<char>)
    ensures
        !key_of(a).contains('\\'),
    decreases a.len(),
{
    reveal_strlit("/");
    if a.len() > 0 {
        lemma_no_backslash(a.drop_last());
        let rest = key_of(a.drop_last());
        assert forall|i: int| 0 <= i < key_of(a).len() implies key_of(a)[i] != '\\' by {
            if i < rest.len() {
                assert(key_of(a)[i] == rest[i]);
                assert(rest.contains(rest[i]));
            }
        }
    }
}

/// The objects of several entries are those of each, in their order.
pub proof fn law_listing_in_order(prefix: Seq<char>, first: Seq<Entry>, second: Seq<Entry>)
    ensures
        objects_in(prefix, first + second) == objects_in(prefix, first) + objects_in(prefix, second),
    decreases second.len(),
{
    if second.len() == 0 {
        assert(first + second =~= first);
        assert(objects_in(prefix, second) =~= Seq::empty());
        assert(objects_in(prefix, first) + Seq::empty() =~= objects_in(prefix, first));
    } else {
        law_listing_in_order(prefix, first, second.drop_last());
        assert((first + second).drop_last() =~= first + second.drop_last());
        assert((first + second).last() == second.last());
        assert(objects_in(prefix, first + second) =~= objects_in(prefix, first) + objects_in(
            prefix,
            second,
        ));
    }
}

/// A file at the top of a bucket is an object under its own name, with the size of the file.
pub proof fn law_file_is_listed(file: FileEntry)
    ensures
        objects_in(Seq::empty(), seq![Entry::File(file)]) == seq![(key_of(file.name@), file.size)],
{
    let entries = seq![Entry::File(file)];
    assert(entries.drop_last() =~= Seq::<Entry>::empty());
    assert(objects_in(Seq::empty(), entries.drop_last()) =~= Seq::empty());
    assert(Seq::<char>::empty() + file.name@ =~= file.name@);
    assert(objects_of(Seq::empty(), entries.last()) == seq![(key_of(file.name@), file.size)]);
}

/// What a directory holds is listed as it is in the directory, each object with the directory's
/// name and a slash before its key, at any depth.
pub proof fn law_directory_is_listed(name: String, inner: Vec<Entry>, i: int)
    requires
        0 <= i < objects_in(Seq::empty(), inner@).len(),
    ensures
        ({
            let below = objects_in(Seq::empty(), seq![Entry::Dir(name, inner)]);
            &&& below.len() == objects_in(Seq::empty(), inner@).len()
            &&& below[i].0 == key_of(name@) + "/"@ + objects_in(Seq::empty(), inner@)[i].0
            &&& below[i].1 == objects_in(Seq::empty(), inner@)[i].1
        }),
{
    let entries = seq![Entry::Dir(name, inner)];
    let none = Seq::<char>::empty();
    assert(entries.drop_last() =~= Seq::<Entry>::empty());
    assert(objects_in(none, entries.drop_last()) =~= Seq::empty());
    let prefix = (none + name@).push('/');
    assert(prefix =~= name@.push('/'));
    assert(objects_of(none, entries.last()) == objects_in(prefix, inner@));
    assert(objects_in(none, entries) =~= objects_in(prefix, inner@));
    lemma_listing_below(prefix, none, inner@, i);
    assert(prefix + none =~= prefix);
    reveal_strlit("/");
    assert(name@.push('/') =~= name@ + seq!['/']);
    law_keys(name@, seq!['/']);
    law_keys(seq!['/'], none);
    assert(!seq!['/'].contains('\\'));
    assert("/"@ =~= seq!['/']);
}

proof fn lemma_listing_below(p: Seq<char>, q: Seq<char>, entries: Seq<Entry>, i: int)
    ensures
        objects_in(p + q, entries).len() == objects_in(q, entries).len(),
        0 <= i < objects_in(q, entries).len() ==> objects_in(p + q, entries)[i].0 == key_of(p)
            + objects_in(q, entries)[i].0 && objects_in(p + q, entries)[i].1 == objects_in(
            q,
            entries,
        )[i].1,
    decreases entries,
{
    if entries.len() > 0 {
        let rest = entries.drop_last();
        lemma_listing_below(p, q, rest, i);
        lemma_entry_below(p, q, entries.last(), i - objects_in(q, rest).len());
    }
}

proof fn lemma_entry_below(p: Seq<char>, q: Seq<char>, entry: Entry, i: int)
    ensures
        objects_of(p + q, entry).len() == objects_of(q, entry).len(),
        0 <= i < objects_of(q, entry).len() ==> objects_of(p + q, entry)[i].0 == key_of(p)
            + objects_of(q, entry)[i].0 && objects_of(p + q, entry)[i].1 == objects_of(q, entry)[i].1,
    decreases entry,
{
    match entry {
        Entry::Dir(name, inner) => {
            assert((p + q + name@).push('/') =~= p + (q + name@).push('/'));
            lemma_listing_below(p, (q + name@).push('/'), inner@, i);
        },
        Entry::File(f) => {
            assert(p + q + f.name@ =~= p + (q + f.name@));
            law_keys(p, q + f.name@);
        },
    }
}

/// Where buckets lie and where the servers listen: the platform's own serves all of them, a
/// project's only what is below the project's own directory, on the port that it is given.
pub proof fn law_storage(
    config: Config,
    id: &str,
    bucket: &str,
    port: u16,
    all: ServerPlan,
    own: ServerPlan,
    made: String,
    deleted: Option<String>,
    exists_there: bool,
)
    requires
        call_ensures(start_server, (&config,), all),
        call_ensures(start_project_s3, (&config, id, port), own),
        call_ensures(create_project_bucket, (&config, id, bucket), made),
        call_ensures(delete_bucket, (&config, bucket, exists_there), deleted),
        paths::is_component(id@),
        paths::is_component(bucket@),
    ensures
        all.root@ == config.spec_storage_dir(),
        all.address@ == "0.0.0.0:"@ + text::decimal_int(config.s3_port as int),
        own.root@ == config.spec_storage_dir() + "/"@ + id@,
        own.address@ == "0.0.0.0:"@ + text::decimal_int(port as int),
        made@ == own.root@ + "/"@ + bucket@,
        deleted is Some <==> exists_there,
        deleted matches Some(path) ==> path@ == all.root@ + "/"@ + bucket@,
{
    lemma_storage_dir(config);
    reveal_strlit("/");
    let root = config.spec_storage_dir();
    paths::lemma_joined_within(root, id@);
    paths::lemma_joined_within(root, bucket@);
    paths::lemma_joined_within(paths::joined(root, id@), bucket@);
    assert(root.push('/') + id@ =~= root + "/"@ + id@);
    assert(root.push('/') + bucket@ =~= root + "/"@ + bucket@);
    let dir = paths::joined(root, id@);
    assert(dir.push('/') + bucket@ =~= dir + "/"@ + bucket@);
}

/// Nothing is listed of a bucket that is not there.
pub proof fn law_no_bucket_no_objects(entries: Vec<Entry>, r: Vec<S3Object>, none: Vec<S3Object>)
    requires
        call_ensures(list_bucket_objects, (Some(&entries),), r),
        call_ensures(list_bucket_objects, (None,), none),
    ensures
        none@.len() == 0,
        r@.len() == tree::file_count(entries@),
        forall|i: int|
            0 <= i < r@.len() ==> (#[trigger] r@[i]).key@ == objects_in(Seq::empty(), entries@)[i].0
                && r@[i].size == objects_in(Seq::empty(), entries@)[i].1,
{
    law_one_object_per_file(Seq::empty(), entries@);
    assert(models(none@).len() == none@.len());
    assert(models(r@).len() == r@.len());
    assert forall|i: int| 0 <= i < r@.len() implies (#[trigger] r@[i]).key@ == objects_in(
        Seq::empty(),
        entries@,
    )[i].0 && r@[i].size == objects_in(Seq::empty(), entries@)[i].1 by {
        assert(models(r@)[i] == r@[i].model());
    }
}

} // verus!
