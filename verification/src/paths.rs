//! File system paths, written with `/` between their components.

use vstd::prelude::*;
use vstd::string::*;

verus! {

/// The path of `part` seen from `base`: `part` itself where it is absolute, else `part` after
/// `base` with exactly one separator added where `base` has none at its end.
pub open spec fn joined(base: Seq<char>, part: Seq<char>) -> Seq<char> {
    if part.len() > 0 && part[0] == '/' {
        part
    } else if base.len() == 0 || base.last() == '/' {
        base + part
    } else {
        base.push('/') + part
    }
}

/// The path of `part` seen from `base`.
pub fn join(base: &str, part: &str) -> (r: String)
    ensures
        r@ == joined(base@, part@),
{
    if part.unicode_len() > 0 && part.get_char(0) == '/' {
        return part.to_owned();
    }
    let n = base.unicode_len();
    let mut r = base.to_owned();
    if n > 0 && base.get_char(n - 1) != '/' {
        r.push('/');
    }
    r.append(part);
    r
}

/// True for a name that stands for one component of a path: not empty, without a separator, and
/// neither of the two names that every directory holds for itself and its parent.
pub open spec fn is_component(name: Seq<char>) -> bool {
    &&& name.len() > 0
    &&& !name.contains('/')
    &&& name != seq!['.']
    &&& name != seq!['.', '.']
}

/// A name of more than two characters, none of them a separator, is a component.
pub proof fn lemma_component(name: Seq<char>)
    requires
        name.len() > 2,
        forall|i: int| 0 <= i < name.len() ==> name[i] != '/',
    ensures
        is_component(name),
{
    assert(seq!['.'].len() == 1);
    assert(seq!['.', '.'].len() == 2);
}

/// True for the path `dir` and for every path below it.
pub open spec fn is_within(path: Seq<char>, dir: Seq<char>) -> bool {
    path == dir || dir.push('/').is_prefix_of(path)
}

/// What is joined to a directory lies below it.
pub proof fn lemma_joined_within(base: Seq<char>, name: Seq<char>)
    requires
        base.len() > 0,
        base.last() != '/',
        is_component(name),
    ensures
        joined(base, name) == base.push('/') + name,
        is_within(joined(base, name), base),
        joined(base, name).last() != '/',
        joined(base, name).len() > 0,
{
    assert(name.contains(name[0]));
    assert(name.contains(name.last()));
    assert(base.push('/').is_prefix_of(base.push('/') + name));
}

/// Being below is transitive.
pub proof fn lemma_within_transitive(a: Seq<char>, b: Seq<char>, c: Seq<char>)
    requires
        is_within(a, b),
        is_within(b, c),
    ensures
        is_within(a, c),
{
    if a != b && b != c {
        let q = c.push('/');
        assert(q =~= b.subrange(0, q.len() as int));
        assert(b.push('/') =~= a.subrange(0, b.len() as int + 1));
        assert forall|i: int| 0 <= i < q.len() implies q[i] == a[i] by {
            assert(q[i] == b[i]);
            assert(b.push('/')[i] == a[i]);
        }
        assert(q =~= a.subrange(0, q.len() as int));
    }
}

/// No path lies below two directories that two different names have in one parent.
pub proof fn lemma_siblings_apart(base: Seq<char>, a: Seq<char>, b: Seq<char>, path: Seq<char>)
    requires
        base.len() > 0,
        base.last() != '/',
        is_component(a),
        is_component(b),
        a != b,
        is_within(path, joined(base, a)),
    ensures
        !is_within(path, joined(base, b)),
{
    lemma_joined_within(base, a);
    lemma_joined_within(base, b);
    if is_within(path, joined(base, b)) {
        let n = base.len() as int + 1;
        let da = base.push('/') + a;
        let db = base.push('/') + b;
        // Below a directory, the path reads as the directory's own path and then a separator.
        assert forall|d: Seq<char>, i: int|
            is_within(path, d) && 0 <= i < d.len() implies path[i] == d[i] by {
            if path != d {
                assert(d.push('/')[i] == path.subrange(0, d.push('/').len() as int)[i]);
            }
        }
        assert forall|d: Seq<char>| is_within(path, d) && path.len() > d.len() implies path[d.len() as int]
            == '/' by {
            assert(d.push('/')[d.len() as int] == path.subrange(0, d.push('/').len() as int)[d.len() as int]);
        }
        if a.len() == b.len() {
            assert forall|i: int| 0 <= i < a.len() implies a[i] == b[i] by {
                assert(da[n + i] == path[n + i]);
                assert(db[n + i] == path[n + i]);
            }
            assert(a =~= b);
        } else if a.len() < b.len() {
            assert(path.len() > da.len());
            assert(db[n + a.len()] == b[a.len() as int]);
            assert(path[n + a.len()] == '/');
            assert(b.contains(b[a.len() as int]));
        } else {
            assert(path.len() > db.len());
            assert(da[n + b.len()] == a[b.len() as int]);
            assert(path[n + b.len()] == '/');
            assert(a.contains(a[b.len() as int]));
        }
    }
}

} // verus!
