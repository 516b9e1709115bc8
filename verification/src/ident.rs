//! Random identifiers.

use vstd::prelude::*;

use crate::text;

use crate::paths;

verus! {

/// True for the digits of lower-case hexadecimal notation.
pub open spec fn is_hex(c: char) -> bool {
    '0' <= c <= '9' || 'a' <= c <= 'f'
}

/// True for the positions of the hyphens in a UUID.
pub open spec fn is_hyphen_position(i: int) -> bool {
    i == 8 || i == 13 || i == 18 || i == 23
}

/// True for the hyphenated lower-case notation of a version 4 UUID.
pub open spec fn is_uuid(s: Seq<char>) -> bool {
    &&& s.len() == 36
    &&& forall|i: int|
        0 <= i < 36 ==> (if is_hyphen_position(i) {
            #[trigger] s[i] == '-'
        } else {
            is_hex(s[i])
        })
    &&& s[14] == '4'
    &&& s[19] == '8' || s[19] == '9' || s[19] == 'a' || s[19] == 'b'
}

/// Calls `uuid::Uuid::new_v4` and writes the result in its hyphenated notation. The contract gives
/// the notation and the two fixed digits; the others are random. `uuid` panics where the system
/// has no random bytes to give.
#[verifier::external_body]
pub(crate) fn new_uuid() -> (r: String)
    ensures
        is_uuid(r@),
{
    uuid::Uuid::new_v4().to_string()
}

/// Without its hyphens a UUID is 32 hexadecimal digits.
pub proof fn lemma_uuid_without_hyphens(s: Seq<char>)
    requires
        is_uuid(s),
    ensures
        text::substituted(s, '-', Seq::empty()).len() == 32,
        forall|i: int|
            0 <= i < 32 ==> is_hex(#[trigger] text::substituted(s, '-', Seq::empty())[i]),
{
    lemma_hyphens_removed(s, 36);
    assert(s.take(36) =~= s);
}

/// The number of hyphens among the first `n` characters of a UUID.
spec fn hyphens_before(n: int) -> int {
    if n <= 8 {
        0
    } else if n <= 13 {
        1
    } else if n <= 18 {
        2
    } else if n <= 23 {
        3
    } else {
        4
    }
}

proof fn lemma_hyphens_removed(s: Seq<char>, n: int)
    requires
        is_uuid(s),
        0 <= n <= 36,
    ensures
        text::substituted(s.take(n), '-', Seq::empty()).len() == n - hyphens_before(n),
        forall|i: int|
            0 <= i < n - hyphens_before(n) ==> is_hex(
                #[trigger] text::substituted(s.take(n), '-', Seq::empty())[i],
            ),
    decreases n,
{
    if n > 0 {
        lemma_hyphens_removed(s, n - 1);
        assert(s.take(n).drop_last() =~= s.take(n - 1));
        assert(s.take(n).last() == s[n - 1]);
    }
}

/// A random identifier for a row.
pub fn new_id() -> (r: String)
    ensures
        is_uuid(r@),
{
    new_uuid()
}

/// A random identifier is one component of a path, so that what is stored under it has a directory
/// of its own.
pub proof fn law_identifier_is_component(id: Seq<char>)
    requires
        is_uuid(id),
    ensures
        paths::is_component(id),
{
    assert forall|i: int| 0 <= i < id.len() implies id[i] != '/' by {
        if is_hyphen_position(i) {
            assert(id[i] == '-');
        } else {
            assert(is_hex(id[i]));
        }
    }
    paths::lemma_component(id);
}

} // verus!
