//! Password hashing.

use vstd::prelude::*;

use crate::text;

verus! {

#[verifier::external_type_specification]
#[verifier::external_body]
pub struct ExBcryptError(bcrypt::BcryptError);

/// What `bcrypt::verify` says of a password and a hash: `Some` with its verdict, `None` where it
/// fails because the hash is malformed.
pub uninterp spec fn verdict(password: Seq<char>, hash: Seq<char>) -> Option<bool>;

/// Calls `bcrypt::hash` with the crate's default cost. The hash has a random salt; whichever it is,
/// `bcrypt::verify` accepts the password with it. The call fails only where the system has no
/// random bytes to give.
#[verifier::external_body]
pub(crate) fn hash(password: &str) -> (r: Result<String, bcrypt::BcryptError>)
    ensures
        r matches Ok(h) ==> verdict(password@, h@) == Some(true),
{
    bcrypt::hash(password, bcrypt::DEFAULT_COST)
}

/// The parts of a text between dollar signs, without the empty ones.
pub open spec fn dollar_parts(s: Seq<char>) -> Seq<Seq<char>>
    decreases s.len(),
    via dollar_parts_decreases
{
    if s.len() == 0 {
        Seq::empty()
    } else {
        let p = text::position_of(s, '$');
        if p >= s.len() {
            seq![s]
        } else if p == 0 {
            dollar_parts(s.skip(1))
        } else {
            seq![s.take(p)] + dollar_parts(s.skip(p + 1))
        }
    }
}

#[via_fn]
proof fn dollar_parts_decreases(s: Seq<char>) {
    text::lemma_position_of(s, '$');
}

/// True for a text that has the shape of a bcrypt hash: the version, the cost, and 53 characters of
/// salt and hash.
pub open spec fn is_bcrypt_shaped(hash: Seq<char>) -> bool {
    let parts = dollar_parts(hash);
    &&& parts.len() == 3
    &&& parts[0] == "2y"@ || parts[0] == "2b"@ || parts[0] == "2a"@ || parts[0] == "2x"@
    &&& text::unsigned_value(parts[1]) matches Some(cost)
    &&& 4 <= cost <= 31
    &&& parts[2].len() == 53
}

/// A text without a dollar sign, such as the empty one, does not have that shape.
pub proof fn lemma_without_dollar(hash: Seq<char>)
    requires
        !hash.contains('$'),
    ensures
        !is_bcrypt_shaped(hash),
{
    text::lemma_position_of(hash, '$');
    let p = text::position_of(hash, '$');
    if p < hash.len() {
        assert(hash.contains(hash[p]));
    }
}

/// Calls `bcrypt::verify`. The contract names its result and says that it fails on a text that does
/// not have the shape of a bcrypt hash.
#[verifier::external_body]
pub(crate) fn verify(password: &str, hash: &str) -> (r: Result<bool, bcrypt::BcryptError>)
    ensures
        match r {
            Ok(b) => verdict(password@, hash@) == Some(b),
            Err(_) => verdict(password@, hash@) is None,
        },
        !is_bcrypt_shaped(hash@) ==> r is Err,
{
    bcrypt::verify(password, hash)
}

} // verus!
