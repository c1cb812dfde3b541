use crate::record::{id_allowed, is_reserved, sep, free_of_sep};
use vstd::prelude::*;

verus! {

/// The number of characters in a generated identifier or edit key.
pub const TOKEN_LEN: usize = 10;

pub open spec fn is_alphanumeric(c: char) -> bool {
    ('a' <= c && c <= 'z') || ('A' <= c && c <= 'Z') || ('0' <= c && c <= '9')
}

/// A string that the generator may produce.
pub open spec fn is_token(s: Seq<char>) -> bool {
    s.len() == TOKEN_LEN && forall|i: int| 0 <= i < s.len() ==> is_alphanumeric(#[trigger] s[i])
}

/// Relies on rand's `Alphanumeric` distribution, whose `sample_string` draws
/// `len` characters from thread-local randomness, each from `A-Z`, `a-z` and `0-9`.
#[verifier::external_body]
fn random_alphanumeric(len: usize) -> (r: String)
    ensures
        r@.len() == len,
        forall|i: int| 0 <= i < r@.len() ==> is_alphanumeric(#[trigger] r@[i]),
{
    rand::distributions::DistString::sample_string(
        &rand::distributions::Alphanumeric,
        &mut rand::thread_rng(),
        len,
    )
}

/// A fresh random string of `TOKEN_LEN` alphanumeric characters, used for
/// identifier candidates and for edit keys.
pub fn generate_random_string() -> (r: String)
    ensures
        is_token(r@),
{
    random_alphanumeric(TOKEN_LEN)
}

/// A generated string can always serve as an identifier: it names no route
/// and holds no separator.
pub proof fn lemma_token_allowed(s: Seq<char>)
    requires
        is_token(s),
    ensures
        id_allowed(s),
{
    assert(!is_reserved(s)) by {
        if is_reserved(s) {
            assert(s.len() == 3 || s.len() == 5);
        }
    }
    assert forall|i: int| 0 <= i < s.len() implies s[i] != sep() by {
        assert(is_alphanumeric(s[i]));
    }
    assert(free_of_sep(s));
}

} // verus!
