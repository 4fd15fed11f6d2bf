use rand::distributions::Alphanumeric;
use rand::Rng;
use vstd::prelude::*;

verus! {

/// Number of characters in a session id.
pub const SESSION_ID_LEN: usize = 6;

/// An ASCII letter or digit.
pub open spec fn is_alphanumeric(c: char) -> bool {
    ('a' <= c && c <= 'z') || ('A' <= c && c <= 'Z') || ('0' <= c && c <= '9')
}

/// A well-formed session id: exactly six ASCII letters or digits.
pub open spec fn is_session_id(s: Seq<char>) -> bool {
    &&& s.len() == SESSION_ID_LEN
    &&& forall|i: int| 0 <= i < s.len() ==> is_alphanumeric(#[trigger] s[i])
}

/// A fresh random session id, not checked against the live sessions.
///
/// Relies on rand's `Alphanumeric` distribution, which draws each character
/// from `A-Z`, `a-z` and `0-9`, sampled `SESSION_ID_LEN` times from the
/// thread-local generator. The characters themselves are random.
#[verifier::external_body]
pub(crate) fn random_session_id() -> (s: String)
    ensures
        is_session_id(s@),
{
    rand::thread_rng().sample_iter(&Alphanumeric).map(char::from).take(SESSION_ID_LEN).collect()
}

} // verus!
