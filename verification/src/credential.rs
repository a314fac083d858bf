//! Passwords: kept as salted one-way digests, checked against them, never
//! read back.
use vstd::prelude::*;

verus! {

/// What `bcrypt::verify` answers for a plaintext and a digest: `Some(true)`
/// where the digest was made from the plaintext, `Some(false)` where it was
/// made from another one, `None` where the digest cannot be read.
pub uninterp spec fn verdict(plain: Seq<char>, digest: Seq<char>) -> Option<bool>;

/// The answer to a password check.
#[derive(Clone, Copy, Debug, PartialEq, Eq, Structural)]
pub enum Verdict {
    /// The digest was made from this plaintext.
    Accepted,
    /// The digest was made from another plaintext.
    Refused,
    /// The digest is not one that can be checked against.
    Unreadable,
}

/// The shape of every digest that [`hash`] makes: sixty characters that
/// begin with the scheme and the cost.
pub open spec fn is_digest_text(digest: Seq<char>) -> bool {
    &&& digest.len() == 60
    &&& digest[0] == '$'
    &&& digest[1] == '2'
    &&& digest[2] == 'b'
    &&& digest[3] == '$'
    &&& digest[4] == '1'
    &&& digest[5] == '2'
    &&& digest[6] == '$'
}

/// What [`verify`] returns.
pub open spec fn judged(plain: Seq<char>, digest: Seq<char>) -> Verdict {
    match verdict(plain, digest) {
        Some(true) => Verdict::Accepted,
        Some(false) => Verdict::Refused,
        None => Verdict::Unreadable,
    }
}

/// The digest is a digest of this plaintext: [`verify`] accepts the pair.
pub open spec fn accepts(plain: Seq<char>, digest: Seq<char>) -> bool {
    is_digest_text(digest) && judged(plain, digest) == Verdict::Accepted
}

/// `bcrypt::hash` at `bcrypt::DEFAULT_COST`.
///
/// The salt is random, so the digest is not a function of the plaintext.
/// Claims of every digest that comes back: it has the sixty-character shape
/// `$2b$12$`, salt, hash; and `bcrypt::verify` answers `Ok(true)` for the
/// plaintext and this digest, because it reads cost and salt back from the
/// digest and computes the same hash from them. `None` stands for the
/// outside error, which comes when the system has no random bytes to give.
#[verifier::external_body]
fn bcrypt_hash(plain: &str) -> (digest: Option<String>)
    ensures
        digest matches Some(d) ==> is_digest_text(d@) && verdict(plain@, d@) == Some(true),
{
    match bcrypt::hash(plain, bcrypt::DEFAULT_COST) {
        Ok(digest) => Some(digest),
        Err(_) => None,
    }
}

/// `bcrypt::verify`. Claims that its answer depends on the two texts alone;
/// `None` stands for the outside error.
#[verifier::external_body]
fn bcrypt_verify(plain: &str, digest: &str) -> (answer: Option<bool>)
    ensures
        answer == verdict(plain@, digest@),
{
    match bcrypt::verify(plain, digest) {
        Ok(answer) => Some(answer),
        Err(_) => None,
    }
}

/// Makes a salted digest of a plaintext. `None` when the system's source of
/// randomness fails. A digest that comes back is accepted by [`verify`] for
/// this plaintext.
pub fn hash(plain: &str) -> (digest: Option<String>)
    ensures
        digest matches Some(d) ==> accepts(plain@, d@),
{
    bcrypt_hash(plain)
}

/// Checks a plaintext against a digest.
pub fn verify(plain: &str, digest: &str) -> (answer: Verdict)
    ensures
        answer == judged(plain@, digest@),
{
    match bcrypt_verify(plain, digest) {
        Some(true) => Verdict::Accepted,
        Some(false) => Verdict::Refused,
        None => Verdict::Unreadable,
    }
}

/// A plaintext that does not have the shape of a digest is never its own digest.
pub proof fn law_digest_differs_from_plaintext(plain: Seq<char>, digest: Seq<char>)
    requires
        accepts(plain, digest),
        !is_digest_text(plain),
    ensures
        digest != plain,
{
}

} // verus!
