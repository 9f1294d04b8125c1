//! The credential hasher: a plaintext password becomes a self-describing
//! salted hash string, and a plaintext is checked against a stored hash.
//! The hashing itself is argon2's; what this module states is the round
//! trip between the two operations, the shape of the stored string, and
//! when hashing is owed success.

use vstd::prelude::*;

use argon2::PasswordHasher;
use argon2::PasswordVerifier;

verus! {

/// Any password of at most this many characters hashes successfully: the
/// hasher's only input-dependent failure is a byte-length cap of
/// `0xFFFF_FFFF`, and a character encodes to at most four bytes.
pub const PASSWORD_CHAR_CAP: usize = 0x3FFF_FFFF;

/// Whether argon2 accepts plaintext `p` against the self-describing hash
/// string `h`: it re-computes the hash with the parameters and salt embedded
/// in `h` and compares. A malformed `h` matches nothing.
pub uninterp spec fn password_accepted(p: Seq<char>, h: Seq<char>) -> bool;

/// The salt a self-describing hash string embeds, as argon2's parser
/// (`PasswordHash::new`) reads it back out: a function of the string alone,
/// nothing when the string is malformed or carries no salt.
pub uninterp spec fn phc_salt(h: Seq<char>) -> Option<Seq<char>>;

/// Relies on `argon2::Argon2::hash_password` with a salt drawn freshly from
/// the operating system: on success the returned hash string is in PHC form
/// — it opens with the algorithm's name and embeds that salt, so parsing it
/// yields a salt and verifying the same plaintext against it succeeds. The
/// call fails only for plaintexts over its byte-length cap, so any
/// plaintext short enough that four bytes per character stays under the cap
/// is owed a hash.
#[verifier::external_body]
fn argon2_hash(p: &str) -> (r: Result<String, String>)
    ensures
        p@.len() <= PASSWORD_CHAR_CAP ==> r is Ok,
        r matches Ok(h) ==> password_accepted(p@, h@),
        r matches Ok(h) ==> phc_salt(h@) is Some,
        r matches Ok(h) ==> h@.len() > 9 && h@.subrange(0, 9) == "$argon2id"@,
{
    let salt = argon2::password_hash::SaltString::generate(&mut rand_core::OsRng);
    match argon2::Argon2::default().hash_password(p.as_bytes(), &salt) {
        Ok(h) => Ok(h.to_string()),
        Err(e) => Err(e.to_string()),
    }
}

/// Relies on `argon2::Argon2::verify_password` over `PasswordHash::new`:
/// acceptance is a function of the plaintext and the hash string alone, and
/// a hash string that does not parse verifies as failure rather than
/// raising.
#[verifier::external_body]
fn argon2_verify(p: &str, h: &str) -> (r: bool)
    ensures
        r == password_accepted(p@, h@),
{
    match argon2::PasswordHash::new(h) {
        Ok(parsed) => argon2::Argon2::default().verify_password(p.as_bytes(), &parsed).is_ok(),
        Err(_) => false,
    }
}

/// Hashes a plaintext password with a fresh random salt. The salt is drawn
/// anew on every call, so two calls on one plaintext need not agree; what
/// every successful outcome grants is a self-describing string — it opens
/// with the algorithm's name and embeds the drawn salt — that `verify`
/// accepts the plaintext against. Every plaintext within the character cap
/// is owed a hash.
pub fn hash(plaintext: &String) -> (r: Result<String, String>)
    ensures
        plaintext@.len() <= PASSWORD_CHAR_CAP ==> r is Ok,
        r matches Ok(h) ==> password_accepted(plaintext@, h@),
        r matches Ok(h) ==> phc_salt(h@) is Some,
        r matches Ok(h) ==> h@.len() > 9 && h@.subrange(0, 9) == "$argon2id"@,
{
    argon2_hash(plaintext.as_str())
}

/// Checks a plaintext against a stored hash string. Never raises: a
/// malformed hash string simply verifies as `false`.
pub fn verify(plaintext: &String, hash_string: &String) -> (r: bool)
    ensures
        r == password_accepted(plaintext@, hash_string@),
{
    argon2_verify(plaintext.as_str(), hash_string.as_str())
}

/// A salt is never reused across calls, and the stored strings show it:
/// two hash strings that embed different salts are different strings, so
/// hashes drawn over distinct salts can never collide as stored values.
/// That each still verifies against the same plaintext is `hash`'s own
/// contract.
pub proof fn lemma_distinct_salts_distinct_hashes(h1: Seq<char>, h2: Seq<char>)
    requires
        phc_salt(h1) != phc_salt(h2),
    ensures
        h1 != h2,
{
}

} // verus!
