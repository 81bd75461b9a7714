//! Password hashing with Argon2, through the `argon2` crate.

use argon2::password_hash::rand_core::OsRng;
use argon2::password_hash::{PasswordHash, PasswordHasher, PasswordVerifier, SaltString};
use argon2::Argon2;
use vstd::prelude::*;

verus! {

/// What checking `password` against the PHC string `phc` with Argon2's
/// default parameters gives: `None` when `phc` is not a PHC string, else
/// whether the check accepts the password (it refuses it where the string
/// names another algorithm or the hash differs).
pub uninterp spec fn argon2_verdict(password: Seq<u8>, phc: Seq<char>) -> Option<bool>;

/// The PHC string of Argon2 with its default parameters on `password` and
/// the B64 salt `salt`, or `None` when the salt is refused.
pub uninterp spec fn argon2_phc(password: Seq<u8>, salt: Seq<char>) -> Option<Seq<char>>;

/// Whether `c` is a character of the B64 alphabet: a letter, a digit, `+`
/// or `/`.
pub open spec fn is_b64_char(c: char) -> bool {
    ('A' <= c && c <= 'Z') || ('a' <= c && c <= 'z') || ('0' <= c && c <= '9') || c == '+' || c == '/'
}

/// Whether `s` is the unpadded B64 text of sixteen bytes: twenty-two B64
/// characters, the last of which holds no bits beyond the sixteenth byte
/// (it is `A`, `Q`, `g` or `w`).
pub open spec fn is_b64_salt(s: Seq<char>) -> bool {
    &&& s.len() == 22
    &&& forall|i: int| 0 <= i < 22 ==> is_b64_char(#[trigger] s[i])
    &&& (s[21] == 'A' || s[21] == 'Q' || s[21] == 'g' || s[21] == 'w')
}

/// Parses `phc` with `PasswordHash::new` and checks `password` against it
/// with `Argon2::default()`'s `verify_password`. Claimed: the result is
/// `argon2_verdict` of the two arguments, that is, it depends on them alone.
#[verifier::external_body]
pub(crate) fn verify_password(password: &[u8], phc: &str) -> (r: Option<bool>)
    ensures
        r == argon2_verdict(password@, phc@),
{
    match PasswordHash::new(phc) {
        Ok(hash) => Some(Argon2::default().verify_password(password, &hash).is_ok()),
        Err(_) => None,
    }
}

/// Hashes `password` with `Argon2::default()`'s `hash_password` and the
/// salt `salt`, and writes the hash as a PHC string. Claimed: the result
/// is `argon2_phc` of the two arguments, and checking the same password
/// against the PHC string written finds it matches (the string names the
/// algorithm, version, parameters and salt that `verify_password` uses to
/// hash the password again and compare). Claimed too, from the checks the
/// call makes: a password longer than `u32::MAX` bytes is refused
/// (`MAX_PWD_LEN`), and a salt that is the B64 text of sixteen bytes with
/// a password no longer than that is hashed, since such a salt passes
/// `Salt::new` (4 to 64 permitted characters), decodes canonically and
/// gives at least `MIN_SALT_LEN` (8) bytes. What other salts are accepted
/// is left unsaid.
#[verifier::external_body]
pub(crate) fn hash_password(password: &[u8], salt: &str) -> (r: Option<String>)
    ensures
        match r {
            Some(s) => argon2_phc(password@, salt@) == Some(s@),
            None => argon2_phc(password@, salt@) is None,
        },
        r matches Some(s) ==> argon2_verdict(password@, s@) == Some(true),
        password@.len() > u32::MAX ==> r is None,
        password@.len() <= u32::MAX && is_b64_salt(salt@) ==> r is Some,
{
    match Argon2::default().hash_password(password, salt) {
        Ok(hash) => Some(hash.to_string()),
        Err(_) => None,
    }
}

/// A fresh random salt from `SaltString::generate` with the operating
/// system's generator, as text. Which salt is drawn is chance; claimed is
/// what holds of every one: it is the unpadded B64 text of sixteen random
/// bytes (`Salt::RECOMMENDED_LENGTH`), so twenty-two B64 characters.
#[verifier::external_body]
pub(crate) fn generate_salt() -> (r: String)
    ensures
        is_b64_salt(r@),
{
    SaltString::generate(&mut OsRng).as_str().to_owned()
}

} // verus!
