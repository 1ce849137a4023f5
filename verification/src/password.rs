//! Password hashing with Argon2 (default parameters, Argon2id v19), stored as
//! PHC strings.

use vstd::prelude::*;
use argon2::password_hash::rand_core::OsRng;
use argon2::password_hash::{PasswordHash, PasswordHasher, PasswordVerifier, SaltString};
use argon2::Argon2;
use vstd::utf8::encode_utf8;

verus! {

/// The error type of the `password-hash` crate.
#[verifier::external_type_specification]
#[verifier::external_body]
pub struct ExPasswordHashError(argon2::password_hash::Error);

/// Whether `PasswordHash::new` accepts a text as a PHC string.
pub uninterp spec fn phc_parses(phc: Seq<char>) -> bool;

/// Whether Argon2's `verify_password` accepts a password against a parsed PHC string.
pub uninterp spec fn argon2_accepts(password: Seq<u8>, phc: Seq<char>) -> bool;

/// The longest password, in bytes, that `argon2` hashes (its `MAX_PWD_LEN`).
pub open spec fn max_password_len() -> int {
    0xFFFF_FFFF
}

/// Whether a character belongs to the B64 alphabet of PHC strings (standard
/// Base64 without padding).
pub open spec fn is_b64_char(c: char) -> bool {
    ('A' <= c && c <= 'Z') || ('a' <= c && c <= 'z') || ('0' <= c && c <= '9') || c == '+' || c == '/'
}

/// Whether every character of a text belongs to the B64 alphabet.
pub open spec fn is_b64(text: Seq<char>) -> bool {
    forall|i: int| 0 <= i < text.len() ==> is_b64_char(#[trigger] text[i])
}

/// The start of every PHC string that Argon2's defaults produce: algorithm
/// Argon2id, version 19, 19456 KiB of memory, 2 passes, 1 lane.
pub open spec fn default_phc_prefix() -> Seq<char> {
    "$argon2id$v=19$m=19456,t=2,p=1$"@
}

/// The salt field of a PHC string with Argon2's default prefix.
pub open spec fn phc_salt(phc: Seq<char>) -> Seq<char> {
    phc.subrange(31, 53)
}

/// The hash field of a PHC string with Argon2's default prefix.
pub open spec fn phc_output(phc: Seq<char>) -> Seq<char> {
    phc.subrange(54, 97)
}

/// Whether a text has the form of a PHC string made by Argon2's defaults with a
/// 16-byte salt: the default prefix, 22 B64 characters of salt, `$`, and 43 B64
/// characters of a 32-byte hash.
pub open spec fn is_default_argon2_phc(phc: Seq<char>) -> bool {
    &&& phc.len() == 97
    &&& phc.subrange(0, 31) == default_phc_prefix()
    &&& is_b64(phc_salt(phc))
    &&& phc[53] == '$'
    &&& is_b64(phc_output(phc))
}

/// Hashes a password with a fresh random salt (`SaltString::generate` with
/// `OsRng`, then `Argon2::default().hash_password`, rendered as a PHC string).
/// The salt is random, so the result is not a function of the password; the
/// contract states what holds of every outcome, as the crate's documentation
/// shows it: the PHC string parses, and verifying the same password against it
/// succeeds. Its form is fixed by the crates' sources: `Argon2::default()` is
/// Argon2id, version 19, with `m=19456,t=2,p=1` and a 32-byte output, the salt
/// has 16 bytes (`Salt::RECOMMENDED_LENGTH`), and `PasswordHash`'s `Display`
/// writes `$alg$v=..$params$salt$hash` in unpadded standard Base64. Which salt
/// was drawn is not stated. `hash_password` fails only for passwords longer
/// than `MAX_PWD_LEN`, which `requires` leaves out (and the draw of the salt
/// panics only when the operating system's random source fails).
#[verifier::external_body]
pub(crate) fn hash_password(password: &[u8]) -> (phc: String)
    requires
        password@.len() <= max_password_len(),
    ensures
        phc_parses(phc@),
        argon2_accepts(password@, phc@),
        is_default_argon2_phc(phc@),
{
    let salt = SaltString::generate(&mut OsRng);
    Argon2::default().hash_password(password, &salt).unwrap().to_string()
}

/// Parses a PHC string with `PasswordHash::new` and, when it parses, checks the
/// password against it with `Argon2::default().verify_password`; any error of
/// the verification counts as a refusal.
#[verifier::external_body]
pub(crate) fn verify_password(password: &[u8], phc: &str) -> (r: Result<bool, argon2::password_hash::Error>)
    ensures
        r is Ok <==> phc_parses(phc@),
        r matches Ok(accepted) ==> accepted == argon2_accepts(password@, phc@),
{
    let parsed = PasswordHash::new(phc)?;
    Ok(Argon2::default().verify_password(password, &parsed).is_ok())
}

/// A text that does not have the form of a default Argon2 PHC string is never
/// the stored hash of a password.
pub proof fn law_hash_differs_from_plain_text(phc: Seq<char>, text: Seq<char>)
    requires
        is_default_argon2_phc(phc),
        !is_default_argon2_phc(text),
    ensures
        phc != text,
{
}

/// Two hashes of one password whose salts differ are different PHC strings,
/// and the password verifies against each of them.
pub proof fn law_distinct_salts_give_distinct_hashes(password: Seq<u8>, first: Seq<char>, second: Seq<char>)
    requires
        is_default_argon2_phc(first),
        is_default_argon2_phc(second),
        argon2_accepts(password, first),
        argon2_accepts(password, second),
        phc_salt(first) != phc_salt(second),
    ensures
        first != second,
        argon2_accepts(password, first) && argon2_accepts(password, second),
{
}

/// Why a stored password hash could not be checked.
#[derive(PartialEq, Eq, Structural, Clone, Copy, Debug)]
pub enum PasswordError {
    /// The stored text is not a PHC string.
    MalformedHash,
}

/// Checks a password against a stored PHC string: `Ok(true)` when Argon2
/// accepts it, `Ok(false)` when it refuses it, an error when the stored text
/// is not a PHC string.
pub fn password_matches(password: &str, phc: &str) -> (r: Result<bool, PasswordError>)
    ensures
        r == (if phc_parses(phc@) {
            Ok::<bool, PasswordError>(argon2_accepts(encode_utf8(password@), phc@))
        } else {
            Err::<bool, PasswordError>(PasswordError::MalformedHash)
        }),
{
    match verify_password(password.as_bytes(), phc) {
        Ok(accepted) => Ok(accepted),
        Err(_) => Err(PasswordError::MalformedHash),
    }
}

} // verus!
