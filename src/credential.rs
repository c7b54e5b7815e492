//! Password credentials: one-way Argon2 hashing into a self-describing PHC
//! string, and verification of a password against such a string.
use argon2::password_hash::{PasswordHash, PasswordHasher, PasswordVerifier, Salt, SaltString};
use argon2::Argon2;
use rand_core::{OsRng, RngCore};
use vstd::prelude::*;

verus! {

#[verifier::external_type_specification]
#[verifier::external_body]
pub struct ExPasswordHashError(argon2::password_hash::Error);

#[verifier::external_type_specification]
#[verifier::external_body]
pub struct ExRandError(rand_core::Error);

/// Number of random bytes in a salt.
pub const SALT_BYTES: usize = 16;

/// Why a credential operation failed.
#[derive(Debug, Clone, Copy, PartialEq, Eq, Structural)]
pub enum CredentialError {
    /// The hashing primitive could not produce a hash.
    Hashing,
    /// A stored encoded hash is not a structurally valid PHC string.
    HashFormat,
}

/// The PHC string that Argon2 with its default parameters makes of
/// `password` and the B64-encoded `salt`.
pub uninterp spec fn argon2_encoded(password: Seq<char>, salt: Seq<char>) -> Seq<char>;

/// Whether `encoded` parses as a PHC string.
pub uninterp spec fn phc_parses(encoded: Seq<char>) -> bool;

/// Whether Argon2, run on `password` with the algorithm, version, parameters
/// and salt that `encoded` embeds, reproduces the digest that `encoded` holds.
pub uninterp spec fn argon2_accepts(encoded: Seq<char>, password: Seq<char>) -> bool;

/// `encoded` is what hashing `password` under some salt produced: it parses,
/// it verifies against `password`, and it is Argon2's output for that salt.
pub open spec fn is_encoding_of(encoded: Seq<char>, password: Seq<char>) -> bool {
    &&& phc_parses(encoded)
    &&& argon2_accepts(encoded, password)
    &&& exists|salt: Seq<char>| encoded == #[trigger] argon2_encoded(password, salt)
}

/// What verifying `password` against the stored string `encoded` yields.
pub open spec fn verify_outcome(encoded: Seq<char>, password: Seq<char>) -> Result<bool, CredentialError> {
    if phc_parses(encoded) {
        Ok(argon2_accepts(encoded, password))
    } else {
        Err(CredentialError::HashFormat)
    }
}

/// A character of the standard Base64 alphabet.
pub open spec fn is_b64_char(c: char) -> bool {
    ('A' <= c && c <= 'Z') || ('a' <= c && c <= 'z') || ('0' <= c && c <= '9') || c == '+' || c
        == '/'
}

/// A salt as `fresh_salt` makes it: sixteen bytes in unpadded standard
/// Base64, that is 22 characters whose last one carries only two bits.
pub open spec fn is_generated_salt(s: Seq<char>) -> bool {
    &&& s.len() == 22
    &&& forall|i: int| 0 <= i < 22 ==> is_b64_char(#[trigger] s[i])
    &&& (s[21] == 'A' || s[21] == 'Q' || s[21] == 'g' || s[21] == 'w')
}

/// A password whose UTF-8 form surely fits Argon2's limit of `2^32 - 1`
/// bytes: a character takes at most four bytes.
pub open spec fn password_fits(password: Seq<char>) -> bool {
    password.len() <= 0x3fff_ffff
}

/// Relies on `RngCore::try_fill_bytes` of `OsRng`: on success the buffer of
/// `len` bytes is filled from the operating system's random source; its
/// failure is returned, not raised.
#[verifier::external_body]
fn random_bytes(len: usize) -> (r: Result<Vec<u8>, rand_core::Error>)
    ensures
        r matches Ok(b) ==> b@.len() == len,
{
    let mut buf = vec![0u8; len];
    OsRng.try_fill_bytes(&mut buf)?;
    Ok(buf)
}

/// Relies on `SaltString::encode_b64`: sixteen bytes always encode, as 22
/// characters of unpadded standard Base64.
#[verifier::external_body]
fn encode_salt(bytes: &Vec<u8>) -> (r: Result<String, argon2::password_hash::Error>)
    ensures
        r is Err ==> bytes@.len() != 16,
        r matches Ok(s) ==> (bytes@.len() == 16 ==> is_generated_salt(s@)),
{
    SaltString::encode_b64(bytes).map(|s| s.as_str().to_owned())
}

/// Relies on `PasswordHasher::hash_password` of `Argon2::default()`: on
/// success its `PasswordHash`, written out, is the PHC string for the password
/// and salt; that string parses again, and `verify_password` recomputes the
/// same digest from it for the same password. Argon2 refuses only a password
/// over its length limit or a salt that does not decode to 8 bytes or more.
#[verifier::external_body]
fn argon2_hash(password: &str, salt: &str) -> (r: Result<String, argon2::password_hash::Error>)
    ensures
        r matches Ok(h) ==> h@ == argon2_encoded(password@, salt@) && phc_parses(h@)
            && argon2_accepts(h@, password@),
        is_generated_salt(salt@) && password_fits(password@) ==> r is Ok,
{
    let salt = Salt::from_b64(salt)?;
    let hash = Argon2::default().hash_password(password.as_bytes(), salt)?;
    Ok(hash.to_string())
}

/// Relies on `PasswordHash::new`: it succeeds exactly on PHC strings.
#[verifier::external_body]
fn parse_encoded(encoded: &str) -> (r: Result<(), argon2::password_hash::Error>)
    ensures
        r is Ok <==> phc_parses(encoded@),
{
    PasswordHash::new(encoded).map(|_| ())
}

/// Relies on `PasswordVerifier::verify_password` of `Argon2::default()`, on
/// the `PasswordHash` that `PasswordHash::new` parses from `encoded`: it
/// recomputes the digest with the embedded settings and compares the two in
/// constant time.
#[verifier::external_body]
fn argon2_verify(encoded: &str, password: &str) -> (r: bool)
    requires
        phc_parses(encoded@),
    ensures
        r == argon2_accepts(encoded@, password@),
{
    match PasswordHash::new(encoded) {
        Ok(parsed) => Argon2::default().verify_password(password.as_bytes(), &parsed).is_ok(),
        Err(_) => false,
    }
}

/// Draws a fresh random salt. Fails with `Hashing` only when the operating
/// system's random source fails.
pub fn fresh_salt() -> (r: Result<String, CredentialError>)
    ensures
        r matches Ok(s) ==> is_generated_salt(s@),
        r matches Err(e) ==> e == CredentialError::Hashing,
{
    match random_bytes(SALT_BYTES) {
        Ok(bytes) => match encode_salt(&bytes) {
            Ok(salt) => Ok(salt),
            Err(_) => Err(CredentialError::Hashing),
        },
        Err(_) => Err(CredentialError::Hashing),
    }
}

/// Hashes `password` under the given B64 `salt` into a PHC string: the same
/// password and salt always give the same string. Every password that fits
/// Argon2's limit, the empty one included, hashes under a salt that
/// `fresh_salt` made.
pub fn hash_password_with_salt(password: &str, salt: &str) -> (r: Result<String, CredentialError>)
    ensures
        r matches Ok(h) ==> h@ == argon2_encoded(password@, salt@) && is_encoding_of(h@, password@),
        is_generated_salt(salt@) && password_fits(password@) ==> r is Ok,
        r matches Err(e) ==> e == CredentialError::Hashing,
{
    match argon2_hash(password, salt) {
        Ok(h) => Ok(h),
        Err(_) => Err(CredentialError::Hashing),
    }
}

/// Hashes `password` under a fresh random salt into a PHC string. A failure
/// is reported as `Hashing` and carries none of its detail.
pub fn hash_password(password: &str) -> (r: Result<String, CredentialError>)
    ensures
        r matches Ok(h) ==> is_encoding_of(h@, password@),
        r matches Err(e) ==> e == CredentialError::Hashing,
{
    let salt = fresh_salt()?;
    hash_password_with_salt(password, salt.as_str())
}

/// Checks `password` against the stored PHC string `hash`. A mismatch is
/// `Ok(false)`; a string that is not a PHC string is `Err(HashFormat)`.
pub fn verify_password(hash: &str, password: &str) -> (r: Result<bool, CredentialError>)
    ensures
        r == verify_outcome(hash@, password@),
{
    match parse_encoded(hash) {
        Ok(()) => Ok(argon2_verify(hash, password)),
        Err(_) => Err(CredentialError::HashFormat),
    }
}

/// A password verifies against every hash that was made of it.
pub proof fn lemma_hash_then_verify(password: Seq<char>, encoded: Seq<char>)
    requires
        is_encoding_of(encoded, password),
    ensures
        verify_outcome(encoded, password) == Ok::<bool, CredentialError>(true),
{
}

/// Two hashes of one password, under whatever salts, both verify against it.
pub proof fn lemma_two_hashes_both_verify(password: Seq<char>, first: Seq<char>, second: Seq<char>)
    requires
        is_encoding_of(first, password),
        is_encoding_of(second, password),
    ensures
        verify_outcome(first, password) == Ok::<bool, CredentialError>(true),
        verify_outcome(second, password) == Ok::<bool, CredentialError>(true),
{
    lemma_hash_then_verify(password, first);
    lemma_hash_then_verify(password, second);
}

/// A stored string that does not parse is reported as a format error,
/// whatever password is offered, and never as a plain mismatch.
pub proof fn lemma_malformed_hash_is_format_error(encoded: Seq<char>, password: Seq<char>)
    requires
        !phc_parses(encoded),
    ensures
        verify_outcome(encoded, password) == Err::<bool, CredentialError>(CredentialError::HashFormat),
{
}

} // verus!
