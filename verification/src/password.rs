//! Password credentials: hashing a raw password for storage, and checking a
//! raw password against a stored credential. Both are the work of Argon2.

use crate::api_error::{hashing_failed, verification_failed, ApiError};
use vstd::prelude::*;

verus! {

/// The number of random bytes that salt a credential.
pub const SALT_LENGTH: usize = 32;

/// The error type of the Argon2 crate, `argon2::Error`. Nothing is known
/// of a value of it: it is only told apart from a success.
#[verifier::external_type_specification]
#[verifier::external_body]
pub struct ExArgon2Error(argon2::Error);

/// What `argon2::hash_encoded` makes of a password and a salt under
/// `argon2::Config::default()`: the encoded credential, or `None` where it
/// returns an error.
pub uninterp spec fn argon2_encoding(password: Seq<char>, salt: Seq<u8>) -> Option<Seq<char>>;

/// What `argon2::verify_encoded` says of an encoded credential and a
/// password: whether the password is the one that the credential was made
/// of, or `None` where it returns an error.
pub uninterp spec fn argon2_verdict(encoded: Seq<char>, password: Seq<char>) -> Option<bool>;

/// What every credential of this library begins with: Argon2id in version
/// 19, with 19456 KiB of memory, two passes and one lane.
pub open spec fn own_parameters() -> Seq<char> {
    "$argon2id$v=19$m=19456,t=2,p=1$"@
}

/// `encoded` begins with the parameters of this library. Only such a
/// credential is stored, and only such a credential is handed to the
/// verifier: what a credential asks for in memory and in threads is then
/// known beforehand.
pub open spec fn has_own_parameters(encoded: Seq<char>) -> bool {
    own_parameters().is_prefix_of(encoded)
}

/// The credential that this library makes of `password` under `salt`: what
/// Argon2 encodes, if that begins with the library's parameters.
pub open spec fn encoding(password: Seq<char>, salt: Seq<u8>) -> Option<Seq<char>> {
    match argon2_encoding(password, salt) {
        Some(encoded) if has_own_parameters(encoded) => Some(encoded),
        _ => None,
    }
}

/// What this library says of `encoded` and `password`: the verifier's
/// answer on a credential with the library's parameters, and `None` on
/// every other.
pub open spec fn verdict(encoded: Seq<char>, password: Seq<char>) -> Option<bool> {
    if has_own_parameters(encoded) {
        argon2_verdict(encoded, password)
    } else {
        None
    }
}

/// `encoded` is the credential of `password` under some salt of
/// [`SALT_LENGTH`] bytes.
pub open spec fn is_credential_of(encoded: Seq<char>, password: Seq<char>) -> bool {
    exists|salt: Seq<u8>|
        salt.len() == SALT_LENGTH && #[trigger] encoding(password, salt) == Some(encoded)
}

/// Overwrites `buffer` with random bytes from `rand::fill`. Only the length
/// is claimed, which the call cannot change. The outside call panics if the
/// operating system's source of randomness fails.
#[verifier::external_body]
fn fill_random(buffer: &mut Vec<u8>)
    ensures
        final(buffer)@.len() == old(buffer)@.len(),
{
    rand::fill(&mut buffer[..])
}

/// Calls `argon2::hash_encoded` on the bytes of `password`, with `salt` and
/// the default configuration. The result is a function of the password and
/// the salt alone, and the contract says no more than that. The call works
/// in one thread, on the memory that the configuration asks for.
#[verifier::external_body]
fn argon2_hash(password: &str, salt: &[u8]) -> (r: Result<String, argon2::Error>)
    ensures
        match r {
            Ok(encoded) => argon2_encoding(password@, salt@) == Some(encoded@),
            Err(_) => argon2_encoding(password@, salt@) is None,
        },
{
    argon2::hash_encoded(password.as_bytes(), salt, &argon2::Config::default())
}

/// Calls `argon2::verify_encoded` on `encoded` and the bytes of `password`.
/// The result is a function of the two alone, and the contract says no more
/// than that. Only a credential with the library's parameters is admitted:
/// a credential is decoded only if what follows these parameters is a salt
/// and a hash, so the call works in one thread and on 19456 KiB, whatever
/// else the credential holds. On other credentials the call takes the
/// memory and starts the threads that they ask for, and what it answers may
/// depend on the machine.
#[verifier::external_body]
fn argon2_verify(encoded: &str, password: &str) -> (r: Result<bool, argon2::Error>)
    requires
        has_own_parameters(encoded@),
    ensures
        match r {
            Ok(matches) => argon2_verdict(encoded@, password@) == Some(matches),
            Err(_) => argon2_verdict(encoded@, password@) is None,
        },
{
    argon2::verify_encoded(encoded, password.as_bytes())
}

/// Whether `encoded` begins with the parameters of this library.
pub fn is_own_credential(encoded: &str) -> (own: bool)
    ensures
        own == has_own_parameters(encoded@),
{
    let parameters = "$argon2id$v=19$m=19456,t=2,p=1$";
    let n = parameters.unicode_len();
    if encoded.unicode_len() < n {
        return false;
    }
    let mut i: usize = 0;
    while i < n
        invariant
            i <= n,
            n == parameters@.len(),
            n <= encoded@.len(),
            parameters@ == own_parameters(),
            forall|j: int| 0 <= j < i ==> encoded@[j] == parameters@[j],
        decreases n - i,
    {
        if encoded.get_char(i) != parameters.get_char(i) {
            assert(encoded@.subrange(0, n as int)[i as int] != parameters@[i as int]);
            return false;
        }
        i += 1;
    }
    assert(parameters@ =~= encoded@.subrange(0, n as int));
    true
}

/// The credential of `password` under `salt`. Fails exactly where Argon2
/// refuses the two, or encodes them under other parameters than the
/// library's.
pub fn hash_password_with_salt(password: &str, salt: &[u8]) -> (r: Result<String, ApiError>)
    ensures
        match r {
            Ok(encoded) => encoding(password@, salt@) == Some(encoded@),
            Err(e) => encoding(password@, salt@) is None && e@ == hashing_failed(),
        },
{
    match argon2_hash(password, salt) {
        Ok(encoded) if is_own_credential(encoded.as_str()) => Ok(encoded),
        _ => Err(ApiError::hashing_failed()),
    }
}

/// The credential of `password` under a fresh random salt of
/// [`SALT_LENGTH`] bytes. The one failure is that of the hasher.
pub fn hash_password(password: &str) -> (r: Result<String, ApiError>)
    ensures
        match r {
            Ok(encoded) => has_own_parameters(encoded@) && is_credential_of(encoded@, password@),
            Err(e) => e@ == hashing_failed(),
        },
{
    let mut salt: Vec<u8> = Vec::new();
    while salt.len() < SALT_LENGTH
        invariant
            salt.len() <= SALT_LENGTH,
        decreases SALT_LENGTH - salt.len(),
    {
        salt.push(0);
    }
    fill_random(&mut salt);
    hash_password_with_salt(password, salt.as_slice())
}

/// Whether `password` is the password of the credential `encoded`. A
/// password that does not match is no failure: the answer is then `false`.
/// Fails exactly where the credential has not the library's parameters, or
/// the verifier cannot read it.
pub fn verify_password(encoded: &str, password: &str) -> (r: Result<bool, ApiError>)
    ensures
        match r {
            Ok(matches) => verdict(encoded@, password@) == Some(matches),
            Err(e) => verdict(encoded@, password@) is None && e@ == verification_failed(),
        },
{
    if !is_own_credential(encoded) {
        return Err(ApiError::verification_failed());
    }
    match argon2_verify(encoded, password) {
        Ok(matches) => Ok(matches),
        Err(_) => Err(ApiError::verification_failed()),
    }
}

} // verus!
