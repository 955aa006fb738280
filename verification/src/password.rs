//! Salted password hashing and verification, delegated to libsodium's
//! Argon2id through `sodiumoxide`.

use sodiumoxide::crypto::pwhash::argon2id13;
use vstd::prelude::*;

verus! {

/// Number of bytes in a stored password hash.
pub const HASH_BYTES: usize = 128;

/// Bound on the computations spent on one hash (the interactive base line).
pub const OPS_LIMIT: usize = 2;

/// Bound on the memory used for one hash, in bytes (the interactive base line).
pub const MEM_LIMIT: usize = 67108864;

/// Whether the bytes hold a zero: a stored hash is a zero-terminated
/// string, and libsodium reads it up to its first zero.
pub open spec fn is_terminated(hash: Seq<u8>) -> bool {
    exists|i: int| 0 <= i < hash.len() && #[trigger] hash[i] == 0
}

/// What `argon2id13::pwhash_verify` answers for a zero-terminated `hash`
/// and `password`: whether the hash, read as an Argon2id verification
/// string, was made from that password. The library never computes it and
/// states nothing of it beyond what the two hashing wrappers below say.
pub uninterp spec fn password_verifies(hash: Seq<u8>, password: Seq<char>) -> bool;

/// Whether a stored hash accepts a password: the bytes are a terminated
/// string and libsodium verifies the password against it.
pub open spec fn accepts(hash: Seq<u8>, password: Seq<char>) -> bool {
    is_terminated(hash) && password_verifies(hash, password)
}

/// Calls `sodiumoxide::init`. Nothing is claimed of the answer: it tells
/// whether libsodium could be initialised in this process.
#[verifier::external_body]
fn sodium_init() -> (ok: bool) {
    sodiumoxide::init().is_ok()
}

/// Calls `argon2id13::pwhash` on the password's bytes with the given limits.
/// The salt is drawn at random, so two calls on one password differ, and
/// libsodium may fail. Claimed of a hash that comes back: it is
/// zero-terminated, as the crate documents of `HashedPassword`, and it is a
/// verification string for that password, as the crate's documentation
/// shows for `pwhash` followed by `pwhash_verify`.
#[verifier::external_body]
fn pwhash(password: &str, ops_limit: usize, mem_limit: usize) -> (hash: Option<[u8; 128]>)
    ensures
        hash matches Some(h) ==> is_terminated(h@) && password_verifies(h@, password@),
{
    let ops = argon2id13::OpsLimit(ops_limit);
    let mem = argon2id13::MemLimit(mem_limit);
    match argon2id13::pwhash(password.as_bytes(), ops, mem) {
        Ok(h) => Some(h.0),
        Err(()) => None,
    }
}

/// Calls `argon2id13::pwhash_verify`, which compares in constant time.
/// libsodium reads the hash as a C string, so the bytes must hold a zero.
/// Claimed: the answer is `password_verifies` of the two arguments, that
/// is, it depends on them alone. This leaves aside a machine that cannot
/// give libsodium the memory that the hash asks for, where the answer is
/// `false`.
#[verifier::external_body]
fn pwhash_verify(hash: &[u8; 128], password: &str) -> (ok: bool)
    requires
        is_terminated(hash@),
    ensures
        ok == password_verifies(hash@, password@),
{
    argon2id13::pwhash_verify(&argon2id13::HashedPassword(*hash), password.as_bytes())
}

/// Tells whether the bytes hold a zero.
pub fn has_terminator(hash: &[u8; 128]) -> (found: bool)
    ensures
        found == is_terminated(hash@),
{
    let mut i: usize = 0;
    while i < 128
        invariant
            i <= 128,
            hash@.len() == 128,
            forall|k: int| 0 <= k < i ==> hash@[k] != 0,
        decreases 128 - i,
    {
        if hash[i] == 0 {
            return true;
        }
        i += 1;
    }
    false
}

/// Hashes a plaintext password with a fresh random salt.
///
/// Returns `None` where libsodium cannot be initialised or cannot complete
/// the computation. A hash that is returned accepts the password it was
/// made from.
pub fn hash_password(password: &str) -> (hash: Option<[u8; 128]>)
    ensures
        hash matches Some(h) ==> accepts(h@, password@),
{
    if !sodium_init() {
        return None;
    }
    pwhash(password, OPS_LIMIT, MEM_LIMIT)
}

/// Tells whether a stored hash accepts a plaintext password. Bytes without
/// a terminating zero are no hash and accept nothing. The comparison is
/// libsodium's, never an equality test on the two strings.
pub fn verify_password(hash: &[u8; 128], password: &str) -> (ok: bool)
    ensures
        ok == accepts(hash@, password@),
{
    if !has_terminator(hash) {
        return false;
    }
    pwhash_verify(hash, password)
}

} // verus!
