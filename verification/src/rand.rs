//! The secure random source.

use ring::error::Unspecified;
use ring::rand::SecureRandom;
use ring::rand::SystemRandom;
use vstd::prelude::*;

verus! {

/// The random source could not supply the bytes that were asked of it.
#[derive(Debug)]
pub struct GetRandomFailed;

/// The error value of the outside crate; it carries no information.
#[verifier::external_type_specification]
#[verifier::external_body]
pub struct ExUnspecified(Unspecified);

/// `SystemRandom::new` followed by `SecureRandom::fill` on `dest`.
///
/// The bytes come from the operating system, so nothing is said of them: the
/// only claim is that the buffer keeps its length.
#[verifier::external_body]
fn system_fill(dest: &mut [u8]) -> (r: Result<(), Unspecified>)
    ensures
        final(dest)@.len() == old(dest)@.len(),
{
    SystemRandom::new().fill(dest)
}

/// Fills `dest` with random bytes, or reports that the source failed.
///
/// On failure the content of `dest` must not be used.
pub fn fill_random(dest: &mut [u8]) -> (r: Result<(), GetRandomFailed>)
    ensures
        final(dest)@.len() == old(dest)@.len(),
{
    match system_fill(dest) {
        Ok(()) => Ok(()),
        Err(_) => Err(GetRandomFailed),
    }
}

} // verus!
