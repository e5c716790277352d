//! Random bytes for names and tokens that must not be guessed.
use vstd::prelude::*;

verus! {

/// `getrandom::fill`: fills a buffer of `n` bytes from the operating
/// system's generator, or fails with the error's text. The contract claims
/// nothing of the bytes but their number, and nothing of when it fails.
#[verifier::external_body]
pub(crate) fn os_random_bytes(n: usize) -> (r: Result<Vec<u8>, String>)
    ensures
        r matches Ok(v) ==> v@.len() == n,
{
    let mut bytes = vec![0u8; n];
    match getrandom::fill(&mut bytes[..]) {
        Ok(()) => Ok(bytes),
        Err(e) => Err(e.to_string()),
    }
}

} // verus!
