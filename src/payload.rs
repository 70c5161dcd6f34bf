//! Decompression of the embedded payload.

use std::io::Read;
use vstd::prelude::*;

verus! {

#[verifier::external_type_specification]
#[verifier::external_body]
pub struct ExIoError(std::io::Error);

/// What a gzip decoder yields for `data`: the bytes of its first member, or
/// `None` where `data` is not a well-formed, complete gzip member.
pub uninterp spec fn gunzip_of(data: Seq<u8>) -> Option<Seq<u8>>;

/// Relies on `flate2::read::GzDecoder` read to its end: it either yields the
/// decompressed bytes of the member or fails, and which of the two depends on
/// the input bytes alone (the header is parsed, the body inflated and the
/// trailing CRC-32 and length compared).
#[verifier::external_body]
fn gunzip(data: &[u8]) -> (r: Result<Vec<u8>, std::io::Error>)
    ensures
        r is Ok <==> gunzip_of(data@) is Some,
        r is Ok ==> r->Ok_0@ == gunzip_of(data@)->Some_0,
{
    let mut out = Vec::new();
    match flate2::read::GzDecoder::new(data).read_to_end(&mut out) {
        Ok(_) => Ok(out),
        Err(e) => Err(e),
    }
}

/// Why sealing could not produce a runnable file.
#[derive(Debug, Clone, Copy, PartialEq, Eq, Structural)]
pub enum SealError {
    /// A filesystem step failed: the step is named.
    Setup(SetupStep),
    /// The embedded payload is not valid, complete gzip data.
    Decompression,
}

/// The filesystem steps of sealing, in the order they are taken.
#[derive(Debug, Clone, Copy, PartialEq, Eq, Structural)]
pub enum SetupStep {
    CreateDir,
    CreateFile,
    SetPermissions,
    WriteFile,
}

/// The decompressed payload, or the error that a decoder failure maps to.
pub open spec fn unpacked(payload: Seq<u8>) -> Result<Seq<u8>, SealError> {
    match gunzip_of(payload) {
        Some(bytes) => Ok(bytes),
        None => Err(SealError::Decompression),
    }
}

/// Decompresses the embedded payload. Corrupted or truncated data is
/// reported as a decompression error, never as a shorter result.
pub fn unpack(payload: &[u8]) -> (r: Result<Vec<u8>, SealError>)
    ensures
        r is Ok <==> unpacked(payload@) is Ok,
        r is Ok ==> r->Ok_0@ == unpacked(payload@)->Ok_0,
        r is Err ==> r == Err::<Vec<u8>, SealError>(SealError::Decompression),
{
    match gunzip(payload) {
        Ok(bytes) => Ok(bytes),
        Err(_) => Err(SealError::Decompression),
    }
}

} // verus!
