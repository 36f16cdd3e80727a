//! Scatter-gather arrays: the caller-visible description of byte buffers.
use vstd::prelude::*;

use crate::fail::{Fail, EINVAL};
use crate::types::SockaddrIn;

verus! {

/// A scatter-gather array: byte segments and, for received data, the
/// sender's address.
#[derive(Debug)]
pub struct SgArray {
    pub segments: Vec<Vec<u8>>,
    pub addr: Option<SockaddrIn>,
}

/// Allocates a scatter-gather array of one zero-filled segment.
pub fn sgaalloc(size: usize) -> (r: Result<SgArray, Fail>)
    ensures
        r matches Ok(sga) && sga.segments@.len() == 1 && sga.segments@[0]@ == Seq::new(
            size as nat,
            |i: int| 0u8,
        ) && sga.addr is None,
{
    let seg: Vec<u8> = vec![0u8; size];
    let mut segments: Vec<Vec<u8>> = Vec::new();
    segments.push(seg);
    Ok(SgArray { segments, addr: None })
}

/// Releases a scatter-gather array; one that does not hold exactly one
/// segment is malformed.
pub fn sgafree(sga: SgArray) -> (r: Result<(), Fail>)
    ensures
        sga.segments@.len() == 1 <==> r is Ok,
        r matches Err(e) ==> e.errno == EINVAL,
{
    if sga.segments.len() != 1 {
        return Err(Fail::new(EINVAL, "invalid segment count"));
    }
    Ok(())
}

/// Copies the bytes that a scatter-gather array describes; one that does not
/// hold exactly one segment is malformed.
pub fn clone_sgarray(sga: &SgArray) -> (r: Result<Vec<u8>, Fail>)
    ensures
        match r {
            Ok(buf) => sga.segments@.len() == 1 && buf@ == sga.segments@[0]@,
            Err(e) => sga.segments@.len() != 1 && e.errno == EINVAL,
        },
{
    if sga.segments.len() != 1 {
        return Err(Fail::new(EINVAL, "invalid segment count"));
    }
    Ok(sga.segments[0].clone())
}

/// Wraps received bytes, and the sender's address if known, as a
/// scatter-gather array.
pub fn into_sgarray(bytes: Vec<u8>, addr: Option<SockaddrIn>) -> (r: SgArray)
    ensures
        r.segments@.len() == 1,
        r.segments@[0]@ == bytes@,
        r.addr == addr,
{
    let mut segments: Vec<Vec<u8>> = Vec::new();
    segments.push(bytes);
    SgArray { segments, addr }
}

} // verus!
