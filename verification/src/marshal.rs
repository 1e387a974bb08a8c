//! Byte-level marshalling of user strings for the boundary.
//!
//! Strings cross the boundary as C-style byte buffers. A string can be
//! encoded only when none of its bytes is the terminator byte `0`; the
//! encoded form is the string's bytes followed by one terminator byte.

use vstd::prelude::*;

verus! {

use vstd::string::StringSliceAdditionalSpecFns;

use crate::ConstructionError;

/// No byte of `bytes` is the terminator byte.
pub open spec fn nul_free(bytes: Seq<u8>) -> bool {
    forall|i: int| 0 <= i < bytes.len() ==> bytes[i] != 0
}

/// The bytes a string of these characters crosses the boundary as.
pub open spec fn bytes_of(s: Seq<char>) -> Seq<u8> {
    vstd::utf8::encode_utf8(s)
}

/// Position of the first terminator byte in `bytes`, if any.
pub fn find_nul(bytes: &[u8]) -> (r: Option<usize>)
    ensures
        match r {
            Some(i) => i < bytes@.len() && bytes@[i as int] == 0 && nul_free(
                bytes@.subrange(0, i as int),
            ),
            None => nul_free(bytes@),
        },
{
    let n = bytes.len();
    let mut i: usize = 0;
    while i < n
        invariant
            i <= n,
            n == bytes@.len(),
            nul_free(bytes@.subrange(0, i as int)),
        decreases n - i,
    {
        if bytes[i] == 0 {
            return Some(i);
        }
        assert(bytes@.subrange(0, i + 1 as int) =~= bytes@.subrange(0, i as int).push(
            bytes@[i as int],
        ));
        i = i + 1;
    }
    assert(bytes@.subrange(0, n as int) =~= bytes@);
    None
}

/// Whether `s` can cross the boundary: none of its bytes is a terminator.
pub fn check_nul_free(s: &str) -> (ok: bool)
    ensures
        ok <==> nul_free(bytes_of(s@)),
{
    find_nul(s.as_bytes()).is_none()
}

/// C-style encoding of `s`: its bytes followed by one terminator byte.
/// Fails, before anything is handed to the boundary, iff `s` itself holds a
/// terminator byte.
pub fn cstr_bytes(s: &str) -> (r: Result<Vec<u8>, ConstructionError>)
    ensures
        match r {
            Ok(z) => nul_free(bytes_of(s@)) && z@ == bytes_of(s@).push(0u8),
            Err(_) => !nul_free(bytes_of(s@)),
        },
{
    let bytes = s.as_bytes();
    if find_nul(bytes).is_some() {
        return Err(ConstructionError);
    }
    let mut z: Vec<u8> = Vec::new();
    let n = bytes.len();
    let mut i: usize = 0;
    while i < n
        invariant
            i <= n,
            n == bytes@.len(),
            z@ == bytes@.subrange(0, i as int),
        decreases n - i,
    {
        z.push(bytes[i]);
        assert(bytes@.subrange(0, i + 1 as int) =~= bytes@.subrange(0, i as int).push(
            bytes@[i as int],
        ));
        i = i + 1;
    }
    assert(bytes@.subrange(0, n as int) =~= bytes@);
    z.push(0u8);
    Ok(z)
}

} // verus!
