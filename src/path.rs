//! Turning a file path into the byte string the engine reads.
use vstd::prelude::*;

use crate::error::Error;

verus! {

/// Whether the bytes hold a zero byte, which would cut the path short.
pub open spec fn has_nul(bytes: Seq<u8>) -> bool {
    exists|i: int| 0 <= i < bytes.len() && bytes[i] == 0u8
}

/// The path followed by its terminating zero byte.
pub open spec fn cstring_of(bytes: Seq<u8>) -> Seq<u8> {
    bytes.push(0u8)
}

/// Encodes a path given as raw bytes, losslessly, as a zero-terminated
/// byte string; a path with a zero byte inside is refused.
pub fn path_to_cstring(path: Vec<u8>) -> (r: Result<Vec<u8>, Error>)
    ensures
        match r {
            Ok(c) => !has_nul(path@) && c@ == cstring_of(path@),
            Err(Error::PathEncoding(p)) => has_nul(path@) && p@ == path@,
            Err(_) => false,
        },
{
    let mut out: Vec<u8> = Vec::new();
    let mut i: usize = 0;
    while i < path.len()
        invariant
            i <= path@.len(),
            out@ == path@.subrange(0, i as int),
            forall|j: int| 0 <= j < i ==> path@[j] != 0u8,
        decreases path@.len() - i,
    {
        if path[i] == 0u8 {
            return Err(Error::PathEncoding(path));
        }
        out.push(path[i]);
        i = i + 1;
    }
    assert(out@ == path@);
    out.push(0u8);
    Ok(out)
}

/// Encodes a path on a platform whose paths are not byte strings: `utf8`
/// holds the path's UTF-8 bytes when it has a UTF-8 form, and `shown` is the
/// path as it is displayed, kept in the error when there is no such form.
pub fn unicode_path_to_cstring(utf8: Option<Vec<u8>>, shown: Vec<u8>) -> (r: Result<
    Vec<u8>,
    Error,
>)
    ensures
        match utf8 {
            None => r == Err::<Vec<u8>, Error>(Error::PathEncoding(shown)),
            Some(b) => match r {
                Ok(c) => !has_nul(b@) && c@ == cstring_of(b@),
                Err(Error::PathEncoding(p)) => has_nul(b@) && p@ == b@,
                Err(_) => false,
            },
        },
{
    match utf8 {
        None => Err(Error::PathEncoding(shown)),
        Some(b) => path_to_cstring(b),
    }
}

} // verus!
