//! Texts as the native driver takes them.

use crate::error::CassError;
use vstd::prelude::*;
use vstd::string::StrSliceExecFns;
use vstd::string::StringSliceAdditionalSpecFns;

verus! {

/// True where `bytes` holds a zero byte. Such a text has no terminated form:
/// the driver would read it only up to that byte.
pub open spec fn has_nul(bytes: Seq<u8>) -> bool {
    exists|i: int| 0 <= i < bytes.len() && bytes[i] == 0u8
}

/// The terminated form of `bytes`: the bytes, then one zero byte.
pub open spec fn terminated(bytes: Seq<u8>) -> Seq<u8> {
    bytes.push(0u8)
}

/// The terminated form of `text`, or `CassError::Encoding` where `text`
/// holds a zero byte.
pub fn c_string(text: &str) -> (result: Result<Vec<u8>, CassError>)
    ensures
        has_nul(text.spec_bytes()) ==> result == Err::<Vec<u8>, CassError>(CassError::Encoding),
        !has_nul(text.spec_bytes()) ==> result is Ok && result->Ok_0@ == terminated(
            text.spec_bytes(),
        ),
{
    let mut bytes = text.as_bytes_vec();
    let mut i: usize = 0;
    while i < bytes.len()
        invariant
            i <= bytes.len(),
            bytes@ == text.spec_bytes(),
            forall|j: int| 0 <= j < i ==> bytes@[j] != 0u8,
        decreases bytes.len() - i,
    {
        if bytes[i] == 0u8 {
            return Err(CassError::Encoding);
        }
        i = i + 1;
    }
    bytes.push(0u8);
    Ok(bytes)
}

} // verus!
