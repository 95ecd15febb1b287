//! Native status codes as results.

use vstd::prelude::*;

verus! {

/// The status with which the native driver reports success.
pub const CASS_OK: u32 = 0;

/// Why an operation failed.
#[derive(Debug, Clone, Copy, PartialEq, Eq, Structural)]
pub enum CassError {
    /// The status that the native driver reported, kept as it came.
    Native(u32),
    /// A text holds a zero byte and cannot be handed to the driver as a
    /// terminated string.
    Encoding,
}

impl CassError {
    /// True of the one value that stands for success.
    pub open spec fn is_ok(self) -> bool {
        self == CassError::Native(CASS_OK)
    }

    /// Classifies a native status code.
    pub fn build(code: u32) -> (error: CassError)
        ensures
            error == CassError::Native(code),
            error.is_ok() <==> code == CASS_OK,
    {
        CassError::Native(code)
    }

    /// Hands `wrappee` on where `self` stands for success, and fails with
    /// `self` where it does not.
    pub fn wrap<T>(self, wrappee: T) -> (result: Result<T, CassError>)
        ensures
            self.is_ok() ==> result == Ok::<T, CassError>(wrappee),
            !self.is_ok() ==> result == Err::<T, CassError>(self),
    {
        match self {
            CassError::Native(code) => {
                if code == CASS_OK {
                    Ok(wrappee)
                } else {
                    Err(self)
                }
            },
            CassError::Encoding => Err(self),
        }
    }
}

} // verus!
