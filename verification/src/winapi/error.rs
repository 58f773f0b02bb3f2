use vstd::prelude::*;

verus! {

/// An OS error code as returned by the native last-error query.
#[derive(Clone, Copy, Debug, Eq, Hash, Ord, PartialEq, PartialOrd, Structural)]
pub struct WinError(u32);

impl WinError {
    pub fn new(code: u32) -> (e: Self)
        ensures
            e.code() == code,
    {
        Self(code)
    }

    /// The raw error code this value wraps.
    pub closed spec fn code(&self) -> u32 {
        self.0
    }

    pub fn into_inner(self) -> (code: u32)
        ensures
            code == self.code(),
    {
        self.0
    }
}

/// A structured status code returned by privileged query operations,
/// distinct from the generic last-error family.
#[derive(Clone, Copy, Debug, Eq, Hash, Ord, PartialEq, PartialOrd, Structural)]
pub struct NtStatusError(i32);

impl NtStatusError {
    pub fn new(code: i32) -> (e: Self)
        ensures
            e.code() == code,
    {
        Self(code)
    }

    /// The raw status code this value wraps.
    pub closed spec fn code(&self) -> i32 {
        self.0
    }

    pub fn into_inner(self) -> (code: i32)
        ensures
            code == self.code(),
    {
        self.0
    }
}

/// An error that is either a generic OS error code or a structured
/// status code, as composite operations may surface either family.
#[derive(Clone, Copy, Debug, Eq, Hash, Ord, PartialEq, PartialOrd, Structural)]
pub enum WinMixedError {
    NtStatus(NtStatusError),
    WinError(WinError),
}

} // verus!
