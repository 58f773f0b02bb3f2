use vstd::prelude::*;
use crate::winapi::error::WinError;

verus! {

/// Error code reported for an operation on a released handle.
pub const ERROR_INVALID_HANDLE: u32 = 6;

/// A single-owner wrapper around a native handle, modeled as an integer
/// token. The handle slot's "present vs. absent" state is the open flag:
/// taking the handle marks the wrapper permanently closed, so a handle
/// can be released at most once.
#[derive(Debug)]
pub struct GenericWinHandle {
    handle: Option<u64>,
}

impl GenericWinHandle {
    /// True while this wrapper still owns its native handle.
    pub closed spec fn is_open(&self) -> bool {
        self.handle is Some
    }

    /// The native handle token, meaningful only while open.
    pub closed spec fn spec_handle(&self) -> u64 {
        self.handle->0
    }

    pub fn new(handle: u64) -> (h: Self)
        ensures
            h.is_open(),
            h.spec_handle() == handle,
    {
        Self { handle: Some(handle) }
    }

    /// Returns the wrapped handle, or the "invalid handle" error once
    /// the handle has been taken.
    pub fn get_inner(&self) -> (r: Result<u64, WinError>)
        ensures
            self.is_open() ==> r == Ok::<u64, WinError>(self.spec_handle()),
            !self.is_open() ==> (r matches Err(e) && e.code() == ERROR_INVALID_HANDLE),
    {
        match self.handle {
            Some(h) => Ok(h),
            None => Err(WinError::new(ERROR_INVALID_HANDLE)),
        }
    }

    pub fn is_closed(&self) -> (closed: bool)
        ensures
            closed == !self.is_open(),
    {
        !self.handle.is_some()
    }

    /// Takes the handle out for release. The first call on an open wrapper
    /// returns the handle, which the owner must release natively; every
    /// later call returns nothing and changes nothing, so the native
    /// handle can never be released twice through this wrapper.
    pub fn close(&mut self) -> (taken: Option<u64>)
        ensures
            !final(self).is_open(),
            old(self).is_open() ==> taken == Some(old(self).spec_handle()),
            !old(self).is_open() ==> taken is None,
    {
        self.handle.take()
    }
}

} // verus!
