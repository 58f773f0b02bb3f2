use vstd::prelude::*;

verus! {

/// Errors reported by the network bring-up layer.
#[derive(Clone, Copy, Debug, Eq, PartialEq, Structural)]
pub enum NxNetError {
    InitError,
    DhcpError,
    UnknownError,
}

/// Meaning of a native network bring-up status code.
pub open spec fn nx_net_error_of_code(code: int) -> NxNetError {
    if code == -1 {
        NxNetError::InitError
    } else if code == -2 {
        NxNetError::DhcpError
    } else {
        NxNetError::UnknownError
    }
}

impl NxNetError {
    /// Maps a native status code to its error; any code outside the
    /// known range is the unknown error.
    pub fn from_code(code: i32) -> (e: Self)
        ensures
            e == nx_net_error_of_code(code as int),
    {
        if code == -1 {
            NxNetError::InitError
        } else if code == -2 {
            NxNetError::DhcpError
        } else {
            NxNetError::UnknownError
        }
    }
}

} // verus!
