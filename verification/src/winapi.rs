use vstd::prelude::*;

pub mod error;
pub mod file;
pub mod handle;

verus! {

/// A fixed-size, NUL-terminated path buffer handed to the native open
/// call. Always exactly 260 bytes long.
pub type WindowsPath = Vec<u8>;

/// The length of a `WindowsPath` buffer.
pub const WINDOWS_PATH_LEN: usize = 260;

} // verus!
