use vstd::prelude::*;
use vstd::string::StringSliceAdditionalSpecFns;

pub mod error;

use crate::utils::error::PlatformError;
use crate::winapi::WINDOWS_PATH_LEN;
use crate::winapi::WindowsPath;

verus! {

/// Converts a path string to a NUL-terminated byte buffer of fixed size:
/// the path's bytes, then zeros. Paths longer than 259 bytes do not fit
/// together with their terminator and are rejected.
pub fn path_str_to_cstr(path_str: &str) -> (r: Result<WindowsPath, PlatformError>)
    requires
        path_str.spec_bytes().len() >= 1,
    ensures
        path_str.spec_bytes().len() > 259 <==> r == Err::<WindowsPath, PlatformError>(
            PlatformError::PathTooLong,
        ),
        r matches Ok(buf) ==> {
            &&& buf@.len() == WINDOWS_PATH_LEN
            &&& forall|i: int|
                0 <= i < path_str.spec_bytes().len() ==> buf@[i] == path_str.spec_bytes()[i]
            &&& forall|i: int| path_str.spec_bytes().len() <= i < WINDOWS_PATH_LEN ==> buf@[i] == 0
        },
{
    let path_bytes = path_str.as_bytes();
    if path_bytes.len() > 259 {
        return Err(PlatformError::PathTooLong);
    }

    let mut path_buffer: Vec<u8> = Vec::new();
    path_buffer.resize(WINDOWS_PATH_LEN, 0u8);

    let mut i: usize = 0;
    while i < path_bytes.len()
        invariant
            i <= path_bytes.len(),
            path_bytes.len() <= 259,
            path_bytes@ == path_str.spec_bytes(),
            path_buffer@.len() == WINDOWS_PATH_LEN,
            forall|j: int| 0 <= j < i ==> path_buffer@[j] == path_bytes@[j],
            forall|j: int| i <= j < WINDOWS_PATH_LEN ==> path_buffer@[j] == 0,
        decreases path_bytes.len() - i,
    {
        path_buffer.set(i, path_bytes[i]);
        i += 1;
    }

    if path_buffer[path_bytes.len() - 1] != 0 {
        path_buffer.set(path_bytes.len(), 0);
    }

    Ok(path_buffer)
}

} // verus!
