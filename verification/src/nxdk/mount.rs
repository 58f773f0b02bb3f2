use vstd::prelude::*;
use crate::winapi::WindowsPath;

verus! {

/// The byte value of the path separator.
pub const PATH_SEPARATOR: u8 = 0x5C;

/// Cuts a native NUL-terminated path buffer down to its directory: the
/// last path separator anywhere in the buffer is overwritten with a NUL
/// terminator, so the buffer then names the directory that held the
/// final component. A buffer without a separator is left as it is.
///
/// This prepares the running image's own path for mounting its
/// directory under a drive letter.
pub fn terminate_at_last_separator(path: &mut WindowsPath)
    ensures
        final(path)@.len() == old(path)@.len(),
        match old(path)@.index_of_last(PATH_SEPARATOR) {
            Some(i) => final(path)@ == old(path)@.update(i, 0u8),
            None => final(path)@ == old(path)@,
        },
{
    proof {
        old(path)@.index_of_last_ensures(PATH_SEPARATOR);
    }
    let mut j: usize = path.len();
    while j > 0
        invariant
            j <= path@.len(),
            path@ == old(path)@,
            forall|k: int| j <= k < path@.len() ==> path@[k] != PATH_SEPARATOR,
        decreases j,
    {
        j -= 1;
        if path[j] == PATH_SEPARATOR {
            path.set(j, 0);
            proof {
                let found = old(path)@.index_of_last(PATH_SEPARATOR);
                assert(old(path)@.contains(PATH_SEPARATOR));
                assert(found matches Some(i) && i == j) by {
                    old(path)@.index_of_last_ensures(PATH_SEPARATOR);
                }
            }
            return ;
        }
    }
    proof {
        assert(!old(path)@.contains(PATH_SEPARATOR));
    }
}

} // verus!
