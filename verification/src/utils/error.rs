use vstd::prelude::*;

verus! {

/// Platform-level errors raised by the path utilities.
#[derive(Clone, Copy, Debug, Eq, PartialEq, Structural)]
pub enum PlatformError {
    PathTooLong,
}

} // verus!
