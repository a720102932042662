//! The target platforms a generation pass can emit FFI shims for.

use vstd::prelude::*;

verus! {

/// One of the two mobile platform ABIs the generator targets.
#[derive(Debug, Clone, Copy, PartialEq, Eq, Structural)]
pub enum Platform {
    Android,
    Ios,
}

} // verus!
