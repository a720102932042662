//! The clean command's decision surface. The command currently has no
//! durable state to remove beyond the scratch directory, whose walking
//! stays outside the library.

use vstd::prelude::*;

use crate::errors::CodegenError;

verus! {

/// Options of the clean command.
pub struct CleanOptions {
    pub project_root: String,
}

/// Perform the clean pass. There is nothing to compute for it today; it
/// always succeeds.
pub fn perform(_options: CleanOptions) -> (r: Result<(), CodegenError>)
    ensures
        r is Ok,
{
    Ok(())
}

} // verus!
