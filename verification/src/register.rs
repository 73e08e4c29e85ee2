//! The registration entrypoint's decision logic.
//!
//! The host invokes a single exported function; that shell locates the
//! currently active default backing VFS, builds the shim descriptor
//! around it, registers the result as non-default, and answers with a
//! status code. The status it must answer with is decided here.

use vstd::prelude::*;

use crate::descriptor::VfsDescriptor;

verus! {

/// The status the registration entrypoint reports to the host: the
/// construction error when descriptor-building failed, otherwise the
/// result code of the registration itself, unchanged.
pub fn registration_status(built: &Result<VfsDescriptor, i32>, register_code: i32) -> (r: i32)
    ensures
        built is Ok ==> r == register_code,
        built matches Err(e) ==> r == e,
{
    match built {
        Ok(_) => register_code,
        Err(e) => *e,
    }
}

} // verus!
