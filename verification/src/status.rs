//! Status codes exchanged with the host engine.
//!
//! The host treats `0` as success; any non-zero value is an error. The shim
//! itself only ever produces the generic error code; every other non-zero
//! value it returns comes verbatim from the backing VFS.

use vstd::prelude::*;

verus! {

/// The host engine's success code.
pub const STATUS_OK: i32 = 0;

/// The host engine's generic error code, produced by the shim when a
/// required argument is null or a required capability is missing.
pub const GENERIC_ERROR: i32 = 1;

/// A status code signals success exactly when it is zero.
pub open spec fn is_success(status: i32) -> bool {
    status == STATUS_OK
}

} // verus!
