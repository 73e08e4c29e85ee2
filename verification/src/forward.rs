//! The passthrough forwarder: for every capability other than open and the
//! per-file read/write pair, decide how a call on the shim is carried to
//! the backing VFS.
//!
//! When the backing VFS implements the capability, the call is forwarded
//! to the backing entry point with the same arguments, the backing handle
//! substituted for the shim's. When it does not, a capability with a
//! result code answers with the generic error, and one without a result
//! code (or whose result is an optional value, as with dynamic-symbol
//! lookup) does nothing and yields nothing — a null entry point is never
//! dereferenced.

use vstd::prelude::*;

use crate::descriptor::{Capability, VfsDescriptor};
use crate::status::GENERIC_ERROR;

verus! {

/// Whether a capability answers the host with a result code. Those that do
/// fall back to the generic error when the backing VFS lacks them; the
/// dynamic-library operations instead perform no action or yield no value.
pub open spec fn has_result_code(cap: Capability) -> bool {
    match cap {
        Capability::DlOpen => false,
        Capability::DlError => false,
        Capability::DlSym => false,
        Capability::DlClose => false,
        _ => true,
    }
}

/// How a forwarded call is to be carried out: invoke a backing entry
/// point, answer a status code without calling anything, or do nothing
/// and yield nothing.
#[derive(Clone, Copy, PartialEq, Eq, Structural, Debug)]
pub enum ForwardAction {
    Invoke(u64),
    Answer(i32),
    NoAction,
}

/// Decide the forwarding of one capability call against the backing
/// descriptor: invoke the backing's own entry point when it exists,
/// otherwise fall back as the capability's result convention demands.
pub fn forward_action(backing: &VfsDescriptor, cap: Capability) -> (r: ForwardAction)
    ensures
        backing.entry(cap) is Some ==> r == ForwardAction::Invoke(backing.entry(cap)->0),
        backing.entry(cap) is None && has_result_code(cap) ==> r == ForwardAction::Answer(
            GENERIC_ERROR,
        ),
        backing.entry(cap) is None && !has_result_code(cap) ==> r == ForwardAction::NoAction,
{
    match backing.table.lookup(cap) {
        Some(entry) => ForwardAction::Invoke(entry),
        None => match cap {
            Capability::DlOpen => ForwardAction::NoAction,
            Capability::DlError => ForwardAction::NoAction,
            Capability::DlSym => ForwardAction::NoAction,
            Capability::DlClose => ForwardAction::NoAction,
            _ => ForwardAction::Answer(GENERIC_ERROR),
        },
    }
}

} // verus!
