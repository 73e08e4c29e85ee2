//! The capability table builder: constructs the shim's VFS descriptor from
//! a backing descriptor.
//!
//! Every passthrough field is copied verbatim from the backing descriptor;
//! only the open entry is replaced with the shim's interceptor, and the
//! declared file-handle size is enlarged by the extension record so the
//! host allocates enough room before open is ever called. The shim
//! advertises descriptor version 1 and carries no extended entry points it
//! cannot honor.

use vstd::prelude::*;

use crate::descriptor::{Capability, VfsDescriptor};
use crate::file::EXTENSION_RECORD_SIZE;
use crate::status::GENERIC_ERROR;

verus! {

/// The name the shim descriptor is registered under; distinct and stable,
/// chosen not to collide with the standard backends' names.
pub open spec fn shim_vfs_name() -> Seq<char> {
    "maidenhair"@
}

/// What the builder promises of its result: version 1, the enlarged
/// declared handle size, the shim's own name and open entry, every
/// passthrough field copied verbatim from the backing descriptor, and no
/// extended entry points the shim cannot honor.
pub open spec fn is_shim_descriptor(
    d: VfsDescriptor,
    backing: VfsDescriptor,
    open_entry: u64,
) -> bool {
    &&& d.version == 1
    &&& d.os_file_size == backing.os_file_size + EXTENSION_RECORD_SIZE
    &&& d.max_pathname == backing.max_pathname
    &&& d.name@ == shim_vfs_name()
    &&& d.open_entry == Some(open_entry)
    &&& d.table == backing.table
    &&& d.current_time_int64 is None
    &&& d.set_system_call is None
    &&& d.get_system_call is None
    &&& d.next_system_call is None
}

/// The value stored in the shim descriptor's opaque application-data
/// slot: it owns the forwarding relation to the backing descriptor.
/// Exactly one exists per registered shim; it is created during
/// registration and lives, read-only, for the rest of the process.
pub struct ShimContext {
    pub backing: VfsDescriptor,
}

/// Build the shim descriptor around `backing`, with `open_entry` as the
/// shim's open interceptor entry point, together with the shim context
/// that from then on owns the backing descriptor.
///
/// A null backing descriptor is rejected with the generic error before any
/// other work is done; otherwise the build cannot fail.
pub fn build_shim_descriptor(backing: Option<VfsDescriptor>, open_entry: u64) -> (r: Result<
    (VfsDescriptor, ShimContext),
    i32,
>)
    requires
        backing matches Some(b) ==> b.os_file_size + EXTENSION_RECORD_SIZE <= i32::MAX,
    ensures
        backing is None <==> r is Err,
        r matches Err(e) ==> e == GENERIC_ERROR,
        backing matches Some(b) ==> r matches Ok(p) && is_shim_descriptor(p.0, b, open_entry)
            && p.1.backing == b,
{
    match backing {
        None => Err(GENERIC_ERROR),
        Some(b) => {
            let name: String = String::from_str("maidenhair");
            let descriptor = VfsDescriptor {
                version: 1,
                os_file_size: b.os_file_size + EXTENSION_RECORD_SIZE,
                max_pathname: b.max_pathname,
                name,
                open_entry: Some(open_entry),
                table: b.table,
                current_time_int64: None,
                set_system_call: None,
                get_system_call: None,
                next_system_call: None,
            };
            Ok((descriptor, ShimContext { backing: b }))
        },
    }
}

/// Law: the shim descriptor's declared file-handle size always equals the
/// backing descriptor's declared size plus the extension record size, for
/// any backing descriptor, so the host's allocation is guaranteed large
/// enough for the extension record before open is ever called; and a
/// well-formed backing yields a well-formed shim descriptor.
pub proof fn lemma_layout_invariant(d: VfsDescriptor, backing: VfsDescriptor, open_entry: u64)
    requires
        is_shim_descriptor(d, backing, open_entry),
        backing.wf(),
    ensures
        d.os_file_size == backing.os_file_size + EXTENSION_RECORD_SIZE,
        d.wf(),
{
}

/// Law: for every capability other than open, the shim descriptor holds
/// exactly the backing descriptor's own entry point, so a host call on
/// such a capability lands in the backing implementation itself, with the
/// same arguments — the same result and the same observable side effects
/// as calling the backing VFS directly.
pub proof fn lemma_non_interference(
    d: VfsDescriptor,
    backing: VfsDescriptor,
    open_entry: u64,
    cap: Capability,
)
    requires
        is_shim_descriptor(d, backing, open_entry),
    ensures
        d.entry(cap) == backing.entry(cap),
{
}

} // verus!
