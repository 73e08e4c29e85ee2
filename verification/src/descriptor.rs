//! The model of a VFS descriptor: the record a storage backend hands the
//! host engine to describe its capability set.
//!
//! Function entry points are opaque to this library; each is modelled as a
//! token (`u64`) that the surrounding shell maps to a real address. An
//! absent optional capability is `None`. The descriptor is immutable after
//! construction.

use vstd::prelude::*;

verus! {

/// The passthrough capabilities: everything the host may call on a VFS
/// descriptor other than open (which the shim intercepts) and the per-file
/// read/write pair (which lives in the file's own method table).
#[derive(Clone, Copy, PartialEq, Eq, Structural, Debug)]
pub enum Capability {
    Delete,
    Access,
    FullPathname,
    DlOpen,
    DlError,
    DlSym,
    DlClose,
    Randomness,
    Sleep,
    CurrentTime,
    LastError,
}

/// The optional entry points of a descriptor's capability table, one slot
/// per passthrough capability.
#[derive(Clone, Copy, PartialEq, Eq, Structural, Debug)]
pub struct CapTable {
    pub delete: Option<u64>,
    pub access: Option<u64>,
    pub full_pathname: Option<u64>,
    pub dl_open: Option<u64>,
    pub dl_error: Option<u64>,
    pub dl_sym: Option<u64>,
    pub dl_close: Option<u64>,
    pub randomness: Option<u64>,
    pub sleep: Option<u64>,
    pub current_time: Option<u64>,
    pub last_error: Option<u64>,
}

impl CapTable {
    /// The entry point registered for a capability, if any.
    pub open spec fn entry(self, cap: Capability) -> Option<u64> {
        match cap {
            Capability::Delete => self.delete,
            Capability::Access => self.access,
            Capability::FullPathname => self.full_pathname,
            Capability::DlOpen => self.dl_open,
            Capability::DlError => self.dl_error,
            Capability::DlSym => self.dl_sym,
            Capability::DlClose => self.dl_close,
            Capability::Randomness => self.randomness,
            Capability::Sleep => self.sleep,
            Capability::CurrentTime => self.current_time,
            Capability::LastError => self.last_error,
        }
    }

    /// Look an entry up at run time; agrees with `entry`.
    pub fn lookup(&self, cap: Capability) -> (r: Option<u64>)
        ensures
            r == self.entry(cap),
    {
        match cap {
            Capability::Delete => self.delete,
            Capability::Access => self.access,
            Capability::FullPathname => self.full_pathname,
            Capability::DlOpen => self.dl_open,
            Capability::DlError => self.dl_error,
            Capability::DlSym => self.dl_sym,
            Capability::DlClose => self.dl_close,
            Capability::Randomness => self.randomness,
            Capability::Sleep => self.sleep,
            Capability::CurrentTime => self.current_time,
            Capability::LastError => self.last_error,
        }
    }
}

/// A VFS descriptor: version, declared sizes, name, the intercepted open
/// entry, the passthrough capability table, and the extended entry points
/// that only later descriptor versions may carry.
pub struct VfsDescriptor {
    /// The descriptor version the backend advertises.
    pub version: i32,
    /// The size in bytes of the per-file handle the host must allocate for
    /// every file opened through this descriptor.
    pub os_file_size: i32,
    /// The longest pathname the backend accepts.
    pub max_pathname: i32,
    /// The name the descriptor is registered under.
    pub name: String,
    /// The open entry point; intercepted by the shim.
    pub open_entry: Option<u64>,
    /// The passthrough capability table.
    pub table: CapTable,
    /// High-resolution clock entry, meaningful from version 2 on.
    pub current_time_int64: Option<u64>,
    /// System-call override entries, meaningful from version 3 on.
    pub set_system_call: Option<u64>,
    pub get_system_call: Option<u64>,
    pub next_system_call: Option<u64>,
}

impl VfsDescriptor {
    /// The entry point registered for a passthrough capability, if any.
    pub open spec fn entry(self, cap: Capability) -> Option<u64> {
        self.table.entry(cap)
    }

    /// A descriptor is well formed when its declared sizes are sensible:
    /// the host allocates buffers from them.
    pub open spec fn wf(self) -> bool {
        &&& 0 <= self.os_file_size
        &&& 0 <= self.max_pathname
    }
}

} // verus!
