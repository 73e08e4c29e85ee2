//! The extended file handle: its layout, its method table, and the open
//! interceptor that installs the transform-wrapped read/write entries.
//!
//! The host allocates one buffer per open file, sized by the descriptor's
//! declared handle size. Its prefix is laid out exactly as the backing
//! VFS's native file record; the shim's extension record sits immediately
//! after it and holds the original read/write entry points captured at
//! open time.

use vstd::prelude::*;

use crate::status::{is_success, GENERIC_ERROR, STATUS_OK};

verus! {

/// The size in bytes of the extension record appended after the backing
/// file record: two eight-byte entry points.
pub const EXTENSION_RECORD_SIZE: i32 = 16;

/// The byte offset of the extension record inside the host's allocation:
/// always exactly the size of the backing file record, so the backing
/// VFS's own operations observe the layout they expect.
pub open spec fn extension_offset(backing_file_size: int) -> int {
    backing_file_size
}

/// The handle size the shim descriptor declares for a given backing file
/// record size; the host allocates this much before open is ever called.
pub open spec fn declared_file_size(backing_file_size: int) -> int {
    backing_file_size + EXTENSION_RECORD_SIZE
}

/// The extension record always lies entirely within the host's allocation:
/// the declared handle size leaves exactly enough room after the
/// foreign-owned prefix, so no post-open resize is ever needed.
pub proof fn lemma_extension_fits(backing_file_size: int)
    requires
        0 <= backing_file_size,
    ensures
        extension_offset(backing_file_size) + EXTENSION_RECORD_SIZE
            == declared_file_size(backing_file_size),
        0 <= extension_offset(backing_file_size),
{
}

/// The per-file method table the backing VFS installs on open. Only the
/// read and write slots are ever touched by the shim; every other slot
/// stays exactly as the backing VFS set it.
#[derive(Clone, Copy, PartialEq, Eq, Structural, Debug)]
pub struct FileMethods {
    pub read: Option<u64>,
    pub write: Option<u64>,
    pub close: Option<u64>,
    pub sync: Option<u64>,
    pub truncate: Option<u64>,
    pub file_size: Option<u64>,
    pub lock: Option<u64>,
    pub unlock: Option<u64>,
    pub check_reserved_lock: Option<u64>,
    pub file_control: Option<u64>,
    pub sector_size: Option<u64>,
    pub device_characteristics: Option<u64>,
}

/// The shim-owned extension record: the backing file's original read and
/// write entry points, captured at open time so the transform wrappers can
/// delegate to them.
#[derive(Clone, Copy, PartialEq, Eq, Structural, Debug)]
pub struct ExtensionRecord {
    pub read_entry: u64,
    pub write_entry: u64,
}

/// The method table after the shim has installed its wrapped read/write
/// entries: those two slots replaced, all others copied.
pub open spec fn installed(t: FileMethods, shim_read: u64, shim_write: u64) -> FileMethods {
    FileMethods {
        read: Some(shim_read),
        write: Some(shim_write),
        close: t.close,
        sync: t.sync,
        truncate: t.truncate,
        file_size: t.file_size,
        lock: t.lock,
        unlock: t.unlock,
        check_reserved_lock: t.check_reserved_lock,
        file_control: t.file_control,
        sector_size: t.sector_size,
        device_characteristics: t.device_characteristics,
    }
}

/// Two method tables agree on every slot other than read and write.
pub open spec fn same_except_read_write(a: FileMethods, b: FileMethods) -> bool {
    &&& a.close == b.close
    &&& a.sync == b.sync
    &&& a.truncate == b.truncate
    &&& a.file_size == b.file_size
    &&& a.lock == b.lock
    &&& a.unlock == b.unlock
    &&& a.check_reserved_lock == b.check_reserved_lock
    &&& a.file_control == b.file_control
    &&& a.sector_size == b.sector_size
    &&& a.device_characteristics == b.device_characteristics
}

/// Law: installing the wrapped entries touches only the read and write
/// slots of a method table; capabilities like sync, lock and truncate stay
/// fully owned by the backing implementation.
pub proof fn lemma_install_touches_only_read_write(
    t: FileMethods,
    shim_read: u64,
    shim_write: u64,
)
    ensures
        same_except_read_write(t, installed(t, shim_read, shim_write)),
        installed(t, shim_read, shim_write).read == Some(shim_read),
        installed(t, shim_read, shim_write).write == Some(shim_write),
{
}

/// What the open interceptor decides to do before any delegation: either
/// reject the request outright with a status code, or delegate to the
/// backing VFS's open entry point.
#[derive(Clone, Copy, PartialEq, Eq, Structural, Debug)]
pub enum OpenPlan {
    Reject(i32),
    Delegate(u64),
}

/// The validation and delegation steps of the open interceptor: reject
/// with the generic error if the VFS handle, the path name or the file
/// buffer is null, or if the backing VFS exposes no open capability;
/// otherwise delegate to the backing open entry point.
pub fn open_precheck(
    vfs_present: bool,
    name_present: bool,
    file_present: bool,
    backing_open: Option<u64>,
) -> (r: OpenPlan)
    ensures
        vfs_present && name_present && file_present && backing_open is Some
            ==> r == OpenPlan::Delegate(backing_open->0),
        !vfs_present || !name_present || !file_present || backing_open is None
            ==> r == OpenPlan::Reject(GENERIC_ERROR),
{
    if !vfs_present || !name_present || !file_present {
        OpenPlan::Reject(GENERIC_ERROR)
    } else {
        match backing_open {
            Some(t) => OpenPlan::Delegate(t),
            None => OpenPlan::Reject(GENERIC_ERROR),
        }
    }
}

/// The capture, install and return steps of the open interceptor, run
/// after the backing open came back with `backing_status` and with the
/// file's method table as the backing VFS installed it.
///
/// If the table lacks either read or write, the shim cannot function: the
/// result is the generic error, whatever the backing open reported, and
/// the table is left untouched. Otherwise the original entries are saved
/// into the extension record, the transform-wrapped entries are installed
/// in their place (only where the backing open succeeded), and the backing
/// status is propagated unchanged.
pub fn complete_open(
    backing_status: i32,
    methods: &mut FileMethods,
    shim_read: u64,
    shim_write: u64,
) -> (r: (i32, Option<ExtensionRecord>))
    ensures
        old(methods).read is None || old(methods).write is None ==> {
            &&& r.0 == GENERIC_ERROR
            &&& r.1 is None
            &&& *final(methods) == *old(methods)
        },
        old(methods).read is Some && old(methods).write is Some && !is_success(backing_status)
            ==> {
            &&& r.0 == backing_status
            &&& r.1 is None
            &&& *final(methods) == *old(methods)
        },
        old(methods).read is Some && old(methods).write is Some && is_success(backing_status)
            ==> {
            &&& r.0 == backing_status
            &&& r.1 == Some(
                ExtensionRecord {
                    read_entry: old(methods).read->0,
                    write_entry: old(methods).write->0,
                },
            )
            &&& *final(methods) == installed(*old(methods), shim_read, shim_write)
        },
{
    let (read, write) = (methods.read, methods.write);
    match (read, write) {
        (Some(br), Some(bw)) => {
            if backing_status != STATUS_OK {
                (backing_status, None)
            } else {
                let record = ExtensionRecord { read_entry: br, write_entry: bw };
                methods.read = Some(shim_read);
                methods.write = Some(shim_write);
                (backing_status, Some(record))
            }
        },
        _ => (GENERIC_ERROR, None),
    }
}

} // verus!
