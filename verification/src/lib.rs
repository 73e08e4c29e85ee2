//! A decorator virtual-file-system (VFS) layer for an embedded database
//! engine: it wraps an arbitrary backing VFS, intercepts the per-file
//! read/write path to apply a reversible byte transform, and forwards every
//! other capability to the backing implementation unchanged.
//!
//! This crate holds the decision and data logic of the shim, stated over
//! plain values: status codes, capability tables with optional entry points
//! (modelled as opaque tokens), the declared file-handle layout, the open
//! interceptor's state machine, and the passthrough rules. The host-facing
//! foreign-function shell that feeds these decisions with real pointers
//! lives outside the verified library.

pub mod builder;
pub mod descriptor;
pub mod file;
pub mod forward;
pub mod register;
pub mod status;
pub mod transform;
