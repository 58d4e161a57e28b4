//! The decisions of the filesystem and node adapters: what each operation
//! asks of the engine, and what the operations that never reach it report.
use crate::flags::{creates, descriptor_of, mode_of, translate_open_flags, OpenMode};
use crate::node::VfsError;
use vstd::prelude::*;

verus! {

/// One sector device, named by its identifier.
#[derive(Clone, Copy, Debug, PartialEq, Eq, Structural)]
pub struct Ext4Disk {
    pub device_id: usize,
}

impl Ext4Disk {
    /// A disk over the device with the given identifier.
    pub fn new(device_id: usize) -> (r: Ext4Disk)
        ensures
            r.device_id == device_id,
    {
        Ext4Disk { device_id }
    }
}

/// What an open asks of the engine: the mode text and the create flag.
#[derive(Clone, Copy, Debug, PartialEq, Eq)]
pub struct OpenRequest {
    pub mode: &'static str,
    pub create: bool,
}

/// The request for a mode and a create flag.
fn request(mode: OpenMode, create: bool) -> (r: OpenRequest)
    ensures
        r.mode@ == descriptor_of(mode),
        r.create == create,
{
    OpenRequest { mode: mode.descriptor(), create }
}

/// The request that an open with `flags` makes; `None` where the flags are
/// not one of the recognised combinations.
pub fn open_request(flags: u32) -> (r: Option<OpenRequest>)
    ensures
        r is Some <==> mode_of(flags) is Some,
        r matches Some(q) ==> mode_of(flags) matches Some(m) && q.mode@ == descriptor_of(m)
            && q.create == creates(flags),
{
    match translate_open_flags(flags) {
        Some((m, c)) => Some(request(m, c)),
        None => None,
    }
}

/// The request that opens the root directory: read mode, no creation.
pub fn root_request() -> (r: OpenRequest)
    ensures
        r.mode@ == descriptor_of(OpenMode::Read),
        !r.create,
{
    request(OpenMode::Read, false)
}

/// The request that `touch` makes: read-write-truncate, creating.
pub fn touch_request() -> (r: OpenRequest)
    ensures
        r.mode@ == descriptor_of(OpenMode::ReadWriteTruncate),
        r.create,
{
    request(OpenMode::ReadWriteTruncate, true)
}

/// The request that opens a directory just made by `mkdir`: write mode, no
/// creation.
pub fn mkdir_open_request() -> (r: OpenRequest)
    ensures
        r.mode@ == descriptor_of(OpenMode::Write),
        !r.create,
{
    request(OpenMode::Write, false)
}

/// The node operations that do not reach the engine.
#[derive(Clone, Copy, Debug, PartialEq, Eq, Structural)]
pub enum NodeOp {
    Metadata,
    ReadAt,
    WriteAt,
    Rmdir,
    Remove,
    Lookup,
    Truncate,
    Unlink,
    Stat,
    StatFs,
    Utimes,
    ResolveLink,
    Link,
    SymLink,
}

/// What an engine-free node operation reports: the ones without an
/// engine-backed behaviour fail with `NotImplemented`, the link operations
/// with `NotSupported`, and the rest succeed without effect.
pub open spec fn op_outcome_of(op: NodeOp) -> Result<(), VfsError> {
    match op {
        NodeOp::Metadata | NodeOp::ReadAt | NodeOp::WriteAt | NodeOp::Rmdir | NodeOp::Remove
        | NodeOp::Lookup => Err(VfsError::NotImplemented),
        NodeOp::ResolveLink | NodeOp::Link | NodeOp::SymLink => Err(VfsError::NotSupported),
        _ => Ok(()),
    }
}

/// The outcome of an engine-free node operation.
pub fn op_outcome(op: NodeOp) -> (r: Result<(), VfsError>)
    ensures
        r == op_outcome_of(op),
{
    match op {
        NodeOp::Metadata | NodeOp::ReadAt | NodeOp::WriteAt | NodeOp::Rmdir | NodeOp::Remove
        | NodeOp::Lookup => Err(VfsError::NotImplemented),
        NodeOp::ResolveLink | NodeOp::Link | NodeOp::SymLink => Err(VfsError::NotSupported),
        NodeOp::Truncate | NodeOp::Unlink | NodeOp::Stat | NodeOp::StatFs | NodeOp::Utimes => Ok(
            (),
        ),
    }
}

} // verus!
