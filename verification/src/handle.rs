//! The file handle the lock capability borrows, and the capability itself.

use vstd::prelude::*;

use crate::op::FlockRequest;
use crate::op::LockMode;

verus! {

/// An open file handle, seen through the one thing the lock capability
/// reads of it: its stable OS descriptor. The handle is owned elsewhere;
/// a caller must hand in a descriptor that stays open for as long as the
/// requests built here are in flight.
#[derive(Clone, Copy, Debug, PartialEq, Eq, Structural)]
pub struct FileHandle {
    /// The OS descriptor of the open file.
    pub fd: i32,
}

impl FileHandle {
    /// Wraps an open file's descriptor.
    pub fn new(fd: i32) -> (r: FileHandle)
        ensures
            r.fd_spec() == fd,
    {
        FileHandle { fd }
    }

    /// The descriptor this handle wraps.
    pub fn descriptor(&self) -> (r: i32)
        ensures
            r == self.fd_spec(),
    {
        self.fd
    }
}

/// The lock capability on a file handle: each operation names the one
/// request to put to the OS advisory-lock primitive. Dispatching that
/// request (off the caller's scheduling thread) and reading its raw
/// return are the caller's side of the bargain.
pub trait FileExt {
    /// The descriptor of the handle, for contracts.
    spec fn fd_spec(&self) -> i32;

    /// The request that asks for a shared (read) lock on this handle.
    fn lock_shared(&self) -> (r: FlockRequest)
        ensures
            r.fd == self.fd_spec(),
            r.mode == LockMode::Shared,
    ;

    /// The request that asks for an exclusive (write) lock on this handle.
    fn lock_exclusive(&self) -> (r: FlockRequest)
        ensures
            r.fd == self.fd_spec(),
            r.mode == LockMode::Exclusive,
    ;

    /// The request that releases whatever lock this handle holds.
    fn unlock(&self) -> (r: FlockRequest)
        ensures
            r.fd == self.fd_spec(),
            r.mode == LockMode::Unlock,
    ;
}

impl FileExt for FileHandle {
    open spec fn fd_spec(&self) -> i32 {
        self.fd
    }

    fn lock_shared(&self) -> (r: FlockRequest) {
        FlockRequest { fd: self.fd, mode: LockMode::Shared }
    }

    fn lock_exclusive(&self) -> (r: FlockRequest) {
        FlockRequest { fd: self.fd, mode: LockMode::Exclusive }
    }

    fn unlock(&self) -> (r: FlockRequest) {
        FlockRequest { fd: self.fd, mode: LockMode::Unlock }
    }
}

} // verus!
