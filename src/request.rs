//! Kernel calls as plain values, and operations that wait for the status
//! of one.
use vstd::prelude::*;

use crate::cap::{CapRights, CapType, Error};

verus! {

/// One kernel call, with every argument it is made with. Capability
/// addresses are slot indices; `depth` is the number of address bits the
/// kernel resolves.
#[derive(Debug, Clone, Copy, PartialEq, Eq, Structural)]
pub enum KernelRequest {
    /// Create `num_objects` objects of type `object` from the untyped
    /// `service` into slots `offset ..` of the table `root`.
    UntypedRetype {
        service: usize,
        object: CapType,
        size_bits: u8,
        root: usize,
        index: usize,
        depth: u8,
        offset: usize,
        num_objects: usize,
    },
    /// Copy the capability at `src_index` into the slot `dest_index` of
    /// `dest_root`, with `rights`.
    CNodeCopy {
        dest_root: usize,
        dest_index: usize,
        dest_depth: u8,
        src_root: usize,
        src_index: usize,
        src_depth: u8,
        rights: CapRights,
    },
    /// Turn the 4 KiB untyped `untyped` into an identifier pool.
    ASIDControlMakePool { service: usize, untyped: usize, root: usize, index: usize, depth: u8 },
    /// Give the address-space root `vspace` an identifier from the pool.
    ASIDPoolAssign { service: usize, vspace: usize },
    /// Set the capability table and address space of a thread.
    TCBConfigure {
        service: usize,
        fault_ep: usize,
        cspace_root: usize,
        guard_size: u8,
        vspace_root: usize,
    },
    /// Install a page table in a page directory at `vaddr`.
    PageTableMap { page_table: usize, page_directory: usize, vaddr: usize },
    /// Install a page in a page directory at `vaddr`.
    PageMap { page: usize, page_directory: usize, vaddr: usize, rights: CapRights },
    /// Install the object `item` of paging level `level` (0 is a page) in the
    /// address space rooted at `root`, at `vaddr`.
    MapGranule { level: usize, item: usize, root: usize, vaddr: usize, rights: CapRights },
    /// Create one object of paging level `level` from the untyped `untyped`
    /// into slot `offset` of the table `root`.
    RetypeGranule { level: usize, untyped: usize, root: usize, offset: usize },
    /// Remove a page from the address space it is mapped in.
    PageUnmap { page: usize },
}

/// Which error a failed kernel call is reported as.
#[derive(Debug, Clone, Copy, PartialEq, Eq, Structural)]
pub enum FailureKind {
    UntypedRetype,
    TCBConfigure,
    MapPageTable,
    ASIDPoolAssign,
    MapPage,
    CNodeCopy,
}

/// The error for a failed call of the given kind with the kernel's status.
pub open spec fn spec_failure_error(kind: FailureKind, status: u32) -> Error {
    match kind {
        FailureKind::UntypedRetype => Error::UntypedRetype(status),
        FailureKind::TCBConfigure => Error::TCBConfigure(status),
        FailureKind::MapPageTable => Error::MapPageTable(status),
        FailureKind::ASIDPoolAssign => Error::ASIDPoolAssign(status),
        FailureKind::MapPage => Error::MapPage(status),
        FailureKind::CNodeCopy => Error::CNodeCopy(status),
    }
}

pub fn failure_error(kind: FailureKind, status: u32) -> (r: Error)
    ensures
        r == spec_failure_error(kind, status),
{
    match kind {
        FailureKind::UntypedRetype => Error::UntypedRetype(status),
        FailureKind::TCBConfigure => Error::TCBConfigure(status),
        FailureKind::MapPageTable => Error::MapPageTable(status),
        FailureKind::ASIDPoolAssign => Error::ASIDPoolAssign(status),
        FailureKind::MapPage => Error::MapPage(status),
        FailureKind::CNodeCopy => Error::CNodeCopy(status),
    }
}

/// An operation that is waiting for its kernel call. The caller performs
/// `request()` and passes the status to `complete`; only a zero status
/// releases the handles held in `outcome`. The resources that went into
/// the operation are spent either way.
pub struct Pending<T> {
    request: KernelRequest,
    failure: FailureKind,
    outcome: T,
}

impl<T> Pending<T> {
    /// The kernel call that the operation waits for.
    pub closed spec fn spec_request(&self) -> KernelRequest {
        self.request
    }

    pub closed spec fn spec_failure(&self) -> FailureKind {
        self.failure
    }

    /// What the operation yields if the kernel accepts the call.
    pub closed spec fn spec_outcome(&self) -> T {
        self.outcome
    }

    pub(crate) fn new(request: KernelRequest, failure: FailureKind, outcome: T) -> (r: Self)
        ensures
            r.spec_request() == request,
            r.spec_failure() == failure,
            r.spec_outcome() == outcome,
    {
        Pending { request, failure, outcome }
    }

    /// The kernel call to perform.
    pub fn request(&self) -> (r: KernelRequest)
        ensures
            r == self.spec_request(),
    {
        self.request
    }

    /// Finishes the operation with the status that the kernel returned.
    pub fn complete(self, status: u32) -> (r: Result<T, Error>)
        ensures
            status == 0 ==> r == Ok::<T, Error>(self.spec_outcome()),
            status != 0 ==> r == Err::<T, Error>(spec_failure_error(self.spec_failure(), status)),
    {
        if status == 0 {
            Ok(self.outcome)
        } else {
            Err(failure_error(self.failure, status))
        }
    }
}

} // verus!
