//! A capability-typed resource ledger for user-level programs on a
//! capability microkernel.
//!
//! The library keeps, for every handle it gives out, how much of a
//! resource is left (free slots of a capability table, the size of an
//! untyped block, the next free virtual address) and refuses a request
//! that the ledger shows cannot succeed before any kernel call is made.
//! Kernel calls themselves are described as plain `KernelRequest` values:
//! the caller performs each one and hands the returned status back, and
//! only a zero status releases the new handles.
pub mod buddy;
pub mod cap;
pub mod micro_alloc;
pub mod paging;
pub mod request;
pub mod vspace;
