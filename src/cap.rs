//! Capability handles, the slot ledger of capability tables and the
//! untyped-memory algebra (split, quarter, retype).
use vstd::prelude::*;

use crate::request::{FailureKind, KernelRequest, Pending};

verus! {

/// Depth, in bits, of a capability address in the root table.
pub const WORD_BITS: u8 = 32;

/// The slot of the root task's own capability table.
pub const INIT_THREAD_CNODE: usize = 2;

/// Smallest untyped block the kernel hands out, in bits of size.
pub const MIN_UNTYPED_SIZE_BITS: u8 = 4;

/// Largest untyped block: half of the 32-bit address space.
pub const MAX_UNTYPED_SIZE_BITS: u8 = 29;

/// Bits of size of one capability-table slot.
pub const SLOT_BITS: u8 = 4;

pub const TCB_BITS: u8 = 10;
pub const ENDPOINT_BITS: u8 = 4;
pub const PAGE_TABLE_BITS: u8 = 10;
pub const PAGE_DIRECTORY_BITS: u8 = 14;
pub const PAGE_BITS: u8 = 12;
pub const ASID_POOL_BITS: u8 = 12;

/// `2^n`.
pub open spec fn two_pow(n: nat) -> nat
    decreases n,
{
    if n == 0 {
        1
    } else {
        2 * two_pow((n - 1) as nat)
    }
}

pub proof fn lemma_two_pow_monotone(a: nat, b: nat)
    requires
        a <= b,
    ensures
        two_pow(a) <= two_pow(b),
    decreases b,
{
    if a < b {
        lemma_two_pow_monotone(a, (b - 1) as nat);
    }
}

pub proof fn lemma_two_pow_add(a: nat, b: nat)
    ensures
        two_pow(a + b) == two_pow(a) * two_pow(b),
    decreases a,
{
    if a > 0 {
        let x = two_pow((a - 1) as nat);
        let y = two_pow(b);
        lemma_two_pow_add((a - 1) as nat, b);
        assert(((a - 1) as nat + b) as nat == (a + b - 1) as nat);
        assert(two_pow(a + b) == 2 * (x * y));
        assert(2 * (x * y) == (2 * x) * y) by (nonlinear_arith);
        assert(two_pow(a) == 2 * x);
    } else {
        assert(a + b == b);
        assert(two_pow(a) == 1);
        assert(1 * two_pow(b) == two_pow(b));
    }
}

pub proof fn lemma_two_pow_positive(a: nat)
    ensures
        two_pow(a) >= 1,
    decreases a,
{
    if a > 0 {
        lemma_two_pow_positive((a - 1) as nat);
    }
}

/// `2^n` as a machine word.
pub fn two_pow_usize(n: u8) -> (r: usize)
    requires
        n < 32,
    ensures
        r == two_pow(n as nat),
{
    let mut r: usize = 1;
    let mut i: u8 = 0;
    while i < n
        invariant
            i <= n,
            n < 32,
            r == two_pow(i as nat),
        decreases n - i,
    {
        proof {
            lemma_two_pow_monotone(i as nat, 31);
            reveal_with_fuel(two_pow, 32);
            assert(two_pow(31) == 0x8000_0000);
        }
        r = r * 2;
        i = i + 1;
    }
    r
}

/// Failures of the capability operations.
#[derive(Debug, PartialEq, Eq, Structural)]
pub enum Error {
    /// The table has fewer free slots than the operation consumes; no
    /// kernel call was made.
    InsufficientSlots,
    /// The untyped block is smaller than what it should become; no kernel
    /// call was made.
    UntypedTooSmall,
    UntypedRetype(u32),
    TCBConfigure(u32),
    MapPageTable(u32),
    ASIDPoolAssign(u32),
    MapPage(u32),
    CNodeCopy(u32),
}

/// The kind of kernel object a capability refers to.
#[derive(Debug, Clone, Copy, PartialEq, Eq, Structural)]
pub enum CapType {
    Untyped { size_bits: u8 },
    ThreadControlBlock,
    Endpoint,
    ASIDControl,
    ASIDPool,
    CapTable { radix: u8 },
    PageDirectory,
    PageTable,
    Page,
}

impl CapType {
    /// Bits of size of the objects that a plain retype creates; the types
    /// whose size is fixed by the kernel.
    pub open spec fn spec_fixed_size_bits(self) -> Option<u8> {
        match self {
            CapType::ThreadControlBlock => Some(TCB_BITS),
            CapType::Endpoint => Some(ENDPOINT_BITS),
            CapType::PageDirectory => Some(PAGE_DIRECTORY_BITS),
            CapType::PageTable => Some(PAGE_TABLE_BITS),
            CapType::Page => Some(PAGE_BITS),
            _ => None,
        }
    }

    pub open spec fn is_fixed_size(self) -> bool {
        self.spec_fixed_size_bits() is Some
    }

    pub fn fixed_size_bits(&self) -> (r: Option<u8>)
        ensures
            r == self.spec_fixed_size_bits(),
    {
        match self {
            CapType::ThreadControlBlock => Some(TCB_BITS),
            CapType::Endpoint => Some(ENDPOINT_BITS),
            CapType::PageDirectory => Some(PAGE_DIRECTORY_BITS),
            CapType::PageTable => Some(PAGE_TABLE_BITS),
            CapType::Page => Some(PAGE_BITS),
            _ => None,
        }
    }
}

/// Access rights attached to a capability.
#[derive(Debug, Clone, Copy, PartialEq, Eq, Structural)]
pub struct CapRights {
    pub read: bool,
    pub write: bool,
    pub grant: bool,
}

/// A handle to one kernel object: a slot index in the root table and the
/// object's type.
#[derive(Debug, PartialEq, Eq, Structural)]
pub struct Capability {
    pub cptr: usize,
    pub cap_type: CapType,
}

/// A handle that lives in a child process's table rather than the root
/// table.
#[derive(Debug, PartialEq, Eq, Structural)]
pub struct ChildCapability {
    pub child_cptr: usize,
    pub cap_type: CapType,
}

/// Whose capability table a `CNode` view allocates from.
#[derive(Debug, Clone, Copy, PartialEq, Eq, Structural)]
pub enum CNodeRole {
    CSpaceRoot,
    ChildProcess,
}

/// A view of a capability table that may hand out the slots
/// `next_free_slot .. next_free_slot + free_slots`.
#[derive(Debug, PartialEq, Eq, Structural)]
pub struct CNode {
    pub radix: u8,
    pub next_free_slot: usize,
    pub cptr: usize,
    pub free_slots: usize,
    pub role: CNodeRole,
}

/// One slot taken from a `CNode`: the table and the index in it.
#[derive(Debug, PartialEq, Eq, Structural)]
pub struct CNodeSlot {
    pub cptr: usize,
    pub offset: usize,
}

impl CNode {
    /// The free range does not run past the end of the index space.
    pub open spec fn wf(&self) -> bool {
        self.next_free_slot + self.free_slots <= usize::MAX
    }

    /// Whether `slot` is one that this view may hand out.
    pub open spec fn holds(&self, slot: int) -> bool {
        self.next_free_slot <= slot < self.next_free_slot + self.free_slots
    }

    /// The view left after the first `k` free slots are taken.
    pub open spec fn spec_after(self, k: nat) -> CNode {
        CNode {
            radix: self.radix,
            next_free_slot: (self.next_free_slot + k) as usize,
            cptr: self.cptr,
            free_slots: (self.free_slots - k) as usize,
            role: self.role,
        }
    }

    /// A view of the first `k` free slots alone.
    pub open spec fn spec_first(self, k: nat) -> CNode {
        CNode {
            radix: self.radix,
            next_free_slot: self.next_free_slot,
            cptr: self.cptr,
            free_slots: k as usize,
            role: self.role,
        }
    }

    /// Takes the next free slot.
    pub fn consume_slot(self) -> (r: Result<(CNode, CNodeSlot), Error>)
        requires
            self.wf(),
        ensures
            self.free_slots == 0 <==> r == Err::<(CNode, CNodeSlot), Error>(Error::InsufficientSlots),
            self.free_slots > 0 ==> r == Ok::<(CNode, CNodeSlot), Error>(
                (self.spec_after(1), CNodeSlot { cptr: self.cptr, offset: self.next_free_slot }),
            ),
    {
        if self.free_slots == 0 {
            return Err(Error::InsufficientSlots);
        }
        let slot = CNodeSlot { cptr: self.cptr, offset: self.next_free_slot };
        let rest = CNode {
            radix: self.radix,
            next_free_slot: self.next_free_slot + 1,
            cptr: self.cptr,
            free_slots: self.free_slots - 1,
            role: self.role,
        };
        Ok((rest, slot))
    }

    /// Splits off the first `count` free slots as a view of their own; the
    /// second view holds the rest. No kernel call is involved.
    pub fn reserve_region(self, count: usize) -> (r: Result<(CNode, CNode), Error>)
        requires
            self.wf(),
        ensures
            count > self.free_slots <==> r == Err::<(CNode, CNode), Error>(Error::InsufficientSlots),
            count <= self.free_slots ==> r == Ok::<(CNode, CNode), Error>(
                (self.spec_first(count as nat), self.spec_after(count as nat)),
            ),
    {
        if count > self.free_slots {
            return Err(Error::InsufficientSlots);
        }
        let first = CNode {
            radix: self.radix,
            next_free_slot: self.next_free_slot,
            cptr: self.cptr,
            free_slots: count,
            role: self.role,
        };
        let rest = CNode {
            radix: self.radix,
            next_free_slot: self.next_free_slot + count,
            cptr: self.cptr,
            free_slots: self.free_slots - count,
            role: self.role,
        };
        Ok((first, rest))
    }

    /// Splits off the first `count` free slots as `count` views of one
    /// slot each, in order, and returns them with the rest.
    pub fn reservation_iter(self, count: usize) -> (r: Result<(Vec<CNode>, CNode), Error>)
        requires
            self.wf(),
        ensures
            count > self.free_slots <==> r is Err,
            r is Err ==> r == Err::<(Vec<CNode>, CNode), Error>(Error::InsufficientSlots),
            r is Ok ==> ({
                let (singles, rest) = r->Ok_0;
                &&& rest == self.spec_after(count as nat)
                &&& singles@.len() == count
                &&& forall|i: int|
                    0 <= i < count ==> #[trigger] singles@[i] == (CNode {
                        radix: self.radix,
                        next_free_slot: (self.next_free_slot + i) as usize,
                        cptr: self.cptr,
                        free_slots: 1,
                        role: self.role,
                    })
            }),
    {
        if count > self.free_slots {
            return Err(Error::InsufficientSlots);
        }
        let mut singles: Vec<CNode> = Vec::new();
        let mut i: usize = 0;
        while i < count
            invariant
                self.wf(),
                count <= self.free_slots,
                i <= count,
                singles@.len() == i,
                forall|j: int|
                    0 <= j < i ==> #[trigger] singles@[j] == (CNode {
                        radix: self.radix,
                        next_free_slot: (self.next_free_slot + j) as usize,
                        cptr: self.cptr,
                        free_slots: 1,
                        role: self.role,
                    }),
            decreases count - i,
        {
            singles.push(
                CNode {
                    radix: self.radix,
                    next_free_slot: self.next_free_slot + i,
                    cptr: self.cptr,
                    free_slots: 1,
                    role: self.role,
                },
            );
            i = i + 1;
        }
        let rest = CNode {
            radix: self.radix,
            next_free_slot: self.next_free_slot + count,
            cptr: self.cptr,
            free_slots: self.free_slots - count,
            role: self.role,
        };
        Ok((singles, rest))
    }
}

/// The root task's own capability table, with the part of it that is
/// still free.
pub fn root_cnode() -> (r: CNode)
    ensures
        r.wf(),
        r == (CNode {
            radix: 19,
            next_free_slot: 1000,
            cptr: INIT_THREAD_CNODE,
            free_slots: 1024,
            role: CNodeRole::CSpaceRoot,
        }),
{
    CNode {
        radix: 19,
        next_free_slot: 1000,
        cptr: INIT_THREAD_CNODE,
        free_slots: 1024,
        role: CNodeRole::CSpaceRoot,
    }
}

impl Capability {
    /// An untyped handle's size lies in the range the kernel supports.
    pub open spec fn wf(&self) -> bool {
        match self.cap_type {
            CapType::Untyped { size_bits } => MIN_UNTYPED_SIZE_BITS <= size_bits
                <= MAX_UNTYPED_SIZE_BITS,
            _ => true,
        }
    }

    pub open spec fn is_untyped(&self) -> bool {
        self.cap_type is Untyped
    }

    /// Bits of size of an untyped handle.
    pub open spec fn bits(&self) -> int {
        self.cap_type->size_bits as int
    }

    /// Whether the ledger admits retyping this untyped block into one
    /// `target` in `dest`: a slot is free and the block is large enough.
    pub open spec fn retype_admitted(&self, dest: CNode, target: CapType) -> bool {
        dest.free_slots > 0 && self.bits() >= target.spec_fixed_size_bits()->0
    }

    /// A handle to the object in slot `cptr` of the root table.
    pub fn wrap_cptr(cptr: usize, cap_type: CapType) -> (r: Capability)
        ensures
            r == (Capability { cptr, cap_type }),
    {
        Capability { cptr, cap_type }
    }

    /// Splits an untyped block into two halves. The first half keeps this
    /// handle's slot, the second goes to the next free slot of `dest`.
    pub fn split(self, dest: CNode) -> (r: Result<Pending<(Capability, Capability, CNode)>, Error>)
        requires
            self.is_untyped(),
            dest.wf(),
            dest.role == CNodeRole::CSpaceRoot,
        ensures
            dest.free_slots == 0 ==> r == Err::<Pending<(Capability, Capability, CNode)>, Error>(
                Error::InsufficientSlots,
            ),
            dest.free_slots > 0 && self.bits() < MIN_UNTYPED_SIZE_BITS + 1 ==> r == Err::<
                Pending<(Capability, Capability, CNode)>,
                Error,
            >(Error::UntypedTooSmall),
            dest.free_slots > 0 && self.bits() >= MIN_UNTYPED_SIZE_BITS + 1 ==> ({
                let half = CapType::Untyped { size_bits: (self.bits() - 1) as u8 };
                &&& r is Ok
                &&& r->Ok_0.spec_request() == (KernelRequest::UntypedRetype {
                    service: self.cptr,
                    object: half,
                    size_bits: (self.bits() - 1) as u8,
                    root: dest.cptr,
                    index: 0,
                    depth: 0,
                    offset: dest.next_free_slot,
                    num_objects: 1,
                })
                &&& r->Ok_0.spec_failure() == FailureKind::UntypedRetype
                &&& r->Ok_0.spec_outcome() == (
                    Capability { cptr: self.cptr, cap_type: half },
                    Capability { cptr: dest.next_free_slot, cap_type: half },
                    dest.spec_after(1),
                )
            }),
    {
        let bits = match self.cap_type {
            CapType::Untyped { size_bits } => size_bits,
            _ => 0,
        };
        let (rest, slot) = match dest.consume_slot() {
            Ok(p) => p,
            Err(e) => return Err(e),
        };
        if bits < MIN_UNTYPED_SIZE_BITS + 1 {
            return Err(Error::UntypedTooSmall);
        }
        let half = CapType::Untyped { size_bits: bits - 1 };
        let request = KernelRequest::UntypedRetype {
            service: self.cptr,
            object: half,
            size_bits: bits - 1,
            root: slot.cptr,
            index: 0,
            depth: 0,
            offset: slot.offset,
            num_objects: 1,
        };
        let outcome = (
            Capability { cptr: self.cptr, cap_type: half },
            Capability { cptr: slot.offset, cap_type: half },
            rest,
        );
        Ok(Pending::new(request, FailureKind::UntypedRetype, outcome))
    }

    /// Splits an untyped block into four quarters. The first keeps this
    /// handle's slot, the other three go to the next three free slots of
    /// `dest`, in order.
    pub fn quarter(self, dest: CNode) -> (r: Result<
        Pending<(Capability, Capability, Capability, Capability, CNode)>,
        Error,
    >)
        requires
            self.is_untyped(),
            dest.wf(),
            dest.role == CNodeRole::CSpaceRoot,
        ensures
            dest.free_slots < 3 ==> r == Err::<
                Pending<(Capability, Capability, Capability, Capability, CNode)>,
                Error,
            >(Error::InsufficientSlots),
            dest.free_slots >= 3 && self.bits() < MIN_UNTYPED_SIZE_BITS + 2 ==> r == Err::<
                Pending<(Capability, Capability, Capability, Capability, CNode)>,
                Error,
            >(Error::UntypedTooSmall),
            dest.free_slots >= 3 && self.bits() >= MIN_UNTYPED_SIZE_BITS + 2 ==> ({
                let q = CapType::Untyped { size_bits: (self.bits() - 2) as u8 };
                let first = dest.next_free_slot;
                &&& r is Ok
                &&& r->Ok_0.spec_request() == (KernelRequest::UntypedRetype {
                    service: self.cptr,
                    object: q,
                    size_bits: (self.bits() - 2) as u8,
                    root: dest.cptr,
                    index: 0,
                    depth: 0,
                    offset: first,
                    num_objects: 3,
                })
                &&& r->Ok_0.spec_failure() == FailureKind::UntypedRetype
                &&& r->Ok_0.spec_outcome() == (
                    Capability { cptr: self.cptr, cap_type: q },
                    Capability { cptr: first, cap_type: q },
                    Capability { cptr: (first + 1) as usize, cap_type: q },
                    Capability { cptr: (first + 2) as usize, cap_type: q },
                    dest.spec_after(3),
                )
            }),
    {
        let bits = match self.cap_type {
            CapType::Untyped { size_bits } => size_bits,
            _ => 0,
        };
        let (taken, rest) = match dest.reserve_region(3) {
            Ok(p) => p,
            Err(e) => return Err(e),
        };
        if bits < MIN_UNTYPED_SIZE_BITS + 2 {
            return Err(Error::UntypedTooSmall);
        }
        let q = CapType::Untyped { size_bits: bits - 2 };
        let first = taken.next_free_slot;
        let request = KernelRequest::UntypedRetype {
            service: self.cptr,
            object: q,
            size_bits: bits - 2,
            root: taken.cptr,
            index: 0,
            depth: 0,
            offset: first,
            num_objects: 3,
        };
        let outcome = (
            Capability { cptr: self.cptr, cap_type: q },
            Capability { cptr: first, cap_type: q },
            Capability { cptr: first + 1, cap_type: q },
            Capability { cptr: first + 2, cap_type: q },
            rest,
        );
        Ok(Pending::new(request, FailureKind::UntypedRetype, outcome))
    }

    /// Retypes an untyped block into one object of a fixed-size type,
    /// placed in the next free slot of `dest`. A block smaller than the
    /// object is refused before any kernel call.
    pub fn retype_local(self, dest: CNode, target: CapType) -> (r: Result<
        Pending<(Capability, CNode)>,
        Error,
    >)
        requires
            self.is_untyped(),
            target.is_fixed_size(),
            dest.wf(),
            dest.role == CNodeRole::CSpaceRoot,
        ensures
            r is Ok <==> self.retype_admitted(dest, target),
            dest.free_slots == 0 ==> r == Err::<Pending<(Capability, CNode)>, Error>(
                Error::InsufficientSlots,
            ),
            dest.free_slots > 0 && self.bits() < target.spec_fixed_size_bits()->0 ==> r == Err::<
                Pending<(Capability, CNode)>,
                Error,
            >(Error::UntypedTooSmall),
            dest.free_slots > 0 && self.bits() >= target.spec_fixed_size_bits()->0 ==> ({
                &&& r is Ok
                &&& r->Ok_0.spec_request() == (KernelRequest::UntypedRetype {
                    service: self.cptr,
                    object: target,
                    size_bits: 0,
                    root: dest.cptr,
                    index: 0,
                    depth: 0,
                    offset: dest.next_free_slot,
                    num_objects: 1,
                })
                &&& r->Ok_0.spec_failure() == FailureKind::UntypedRetype
                &&& r->Ok_0.spec_outcome() == (
                    Capability { cptr: dest.next_free_slot, cap_type: target },
                    dest.spec_after(1),
                )
            }),
    {
        let bits = match self.cap_type {
            CapType::Untyped { size_bits } => size_bits,
            _ => 0,
        };
        let (rest, slot) = match dest.consume_slot() {
            Ok(p) => p,
            Err(e) => return Err(e),
        };
        let needed = match target.fixed_size_bits() {
            Some(b) => b,
            None => 0,
        };
        if bits < needed {
            return Err(Error::UntypedTooSmall);
        }
        let request = KernelRequest::UntypedRetype {
            service: self.cptr,
            object: target,
            size_bits: 0,
            root: slot.cptr,
            index: 0,
            depth: 0,
            offset: slot.offset,
            num_objects: 1,
        };
        let outcome = (Capability { cptr: slot.offset, cap_type: target }, rest);
        Ok(Pending::new(request, FailureKind::UntypedRetype, outcome))
    }
    /// Retypes an untyped block into a capability table of `2^child_radix`
    /// slots for a child process, placed in the next free slot of `dest`.
    /// The block must hold `2^(child_radix + SLOT_BITS)` bytes.
    pub fn retype_local_cnode(self, dest: CNode, child_radix: u8) -> (r: Result<
        Pending<(CNode, CNode)>,
        Error,
    >)
        requires
            self.is_untyped(),
            self.wf(),
            dest.wf(),
            dest.role == CNodeRole::CSpaceRoot,
        ensures
            dest.free_slots == 0 ==> r == Err::<Pending<(CNode, CNode)>, Error>(
                Error::InsufficientSlots,
            ),
            dest.free_slots > 0 && self.bits() < child_radix + SLOT_BITS ==> r == Err::<
                Pending<(CNode, CNode)>,
                Error,
            >(Error::UntypedTooSmall),
            dest.free_slots > 0 && self.bits() >= child_radix + SLOT_BITS ==> ({
                &&& r is Ok
                &&& r->Ok_0.spec_request() == (KernelRequest::UntypedRetype {
                    service: self.cptr,
                    object: CapType::CapTable { radix: child_radix },
                    size_bits: child_radix,
                    root: dest.cptr,
                    index: 0,
                    depth: 0,
                    offset: dest.next_free_slot,
                    num_objects: 1,
                })
                &&& r->Ok_0.spec_failure() == FailureKind::UntypedRetype
                &&& r->Ok_0.spec_outcome() == (
                    CNode {
                        radix: child_radix,
                        next_free_slot: 0,
                        cptr: dest.next_free_slot,
                        free_slots: two_pow(child_radix as nat) as usize,
                        role: CNodeRole::ChildProcess,
                    },
                    dest.spec_after(1),
                )
                &&& r->Ok_0.spec_outcome().0.wf()
            }),
    {
        let bits = match self.cap_type {
            CapType::Untyped { size_bits } => size_bits,
            _ => 0,
        };
        let (rest, slot) = match dest.consume_slot() {
            Ok(p) => p,
            Err(e) => return Err(e),
        };
        if (bits as u16) < child_radix as u16 + SLOT_BITS as u16 {
            return Err(Error::UntypedTooSmall);
        }
        let request = KernelRequest::UntypedRetype {
            service: self.cptr,
            object: CapType::CapTable { radix: child_radix },
            size_bits: child_radix,
            root: slot.cptr,
            index: 0,
            depth: 0,
            offset: slot.offset,
            num_objects: 1,
        };
        let child = CNode {
            radix: child_radix,
            next_free_slot: 0,
            cptr: slot.offset,
            free_slots: two_pow_usize(child_radix),
            role: CNodeRole::ChildProcess,
        };
        Ok(Pending::new(request, FailureKind::UntypedRetype, (child, rest)))
    }

    /// Retypes an untyped block into one object of a fixed-size type,
    /// placed in the next free slot of a child process's table.
    pub fn retype_child(self, dest: CNode, target: CapType) -> (r: Result<
        Pending<(ChildCapability, CNode)>,
        Error,
    >)
        requires
            self.is_untyped(),
            target.is_fixed_size(),
            dest.wf(),
            dest.role == CNodeRole::ChildProcess,
        ensures
            dest.free_slots == 0 ==> r == Err::<Pending<(ChildCapability, CNode)>, Error>(
                Error::InsufficientSlots,
            ),
            dest.free_slots > 0 && self.bits() < target.spec_fixed_size_bits()->0 ==> r == Err::<
                Pending<(ChildCapability, CNode)>,
                Error,
            >(Error::UntypedTooSmall),
            dest.free_slots > 0 && self.bits() >= target.spec_fixed_size_bits()->0 ==> ({
                &&& r is Ok
                &&& r->Ok_0.spec_request() == (KernelRequest::UntypedRetype {
                    service: self.cptr,
                    object: target,
                    size_bits: 0,
                    root: dest.cptr,
                    index: 0,
                    depth: 0,
                    offset: dest.next_free_slot,
                    num_objects: 1,
                })
                &&& r->Ok_0.spec_failure() == FailureKind::UntypedRetype
                &&& r->Ok_0.spec_outcome() == (
                    ChildCapability { child_cptr: dest.next_free_slot, cap_type: target },
                    dest.spec_after(1),
                )
            }),
    {
        let bits = match self.cap_type {
            CapType::Untyped { size_bits } => size_bits,
            _ => 0,
        };
        let (rest, slot) = match dest.consume_slot() {
            Ok(p) => p,
            Err(e) => return Err(e),
        };
        let needed = match target.fixed_size_bits() {
            Some(b) => b,
            None => 0,
        };
        if bits < needed {
            return Err(Error::UntypedTooSmall);
        }
        let request = KernelRequest::UntypedRetype {
            service: self.cptr,
            object: target,
            size_bits: 0,
            root: slot.cptr,
            index: 0,
            depth: 0,
            offset: slot.offset,
            num_objects: 1,
        };
        let outcome = (ChildCapability { child_cptr: slot.offset, cap_type: target }, rest);
        Ok(Pending::new(request, FailureKind::UntypedRetype, outcome))
    }

    /// Turns a 4 KiB untyped block into an identifier pool through the
    /// identifier-control authority, placed in the next free slot of `dest`.
    pub fn retype_asid_pool(self, asid_control: Capability, dest: CNode) -> (r: Result<
        Pending<(Capability, CNode)>,
        Error,
    >)
        requires
            self.cap_type == (CapType::Untyped { size_bits: ASID_POOL_BITS }),
            asid_control.cap_type == CapType::ASIDControl,
            dest.wf(),
            dest.role == CNodeRole::CSpaceRoot,
        ensures
            dest.free_slots == 0 <==> r is Err,
            r is Err ==> r == Err::<Pending<(Capability, CNode)>, Error>(Error::InsufficientSlots),
            r is Ok ==> ({
                &&& r->Ok_0.spec_request() == (KernelRequest::ASIDControlMakePool {
                    service: asid_control.cptr,
                    untyped: self.cptr,
                    root: dest.cptr,
                    index: dest.next_free_slot,
                    depth: WORD_BITS,
                })
                &&& r->Ok_0.spec_failure() == FailureKind::UntypedRetype
                &&& r->Ok_0.spec_outcome() == (
                    Capability { cptr: dest.next_free_slot, cap_type: CapType::ASIDPool },
                    dest.spec_after(1),
                )
            }),
    {
        let (rest, slot) = match dest.consume_slot() {
            Ok(p) => p,
            Err(e) => return Err(e),
        };
        let request = KernelRequest::ASIDControlMakePool {
            service: asid_control.cptr,
            untyped: self.cptr,
            root: slot.cptr,
            index: slot.offset,
            depth: WORD_BITS,
        };
        let outcome = (Capability { cptr: slot.offset, cap_type: CapType::ASIDPool }, rest);
        Ok(Pending::new(request, FailureKind::UntypedRetype, outcome))
    }

    /// Copies this capability, with `rights`, into the next free slot of
    /// `dest`. This handle stays valid; the copy refers to the same object.
    pub fn copy_local(&self, dest: CNode, rights: CapRights) -> (r: Result<
        Pending<(Capability, CNode)>,
        Error,
    >)
        requires
            dest.wf(),
            dest.role == CNodeRole::CSpaceRoot,
        ensures
            dest.free_slots == 0 <==> r is Err,
            r is Err ==> r == Err::<Pending<(Capability, CNode)>, Error>(Error::InsufficientSlots),
            r is Ok ==> ({
                &&& r->Ok_0.spec_request() == (KernelRequest::CNodeCopy {
                    dest_root: dest.cptr,
                    dest_index: dest.next_free_slot,
                    dest_depth: WORD_BITS,
                    src_root: INIT_THREAD_CNODE,
                    src_index: self.cptr,
                    src_depth: WORD_BITS,
                    rights,
                })
                &&& r->Ok_0.spec_failure() == FailureKind::CNodeCopy
                &&& r->Ok_0.spec_outcome() == (
                    Capability { cptr: dest.next_free_slot, cap_type: self.cap_type },
                    dest.spec_after(1),
                )
            }),
    {
        let (rest, slot) = match dest.consume_slot() {
            Ok(p) => p,
            Err(e) => return Err(e),
        };
        let request = KernelRequest::CNodeCopy {
            dest_root: slot.cptr,
            dest_index: slot.offset,
            dest_depth: WORD_BITS,
            src_root: INIT_THREAD_CNODE,
            src_index: self.cptr,
            src_depth: WORD_BITS,
            rights,
        };
        let outcome = (Capability { cptr: slot.offset, cap_type: self.cap_type }, rest);
        Ok(Pending::new(request, FailureKind::CNodeCopy, outcome))
    }

    /// Sets the capability table and address-space root of a thread. The
    /// table's guard covers the address bits its radix leaves unused.
    pub fn configure(&self, cspace_root: CNode, vspace_root: Capability) -> (r: Pending<()>)
        requires
            self.cap_type == CapType::ThreadControlBlock,
            cspace_root.role == CNodeRole::ChildProcess,
            cspace_root.radix <= WORD_BITS,
            vspace_root.cap_type == CapType::PageDirectory,
        ensures
            r.spec_request() == (KernelRequest::TCBConfigure {
                service: self.cptr,
                fault_ep: 0,
                cspace_root: cspace_root.cptr,
                guard_size: (WORD_BITS - cspace_root.radix) as u8,
                vspace_root: vspace_root.cptr,
            }),
            r.spec_failure() == FailureKind::TCBConfigure,
    {
        let request = KernelRequest::TCBConfigure {
            service: self.cptr,
            fault_ep: 0,
            cspace_root: cspace_root.cptr,
            guard_size: WORD_BITS - cspace_root.radix,
            vspace_root: vspace_root.cptr,
        };
        Pending::new(request, FailureKind::TCBConfigure, ())
    }

    /// Gives the page directory `vspace` an address-space identifier from
    /// this pool.
    pub fn assign(&self, vspace: &Capability) -> (r: Pending<()>)
        requires
            self.cap_type == CapType::ASIDPool,
            vspace.cap_type == CapType::PageDirectory,
        ensures
            r.spec_request() == (KernelRequest::ASIDPoolAssign {
                service: self.cptr,
                vspace: vspace.cptr,
            }),
            r.spec_failure() == FailureKind::ASIDPoolAssign,
    {
        let request = KernelRequest::ASIDPoolAssign { service: self.cptr, vspace: vspace.cptr };
        Pending::new(request, FailureKind::ASIDPoolAssign, ())
    }

    /// Installs `page_table` in this page directory at `virtual_address`.
    pub fn map_page_table(&self, page_table: &Capability, virtual_address: usize) -> (r: Pending<()>)
        requires
            self.cap_type == CapType::PageDirectory,
            page_table.cap_type == CapType::PageTable,
        ensures
            r.spec_request() == (KernelRequest::PageTableMap {
                page_table: page_table.cptr,
                page_directory: self.cptr,
                vaddr: virtual_address,
            }),
            r.spec_failure() == FailureKind::MapPageTable,
    {
        let request = KernelRequest::PageTableMap {
            page_table: page_table.cptr,
            page_directory: self.cptr,
            vaddr: virtual_address,
        };
        Pending::new(request, FailureKind::MapPageTable, ())
    }

    /// Installs `page`, readable and writable, in this page directory at
    /// `virtual_address`.
    pub fn map_page(&self, page: &Capability, virtual_address: usize) -> (r: Pending<()>)
        requires
            self.cap_type == CapType::PageDirectory,
            page.cap_type == CapType::Page,
        ensures
            r.spec_request() == (KernelRequest::PageMap {
                page: page.cptr,
                page_directory: self.cptr,
                vaddr: virtual_address,
                rights: CapRights { read: true, write: true, grant: false },
            }),
            r.spec_failure() == FailureKind::MapPage,
    {
        let request = KernelRequest::PageMap {
            page: page.cptr,
            page_directory: self.cptr,
            vaddr: virtual_address,
            rights: CapRights { read: true, write: true, grant: false },
        };
        Pending::new(request, FailureKind::MapPage, ())
    }
}

/// A handle to the untyped block in slot `cptr` whose boot-time descriptor
/// gives `desc_size_bits`, if that is the size the caller expects.
pub fn wrap_untyped(cptr: usize, desc_size_bits: u8, bit_size: u8) -> (r: Option<Capability>)
    ensures
        desc_size_bits == bit_size ==> r == Some(
            Capability { cptr, cap_type: CapType::Untyped { size_bits: bit_size } },
        ),
        desc_size_bits != bit_size ==> r is None,
{
    if desc_size_bits == bit_size {
        Some(Capability { cptr, cap_type: CapType::Untyped { size_bits: bit_size } })
    } else {
        None
    }
}

/// Reserving `count` slots of a table view yields a view of exactly `count`
/// slots and one of the remaining slots; no slot is in both and together
/// they hold exactly the slots of the view they came from.
pub proof fn lemma_reserve_region_partition(table: CNode, count: usize)
    requires
        table.wf(),
        count <= table.free_slots,
    ensures
        table.spec_first(count as nat).free_slots == count,
        table.spec_after(count as nat).free_slots == table.free_slots - count,
        table.spec_first(count as nat).wf(),
        table.spec_after(count as nat).wf(),
        forall|s: int|
            !(#[trigger] table.spec_first(count as nat).holds(s) && table.spec_after(
                count as nat,
            ).holds(s)),
        forall|s: int|
            #[trigger] table.holds(s) <==> (table.spec_first(count as nat).holds(s)
                || table.spec_after(count as nat).holds(s)),
{
}

/// After an untyped block of `2^n` bytes is split, each half can be retyped
/// into any fixed-size object of at most `2^(n-1)` bytes: the ledger admits
/// retyping the first half with the table left by the split, and the second
/// half with the table left after that.
pub proof fn lemma_split_then_retype(ut: Capability, dest: CNode, target: CapType)
    requires
        ut.is_untyped(),
        ut.wf(),
        ut.bits() >= MIN_UNTYPED_SIZE_BITS + 1,
        dest.wf(),
        dest.free_slots >= 3,
        target.is_fixed_size(),
        target.spec_fixed_size_bits()->0 <= ut.bits() - 1,
    ensures
        ({
            let half = CapType::Untyped { size_bits: (ut.bits() - 1) as u8 };
            let first = Capability { cptr: ut.cptr, cap_type: half };
            let second = Capability { cptr: dest.next_free_slot, cap_type: half };
            &&& first.wf() && second.wf()
            &&& first.retype_admitted(dest.spec_after(1), target)
            &&& second.retype_admitted(dest.spec_after(1).spec_after(1), target)
            &&& dest.spec_after(1).wf()
            &&& dest.spec_after(1).spec_after(1).wf()
        }),
{
}

} // verus!
