//! A buddy allocator over untyped memory: a request for a block of a given
//! size is served by halving the smallest free block that is large enough,
//! keeping the other halves for later requests.
//!
//! Free blocks are kept in a table with one entry per size the kernel
//! supports; halving one block leaves at most one free block of each
//! smaller size, so the table never needs to grow.
use vstd::prelude::*;

use crate::cap::{
    CNode, CNodeRole, CapType, Capability, Error, MAX_UNTYPED_SIZE_BITS, MIN_UNTYPED_SIZE_BITS,
};
use crate::request::KernelRequest;

verus! {

/// Number of untyped sizes, and so of entries in the table.
pub const SIZE_CLASSES: usize = 26;

/// Free untyped blocks: `pieces[i]` is the slot of a free block of
/// `MIN_UNTYPED_SIZE_BITS + i` bits, if there is one.
pub struct UntypedBuddy {
    pieces: Vec<Option<usize>>,
}

/// The table entry for blocks of `bits` bits.
pub open spec fn class_of(bits: int) -> int {
    bits - MIN_UNTYPED_SIZE_BITS
}

impl UntypedBuddy {
    pub closed spec fn spec_pieces(&self) -> Seq<Option<usize>> {
        self.pieces@
    }

    pub open spec fn wf(&self) -> bool {
        self.spec_pieces().len() == SIZE_CLASSES
    }

    /// Whether a free block of at least `bits` bits is in the table.
    pub open spec fn can_serve(&self, bits: int) -> bool {
        exists|i: int|
            class_of(bits) <= i < SIZE_CLASSES && #[trigger] self.spec_pieces()[i] is Some
    }

    /// The table with only the block `root`.
    pub fn new(root: Capability) -> (r: UntypedBuddy)
        requires
            root.is_untyped(),
            root.wf(),
        ensures
            r.wf(),
            forall|i: int|
                0 <= i < SIZE_CLASSES ==> #[trigger] r.spec_pieces()[i] == if i == class_of(
                    root.bits(),
                ) {
                    Some(root.cptr)
                } else {
                    None
                },
    {
        let class = (match root.cap_type {
            CapType::Untyped { size_bits } => size_bits,
            _ => MIN_UNTYPED_SIZE_BITS,
        } - MIN_UNTYPED_SIZE_BITS) as usize;
        let mut pieces: Vec<Option<usize>> = Vec::new();
        let mut i: usize = 0;
        while i < SIZE_CLASSES
            invariant
                i <= SIZE_CLASSES,
                class < SIZE_CLASSES,
                class == class_of(root.bits()),
                pieces@.len() == i,
                forall|j: int|
                    0 <= j < i ==> #[trigger] pieces@[j] == if j == class {
                        Some(root.cptr)
                    } else {
                        None
                    },
            decreases SIZE_CLASSES - i,
        {
            if i == class {
                pieces.push(Some(root.cptr));
            } else {
                pieces.push(None);
            }
            i = i + 1;
        }
        UntypedBuddy { pieces }
    }

    /// The free block of the given table entry, if any.
    pub fn piece(&self, class: usize) -> (r: Option<usize>)
        requires
            self.wf(),
            class < SIZE_CLASSES,
        ensures
            r == self.spec_pieces()[class as int],
    {
        self.pieces[class]
    }

    /// Starts serving a request for a block of `bits` bits: takes the
    /// smallest free block that is large enough out of the table. Fails
    /// when there is none, or when `slots` cannot hold the new halves (one
    /// per halving); the table is then unchanged.
    pub fn take(&mut self, bits: u8, slots: CNode) -> (r: Result<BuddyJob, Error>)
        requires
            old(self).wf(),
            MIN_UNTYPED_SIZE_BITS <= bits <= MAX_UNTYPED_SIZE_BITS,
            slots.wf(),
            slots.role == CNodeRole::CSpaceRoot,
        ensures
            final(self).wf(),
            !old(self).can_serve(bits as int) ==> {
                &&& r == Err::<BuddyJob, Error>(Error::UntypedTooSmall)
                &&& final(self).spec_pieces() == old(self).spec_pieces()
            },
            old(self).can_serve(bits as int) ==> exists|i: int|
                {
                    &&& class_of(bits as int) <= i < SIZE_CLASSES
                    &&& #[trigger] old(self).spec_pieces()[i] is Some
                    &&& forall|j: int|
                        class_of(bits as int) <= j < i ==> old(self).spec_pieces()[j] is None
                    &&& slots.free_slots < i - class_of(bits as int) ==> {
                        &&& r == Err::<BuddyJob, Error>(Error::InsufficientSlots)
                        &&& final(self).spec_pieces() == old(self).spec_pieces()
                    }
                    &&& slots.free_slots >= i - class_of(bits as int) ==> {
                        &&& r is Ok
                        &&& final(self).spec_pieces() == old(self).spec_pieces().update(i, None)
                        &&& r->Ok_0.spec_cptr() == old(self).spec_pieces()[i]->Some_0
                        &&& r->Ok_0.spec_class() == i
                        &&& r->Ok_0.spec_target() == class_of(bits as int)
                        &&& r->Ok_0.spec_slots() == slots
                        &&& r->Ok_0.inv(&*final(self))
                    }
                },
    {
        let target = (bits - MIN_UNTYPED_SIZE_BITS) as usize;
        let mut i: usize = target;
        while i < SIZE_CLASSES && self.pieces[i].is_none()
            invariant
                self.wf(),
                target <= i <= SIZE_CLASSES,
                target == class_of(bits as int),
                forall|j: int| target <= j < i ==> self.spec_pieces()[j] is None,
            decreases SIZE_CLASSES - i,
        {
            i = i + 1;
        }
        if i == SIZE_CLASSES {
            return Err(Error::UntypedTooSmall);
        }
        assert(self.spec_pieces()[i as int] is Some);
        if slots.free_slots < i - target {
            return Err(Error::InsufficientSlots);
        }
        let cptr = match self.pieces[i] {
            Some(c) => c,
            None => 0,
        };
        self.pieces.set(i, None);
        Ok(BuddyJob { cptr, class: i, target, slots })
    }
}

/// A block being halved down to the requested size. The block in slot
/// `cptr` is of table entry `class`; each halving keeps the first half in
/// that slot and returns the second half to the table.
pub struct BuddyJob {
    cptr: usize,
    class: usize,
    target: usize,
    slots: CNode,
}

impl BuddyJob {
    pub closed spec fn spec_cptr(&self) -> usize {
        self.cptr
    }

    pub closed spec fn spec_class(&self) -> int {
        self.class as int
    }

    pub closed spec fn spec_target(&self) -> int {
        self.target as int
    }

    pub closed spec fn spec_slots(&self) -> CNode {
        self.slots
    }

    pub open spec fn bits(&self) -> int {
        self.spec_class() + MIN_UNTYPED_SIZE_BITS
    }

    /// The job fits the table: the entries it will fill are empty and it
    /// has a slot for each halving still to come.
    pub open spec fn inv(&self, buddy: &UntypedBuddy) -> bool {
        &&& buddy.wf()
        &&& 0 <= self.spec_target() <= self.spec_class() < SIZE_CLASSES
        &&& self.spec_slots().wf()
        &&& self.spec_slots().role == CNodeRole::CSpaceRoot
        &&& self.spec_slots().free_slots >= self.spec_class() - self.spec_target()
        &&& forall|j: int|
            self.spec_target() <= j < self.spec_class() ==> buddy.spec_pieces()[j] is None
    }

    pub open spec fn is_done(&self) -> bool {
        self.spec_class() == self.spec_target()
    }

    /// The next halving, or `None` once the block has the requested size.
    pub fn request(&self) -> (r: Option<KernelRequest>)
        requires
            0 <= self.spec_target() <= self.spec_class() < SIZE_CLASSES,
        ensures
            self.is_done() <==> r is None,
            !self.is_done() ==> r == Some(
                KernelRequest::UntypedRetype {
                    service: self.spec_cptr(),
                    object: CapType::Untyped { size_bits: (self.bits() - 1) as u8 },
                    size_bits: (self.bits() - 1) as u8,
                    root: self.spec_slots().cptr,
                    index: 0,
                    depth: 0,
                    offset: self.spec_slots().next_free_slot,
                    num_objects: 1,
                },
            ),
    {
        if self.class == self.target {
            return None;
        }
        let half = (self.class + MIN_UNTYPED_SIZE_BITS as usize - 1) as u8;
        Some(
            KernelRequest::UntypedRetype {
                service: self.cptr,
                object: CapType::Untyped { size_bits: half },
                size_bits: half,
                root: self.slots.cptr,
                index: 0,
                depth: 0,
                offset: self.slots.next_free_slot,
                num_objects: 1,
            },
        )
    }

    /// Advances with the status of the halving `request()` described. On
    /// success the second half goes into the table; on failure the block
    /// and the slot are spent and the error carries the status.
    pub fn on_status(&mut self, status: u32, buddy: &mut UntypedBuddy) -> (r: Result<(), Error>)
        requires
            old(self).inv(&*old(buddy)),
            !old(self).is_done(),
        ensures
            final(buddy).wf(),
            status != 0 ==> {
                &&& r == Err::<(), Error>(Error::UntypedRetype(status))
                &&& final(buddy).spec_pieces() == old(buddy).spec_pieces()
            },
            status == 0 ==> {
                &&& r is Ok
                &&& final(buddy).spec_pieces() == old(buddy).spec_pieces().update(
                    old(self).spec_class() - 1,
                    Some(old(self).spec_slots().next_free_slot),
                )
                &&& final(self).spec_class() == old(self).spec_class() - 1
                &&& final(self).spec_cptr() == old(self).spec_cptr()
                &&& final(self).spec_target() == old(self).spec_target()
                &&& final(self).spec_slots() == old(self).spec_slots().spec_after(1)
                &&& final(self).inv(&*final(buddy))
            },
    {
        if status != 0 {
            return Err(Error::UntypedRetype(status));
        }
        let second = self.slots.next_free_slot;
        buddy.pieces.set(self.class - 1, Some(second));
        self.class = self.class - 1;
        self.slots = CNode {
            radix: self.slots.radix,
            next_free_slot: self.slots.next_free_slot + 1,
            cptr: self.slots.cptr,
            free_slots: self.slots.free_slots - 1,
            role: self.slots.role,
        };
        Ok(())
    }

    /// The block of the requested size, and the slots left over.
    pub fn finish(self) -> (r: (Capability, CNode))
        requires
            self.is_done(),
            0 <= self.spec_target() < SIZE_CLASSES,
        ensures
            r.0 == (Capability {
                cptr: self.spec_cptr(),
                cap_type: CapType::Untyped { size_bits: self.bits() as u8 },
            }),
            r.1 == self.spec_slots(),
    {
        let bits = (self.class + MIN_UNTYPED_SIZE_BITS as usize) as u8;
        (Capability { cptr: self.cptr, cap_type: CapType::Untyped { size_bits: bits } }, self.slots)
    }
}

} // verus!
