//! The virtual address space of a process: memory regions, the cursor of
//! the next free address, and mapping and unmapping of whole regions.
//!
//! Each region operation is a job that issues one kernel call at a time:
//! the caller performs `request` and feeds the status back, until the job
//! yields its region or an error.
use vstd::prelude::*;

use crate::cap::{
    lemma_two_pow_add, lemma_two_pow_positive, two_pow, two_pow_usize,
    CNode, CNodeRole, CapRights, CapType, Capability, Error, MAX_UNTYPED_SIZE_BITS, PAGE_BITS,
    WORD_BITS,
};
use crate::paging::{spec_next, Arch, MapJob, MappingError, PagingSupply, Phase};
use crate::request::{FailureKind, KernelRequest, Pending};

verus! {

/// Bytes in one page.
pub const PAGE_BYTES: usize = 4096;

/// Whether a region's pages may be copied into other address spaces.
#[derive(Debug, Clone, Copy, PartialEq, Eq, Structural)]
pub enum SharedStatus {
    Shared,
    Exclusive,
}

/// Whether an address space has its code image mapped yet.
#[derive(Debug, Clone, Copy, PartialEq, Eq, Structural)]
pub enum VSpaceState {
    Empty,
    Imaged,
}

/// Failures of address-space operations.
#[derive(Debug, PartialEq, Eq, Structural)]
pub enum VSpaceError {
    MappingError(MappingError),
    RetypeRegion(Error),
    /// A kernel call failed with this status.
    SeL4Error(u32),
    InsufficientCNodeSlots,
    ExceededAvailableAddressSpace,
}

/// How a failed chain mapping is reported.
pub open spec fn spec_mapping_failure(e: MappingError) -> VSpaceError {
    match e {
        MappingError::PageMapFailure(s) => VSpaceError::SeL4Error(s),
        MappingError::IntermediateLayerFailure(s) => VSpaceError::SeL4Error(s),
        _ => VSpaceError::MappingError(e),
    }
}

fn mapping_failure(e: MappingError) -> (r: VSpaceError)
    ensures
        r == spec_mapping_failure(e),
{
    match e {
        MappingError::PageMapFailure(s) => VSpaceError::SeL4Error(s),
        MappingError::IntermediateLayerFailure(s) => VSpaceError::SeL4Error(s),
        _ => VSpaceError::MappingError(e),
    }
}

/// Pages in a region of `2^size_bits` bytes.
pub open spec fn spec_page_count(size_bits: u8) -> nat {
    two_pow((size_bits - PAGE_BITS) as nat)
}

proof fn lemma_region_bytes(size_bits: u8)
    requires
        PAGE_BITS <= size_bits,
    ensures
        two_pow(size_bits as nat) == spec_page_count(size_bits) * PAGE_BYTES,
        spec_page_count(size_bits) >= 1,
{
    lemma_two_pow_add((size_bits - PAGE_BITS) as nat, PAGE_BITS as nat);
    reveal_with_fuel(two_pow, 13);
    assert(two_pow(12) == 4096);
    lemma_two_pow_positive((size_bits - PAGE_BITS) as nat);
}

/// A page capability, unmapped or mapped at an address of an address
/// space.
#[derive(Debug, Clone, Copy, PartialEq, Eq, Structural)]
pub struct Page {
    pub cptr: usize,
    pub state: PageState,
}

#[derive(Debug, Clone, Copy, PartialEq, Eq, Structural)]
pub enum PageState {
    Unmapped,
    Mapped { vaddr: usize, asid: u32 },
}

impl Page {
    /// The address a mapped page is mapped at.
    pub fn vaddr(&self) -> (r: usize)
        requires
            self.state is Mapped,
        ensures
            r == self.state->vaddr,
    {
        match self.state {
            PageState::Mapped { vaddr, .. } => vaddr,
            PageState::Unmapped => 0,
        }
    }
}

/// `2^size_bits` bytes of unmapped memory: the page capabilities in the
/// consecutive slots from `start_cptr`.
#[derive(Debug, PartialEq, Eq, Structural)]
pub struct UnmappedMemoryRegion {
    start_cptr: usize,
    size_bits: u8,
    status: SharedStatus,
}

impl UnmappedMemoryRegion {
    pub closed spec fn spec_start(&self) -> usize {
        self.start_cptr
    }

    pub closed spec fn spec_size_bits(&self) -> u8 {
        self.size_bits
    }

    pub closed spec fn spec_status(&self) -> SharedStatus {
        self.status
    }

    pub open spec fn spec_pages(&self) -> nat {
        spec_page_count(self.spec_size_bits())
    }

    pub open spec fn wf(&self) -> bool {
        &&& PAGE_BITS <= self.spec_size_bits() <= MAX_UNTYPED_SIZE_BITS
        &&& self.spec_start() + self.spec_pages() <= usize::MAX
    }

    /// Whether this region holds the pages of the mapped region `m`.
    pub open spec fn unmapped_from(&self, m: &MappedMemoryRegion) -> bool {
        &&& self.spec_start() == m.spec_start()
        &&& self.spec_size_bits() == m.spec_size_bits()
        &&& self.spec_status() == m.spec_status()
    }

    /// Retypes an untyped block into pages, one per free slot of `slots`
    /// from the first on, as an exclusive region of the same size.
    pub fn new(ut: Capability, slots: CNode) -> (r: Result<
        Pending<(UnmappedMemoryRegion, CNode)>,
        VSpaceError,
    >)
        requires
            ut.is_untyped(),
            ut.wf(),
            ut.bits() >= PAGE_BITS,
            slots.wf(),
            slots.role == CNodeRole::CSpaceRoot,
        ensures
            ({
                let n = spec_page_count(ut.bits() as u8);
                &&& slots.free_slots < n ==> r == Err::<
                    Pending<(UnmappedMemoryRegion, CNode)>,
                    VSpaceError,
                >(VSpaceError::RetypeRegion(Error::InsufficientSlots))
                &&& slots.free_slots >= n ==> {
                    &&& r is Ok
                    &&& r->Ok_0.spec_request() == (KernelRequest::UntypedRetype {
                        service: ut.cptr,
                        object: CapType::Page,
                        size_bits: 0,
                        root: slots.cptr,
                        index: 0,
                        depth: 0,
                        offset: slots.next_free_slot,
                        num_objects: n as usize,
                    })
                    &&& r->Ok_0.spec_failure() == FailureKind::UntypedRetype
                    &&& r->Ok_0.spec_outcome().0.spec_start() == slots.next_free_slot
                    &&& r->Ok_0.spec_outcome().0.spec_size_bits() == ut.bits()
                    &&& r->Ok_0.spec_outcome().0.spec_status() == SharedStatus::Exclusive
                    &&& r->Ok_0.spec_outcome().0.wf()
                    &&& r->Ok_0.spec_outcome().1 == slots.spec_after(n)
                }
            }),
    {
        let bits = match ut.cap_type {
            CapType::Untyped { size_bits } => size_bits,
            _ => PAGE_BITS,
        };
        let count = two_pow_usize(bits - PAGE_BITS);
        if slots.free_slots < count {
            return Err(VSpaceError::RetypeRegion(Error::InsufficientSlots));
        }
        let request = KernelRequest::UntypedRetype {
            service: ut.cptr,
            object: CapType::Page,
            size_bits: 0,
            root: slots.cptr,
            index: 0,
            depth: 0,
            offset: slots.next_free_slot,
            num_objects: count,
        };
        let region = UnmappedMemoryRegion {
            start_cptr: slots.next_free_slot,
            size_bits: bits,
            status: SharedStatus::Exclusive,
        };
        let rest = CNode {
            radix: slots.radix,
            next_free_slot: slots.next_free_slot + count,
            cptr: slots.cptr,
            free_slots: slots.free_slots - count,
            role: slots.role,
        };
        Ok(Pending::new(request, FailureKind::UntypedRetype, (region, rest)))
    }

    /// The single page `page` as a region of one page.
    pub fn from_page(page: Capability) -> (r: UnmappedMemoryRegion)
        requires
            page.cap_type == CapType::Page,
            page.cptr < usize::MAX,
        ensures
            r.wf(),
            r.spec_start() == page.cptr,
            r.spec_size_bits() == PAGE_BITS,
            r.spec_status() == SharedStatus::Exclusive,
            r.spec_pages() == 1,
    {
        proof {
            lemma_region_bytes(PAGE_BITS);
            assert(spec_page_count(PAGE_BITS) == two_pow(0));
        }
        UnmappedMemoryRegion { start_cptr: page.cptr, size_bits: PAGE_BITS, status: SharedStatus::Exclusive }
    }

    pub fn start_cptr(&self) -> (r: usize)
        ensures
            r == self.spec_start(),
    {
        self.start_cptr
    }

    pub fn size_bits(&self) -> (r: u8)
        ensures
            r == self.spec_size_bits(),
    {
        self.size_bits
    }

    pub fn status(&self) -> (r: SharedStatus)
        ensures
            r == self.spec_status(),
    {
        self.status
    }

    /// Number of pages in the region.
    pub fn page_count(&self) -> (r: usize)
        requires
            self.wf(),
        ensures
            r == self.spec_pages(),
    {
        two_pow_usize(self.size_bits - PAGE_BITS)
    }

    /// Size of the region in bytes.
    pub fn size(&self) -> (r: usize)
        requires
            self.wf(),
        ensures
            r == two_pow(self.spec_size_bits() as nat),
            r == self.spec_pages() * PAGE_BYTES,
    {
        proof {
            lemma_region_bytes(self.size_bits);
        }
        two_pow_usize(self.size_bits)
    }

    /// Makes an exclusive region shared, so that its pages can be copied
    /// into other address spaces. There is no way back.
    pub fn to_shared(self) -> (r: UnmappedMemoryRegion)
        requires
            self.spec_status() == SharedStatus::Exclusive,
        ensures
            r.spec_start() == self.spec_start(),
            r.spec_size_bits() == self.spec_size_bits(),
            r.spec_status() == SharedStatus::Shared,
    {
        UnmappedMemoryRegion { start_cptr: self.start_cptr, size_bits: self.size_bits, status: SharedStatus::Shared }
    }
}

/// `count` consecutive page capabilities from `initial_cptr`, mapped at
/// consecutive pages from `initial_vaddr` in the address space `asid`.
#[derive(Debug, PartialEq, Eq, Structural)]
pub struct MappedPageRange {
    initial_cptr: usize,
    initial_vaddr: usize,
    asid: u32,
    count: usize,
}

impl MappedPageRange {
    pub closed spec fn spec_initial_cptr(&self) -> usize {
        self.initial_cptr
    }

    pub closed spec fn spec_initial_vaddr(&self) -> usize {
        self.initial_vaddr
    }

    pub closed spec fn spec_asid(&self) -> u32 {
        self.asid
    }

    pub closed spec fn spec_count(&self) -> usize {
        self.count
    }

    pub open spec fn wf(&self) -> bool {
        &&& self.spec_initial_cptr() + self.spec_count() <= usize::MAX
        &&& self.spec_initial_vaddr() + self.spec_count() * PAGE_BYTES <= usize::MAX
    }

    /// Size of the range in bytes.
    pub fn size(&self) -> (r: usize)
        requires
            self.wf(),
        ensures
            r == self.spec_count() * PAGE_BYTES,
    {
        proof {
            assert(self.count * PAGE_BYTES <= usize::MAX);
        }
        self.count * PAGE_BYTES
    }

    /// The mapped pages, in order.
    pub fn iter(&self) -> (r: Vec<Page>)
        requires
            self.wf(),
        ensures
            r@.len() == self.spec_count(),
            forall|i: int|
                0 <= i < self.spec_count() ==> #[trigger] r@[i] == (Page {
                    cptr: (self.spec_initial_cptr() + i) as usize,
                    state: PageState::Mapped {
                        vaddr: (self.spec_initial_vaddr() + i * PAGE_BYTES) as usize,
                        asid: self.spec_asid(),
                    },
                }),
    {
        let mut pages: Vec<Page> = Vec::new();
        let mut i: usize = 0;
        while i < self.count
            invariant
                self.wf(),
                i <= self.count,
                pages@.len() == i,
                forall|j: int|
                    0 <= j < i ==> #[trigger] pages@[j] == (Page {
                        cptr: (self.initial_cptr + j) as usize,
                        state: PageState::Mapped {
                            vaddr: (self.initial_vaddr + j * PAGE_BYTES) as usize,
                            asid: self.asid,
                        },
                    }),
            decreases self.count - i,
        {
            proof {
                assert(i * PAGE_BYTES <= self.count * PAGE_BYTES) by (nonlinear_arith)
                    requires
                        i <= self.count,
                ;
            }
            let vaddr = self.initial_vaddr + i * PAGE_BYTES;
            pages.push(
                Page {
                    cptr: self.initial_cptr + i,
                    state: PageState::Mapped { vaddr, asid: self.asid },
                },
            );
            i = i + 1;
        }
        pages
    }
}

/// A region mapped into an address space: its pages hold consecutive
/// addresses from `vaddr` in the address space `asid`.
#[derive(Debug, PartialEq, Eq, Structural)]
pub struct MappedMemoryRegion {
    vaddr: usize,
    caps: MappedPageRange,
    asid: u32,
    size_bits: u8,
    status: SharedStatus,
}

impl MappedMemoryRegion {
    pub closed spec fn spec_vaddr(&self) -> usize {
        self.vaddr
    }

    pub closed spec fn spec_caps(&self) -> MappedPageRange {
        self.caps
    }

    pub closed spec fn spec_asid(&self) -> u32 {
        self.asid
    }

    pub closed spec fn spec_size_bits(&self) -> u8 {
        self.size_bits
    }

    pub closed spec fn spec_status(&self) -> SharedStatus {
        self.status
    }

    pub open spec fn spec_start(&self) -> usize {
        self.spec_caps().spec_initial_cptr()
    }

    pub open spec fn spec_pages(&self) -> nat {
        spec_page_count(self.spec_size_bits())
    }

    pub open spec fn wf(&self) -> bool {
        &&& PAGE_BITS <= self.spec_size_bits() <= MAX_UNTYPED_SIZE_BITS
        &&& self.spec_caps().wf()
        &&& self.spec_caps().spec_count() == self.spec_pages()
        &&& self.spec_caps().spec_initial_vaddr() == self.spec_vaddr()
        &&& self.spec_caps().spec_asid() == self.spec_asid()
    }

    /// Whether this is the region `r` mapped at `vaddr` in the address
    /// space `asid`.
    pub open spec fn maps(&self, r: &UnmappedMemoryRegion, vaddr: usize, asid: u32) -> bool {
        &&& self.wf()
        &&& self.spec_vaddr() == vaddr
        &&& self.spec_asid() == asid
        &&& self.spec_start() == r.spec_start()
        &&& self.spec_size_bits() == r.spec_size_bits()
        &&& self.spec_status() == r.spec_status()
    }

    pub fn vaddr(&self) -> (r: usize)
        ensures
            r == self.spec_vaddr(),
    {
        self.vaddr
    }

    pub fn asid(&self) -> (r: u32)
        ensures
            r == self.spec_asid(),
    {
        self.asid
    }

    pub fn status(&self) -> (r: SharedStatus)
        ensures
            r == self.spec_status(),
    {
        self.status
    }

    pub fn size_bits(&self) -> (r: u8)
        ensures
            r == self.spec_size_bits(),
    {
        self.size_bits
    }

    /// Size of the region in bytes.
    pub fn size(&self) -> (r: usize)
        requires
            self.wf(),
        ensures
            r == self.spec_pages() * PAGE_BYTES,
    {
        self.caps.size()
    }

    /// The mapped pages, in order.
    pub fn pages(&self) -> (r: Vec<Page>)
        requires
            self.wf(),
        ensures
            r@.len() == self.spec_pages(),
            forall|i: int|
                0 <= i < self.spec_pages() ==> #[trigger] r@[i] == (Page {
                    cptr: (self.spec_start() + i) as usize,
                    state: PageState::Mapped {
                        vaddr: (self.spec_vaddr() + i * PAGE_BYTES) as usize,
                        asid: self.spec_asid(),
                    },
                }),
    {
        self.caps.iter()
    }
}

/// The address space of one process: its root structure, identifier,
/// paging layout, the next free virtual address, and the supply from
/// which missing intermediate structures are built.
#[derive(Debug)]
pub struct VSpace {
    root: usize,
    asid: u32,
    arch: Arch,
    next_addr: usize,
    supply: PagingSupply,
    state: VSpaceState,
}

impl VSpace {
    pub closed spec fn spec_root(&self) -> usize {
        self.root
    }

    pub closed spec fn spec_asid(&self) -> u32 {
        self.asid
    }

    pub closed spec fn spec_arch(&self) -> Arch {
        self.arch
    }

    pub closed spec fn spec_next_addr(&self) -> usize {
        self.next_addr
    }

    pub closed spec fn spec_supply(&self) -> PagingSupply {
        self.supply
    }

    pub closed spec fn spec_state(&self) -> VSpaceState {
        self.state
    }

    pub open spec fn wf(&self) -> bool {
        self.spec_supply().wf()
    }

    /// Whether `self` is `before` with the cursor moved on by `count` pages.
    pub open spec fn skipped(&self, before: &VSpace, count: nat) -> bool {
        &&& self.spec_next_addr() == before.spec_next_addr() + count * PAGE_BYTES
        &&& self.same_space(before)
        &&& self.spec_supply() == before.spec_supply()
    }

    /// Whether `self` and `other` are the same address space.
    pub open spec fn same_space(&self, other: &VSpace) -> bool {
        &&& self.spec_root() == other.spec_root()
        &&& self.spec_asid() == other.spec_asid()
        &&& self.spec_arch() == other.spec_arch()
        &&& self.spec_state() == other.spec_state()
    }

    /// Takes a fresh address-space root into use: it is given the
    /// identifier `asid` from the pool `asid_pool`. Intermediate structures
    /// will be built from `paging_untyped`, of which `paging_bytes` bytes are
    /// free, into `slots`.
    pub fn new(
        root_cap: Capability,
        asid_pool: &Capability,
        asid: u32,
        arch: Arch,
        slots: CNode,
        paging_untyped: usize,
        paging_bytes: usize,
    ) -> (r: Pending<VSpace>)
        requires
            asid_pool.cap_type == CapType::ASIDPool,
            slots.wf(),
        ensures
            r.spec_request() == (KernelRequest::ASIDPoolAssign {
                service: asid_pool.cptr,
                vspace: root_cap.cptr,
            }),
            r.spec_failure() == FailureKind::ASIDPoolAssign,
            r.spec_outcome().wf(),
            r.spec_outcome().spec_root() == root_cap.cptr,
            r.spec_outcome().spec_asid() == asid,
            r.spec_outcome().spec_arch() == arch,
            r.spec_outcome().spec_next_addr() == 0,
            r.spec_outcome().spec_supply() == (PagingSupply {
                untyped: paging_untyped,
                free_bytes: paging_bytes,
                slots,
            }),
            r.spec_outcome().spec_state() == VSpaceState::Empty,
    {
        let request = KernelRequest::ASIDPoolAssign { service: asid_pool.cptr, vspace: root_cap.cptr };
        let vspace = VSpace {
            root: root_cap.cptr,
            asid,
            arch,
            next_addr: 0,
            supply: PagingSupply { untyped: paging_untyped, free_bytes: paging_bytes, slots },
            state: VSpaceState::Empty,
        };
        Pending::new(request, FailureKind::ASIDPoolAssign, vspace)
    }

    /// The root task's own address space, whose code is already mapped and
    /// whose free addresses begin at `next_addr`. It has nothing from which
    /// to build intermediate structures.
    pub fn bootstrap(root_vspace_cptr: usize, next_addr: usize, root_cnode_cptr: usize, asid: u32, arch: Arch) -> (r: VSpace)
        ensures
            r.wf(),
            r.spec_root() == root_vspace_cptr,
            r.spec_asid() == asid,
            r.spec_arch() == arch,
            r.spec_next_addr() == next_addr,
            r.spec_supply().free_bytes == 0,
            r.spec_supply().slots.free_slots == 0,
            r.spec_supply().slots.cptr == root_cnode_cptr,
            r.spec_state() == VSpaceState::Imaged,
    {
        VSpace {
            root: root_vspace_cptr,
            asid,
            arch,
            next_addr,
            supply: PagingSupply {
                untyped: 0,
                free_bytes: 0,
                slots: CNode {
                    radix: 0,
                    next_free_slot: 0,
                    cptr: root_cnode_cptr,
                    free_slots: 0,
                    role: CNodeRole::CSpaceRoot,
                },
            },
            state: VSpaceState::Imaged,
        }
    }

    /// This address space's identifier.
    pub fn asid(&self) -> (r: u32)
        ensures
            r == self.spec_asid(),
    {
        self.asid
    }

    /// The slot of this address space's root structure.
    pub fn root_cptr(&self) -> (r: usize)
        ensures
            r == self.spec_root(),
    {
        self.root
    }

    /// The address at which the next mapping will be placed.
    pub fn next_addr(&self) -> (r: usize)
        ensures
            r == self.spec_next_addr(),
    {
        self.next_addr
    }

    pub fn state(&self) -> (r: VSpaceState)
        ensures
            r == self.spec_state(),
    {
        self.state
    }

    /// Marks the code image as mapped.
    pub fn set_imaged(&mut self)
        ensures
            final(self).spec_state() == VSpaceState::Imaged,
            final(self).spec_root() == old(self).spec_root(),
            final(self).spec_asid() == old(self).spec_asid(),
            final(self).spec_arch() == old(self).spec_arch(),
            final(self).spec_next_addr() == old(self).spec_next_addr(),
            final(self).spec_supply() == old(self).spec_supply(),
    {
        self.state = VSpaceState::Imaged;
    }

    /// Moves the cursor on by `count` pages without mapping anything, so
    /// that those pages stay unmapped and fault when touched.
    pub fn skip_pages(&mut self, count: usize) -> (r: Result<(), VSpaceError>)
        ensures
            old(self).spec_next_addr() + count * PAGE_BYTES <= usize::MAX ==> {
                &&& r is Ok
                &&& final(self).skipped(old(self), count as nat)
            },
            old(self).spec_next_addr() + count * PAGE_BYTES > usize::MAX ==> {
                &&& r == Err::<(), VSpaceError>(VSpaceError::ExceededAvailableAddressSpace)
                &&& *final(self) == *old(self)
            },
    {
        match count.checked_mul(PAGE_BYTES) {
            Some(bytes) => match self.next_addr.checked_add(bytes) {
                Some(next) => {
                    self.next_addr = next;
                    Ok(())
                },
                None => Err(VSpaceError::ExceededAvailableAddressSpace),
            },
            None => {
                proof {
                    assert(count * PAGE_BYTES > usize::MAX);
                }
                Err(VSpaceError::ExceededAvailableAddressSpace)
            },
        }
    }

    fn begin_mapping(&self, region: UnmappedMemoryRegion, rights: CapRights) -> (r: Result<
        RegionMapping,
        VSpaceError,
    >)
        requires
            self.wf(),
            region.wf(),
        ensures
            self.spec_next_addr() + region.spec_pages() * PAGE_BYTES > usize::MAX ==> r == Err::<
                RegionMapping,
                VSpaceError,
            >(VSpaceError::ExceededAvailableAddressSpace),
            self.spec_next_addr() + region.spec_pages() * PAGE_BYTES <= usize::MAX ==> {
                &&& r is Ok
                &&& r->Ok_0.inv(self)
                &&& r->Ok_0.spec_region() == region
                &&& r->Ok_0.spec_vaddr() == self.spec_next_addr()
                &&& r->Ok_0.spec_rights() == rights
                &&& r->Ok_0.spec_mapped() == 0
            },
    {
        let size = region.size();
        if self.next_addr > usize::MAX - size {
            return Err(VSpaceError::ExceededAvailableAddressSpace);
        }
        proof {
            lemma_region_bytes(region.size_bits);
        }
        let job = MapJob::new(self.arch, region.start_cptr, self.next_addr, self.root, rights);
        Ok(RegionMapping { region, vaddr: self.next_addr, mapped: 0, rights, job })
    }

    /// Starts mapping an exclusive region at the cursor.
    pub fn map_region(&self, region: UnmappedMemoryRegion, rights: CapRights) -> (r: Result<
        RegionMapping,
        VSpaceError,
    >)
        requires
            self.wf(),
            region.wf(),
            region.spec_status() == SharedStatus::Exclusive,
        ensures
            self.spec_next_addr() + region.spec_pages() * PAGE_BYTES > usize::MAX ==> r == Err::<
                RegionMapping,
                VSpaceError,
            >(VSpaceError::ExceededAvailableAddressSpace),
            self.spec_next_addr() + region.spec_pages() * PAGE_BYTES <= usize::MAX ==> {
                &&& r is Ok
                &&& r->Ok_0.inv(self)
                &&& r->Ok_0.spec_region() == region
                &&& r->Ok_0.spec_vaddr() == self.spec_next_addr()
                &&& r->Ok_0.spec_rights() == rights
                &&& r->Ok_0.spec_mapped() == 0
            },
    {
        self.begin_mapping(region, rights)
    }

    /// Starts mapping a shared region at the cursor, giving up the region
    /// itself: no further copies of it can be made.
    pub fn map_shared_region_and_consume(&self, region: UnmappedMemoryRegion, rights: CapRights) -> (r: Result<
        RegionMapping,
        VSpaceError,
    >)
        requires
            self.wf(),
            region.wf(),
            region.spec_status() == SharedStatus::Shared,
        ensures
            self.spec_next_addr() + region.spec_pages() * PAGE_BYTES > usize::MAX ==> r == Err::<
                RegionMapping,
                VSpaceError,
            >(VSpaceError::ExceededAvailableAddressSpace),
            self.spec_next_addr() + region.spec_pages() * PAGE_BYTES <= usize::MAX ==> {
                &&& r is Ok
                &&& r->Ok_0.inv(self)
                &&& r->Ok_0.spec_region() == region
                &&& r->Ok_0.spec_vaddr() == self.spec_next_addr()
                &&& r->Ok_0.spec_rights() == rights
                &&& r->Ok_0.spec_mapped() == 0
            },
    {
        self.begin_mapping(region, rights)
    }

    /// Starts mapping the single page `page` at the cursor.
    pub fn map_given_page(&self, page: Capability, rights: CapRights) -> (r: Result<
        RegionMapping,
        VSpaceError,
    >)
        requires
            self.wf(),
            page.cap_type == CapType::Page,
            page.cptr < usize::MAX,
        ensures
            self.spec_next_addr() + PAGE_BYTES > usize::MAX ==> r == Err::<
                RegionMapping,
                VSpaceError,
            >(VSpaceError::ExceededAvailableAddressSpace),
            self.spec_next_addr() + PAGE_BYTES <= usize::MAX ==> {
                &&& r is Ok
                &&& r->Ok_0.inv(self)
                &&& r->Ok_0.spec_region().spec_start() == page.cptr
                &&& r->Ok_0.spec_region().spec_size_bits() == PAGE_BITS
                &&& r->Ok_0.spec_region().spec_status() == SharedStatus::Exclusive
                &&& r->Ok_0.spec_vaddr() == self.spec_next_addr()
                &&& r->Ok_0.spec_rights() == rights
                &&& r->Ok_0.spec_mapped() == 0
            },
    {
        let region = UnmappedMemoryRegion::from_page(page);
        self.begin_mapping(region, rights)
    }

    /// Advances a region mapping with the status of the call its job asked
    /// for. Each page that the chain finishes mapping moves the cursor on
    /// by one page; after the last one the mapped region is returned. A
    /// failure of the chain ends the mapping with its error.
    pub fn region_step(&mut self, m: &mut RegionMapping, status: u32) -> (r: Result<
        Option<MappedMemoryRegion>,
        VSpaceError,
    >)
        requires
            old(m).inv(old(self)),
        ensures
            final(self).same_space(old(self)),
            ({
                let job = old(m).spec_job();
                let level = job.spec_level();
                let bits = job.spec_arch().spec_granule_bits(level + 1);
                let ok = old(self).spec_supply().admits(bits);
                let (p, _l) = spec_next(job.spec_arch().spec_depth(), level, job.spec_phase(), status, ok);
                let n = old(m).spec_region().spec_pages();
                &&& p is Failed ==> r == Err::<Option<MappedMemoryRegion>, VSpaceError>(
                    spec_mapping_failure(p->Failed_0),
                )
                &&& p is Done && old(m).spec_mapped() + 1 == n ==> {
                    &&& r is Ok && r->Ok_0 is Some
                    &&& r->Ok_0->Some_0.maps(&old(m).spec_region(), old(m).spec_vaddr(), old(self).spec_asid())
                    &&& final(self).spec_next_addr() == old(m).spec_vaddr() + n * PAGE_BYTES
                }
                &&& p is Done && old(m).spec_mapped() + 1 < n ==> {
                    &&& r == Ok::<Option<MappedMemoryRegion>, VSpaceError>(None)
                    &&& final(m).inv(final(self))
                    &&& final(m).spec_mapped() == old(m).spec_mapped() + 1
                    &&& final(self).spec_next_addr() == old(self).spec_next_addr() + PAGE_BYTES
                }
                &&& !(p is Done) && !(p is Failed) ==> {
                    &&& r == Ok::<Option<MappedMemoryRegion>, VSpaceError>(None)
                    &&& final(m).inv(final(self))
                    &&& final(m).spec_mapped() == old(m).spec_mapped()
                    &&& final(self).spec_next_addr() == old(self).spec_next_addr()
                }
                &&& final(m).spec_region() == old(m).spec_region()
                &&& final(m).spec_vaddr() == old(m).spec_vaddr()
                &&& final(m).spec_rights() == old(m).spec_rights()
            }),
    {
        m.job.on_status(status, &mut self.supply);
        match m.job.phase() {
            Phase::Failed(e) => Err(mapping_failure(e)),
            Phase::Done => {
                proof {
                    lemma_region_bytes(m.region.size_bits);
                    assert((m.mapped + 1) * PAGE_BYTES <= m.region.spec_pages() * PAGE_BYTES) by (nonlinear_arith)
                        requires m.mapped + 1 <= m.region.spec_pages();
                    assert((m.mapped + 1) * PAGE_BYTES == m.mapped * PAGE_BYTES + PAGE_BYTES) by (nonlinear_arith);
                }
                self.next_addr = self.next_addr + PAGE_BYTES;
                m.mapped = m.mapped + 1;
                let n = m.region.page_count();
                if m.mapped == n {
                    let caps = MappedPageRange {
                        initial_cptr: m.region.start_cptr,
                        initial_vaddr: m.vaddr,
                        asid: self.asid,
                        count: n,
                    };
                    Ok(
                        Some(
                            MappedMemoryRegion {
                                vaddr: m.vaddr,
                                caps,
                                asid: self.asid,
                                size_bits: m.region.size_bits,
                                status: m.region.status,
                            },
                        ),
                    )
                } else {
                    m.job = MapJob::new(
                        self.arch,
                        m.region.start_cptr + m.mapped,
                        self.next_addr,
                        self.root,
                        m.rights,
                    );
                    Ok(None)
                }
            },
            _ => Ok(None),
        }
    }

    /// Starts unmapping a region, page by page in order. The region comes
    /// back unmapped with its shared status; its addresses are not reused.
    pub fn unmap_region(&self, region: MappedMemoryRegion) -> (r: RegionUnmapping)
        requires
            region.wf(),
        ensures
            r.inv(),
            r.spec_region() == region,
            r.spec_done() == 0,
    {
        proof {
            lemma_region_bytes(region.size_bits);
        }
        RegionUnmapping { region, done: 0 }
    }

    /// Starts copying the page capabilities of a shared region into the
    /// free slots of `slots`, with `rights`; the copies form a new shared
    /// region, which `map_shared_region_and_consume` maps. The source
    /// region stays as it is, to be mapped elsewhere too.
    pub fn map_shared_region(&self, region: &UnmappedMemoryRegion, rights: CapRights, slots: CNode, cnode: &CNode) -> (r: Result<
        RegionCopy,
        VSpaceError,
    >)
        requires
            region.wf(),
            region.spec_status() == SharedStatus::Shared,
            slots.wf(),
        ensures
            slots.free_slots < region.spec_pages() ==> r == Err::<RegionCopy, VSpaceError>(
                VSpaceError::InsufficientCNodeSlots,
            ),
            slots.free_slots >= region.spec_pages() ==> {
                &&& r is Ok
                &&& r->Ok_0.inv()
                &&& r->Ok_0.spec_src_start() == region.spec_start()
                &&& r->Ok_0.spec_src_root() == cnode.cptr
                &&& r->Ok_0.spec_dest_start() == slots.next_free_slot
                &&& r->Ok_0.spec_dest_root() == slots.cptr
                &&& r->Ok_0.spec_size_bits() == region.spec_size_bits()
                &&& r->Ok_0.spec_rights() == rights
                &&& r->Ok_0.spec_done() == 0
            },
    {
        let n = region.page_count();
        if slots.free_slots < n {
            return Err(VSpaceError::InsufficientCNodeSlots);
        }
        proof {
            lemma_region_bytes(region.size_bits);
        }
        Ok(
            RegionCopy {
                src_start: region.start_cptr,
                src_root: cnode.cptr,
                dest_start: slots.next_free_slot,
                dest_root: slots.cptr,
                size_bits: region.size_bits,
                rights,
                done: 0,
            },
        )
    }
}

/// A region being mapped page by page at consecutive addresses from
/// `vaddr`; `mapped` pages are done and `job` maps the next one.
pub struct RegionMapping {
    region: UnmappedMemoryRegion,
    vaddr: usize,
    mapped: usize,
    rights: CapRights,
    job: MapJob,
}

impl RegionMapping {
    pub closed spec fn spec_region(&self) -> UnmappedMemoryRegion {
        self.region
    }

    pub closed spec fn spec_vaddr(&self) -> usize {
        self.vaddr
    }

    pub closed spec fn spec_mapped(&self) -> usize {
        self.mapped
    }

    pub closed spec fn spec_rights(&self) -> CapRights {
        self.rights
    }

    pub closed spec fn spec_job(&self) -> MapJob {
        self.job
    }

    /// The mapping is in progress in the address space `vs`: the cursor
    /// stands at the page being mapped and the whole region fits.
    pub closed spec fn inv(&self, vs: &VSpace) -> bool {
        &&& vs.wf()
        &&& self.region.wf()
        &&& self.mapped < self.region.spec_pages()
        &&& self.vaddr + self.region.spec_pages() * PAGE_BYTES <= usize::MAX
        &&& vs.next_addr == self.vaddr + self.mapped * PAGE_BYTES
        &&& self.job.wf()
        &&& !self.job.is_finished()
        &&& self.job.spec_arch() == vs.arch
        &&& self.job.spec_root() == vs.root
        &&& self.job.spec_vaddr() == vs.next_addr
        &&& self.job.spec_rights() == self.rights
    }

    /// The chain job of the page being mapped; its `request()` is the call
    /// to perform next.
    pub fn job(&self) -> (r: &MapJob)
        ensures
            *r == self.spec_job(),
    {
        &self.job
    }

    /// Pages mapped so far.
    pub fn mapped(&self) -> (r: usize)
        ensures
            r == self.spec_mapped(),
    {
        self.mapped
    }
}

/// A mapped region being unmapped page by page; `done` pages are
/// unmapped.
pub struct RegionUnmapping {
    region: MappedMemoryRegion,
    done: usize,
}

impl RegionUnmapping {
    pub closed spec fn spec_region(&self) -> MappedMemoryRegion {
        self.region
    }

    pub closed spec fn spec_done(&self) -> usize {
        self.done
    }

    pub open spec fn inv(&self) -> bool {
        &&& self.spec_region().wf()
        &&& self.spec_done() < self.spec_region().spec_pages()
    }

    /// The call to perform next: unmapping the next page.
    pub fn request(&self) -> (r: KernelRequest)
        requires
            self.inv(),
        ensures
            r == (KernelRequest::PageUnmap {
                page: (self.spec_region().spec_start() + self.spec_done()) as usize,
            }),
    {
        KernelRequest::PageUnmap { page: self.region.caps.initial_cptr + self.done }
    }

    /// Advances with the status of the call `request()` described. After
    /// the last page the region comes back unmapped.
    pub fn on_status(&mut self, status: u32) -> (r: Result<Option<UnmappedMemoryRegion>, VSpaceError>)
        requires
            old(self).inv(),
        ensures
            final(self).spec_region() == old(self).spec_region(),
            status != 0 ==> r == Err::<Option<UnmappedMemoryRegion>, VSpaceError>(
                VSpaceError::SeL4Error(status),
            ),
            status == 0 && old(self).spec_done() + 1 == old(self).spec_region().spec_pages() ==> {
                &&& r is Ok && r->Ok_0 is Some
                &&& r->Ok_0->Some_0.unmapped_from(&old(self).spec_region())
                &&& r->Ok_0->Some_0.wf()
            },
            status == 0 && old(self).spec_done() + 1 < old(self).spec_region().spec_pages() ==> {
                &&& r == Ok::<Option<UnmappedMemoryRegion>, VSpaceError>(None)
                &&& final(self).inv()
                &&& final(self).spec_done() == old(self).spec_done() + 1
            },
    {
        if status != 0 {
            return Err(VSpaceError::SeL4Error(status));
        }
        self.done = self.done + 1;
        let n = self.region.caps.count;
        if self.done == n {
            Ok(
                Some(
                    UnmappedMemoryRegion {
                        start_cptr: self.region.caps.initial_cptr,
                        size_bits: self.region.size_bits,
                        status: self.region.status,
                    },
                ),
            )
        } else {
            Ok(None)
        }
    }
}

/// The page capabilities of a shared region being copied, one by one, into
/// consecutive slots from `dest_start`; `done` are copied.
pub struct RegionCopy {
    src_start: usize,
    src_root: usize,
    dest_start: usize,
    dest_root: usize,
    size_bits: u8,
    rights: CapRights,
    done: usize,
}

impl RegionCopy {
    pub closed spec fn spec_src_start(&self) -> usize {
        self.src_start
    }

    pub closed spec fn spec_src_root(&self) -> usize {
        self.src_root
    }

    pub closed spec fn spec_dest_start(&self) -> usize {
        self.dest_start
    }

    pub closed spec fn spec_dest_root(&self) -> usize {
        self.dest_root
    }

    pub closed spec fn spec_size_bits(&self) -> u8 {
        self.size_bits
    }

    pub closed spec fn spec_rights(&self) -> CapRights {
        self.rights
    }

    pub closed spec fn spec_done(&self) -> usize {
        self.done
    }

    pub open spec fn inv(&self) -> bool {
        let n = spec_page_count(self.spec_size_bits());
        &&& PAGE_BITS <= self.spec_size_bits() <= MAX_UNTYPED_SIZE_BITS
        &&& self.spec_src_start() + n <= usize::MAX
        &&& self.spec_dest_start() + n <= usize::MAX
        &&& self.spec_done() < n
    }

    /// The call to perform next: copying the next page capability.
    pub fn request(&self) -> (r: KernelRequest)
        requires
            self.inv(),
        ensures
            r == (KernelRequest::CNodeCopy {
                dest_root: self.spec_dest_root(),
                dest_index: (self.spec_dest_start() + self.spec_done()) as usize,
                dest_depth: WORD_BITS,
                src_root: self.spec_src_root(),
                src_index: (self.spec_src_start() + self.spec_done()) as usize,
                src_depth: WORD_BITS,
                rights: self.spec_rights(),
            }),
    {
        KernelRequest::CNodeCopy {
            dest_root: self.dest_root,
            dest_index: self.dest_start + self.done,
            dest_depth: WORD_BITS,
            src_root: self.src_root,
            src_index: self.src_start + self.done,
            src_depth: WORD_BITS,
            rights: self.rights,
        }
    }

    /// Advances with the status of the call `request()` described. After
    /// the last page the copies come back as a shared region.
    pub fn on_status(&mut self, status: u32) -> (r: Result<Option<UnmappedMemoryRegion>, VSpaceError>)
        requires
            old(self).inv(),
        ensures
            status != 0 ==> r == Err::<Option<UnmappedMemoryRegion>, VSpaceError>(
                VSpaceError::SeL4Error(status),
            ),
            status == 0 && old(self).spec_done() + 1 == spec_page_count(old(self).spec_size_bits()) ==> {
                &&& r is Ok && r->Ok_0 is Some
                &&& r->Ok_0->Some_0.spec_start() == old(self).spec_dest_start()
                &&& r->Ok_0->Some_0.spec_size_bits() == old(self).spec_size_bits()
                &&& r->Ok_0->Some_0.spec_status() == SharedStatus::Shared
                &&& r->Ok_0->Some_0.wf()
            },
            status == 0 && old(self).spec_done() + 1 < spec_page_count(old(self).spec_size_bits()) ==> {
                &&& r == Ok::<Option<UnmappedMemoryRegion>, VSpaceError>(None)
                &&& final(self).inv()
                &&& final(self).spec_done() == old(self).spec_done() + 1
                &&& final(self).spec_dest_start() == old(self).spec_dest_start()
                &&& final(self).spec_src_start() == old(self).spec_src_start()
                &&& final(self).spec_size_bits() == old(self).spec_size_bits()
            },
    {
        if status != 0 {
            return Err(VSpaceError::SeL4Error(status));
        }
        self.done = self.done + 1;
        let n = two_pow_usize(self.size_bits - PAGE_BITS);
        if self.done == n {
            Ok(
                Some(
                    UnmappedMemoryRegion {
                        start_cptr: self.dest_start,
                        size_bits: self.size_bits,
                        status: SharedStatus::Shared,
                    },
                ),
            )
        } else {
            Ok(None)
        }
    }
}

/// Mapping a region and unmapping the result gives back the same page
/// capabilities, in the unmapped state, with the same number of pages and
/// the same shared status.
pub proof fn lemma_map_unmap_round_trip(
    r: UnmappedMemoryRegion,
    m: MappedMemoryRegion,
    u: UnmappedMemoryRegion,
    vaddr: usize,
    asid: u32,
)
    requires
        m.maps(&r, vaddr, asid),
        u.unmapped_from(&m),
    ensures
        u.spec_start() == r.spec_start(),
        u.spec_pages() == r.spec_pages(),
        u.spec_size_bits() == r.spec_size_bits(),
        u.spec_status() == r.spec_status(),
{
}

/// Skipping one page, mapping a region of `n` pages and skipping one page
/// again leaves the region's pages mapped at consecutive addresses with one
/// unmapped page before them and one after them: the region starts one page
/// past the first cursor, and the cursor ends one page past the region.
pub proof fn lemma_guard_pages(
    v0: VSpace,
    v1: VSpace,
    r: UnmappedMemoryRegion,
    m: MappedMemoryRegion,
    v2: VSpace,
    v3: VSpace,
)
    requires
        v1.skipped(&v0, 1),
        m.maps(&r, v1.spec_next_addr(), v1.spec_asid()),
        v2.same_space(&v1),
        v2.spec_next_addr() == v1.spec_next_addr() + r.spec_pages() * PAGE_BYTES,
        v3.skipped(&v2, 1),
    ensures
        m.spec_pages() == r.spec_pages(),
        m.spec_vaddr() == v0.spec_next_addr() + PAGE_BYTES,
        m.spec_vaddr() + m.spec_pages() * PAGE_BYTES + PAGE_BYTES == v3.spec_next_addr(),
        v3.same_space(&v0),
{
}

/// Two single-page mappings made one after the other in one address space
/// lie exactly one page apart and carry the same identifier.
pub proof fn lemma_consecutive_pages(
    v0: VSpace,
    r1: UnmappedMemoryRegion,
    m1: MappedMemoryRegion,
    v1: VSpace,
    r2: UnmappedMemoryRegion,
    m2: MappedMemoryRegion,
)
    requires
        r1.spec_size_bits() == PAGE_BITS,
        m1.maps(&r1, v0.spec_next_addr(), v0.spec_asid()),
        v1.same_space(&v0),
        v1.spec_next_addr() == v0.spec_next_addr() + r1.spec_pages() * PAGE_BYTES,
        m2.maps(&r2, v1.spec_next_addr(), v1.spec_asid()),
    ensures
        m2.spec_vaddr() == m1.spec_vaddr() + PAGE_BYTES,
        m1.spec_asid() == m2.spec_asid(),
{
    assert(r1.spec_pages() == 1) by {
        assert(two_pow(0) == 1);
    }
}

} // verus!
