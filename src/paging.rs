//! The paging-layer chain: mapping one object into an address space,
//! building missing intermediate structures on demand.
//!
//! Levels are numbered from the leaf: level 0 holds pages, level 1 the
//! structures that hold pages, and so on up to `depth - 1`, whose objects
//! the root holds directly. Mapping an object of level `l` is tried first;
//! when the kernel answers that the level-`l + 1` structure for the address
//! is absent, one such structure is retyped, mapped in turn (the same way),
//! and the first object is tried once more.
use vstd::prelude::*;

use crate::cap::{two_pow, two_pow_usize, CNode, CapRights};
use crate::request::KernelRequest;

verus! {

/// The status with which the kernel reports that the structure that should
/// hold an entry is missing.
pub const FAILED_LOOKUP: u32 = 6;

/// Failures while mapping through the chain.
#[derive(Debug, Clone, Copy, PartialEq, Eq, Structural)]
pub enum MappingError {
    /// The kernel refused to map the page itself.
    PageMapFailure(u32),
    /// The kernel refused to map an intermediate structure, or reported a
    /// missing structure that no level of the chain could supply.
    IntermediateLayerFailure(u32),
    /// The supply for new intermediate structures ran out, or the kernel
    /// refused to create one.
    RetypingError,
}

/// A paging layout: how many levels the chain has and the
/// object size of each.
#[derive(Debug, Clone, Copy, PartialEq, Eq, Structural)]
pub enum Arch {
    /// 32-bit ARM: pages in page tables in the page-directory root.
    Arm,
    /// 64-bit ARM: pages, page tables, page directories and upper
    /// directories under the global-directory root.
    Aarch64,
}

impl Arch {
    pub open spec fn spec_depth(self) -> nat {
        match self {
            Arch::Arm => 2,
            Arch::Aarch64 => 4,
        }
    }

    pub open spec fn spec_granule_bits(self, level: nat) -> nat {
        match self {
            Arch::Arm => if level == 1 {
                10
            } else {
                12
            },
            Arch::Aarch64 => 12,
        }
    }

    /// Number of levels whose objects are mapped through the chain.
    pub fn depth(&self) -> (r: usize)
        ensures
            r == self.spec_depth(),
    {
        match self {
            Arch::Arm => 2,
            Arch::Aarch64 => 4,
        }
    }

    /// Bits of size of an object of the given level.
    pub fn granule_bits(&self, level: usize) -> (r: u8)
        ensures
            r == self.spec_granule_bits(level as nat),
    {
        match self {
            Arch::Arm => if level == 1 {
                10
            } else {
                12
            },
            Arch::Aarch64 => 12,
        }
    }
}

/// What the chain may spend on new intermediate structures: an untyped
/// block with `free_bytes` left, and free slots.
#[derive(Debug, PartialEq, Eq, Structural)]
pub struct PagingSupply {
    pub untyped: usize,
    pub free_bytes: usize,
    pub slots: CNode,
}

impl PagingSupply {
    pub open spec fn wf(&self) -> bool {
        self.slots.wf()
    }

    /// Whether one structure of `bits` bits of size can be made.
    pub open spec fn admits(&self, bits: nat) -> bool {
        self.slots.free_slots > 0 && self.free_bytes >= two_pow(bits)
    }

    /// The supply after one structure of `bits` bits was taken from it.
    pub open spec fn spec_after(self, bits: nat) -> PagingSupply {
        PagingSupply {
            untyped: self.untyped,
            free_bytes: (self.free_bytes - two_pow(bits)) as usize,
            slots: self.slots.spec_after(1),
        }
    }
}

/// Where one mapping stands.
#[derive(Debug, Clone, Copy, PartialEq, Eq, Structural)]
pub enum Phase {
    /// Mapping the object of the current level; `retry` once a missing
    /// structure has been built for it.
    Mapping { retry: bool },
    /// Creating the structure one level above the current one.
    Retype,
    Done,
    Failed(MappingError),
}

/// The chain's progress in mapping one object at one address. `items[l]`
/// is the object of level `l` still to be mapped; the last one is the
/// current level.
pub struct MapJob {
    arch: Arch,
    vaddr: usize,
    root: usize,
    rights: CapRights,
    items: Vec<usize>,
    phase: Phase,
    new_item: usize,
    new_from: usize,
    new_into: usize,
}

/// The phase and level that follow an answer from the kernel, given
/// whether the supply admits one more structure.
pub open spec fn spec_next(depth: nat, level: nat, phase: Phase, status: u32, supply_ok: bool) -> (
    Phase,
    int,
) {
    match phase {
        Phase::Mapping { retry } => if status == 0 {
            if level == 0 {
                (Phase::Done, 0)
            } else {
                (Phase::Mapping { retry: true }, level - 1 as int)
            }
        } else if status == FAILED_LOOKUP && !retry && level + 1 < depth {
            if supply_ok {
                (Phase::Retype, level as int)
            } else {
                (Phase::Failed(MappingError::RetypingError), level as int)
            }
        } else if level == 0 && status != FAILED_LOOKUP {
            (Phase::Failed(MappingError::PageMapFailure(status)), level as int)
        } else {
            (Phase::Failed(MappingError::IntermediateLayerFailure(status)), level as int)
        },
        Phase::Retype => if status == 0 {
            (Phase::Mapping { retry: false }, level + 1 as int)
        } else {
            (Phase::Failed(MappingError::RetypingError), level as int)
        },
        _ => (phase, level as int),
    }
}

impl MapJob {
    pub closed spec fn spec_arch(&self) -> Arch {
        self.arch
    }

    pub closed spec fn spec_vaddr(&self) -> usize {
        self.vaddr
    }

    pub closed spec fn spec_root(&self) -> usize {
        self.root
    }

    pub closed spec fn spec_rights(&self) -> CapRights {
        self.rights
    }

    pub closed spec fn spec_items(&self) -> Seq<usize> {
        self.items@
    }

    pub closed spec fn spec_phase(&self) -> Phase {
        self.phase
    }

    /// The level whose object is being mapped.
    pub open spec fn spec_level(&self) -> nat {
        (self.spec_items().len() - 1) as nat
    }

    pub closed spec fn spec_new_item(&self) -> usize {
        self.new_item
    }

    pub closed spec fn spec_new_from(&self) -> usize {
        self.new_from
    }

    pub closed spec fn spec_new_into(&self) -> usize {
        self.new_into
    }

    pub open spec fn is_finished(&self) -> bool {
        self.spec_phase() is Done || self.spec_phase() is Failed
    }

    pub open spec fn wf(&self) -> bool {
        &&& 1 <= self.spec_items().len() <= self.spec_arch().spec_depth()
        &&& self.spec_phase() is Retype ==> self.spec_items().len()
            < self.spec_arch().spec_depth()
    }

    /// Starts mapping the page `page` at `vaddr` in the address space rooted
    /// at `root`.
    pub fn new(arch: Arch, page: usize, vaddr: usize, root: usize, rights: CapRights) -> (r: MapJob)
        ensures
            r.wf(),
            r.spec_arch() == arch,
            r.spec_vaddr() == vaddr,
            r.spec_root() == root,
            r.spec_rights() == rights,
            r.spec_items() == seq![page],
            r.spec_phase() == (Phase::Mapping { retry: false }),
    {
        let mut items: Vec<usize> = Vec::new();
        items.push(page);
        MapJob {
            arch,
            vaddr,
            root,
            rights,
            items,
            phase: Phase::Mapping { retry: false },
            new_item: 0,
            new_from: 0,
            new_into: 0,
        }
    }

    pub fn phase(&self) -> (r: Phase)
        ensures
            r == self.spec_phase(),
    {
        self.phase
    }

    /// The kernel call that the job waits for, if it is not finished. Pages
    /// are mapped with the job's rights, structures with none.
    pub fn request(&self) -> (r: Option<KernelRequest>)
        requires
            self.wf(),
        ensures
            self.is_finished() <==> r is None,
            self.spec_phase() is Mapping ==> r == Some(
                KernelRequest::MapGranule {
                    level: self.spec_level() as usize,
                    item: self.spec_items().last(),
                    root: self.spec_root(),
                    vaddr: self.spec_vaddr(),
                    rights: if self.spec_level() == 0 {
                        self.spec_rights()
                    } else {
                        CapRights { read: false, write: false, grant: false }
                    },
                },
            ),
            self.spec_phase() is Retype ==> r == Some(
                KernelRequest::RetypeGranule {
                    level: (self.spec_level() + 1) as usize,
                    untyped: self.spec_new_from(),
                    root: self.spec_new_into(),
                    offset: self.spec_new_item(),
                },
            ),
    {
        match self.phase {
            Phase::Mapping { .. } => {
                let level = self.items.len() - 1;
                let rights = if level == 0 {
                    self.rights
                } else {
                    CapRights { read: false, write: false, grant: false }
                };
                Some(
                    KernelRequest::MapGranule {
                        level,
                        item: self.items[level],
                        root: self.root,
                        vaddr: self.vaddr,
                        rights,
                    },
                )
            },
            Phase::Retype => Some(
                KernelRequest::RetypeGranule {
                    level: self.items.len(),
                    untyped: self.new_from,
                    root: self.new_into,
                    offset: self.new_item,
                },
            ),
            _ => None,
        }
    }

    /// Advances the job with the status of the call `request()` described.
    /// A missing structure is taken from `supply` when the job decides to
    /// build it; it stays spent whatever the kernel answers.
    pub fn on_status(&mut self, status: u32, supply: &mut PagingSupply)
        requires
            old(self).wf(),
            !old(self).is_finished(),
            old(supply).wf(),
        ensures
            final(self).wf(),
            final(supply).wf(),
            ({
                let level = old(self).spec_level();
                let depth = old(self).spec_arch().spec_depth();
                let bits = old(self).spec_arch().spec_granule_bits(level + 1);
                let ok = old(supply).admits(bits);
                let (p, l) = spec_next(depth, level, old(self).spec_phase(), status, ok);
                &&& final(self).spec_phase() == p
                &&& final(self).spec_level() == l
                &&& final(self).spec_arch() == old(self).spec_arch()
                &&& final(self).spec_vaddr() == old(self).spec_vaddr()
                &&& final(self).spec_root() == old(self).spec_root()
                &&& final(self).spec_rights() == old(self).spec_rights()
                &&& final(self).spec_phase() is Retype ==> {
                    &&& *final(supply) == old(supply).spec_after(bits)
                    &&& final(self).spec_new_item() == old(supply).slots.next_free_slot
                    &&& final(self).spec_new_from() == old(supply).untyped
                    &&& final(self).spec_new_into() == old(supply).slots.cptr
                    &&& final(self).spec_items() == old(self).spec_items()
                }
                &&& !(final(self).spec_phase() is Retype) ==> *final(supply) == *old(supply)
                &&& old(self).spec_phase() is Retype && status == 0 ==> final(self).spec_items()
                    == old(self).spec_items().push(old(self).spec_new_item())
                &&& old(self).spec_phase() is Mapping && status == 0 && level > 0
                    ==> final(self).spec_items() == old(self).spec_items().drop_last()
            }),
    {
        let level = self.items.len() - 1;
        let depth = self.arch.depth();
        match self.phase {
            Phase::Mapping { retry } => {
                if status == 0 {
                    if level == 0 {
                        self.phase = Phase::Done;
                    } else {
                        self.items.pop();
                        self.phase = Phase::Mapping { retry: true };
                    }
                } else if status == FAILED_LOOKUP && !retry && level + 1 < depth {
                    let bits = self.arch.granule_bits(level + 1);
                    let bytes = two_pow_usize(bits);
                    if supply.slots.free_slots > 0 && supply.free_bytes >= bytes {
                        self.new_item = supply.slots.next_free_slot;
                        self.new_from = supply.untyped;
                        self.new_into = supply.slots.cptr;
                        supply.free_bytes = supply.free_bytes - bytes;
                        supply.slots.next_free_slot = supply.slots.next_free_slot + 1;
                        supply.slots.free_slots = supply.slots.free_slots - 1;
                        self.phase = Phase::Retype;
                    } else {
                        self.phase = Phase::Failed(MappingError::RetypingError);
                    }
                } else if level == 0 && status != FAILED_LOOKUP {
                    self.phase = Phase::Failed(MappingError::PageMapFailure(status));
                } else {
                    self.phase = Phase::Failed(MappingError::IntermediateLayerFailure(status));
                }
            },
            Phase::Retype => {
                if status == 0 {
                    self.items.push(self.new_item);
                    self.phase = Phase::Mapping { retry: false };
                } else {
                    self.phase = Phase::Failed(MappingError::RetypingError);
                }
            },
            _ => {},
        }
    }
}

/// What a kernel that keeps its word answers to the call of a chain job at
/// `level` in `phase`, when the structures of the levels in `present` exist
/// at the job's address (the root always does): a mapping succeeds exactly
/// when the structure one level up exists; a retype succeeds.
pub open spec fn spec_model_status(depth: nat, level: nat, phase: Phase, present: Set<nat>) -> u32 {
    match phase {
        Phase::Mapping { .. } => if level + 1 == depth || present.contains(level + 1) {
            0
        } else {
            FAILED_LOOKUP
        },
        _ => 0,
    }
}

/// Runs a chain job against that kernel for at most `fuel` calls, with a
/// supply that never runs out. Gives the final phase, the number of kernel
/// calls, of structures created, and of pages mapped, and the levels whose
/// structures exist afterwards.
pub open spec fn spec_run(depth: nat, level: nat, phase: Phase, present: Set<nat>, fuel: nat) -> (
    Phase,
    nat,
    nat,
    nat,
    Set<nat>,
)
    decreases fuel,
{
    if fuel == 0 || phase is Done || phase is Failed {
        (phase, 0, 0, 0, present)
    } else {
        let status = spec_model_status(depth, level, phase, present);
        let (p, l) = spec_next(depth, level, phase, status, true);
        let mapped_here = phase is Mapping && status == 0;
        let present2 = if mapped_here && level >= 1 {
            present.insert(level)
        } else {
            present
        };
        let rest = spec_run(depth, if l >= 0 { l as nat } else { 0 }, p, present2, (fuel - 1) as nat);
        (
            rest.0,
            rest.1 + 1,
            rest.2 + if phase is Retype { 1nat } else { 0nat },
            rest.3 + if mapped_here && level == 0 { 1nat } else { 0nat },
            rest.4,
        )
    }
}

/// Maps `k` pages one after another, all within the same structures,
/// against that kernel; each page gets `fuel` calls at most. Gives the
/// number of calls, of structures created, and of pages mapped, and the
/// levels whose structures exist afterwards.
pub open spec fn spec_run_pages(depth: nat, present: Set<nat>, k: nat, fuel: nat) -> (nat, nat, nat, Set<nat>)
    decreases k,
{
    if k == 0 {
        (0, 0, 0, present)
    } else {
        let first = spec_run(depth, 0, Phase::Mapping { retry: false }, present, fuel);
        let rest = spec_run_pages(depth, first.4, (k - 1) as nat, fuel);
        (first.1 + rest.0, first.2 + rest.1, first.3 + rest.2, rest.3)
    }
}

/// The levels above `m` (and below the root) exist; those up to `m` do not.
pub open spec fn spec_present_above(depth: nat, m: nat) -> Set<nat> {
    Set::new(|l: nat| m < l && l < depth)
}

/// The intermediate levels from 1 to `j`.
pub open spec fn spec_levels_up_to(j: nat) -> Set<nat> {
    Set::new(|l: nat| 1 <= l && l <= j)
}

proof fn lemma_run_descend(depth: nat, j: nat, present: Set<nat>, fuel: nat)
    requires
        j + 1 < depth,
        present.contains(j + 1),
        fuel >= j + 1,
    ensures
        spec_run(depth, j, Phase::Mapping { retry: true }, present, fuel) == (
            Phase::Done,
            j + 1,
            0nat,
            1nat,
            present.union(spec_levels_up_to(j)),
        ),
    decreases j,
{
    let phase = Phase::Mapping { retry: true };
    assert(spec_model_status(depth, j, phase, present) == 0);
    if j > 0 {
        assert(spec_next(depth, j, phase, 0, true) == (phase, j - 1));
        lemma_run_descend(depth, (j - 1) as nat, present.insert(j), (fuel - 1) as nat);
        assert(present.insert(j).union(spec_levels_up_to((j - 1) as nat)) =~= present.union(
            spec_levels_up_to(j),
        ));
        assert(spec_run(depth, j, phase, present, fuel) == (
            Phase::Done,
            j + 1,
            0nat,
            1nat,
            present.union(spec_levels_up_to(j)),
        ));
    } else {
        assert(spec_next(depth, j, phase, 0, true) == (Phase::Done, 0int));
        assert(present.union(spec_levels_up_to(0)) =~= present);
        assert(spec_run(depth, 0, Phase::Done, present, (fuel - 1) as nat) == (
            Phase::Done,
            0nat,
            0nat,
            0nat,
            present,
        ));
        assert(spec_run(depth, j, phase, present, fuel) == (
            Phase::Done,
            j + 1,
            0nat,
            1nat,
            present.union(spec_levels_up_to(j)),
        ));
    }
}

proof fn lemma_run_ascend(depth: nat, m: nat, j: nat, fuel: nat)
    requires
        2 <= depth,
        m + 1 <= depth,
        j <= m,
        fuel >= 3 * m + 1 - 2 * j,
    ensures
        spec_run(depth, j, Phase::Mapping { retry: false }, spec_present_above(depth, m), fuel) == (
            Phase::Done,
            (3 * m + 1 - 2 * j) as nat,
            (m - j) as nat,
            1nat,
            spec_present_above(depth, 0),
        ),
    decreases m - j,
{
    let present = spec_present_above(depth, m);
    let all = spec_present_above(depth, 0);
    let phase = Phase::Mapping { retry: false };
    let total = (3 * m + 1 - 2 * j) as nat;
    if j == m {
        assert(spec_model_status(depth, j, phase, present) == 0) by {
            if j + 1 < depth {
                assert(present.contains(j + 1));
            }
        }
        if j > 0 {
            assert(spec_next(depth, j, phase, 0, true) == (Phase::Mapping { retry: true }, j - 1));
            lemma_run_descend(depth, (j - 1) as nat, present.insert(j), (fuel - 1) as nat);
            assert(present.insert(j).union(spec_levels_up_to((j - 1) as nat)) =~= all);
            assert(spec_run(depth, j, phase, present, fuel) == (Phase::Done, total, 0nat, 1nat, all));
        } else {
            assert(spec_next(depth, j, phase, 0, true) == (Phase::Done, 0int));
            assert(present =~= all);
            assert(spec_run(depth, 0, Phase::Done, present, (fuel - 1) as nat) == (
                Phase::Done,
                0nat,
                0nat,
                0nat,
                present,
            ));
            assert(spec_run(depth, j, phase, present, fuel) == (Phase::Done, total, 0nat, 1nat, all));
        }
    } else {
        assert(!present.contains(j + 1));
        assert(spec_model_status(depth, j, phase, present) == FAILED_LOOKUP);
        assert(spec_next(depth, j, phase, FAILED_LOOKUP, true) == (Phase::Retype, j as int));
        assert(spec_model_status(depth, j, Phase::Retype, present) == 0);
        assert(spec_next(depth, j, Phase::Retype, 0, true) == (phase, j + 1 as int));
        lemma_run_ascend(depth, m, j + 1, (fuel - 2) as nat);
        let inner = spec_run(depth, j + 1, phase, present, (fuel - 2) as nat);
        assert(inner == (Phase::Done, (total - 2) as nat, (m - j - 1) as nat, 1nat, all));
        assert(spec_run(depth, j, Phase::Retype, present, (fuel - 1) as nat) == (
            Phase::Done,
            (total - 1) as nat,
            (m - j) as nat,
            1nat,
            all,
        ));
        assert(spec_run(depth, j, phase, present, fuel) == (Phase::Done, total, (m - j) as nat, 1nat, all));
    }
}

/// Mapping one page through the chain when the `m` lowest intermediate
/// structures at its address are missing and the ones above exist takes
/// exactly `3m + 1` kernel calls: the page is mapped once, `m` structures
/// are created, and each of them is mapped once; every level below the
/// first one present is tried once before and once after its structure
/// is built. Afterwards every structure exists. Where every structure
/// exists already (`m == 0`) it is one call and nothing is created.
pub proof fn lemma_page_mapping_cost(depth: nat, m: nat, fuel: nat)
    requires
        2 <= depth,
        m + 1 <= depth,
        fuel >= 3 * m + 1,
    ensures
        spec_run(depth, 0, Phase::Mapping { retry: false }, spec_present_above(depth, m), fuel) == (
            Phase::Done,
            3 * m + 1,
            m,
            1nat,
            spec_present_above(depth, 0),
        ),
{
    lemma_run_ascend(depth, m, 0, fuel);
}

/// Mapping a region of `k` pages that share their intermediate structures,
/// of which the `m` lowest are missing, maps exactly `k` pages and creates
/// exactly `m` structures, in `3m + k` kernel calls: the structures are
/// built for the first page and reused by the rest. A second region in the
/// same structures then creates none: its `k2` pages cost `k2` calls.
pub proof fn lemma_region_mapping_cost(depth: nat, m: nat, k: nat, k2: nat, fuel: nat)
    requires
        2 <= depth,
        m + 1 <= depth,
        k >= 1,
        fuel >= 3 * m + 1,
    ensures
        spec_run_pages(depth, spec_present_above(depth, m), k, fuel) == (
            3 * m + k,
            m,
            k,
            spec_present_above(depth, 0),
        ),
        spec_run_pages(depth, spec_present_above(depth, 0), k2, fuel) == (
            k2,
            0nat,
            k2,
            spec_present_above(depth, 0),
        ),
{
    lemma_page_mapping_cost(depth, m, fuel);
    lemma_pages_when_present(depth, (k - 1) as nat, fuel);
    lemma_pages_when_present(depth, k2, fuel);
}

proof fn lemma_pages_when_present(depth: nat, k: nat, fuel: nat)
    requires
        2 <= depth,
        fuel >= 1,
    ensures
        spec_run_pages(depth, spec_present_above(depth, 0), k, fuel) == (
            k,
            0nat,
            k,
            spec_present_above(depth, 0),
        ),
    decreases k,
{
    if k > 0 {
        lemma_page_mapping_cost(depth, 0, fuel);
        lemma_pages_when_present(depth, (k - 1) as nat, fuel);
    }
}

} // verus!
