use std::collections::HashSet;

use ferros_core::cap::{CNode, CNodeRole, CapRights, CapType, Capability};
use ferros_core::paging::{Arch, MapJob, MappingError, PagingSupply, Phase, FAILED_LOOKUP};
use ferros_core::request::KernelRequest;
use ferros_core::vspace::{
    MappedMemoryRegion, PageState, RegionMapping, SharedStatus, UnmappedMemoryRegion, VSpace,
    VSpaceError, VSpaceState, PAGE_BYTES,
};

const RW: CapRights = CapRights {
    read: true,
    write: true,
    grant: false,
};

/// A kernel that tracks which intermediate structures exist.
struct Kernel {
    depth: usize,
    present: HashSet<(usize, usize)>,
    calls: usize,
    retypes: usize,
    page_maps: usize,
    fail_page_map: Option<u32>,
}

impl Kernel {
    fn new(depth: usize) -> Kernel {
        Kernel {
            depth,
            present: HashSet::new(),
            calls: 0,
            retypes: 0,
            page_maps: 0,
            fail_page_map: None,
        }
    }

    /// Address bits covered by one structure of `level`.
    fn span_bits(level: usize) -> usize {
        12 + 9 * level
    }

    fn answer(&mut self, req: &KernelRequest) -> u32 {
        self.calls += 1;
        match *req {
            KernelRequest::MapGranule { level, vaddr, .. } => {
                if level == 0 {
                    if let Some(s) = self.fail_page_map {
                        return s;
                    }
                }
                let up = level + 1;
                if up < self.depth && !self.present.contains(&(up, vaddr >> Self::span_bits(up))) {
                    return FAILED_LOOKUP;
                }
                if level == 0 {
                    self.page_maps += 1;
                } else {
                    self.present.insert((level, vaddr >> Self::span_bits(level)));
                }
                0
            }
            KernelRequest::RetypeGranule { .. } => {
                self.retypes += 1;
                0
            }
            _ => 0,
        }
    }
}

fn supply(slots: usize) -> CNode {
    CNode {
        radix: 19,
        next_free_slot: 500,
        cptr: 2,
        free_slots: slots,
        role: CNodeRole::CSpaceRoot,
    }
}

fn fresh_vspace(arch: Arch, bytes: usize, slots: usize) -> VSpace {
    let root = Capability::wrap_cptr(40, CapType::PageDirectory);
    let pool = Capability::wrap_cptr(41, CapType::ASIDPool);
    let pending = VSpace::new(root, &pool, 7, arch, supply(slots), 42, bytes);
    assert_eq!(
        pending.request(),
        KernelRequest::ASIDPoolAssign {
            service: 41,
            vspace: 40,
        }
    );
    pending.complete(0).unwrap()
}

fn region(start: usize, bits: u8) -> UnmappedMemoryRegion {
    let ut = Capability {
        cptr: 3,
        cap_type: CapType::Untyped { size_bits: bits },
    };
    let slots = CNode {
        radix: 19,
        next_free_slot: start,
        cptr: 2,
        free_slots: 1 << (bits - 12),
        role: CNodeRole::CSpaceRoot,
    };
    let (r, _) = UnmappedMemoryRegion::new(ut, slots)
        .unwrap()
        .complete(0)
        .unwrap();
    r
}

fn drive(
    vs: &mut VSpace,
    mut m: RegionMapping,
    kernel: &mut Kernel,
) -> Result<MappedMemoryRegion, VSpaceError> {
    loop {
        let req = m.job().request().expect("an unfinished job has a call");
        let status = kernel.answer(&req);
        if let Some(done) = vs.region_step(&mut m, status)? {
            return Ok(done);
        }
    }
}

#[test]
fn new_region_retypes_one_page_per_slot() {
    let ut = Capability {
        cptr: 3,
        cap_type: CapType::Untyped { size_bits: 14 },
    };
    let slots = CNode {
        radix: 19,
        next_free_slot: 10,
        cptr: 2,
        free_slots: 6,
        role: CNodeRole::CSpaceRoot,
    };
    let pending = UnmappedMemoryRegion::new(ut, slots).unwrap();
    assert_eq!(
        pending.request(),
        KernelRequest::UntypedRetype {
            service: 3,
            object: CapType::Page,
            size_bits: 0,
            root: 2,
            index: 0,
            depth: 0,
            offset: 10,
            num_objects: 4,
        }
    );
    let (r, rest) = pending.complete(0).unwrap();
    assert_eq!(r.page_count(), 4);
    assert_eq!(r.size(), 4 * 4096);
    assert_eq!(r.start_cptr(), 10);
    assert_eq!(r.status(), SharedStatus::Exclusive);
    assert_eq!(rest.free_slots, 2);
    let too_few = CNode {
        radix: 19,
        next_free_slot: 10,
        cptr: 2,
        free_slots: 3,
        role: CNodeRole::CSpaceRoot,
    };
    let ut = Capability {
        cptr: 3,
        cap_type: CapType::Untyped { size_bits: 14 },
    };
    assert!(UnmappedMemoryRegion::new(ut, too_few).is_err());
}

#[test]
fn chain_builds_missing_layers_once() {
    let mut vs = fresh_vspace(Arch::Aarch64, 1 << 20, 64);
    let mut kernel = Kernel::new(4);
    let first = vs.map_region(region(100, 14), RW).unwrap();
    let mapped = drive(&mut vs, first, &mut kernel).unwrap();
    // First page: three missing layers, 3 * 3 + 1 calls; the other three
    // pages reuse them, one call each.
    assert_eq!(kernel.retypes, 3);
    assert_eq!(kernel.page_maps, 4);
    assert_eq!(kernel.calls, 10 + 3);
    assert_eq!(mapped.vaddr(), 0);
    let before = kernel.calls;
    let second = vs.map_region(region(200, 12), RW).unwrap();
    drive(&mut vs, second, &mut kernel).unwrap();
    assert_eq!(kernel.retypes, 3);
    assert_eq!(kernel.calls, before + 1);
}

#[test]
fn chain_on_two_level_layout() {
    let mut vs = fresh_vspace(Arch::Arm, 1 << 20, 64);
    let mut kernel = Kernel::new(2);
    let m = vs.map_region(region(100, 12), RW).unwrap();
    drive(&mut vs, m, &mut kernel).unwrap();
    assert_eq!(kernel.retypes, 1);
    assert_eq!(kernel.calls, 4);
}

#[test]
fn map_job_steps_through_one_missing_layer() {
    let mut job = MapJob::new(Arch::Arm, 77, 0x2000, 40, RW);
    let mut sup = PagingSupply {
        untyped: 42,
        free_bytes: 4096,
        slots: supply(2),
    };
    assert_eq!(
        job.request(),
        Some(KernelRequest::MapGranule {
            level: 0,
            item: 77,
            root: 40,
            vaddr: 0x2000,
            rights: RW,
        })
    );
    job.on_status(FAILED_LOOKUP, &mut sup);
    assert_eq!(job.phase(), Phase::Retype);
    assert_eq!(
        job.request(),
        Some(KernelRequest::RetypeGranule {
            level: 1,
            untyped: 42,
            root: 2,
            offset: 500,
        })
    );
    // A 1 KiB page table and one slot were taken.
    assert_eq!(sup.free_bytes, 3072);
    assert_eq!(sup.slots.free_slots, 1);
    job.on_status(0, &mut sup);
    assert_eq!(
        job.request(),
        Some(KernelRequest::MapGranule {
            level: 1,
            item: 500,
            root: 40,
            vaddr: 0x2000,
            rights: CapRights {
                read: false,
                write: false,
                grant: false,
            },
        })
    );
    job.on_status(0, &mut sup);
    assert_eq!(job.phase(), Phase::Mapping { retry: true });
    job.on_status(0, &mut sup);
    assert_eq!(job.phase(), Phase::Done);
    assert_eq!(job.request(), None);
}

#[test]
fn absence_on_retry_is_an_intermediate_failure() {
    let mut job = MapJob::new(Arch::Arm, 77, 0, 40, RW);
    let mut sup = PagingSupply {
        untyped: 42,
        free_bytes: 4096,
        slots: supply(2),
    };
    job.on_status(FAILED_LOOKUP, &mut sup);
    job.on_status(0, &mut sup);
    job.on_status(0, &mut sup);
    job.on_status(FAILED_LOOKUP, &mut sup);
    assert_eq!(
        job.phase(),
        Phase::Failed(MappingError::IntermediateLayerFailure(FAILED_LOOKUP))
    );
}

#[test]
fn absence_at_the_outermost_layer_is_an_intermediate_failure() {
    let mut job = MapJob::new(Arch::Arm, 77, 0, 40, RW);
    let mut sup = PagingSupply {
        untyped: 42,
        free_bytes: 4096,
        slots: supply(2),
    };
    job.on_status(FAILED_LOOKUP, &mut sup);
    job.on_status(0, &mut sup);
    job.on_status(FAILED_LOOKUP, &mut sup);
    assert_eq!(
        job.phase(),
        Phase::Failed(MappingError::IntermediateLayerFailure(FAILED_LOOKUP))
    );
}

#[test]
fn other_kernel_errors_are_not_retried() {
    let mut job = MapJob::new(Arch::Aarch64, 77, 0, 40, RW);
    let mut sup = PagingSupply {
        untyped: 42,
        free_bytes: 1 << 16,
        slots: supply(8),
    };
    job.on_status(3, &mut sup);
    assert_eq!(job.phase(), Phase::Failed(MappingError::PageMapFailure(3)));
    assert_eq!(sup.slots.free_slots, 8);
}

#[test]
fn exhausted_supply_is_a_retyping_error() {
    let mut vs = fresh_vspace(Arch::Aarch64, 4096, 64);
    let mut kernel = Kernel::new(4);
    let m = vs.map_region(region(100, 12), RW).unwrap();
    let r = drive(&mut vs, m, &mut kernel);
    assert_eq!(
        r.map(|_| ()),
        Err(VSpaceError::MappingError(MappingError::RetypingError))
    );
    assert_eq!(kernel.retypes, 1);
}

#[test]
fn page_map_failure_is_reported_with_status() {
    let mut vs = fresh_vspace(Arch::Arm, 1 << 20, 64);
    let mut kernel = Kernel::new(2);
    kernel.fail_page_map = Some(11);
    let m = vs.map_region(region(100, 12), RW).unwrap();
    let r = drive(&mut vs, m, &mut kernel);
    assert_eq!(r.map(|_| ()), Err(VSpaceError::SeL4Error(11)));
    assert_eq!(vs.next_addr(), 0);
}

#[test]
fn consecutive_single_pages_are_one_page_apart() {
    let mut vs = fresh_vspace(Arch::Aarch64, 1 << 20, 64);
    let mut kernel = Kernel::new(4);
    let p1 = Capability::wrap_cptr(300, CapType::Page);
    let p2 = Capability::wrap_cptr(301, CapType::Page);
    let m1 = vs.map_given_page(p1, RW).unwrap();
    let a = drive(&mut vs, m1, &mut kernel).unwrap();
    let m2 = vs.map_given_page(p2, RW).unwrap();
    let b = drive(&mut vs, m2, &mut kernel).unwrap();
    assert_eq!(b.vaddr() - a.vaddr(), PAGE_BYTES);
    assert_eq!(a.asid(), b.asid());
    assert_eq!(a.asid(), 7);
    let pages = b.pages();
    assert_eq!(pages[0].vaddr(), 4096);
    assert_eq!(pages[0].cptr, 301);
}

#[test]
fn guard_pages_surround_a_region() {
    let mut vs = fresh_vspace(Arch::Aarch64, 1 << 20, 64);
    let mut kernel = Kernel::new(4);
    let start = vs.next_addr();
    vs.skip_pages(1).unwrap();
    let m = vs.map_region(region(100, 13), RW).unwrap();
    let mapped = drive(&mut vs, m, &mut kernel).unwrap();
    vs.skip_pages(1).unwrap();
    assert_eq!(mapped.vaddr(), start + PAGE_BYTES);
    assert_eq!(mapped.size(), 2 * PAGE_BYTES);
    assert_eq!(vs.next_addr(), start + 4 * PAGE_BYTES);
    assert_eq!(kernel.page_maps, 2);
    let pages = mapped.pages();
    assert_eq!(pages.len(), 2);
    assert_eq!(
        pages[1].state,
        PageState::Mapped {
            vaddr: 2 * PAGE_BYTES,
            asid: 7,
        }
    );
}

#[test]
fn skip_pages_past_the_address_space_fails() {
    let mut vs = VSpace::bootstrap(1, usize::MAX - 4096, 2, 9, Arch::Arm);
    assert_eq!(vs.skip_pages(1), Ok(()));
    assert_eq!(
        vs.skip_pages(1),
        Err(VSpaceError::ExceededAvailableAddressSpace)
    );
    assert_eq!(vs.next_addr(), usize::MAX);
    assert_eq!(
        vs.skip_pages(usize::MAX),
        Err(VSpaceError::ExceededAvailableAddressSpace)
    );
}

#[test]
fn map_region_that_does_not_fit_fails() {
    let vs = VSpace::bootstrap(1, usize::MAX - 4096, 2, 9, Arch::Arm);
    assert!(matches!(
        vs.map_region(region(100, 13), RW),
        Err(VSpaceError::ExceededAvailableAddressSpace)
    ));
}

#[test]
fn unmap_after_map_gives_back_the_region() {
    let mut vs = fresh_vspace(Arch::Arm, 1 << 20, 64);
    let mut kernel = Kernel::new(2);
    let r = region(100, 13).to_shared();
    let m = vs.map_shared_region_and_consume(r, RW).unwrap();
    let mapped = drive(&mut vs, m, &mut kernel).unwrap();
    assert_eq!(mapped.status(), SharedStatus::Shared);
    let mut un = vs.unmap_region(mapped);
    assert_eq!(un.request(), KernelRequest::PageUnmap { page: 100 });
    assert_eq!(un.on_status(0), Ok(None));
    assert_eq!(un.request(), KernelRequest::PageUnmap { page: 101 });
    let back = un.on_status(0).unwrap().unwrap();
    assert_eq!(back.start_cptr(), 100);
    assert_eq!(back.page_count(), 2);
    assert_eq!(back.status(), SharedStatus::Shared);
    // The freed addresses are not handed out again.
    assert_eq!(vs.next_addr(), 2 * PAGE_BYTES);
}

#[test]
fn unmap_failure_is_reported() {
    let mut vs = fresh_vspace(Arch::Arm, 1 << 20, 64);
    let mut kernel = Kernel::new(2);
    let m = vs.map_region(region(100, 12), RW).unwrap();
    let mapped = drive(&mut vs, m, &mut kernel).unwrap();
    let mut un = vs.unmap_region(mapped);
    assert_eq!(un.on_status(5), Err(VSpaceError::SeL4Error(5)));
}

#[test]
fn shared_region_is_copied_before_mapping() {
    let mut vs = fresh_vspace(Arch::Arm, 1 << 20, 64);
    let mut kernel = Kernel::new(2);
    let shared = region(100, 13).to_shared();
    let cnode = supply(0);
    let slots = CNode {
        radix: 19,
        next_free_slot: 700,
        cptr: 2,
        free_slots: 2,
        role: CNodeRole::CSpaceRoot,
    };
    let mut copy = vs.map_shared_region(&shared, RW, slots, &cnode).unwrap();
    assert_eq!(
        copy.request(),
        KernelRequest::CNodeCopy {
            dest_root: 2,
            dest_index: 700,
            dest_depth: 32,
            src_root: 2,
            src_index: 100,
            src_depth: 32,
            rights: RW,
        }
    );
    assert_eq!(copy.on_status(0), Ok(None));
    let copies = copy.on_status(0).unwrap().unwrap();
    assert_eq!(copies.start_cptr(), 700);
    assert_eq!(copies.status(), SharedStatus::Shared);
    let m = vs.map_shared_region_and_consume(copies, RW).unwrap();
    let mapped = drive(&mut vs, m, &mut kernel).unwrap();
    assert_eq!(mapped.pages()[0].cptr, 700);
    // The source region is still there to be copied again.
    assert_eq!(shared.start_cptr(), 100);
    let too_few = CNode {
        radix: 19,
        next_free_slot: 700,
        cptr: 2,
        free_slots: 1,
        role: CNodeRole::CSpaceRoot,
    };
    assert!(matches!(
        vs.map_shared_region(&shared, RW, too_few, &cnode),
        Err(VSpaceError::InsufficientCNodeSlots)
    ));
}

#[test]
fn new_vspace_is_empty_until_imaged() {
    let mut vs = fresh_vspace(Arch::Arm, 4096, 4);
    assert_eq!(vs.state(), VSpaceState::Empty);
    assert_eq!(vs.root_cptr(), 40);
    assert_eq!(vs.asid(), 7);
    assert_eq!(vs.next_addr(), 0);
    vs.set_imaged();
    assert_eq!(vs.state(), VSpaceState::Imaged);
}

#[test]
fn to_shared_keeps_the_pages() {
    let r = region(100, 13);
    assert_eq!(r.status(), SharedStatus::Exclusive);
    let s = r.to_shared();
    assert_eq!(s.status(), SharedStatus::Shared);
    assert_eq!(s.start_cptr(), 100);
    assert_eq!(s.size_bits(), 13);
}
