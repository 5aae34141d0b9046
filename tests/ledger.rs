use ferros_core::cap::{
    root_cnode, wrap_untyped, CNode, CNodeRole, CapRights, CapType, Capability, Error,
    MIN_UNTYPED_SIZE_BITS,
};
use ferros_core::buddy::UntypedBuddy;
use ferros_core::request::KernelRequest;

fn table(next: usize, free: usize) -> CNode {
    CNode {
        radix: 19,
        next_free_slot: next,
        cptr: 2,
        free_slots: free,
        role: CNodeRole::CSpaceRoot,
    }
}

fn untyped(cptr: usize, bits: u8) -> Capability {
    Capability {
        cptr,
        cap_type: CapType::Untyped { size_bits: bits },
    }
}

#[test]
fn consume_slot_takes_the_next_slot() {
    let (rest, slot) = table(10, 3).consume_slot().unwrap();
    assert_eq!(slot.offset, 10);
    assert_eq!(slot.cptr, 2);
    assert_eq!(rest.next_free_slot, 11);
    assert_eq!(rest.free_slots, 2);
}

#[test]
fn consume_slot_on_empty_table_fails() {
    assert_eq!(table(10, 0).consume_slot(), Err(Error::InsufficientSlots));
}

#[test]
fn reserve_region_partitions_slots() {
    let (first, rest) = table(100, 10).reserve_region(4).unwrap();
    assert_eq!(first.free_slots, 4);
    assert_eq!(rest.free_slots, 6);
    assert_eq!(first.next_free_slot, 100);
    assert_eq!(rest.next_free_slot, 104);
    // The two views share no slot.
    assert!(first.next_free_slot + first.free_slots <= rest.next_free_slot);
}

#[test]
fn reserve_region_of_everything_and_of_nothing() {
    let (all, none) = table(5, 7).reserve_region(7).unwrap();
    assert_eq!(all.free_slots, 7);
    assert_eq!(none.free_slots, 0);
    let (empty, same) = table(5, 7).reserve_region(0).unwrap();
    assert_eq!(empty.free_slots, 0);
    assert_eq!(same, table(5, 7));
}

#[test]
fn reserve_region_beyond_capacity_fails() {
    assert_eq!(table(5, 7).reserve_region(8), Err(Error::InsufficientSlots));
}

#[test]
fn reservation_iter_gives_single_slots_in_order() {
    let (singles, rest) = table(20, 5).reservation_iter(3).unwrap();
    assert_eq!(singles.len(), 3);
    for (i, s) in singles.iter().enumerate() {
        assert_eq!(s.next_free_slot, 20 + i);
        assert_eq!(s.free_slots, 1);
    }
    assert_eq!(rest.next_free_slot, 23);
    assert_eq!(rest.free_slots, 2);
    assert!(table(20, 2).reservation_iter(3).is_err());
}

#[test]
fn root_cnode_has_its_free_range() {
    let root = root_cnode();
    assert_eq!(root.cptr, 2);
    assert_eq!(root.free_slots, 1024);
    assert_eq!(root.next_free_slot, 1000);
    assert_eq!(root.role, CNodeRole::CSpaceRoot);
}

#[test]
fn split_describes_the_retype_and_yields_halves() {
    let pending = untyped(7, 20).split(table(50, 4)).unwrap();
    assert_eq!(
        pending.request(),
        KernelRequest::UntypedRetype {
            service: 7,
            object: CapType::Untyped { size_bits: 19 },
            size_bits: 19,
            root: 2,
            index: 0,
            depth: 0,
            offset: 50,
            num_objects: 1,
        }
    );
    let (a, b, rest) = pending.complete(0).unwrap();
    assert_eq!(a, untyped(7, 19));
    assert_eq!(b, untyped(50, 19));
    assert_eq!(rest.free_slots, 3);
    assert_eq!(rest.next_free_slot, 51);
}

#[test]
fn split_kernel_failure_yields_no_handles() {
    let pending = untyped(7, 20).split(table(50, 4)).unwrap();
    assert_eq!(pending.complete(3).map(|_| ()), Err(Error::UntypedRetype(3)));
}

#[test]
fn split_needs_a_slot_and_a_large_enough_block() {
    assert!(matches!(
        untyped(7, 20).split(table(50, 0)),
        Err(Error::InsufficientSlots)
    ));
    assert!(matches!(
        untyped(7, MIN_UNTYPED_SIZE_BITS).split(table(50, 4)),
        Err(Error::UntypedTooSmall)
    ));
}

#[test]
fn quarter_yields_four_quarters_in_three_new_slots() {
    let pending = untyped(9, 16).quarter(table(30, 5)).unwrap();
    match pending.request() {
        KernelRequest::UntypedRetype {
            size_bits,
            offset,
            num_objects,
            ..
        } => {
            assert_eq!(size_bits, 14);
            assert_eq!(offset, 30);
            assert_eq!(num_objects, 3);
        }
        other => panic!("unexpected request {:?}", other),
    }
    let (a, b, c, d, rest) = pending.complete(0).unwrap();
    assert_eq!(a, untyped(9, 14));
    assert_eq!(b, untyped(30, 14));
    assert_eq!(c, untyped(31, 14));
    assert_eq!(d, untyped(32, 14));
    assert_eq!(rest.free_slots, 2);
    assert!(matches!(
        untyped(9, 16).quarter(table(30, 2)),
        Err(Error::InsufficientSlots)
    ));
}

#[test]
fn split_then_retype_either_half_succeeds() {
    let (a, b, rest) = untyped(1, 13).split(table(40, 3)).unwrap().complete(0).unwrap();
    let (page_a, rest) = a
        .retype_local(rest, CapType::Page)
        .unwrap()
        .complete(0)
        .unwrap();
    let (page_b, rest) = b
        .retype_local(rest, CapType::Page)
        .unwrap()
        .complete(0)
        .unwrap();
    assert_eq!(page_a.cap_type, CapType::Page);
    assert_eq!(page_b.cap_type, CapType::Page);
    assert_eq!(page_a.cptr, 41);
    assert_eq!(page_b.cptr, 42);
    assert_eq!(rest.free_slots, 0);
}

#[test]
fn page_from_4k_untyped_and_not_from_a_quarter_of_it() {
    let pending = untyped(3, 12)
        .retype_local(table(60, 8), CapType::Page)
        .unwrap();
    assert_eq!(
        pending.request(),
        KernelRequest::UntypedRetype {
            service: 3,
            object: CapType::Page,
            size_bits: 0,
            root: 2,
            index: 0,
            depth: 0,
            offset: 60,
            num_objects: 1,
        }
    );
    let (page, _) = pending.complete(0).unwrap();
    assert_eq!(page.cap_type, CapType::Page);

    let (q, _, _, _, rest) = untyped(4, 12)
        .quarter(table(70, 8))
        .unwrap()
        .complete(0)
        .unwrap();
    assert_eq!(q.cap_type, CapType::Untyped { size_bits: 10 });
    assert!(matches!(
        q.retype_local(rest, CapType::Page),
        Err(Error::UntypedTooSmall)
    ));
}

#[test]
fn retype_local_cnode_gives_a_child_table() {
    let pending = untyped(5, 16).retype_local_cnode(table(80, 2), 8).unwrap();
    let (child, rest) = pending.complete(0).unwrap();
    assert_eq!(child.free_slots, 256);
    assert_eq!(child.radix, 8);
    assert_eq!(child.next_free_slot, 0);
    assert_eq!(child.cptr, 80);
    assert_eq!(child.role, CNodeRole::ChildProcess);
    assert_eq!(rest.free_slots, 1);
    assert!(matches!(
        untyped(5, 11).retype_local_cnode(table(80, 2), 8),
        Err(Error::UntypedTooSmall)
    ));
}

#[test]
fn retype_child_places_object_in_child_table() {
    let child = CNode {
        radix: 8,
        next_free_slot: 3,
        cptr: 80,
        free_slots: 10,
        role: CNodeRole::ChildProcess,
    };
    let (cap, rest) = untyped(5, 12)
        .retype_child(child, CapType::Endpoint)
        .unwrap()
        .complete(0)
        .unwrap();
    assert_eq!(cap.child_cptr, 3);
    assert_eq!(cap.cap_type, CapType::Endpoint);
    assert_eq!(rest.next_free_slot, 4);
}

#[test]
fn retype_asid_pool_asks_the_control_authority() {
    let control = Capability::wrap_cptr(6, CapType::ASIDControl);
    let pending = untyped(11, 12)
        .retype_asid_pool(control, table(90, 1))
        .unwrap();
    assert_eq!(
        pending.request(),
        KernelRequest::ASIDControlMakePool {
            service: 6,
            untyped: 11,
            root: 2,
            index: 90,
            depth: 32,
        }
    );
    let (pool, rest) = pending.complete(0).unwrap();
    assert_eq!(pool, Capability::wrap_cptr(90, CapType::ASIDPool));
    assert_eq!(rest.free_slots, 0);
}

#[test]
fn copy_local_keeps_the_source_and_fails_with_status() {
    let source = Capability::wrap_cptr(12, CapType::Page);
    let rights = CapRights {
        read: true,
        write: false,
        grant: false,
    };
    let pending = source.copy_local(table(40, 1), rights).unwrap();
    assert_eq!(
        pending.request(),
        KernelRequest::CNodeCopy {
            dest_root: 2,
            dest_index: 40,
            dest_depth: 32,
            src_root: 2,
            src_index: 12,
            src_depth: 32,
            rights,
        }
    );
    let (copy, _) = pending.complete(0).unwrap();
    assert_eq!(copy, Capability::wrap_cptr(40, CapType::Page));
    assert_eq!(source.cptr, 12);
    let failed = source.copy_local(table(40, 1), rights).unwrap().complete(9);
    assert_eq!(failed.map(|_| ()), Err(Error::CNodeCopy(9)));
}

#[test]
fn configure_sets_the_guard_from_the_radix() {
    let tcb = Capability::wrap_cptr(20, CapType::ThreadControlBlock);
    let cspace = CNode {
        radix: 12,
        next_free_slot: 0,
        cptr: 21,
        free_slots: 4096,
        role: CNodeRole::ChildProcess,
    };
    let pd = Capability::wrap_cptr(22, CapType::PageDirectory);
    let pending = tcb.configure(cspace, pd);
    assert_eq!(
        pending.request(),
        KernelRequest::TCBConfigure {
            service: 20,
            fault_ep: 0,
            cspace_root: 21,
            guard_size: 20,
            vspace_root: 22,
        }
    );
    assert_eq!(pending.complete(1), Err(Error::TCBConfigure(1)));
}

#[test]
fn directory_operations_describe_their_calls() {
    let pd = Capability::wrap_cptr(30, CapType::PageDirectory);
    let pt = Capability::wrap_cptr(31, CapType::PageTable);
    let page = Capability::wrap_cptr(32, CapType::Page);
    let pool = Capability::wrap_cptr(33, CapType::ASIDPool);
    assert_eq!(
        pd.map_page_table(&pt, 0x10_0000).request(),
        KernelRequest::PageTableMap {
            page_table: 31,
            page_directory: 30,
            vaddr: 0x10_0000,
        }
    );
    let map = pd.map_page(&page, 0x10_1000);
    assert_eq!(
        map.request(),
        KernelRequest::PageMap {
            page: 32,
            page_directory: 30,
            vaddr: 0x10_1000,
            rights: CapRights {
                read: true,
                write: true,
                grant: false,
            },
        }
    );
    assert_eq!(map.complete(4), Err(Error::MapPage(4)));
    let assign = pool.assign(&pd);
    assert_eq!(
        assign.request(),
        KernelRequest::ASIDPoolAssign {
            service: 33,
            vspace: 30,
        }
    );
    assert_eq!(assign.complete(0), Ok(()));
}

#[test]
fn wrap_untyped_checks_the_size() {
    assert_eq!(wrap_untyped(8, 20, 20), Some(untyped(8, 20)));
    assert_eq!(wrap_untyped(8, 20, 21), None);
}

fn drain(job: &mut ferros_core::buddy::BuddyJob, buddy: &mut UntypedBuddy) -> usize {
    let mut calls = 0;
    while let Some(req) = job.request() {
        match req {
            KernelRequest::UntypedRetype { num_objects, .. } => assert_eq!(num_objects, 1),
            other => panic!("unexpected request {:?}", other),
        }
        job.on_status(0, buddy).unwrap();
        calls += 1;
    }
    calls
}

#[test]
fn buddy_halves_the_smallest_block_and_keeps_the_rest() {
    let mut buddy = UntypedBuddy::new(untyped(5, 16));
    assert_eq!(buddy.piece(12), Some(5));
    let mut job = buddy.take(12, table(100, 10)).unwrap();
    assert_eq!(buddy.piece(12), None);
    assert_eq!(drain(&mut job, &mut buddy), 4);
    let (block, rest) = job.finish();
    assert_eq!(block, untyped(5, 12));
    assert_eq!(rest.next_free_slot, 104);
    // The second halves are free, one of each size between.
    assert_eq!(buddy.piece(11), Some(100));
    assert_eq!(buddy.piece(10), Some(101));
    assert_eq!(buddy.piece(9), Some(102));
    assert_eq!(buddy.piece(8), Some(103));
    // A second request of the same size is served without any halving.
    let mut again = buddy.take(12, rest).unwrap();
    assert_eq!(again.request(), None);
    assert_eq!(drain(&mut again, &mut buddy), 0);
    let (block2, _) = again.finish();
    assert_eq!(block2, untyped(103, 12));
    assert_eq!(buddy.piece(8), None);
}

#[test]
fn buddy_refuses_what_it_cannot_serve() {
    let mut buddy = UntypedBuddy::new(untyped(5, 16));
    assert!(matches!(
        buddy.take(17, table(100, 10)),
        Err(Error::UntypedTooSmall)
    ));
    assert!(matches!(
        buddy.take(12, table(100, 3)),
        Err(Error::InsufficientSlots)
    ));
    assert_eq!(buddy.piece(12), Some(5));
}

#[test]
fn buddy_halving_failure_reports_status() {
    let mut buddy = UntypedBuddy::new(untyped(5, 14));
    let mut job = buddy.take(13, table(100, 1)).unwrap();
    assert_eq!(job.on_status(2, &mut buddy), Err(Error::UntypedRetype(2)));
    assert_eq!(buddy.piece(9), None);
}
