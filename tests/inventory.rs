use ferros_core::cap::{CapType, Capability};
use ferros_core::micro_alloc::{Allocator, Error, UntypedDesc, UntypedItem};

fn desc(paddr: usize, size_bits: u8, is_device: bool) -> UntypedDesc {
    UntypedDesc {
        paddr,
        size_bits,
        is_device,
    }
}

fn untyped(cptr: usize, bits: u8) -> Capability {
    Capability {
        cptr,
        cap_type: CapType::Untyped { size_bits: bits },
    }
}

#[test]
fn item_checks_slot_and_size() {
    assert_eq!(
        UntypedItem::new(0, desc(0, 12, false)),
        Err(Error::InvalidBootInfoCapability)
    );
    assert_eq!(
        UntypedItem::new(5, desc(0, 3, false)),
        Err(Error::UntypedSizeOutOfRange)
    );
    assert_eq!(
        UntypedItem::new(5, desc(0, 33, false)),
        Err(Error::UntypedSizeOutOfRange)
    );
    let item = UntypedItem::new(5, desc(0x1000, 32, false)).unwrap();
    assert!(item.is_free);
    assert_eq!(item.cptr, 5);
}

#[test]
fn bootstrap_numbers_blocks_from_the_first_slot() {
    let descs = vec![desc(0, 12, false), desc(0x1000, 16, false)];
    let alloc = Allocator::bootstrap(10, &descs).unwrap();
    assert_eq!(alloc.len(), 2);
}

#[test]
fn bootstrap_reports_the_first_bad_block() {
    let descs = vec![desc(0, 12, false), desc(0, 2, false), desc(0, 40, false)];
    assert!(matches!(
        Allocator::bootstrap(10, &descs),
        Err(Error::UntypedSizeOutOfRange)
    ));
    assert!(matches!(
        Allocator::bootstrap(0, &descs),
        Err(Error::InvalidBootInfoCapability)
    ));
}

#[test]
fn get_untyped_hands_out_exact_sizes_in_order_once() {
    let descs = vec![
        desc(0x0, 16, false),
        desc(0x1_0000, 12, true),
        desc(0x2_0000, 12, false),
        desc(0x3_0000, 12, false),
    ];
    let mut alloc = Allocator::bootstrap(10, &descs).unwrap();
    assert_eq!(alloc.get_untyped(12), Some(untyped(12, 12)));
    assert_eq!(alloc.get_untyped(12), Some(untyped(13, 12)));
    assert_eq!(alloc.get_untyped(12), None);
    // A larger block is not split to serve a smaller request.
    assert_eq!(alloc.get_untyped(14), None);
    assert_eq!(alloc.get_untyped(16), Some(untyped(10, 16)));
    assert_eq!(alloc.get_untyped(16), None);
}

#[test]
fn get_device_untyped_matches_the_address() {
    let descs = vec![desc(0x1_0000, 12, true), desc(0x2_0000, 12, true)];
    let mut alloc = Allocator::bootstrap(20, &descs).unwrap();
    assert_eq!(alloc.get_device_untyped(12, 0x3_0000), None);
    assert_eq!(
        alloc.get_device_untyped(12, 0x2_0000),
        Some(untyped(21, 12))
    );
    assert_eq!(alloc.get_device_untyped(12, 0x2_0000), None);
    assert_eq!(alloc.get_untyped(12), None);
}
