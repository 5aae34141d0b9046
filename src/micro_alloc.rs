//! A first-chance inventory of the untyped blocks that the kernel hands the
//! root task at boot. It does not split anything: it hands out a free block
//! of exactly the requested size, the first one in boot order.
use vstd::prelude::*;

use arrayvec::ArrayVec;

use crate::cap::{wrap_untyped, CapType, Capability};

verus! {

pub const MIN_UNTYPED_SIZE_BITS: u8 = 4;

pub const MAX_UNTYPED_SIZE_BITS: u8 = 32;

/// Most untyped blocks the boot information can list.
pub const MAX_INIT_UNTYPED_ITEMS: usize = 256;

#[verifier::external_type_specification]
#[verifier::external_body]
#[verifier::reject_recursive_types(T)]
pub struct ExArrayVec<T, const CAP: usize>(ArrayVec<T, CAP>);

/// The kernel's boot-time description of one untyped block.
#[derive(Debug, Clone, Copy, PartialEq, Eq, Structural)]
pub struct UntypedDesc {
    pub paddr: usize,
    pub size_bits: u8,
    pub is_device: bool,
}

/// One block of the inventory: its slot, its description, and whether it
/// is still to be handed out.
#[derive(Debug, Clone, Copy, PartialEq, Eq, Structural)]
pub struct UntypedItem {
    pub cptr: usize,
    pub desc: UntypedDesc,
    pub is_free: bool,
}

#[derive(Debug, Clone, Copy, PartialEq, Eq, Structural)]
pub enum Error {
    InvalidBootInfoCapability,
    UntypedSizeOutOfRange,
}

/// The items an inventory table holds, in order.
pub uninterp spec fn inventory_items(v: ArrayVec<UntypedItem, MAX_INIT_UNTYPED_ITEMS>) -> Seq<UntypedItem>;

/// Relies on `ArrayVec::new`: the new vector is empty.
#[verifier::external_body]
fn items_new() -> (r: ArrayVec<UntypedItem, MAX_INIT_UNTYPED_ITEMS>)
    ensures
        inventory_items(r) == Seq::<UntypedItem>::empty(),
{
    ArrayVec::new()
}

/// Relies on `ArrayVec::len`: the number of items held.
#[verifier::external_body]
fn items_len(v: &ArrayVec<UntypedItem, MAX_INIT_UNTYPED_ITEMS>) -> (r: usize)
    ensures
        r == inventory_items(*v).len(),
{
    v.len()
}

/// Relies on `ArrayVec::push`: appends the item; it panics only when the
/// vector is full, which `requires` rules out.
#[verifier::external_body]
fn items_push(v: &mut ArrayVec<UntypedItem, MAX_INIT_UNTYPED_ITEMS>, item: UntypedItem)
    requires
        inventory_items(*old(v)).len() < MAX_INIT_UNTYPED_ITEMS,
    ensures
        inventory_items(*final(v)) == inventory_items(*old(v)).push(item),
{
    v.push(item)
}

/// Relies on `ArrayVec`'s `Deref` to a slice of the held items: reads
/// item `i`.
#[verifier::external_body]
fn items_get(v: &ArrayVec<UntypedItem, MAX_INIT_UNTYPED_ITEMS>, i: usize) -> (r: UntypedItem)
    requires
        i < inventory_items(*v).len(),
    ensures
        r == inventory_items(*v)[i as int],
{
    v[i]
}

/// Relies on `ArrayVec`'s `DerefMut` to a slice of the held items:
/// replaces item `i`.
#[verifier::external_body]
fn items_set(v: &mut ArrayVec<UntypedItem, MAX_INIT_UNTYPED_ITEMS>, i: usize, item: UntypedItem)
    requires
        i < inventory_items(*old(v)).len(),
    ensures
        inventory_items(*final(v)) == inventory_items(*old(v)).update(i as int, item),
{
    v[i] = item;
}

/// What the inventory makes of the block in slot `cptr` described by
/// `desc`.
pub open spec fn spec_item(cptr: usize, desc: UntypedDesc) -> Result<UntypedItem, Error> {
    if cptr == 0 {
        Err(Error::InvalidBootInfoCapability)
    } else if desc.size_bits < MIN_UNTYPED_SIZE_BITS || desc.size_bits > MAX_UNTYPED_SIZE_BITS {
        Err(Error::UntypedSizeOutOfRange)
    } else {
        Ok(UntypedItem { cptr, desc, is_free: true })
    }
}

impl UntypedItem {
    /// A free item for the block in slot `cptr`; slot 0 is never a block,
    /// and the size must lie in the supported range.
    pub fn new(cptr: usize, desc: UntypedDesc) -> (r: Result<UntypedItem, Error>)
        ensures
            r == spec_item(cptr, desc),
    {
        if cptr == 0 {
            Err(Error::InvalidBootInfoCapability)
        } else if desc.size_bits < MIN_UNTYPED_SIZE_BITS || desc.size_bits > MAX_UNTYPED_SIZE_BITS {
            Err(Error::UntypedSizeOutOfRange)
        } else {
            Ok(UntypedItem { cptr, desc, is_free: true })
        }
    }
}

/// Whether `item` answers a request for a block of `bits` bits, of device
/// memory or not, at `paddr` if one is given.
pub open spec fn spec_fits(item: UntypedItem, bits: u8, device: bool, paddr: Option<usize>) -> bool {
    &&& item.is_free
    &&& item.desc.is_device == device
    &&& item.desc.size_bits == bits
    &&& match paddr {
        Some(a) => item.desc.paddr == a,
        None => true,
    }
}

/// The untyped blocks listed at boot.
pub struct Allocator {
    items: ArrayVec<UntypedItem, MAX_INIT_UNTYPED_ITEMS>,
}

impl Allocator {
    pub closed spec fn spec_items(&self) -> Seq<UntypedItem> {
        inventory_items(self.items)
    }

    /// Takes stock of the blocks `descs`, which occupy the consecutive slots
    /// from `first_cptr`. The first block that cannot be an item decides
    /// the error.
    pub fn bootstrap(first_cptr: usize, descs: &Vec<UntypedDesc>) -> (r: Result<Allocator, Error>)
        requires
            descs@.len() <= MAX_INIT_UNTYPED_ITEMS,
            first_cptr + descs@.len() <= usize::MAX,
        ensures
            (forall|i: int|
                0 <= i < descs@.len() ==> #[trigger] spec_item((first_cptr + i) as usize, descs@[i]) is Ok)
                ==> {
                &&& r is Ok
                &&& r->Ok_0.spec_items().len() == descs@.len()
                &&& forall|i: int|
                    0 <= i < descs@.len() ==> #[trigger] r->Ok_0.spec_items()[i] == spec_item(
                        (first_cptr + i) as usize,
                        descs@[i],
                    )->Ok_0
            },
            r is Ok ==> forall|i: int|
                0 <= i < descs@.len() ==> #[trigger] spec_item((first_cptr + i) as usize, descs@[i]) is Ok,
            r is Err ==> exists|i: int|
                {
                    &&& 0 <= i < descs@.len()
                    &&& #[trigger] spec_item((first_cptr + i) as usize, descs@[i]) is Err
                    &&& r->Err_0 == spec_item((first_cptr + i) as usize, descs@[i])->Err_0
                    &&& forall|j: int|
                        0 <= j < i ==> spec_item((first_cptr + j) as usize, descs@[j]) is Ok
                },
    {
        let mut items = items_new();
        let mut i: usize = 0;
        while i < descs.len()
            invariant
                i <= descs@.len(),
                descs@.len() <= MAX_INIT_UNTYPED_ITEMS,
                first_cptr + descs@.len() <= usize::MAX,
                inventory_items(items).len() == i,
                forall|j: int|
                    0 <= j < i ==> #[trigger] spec_item((first_cptr + j) as usize, descs@[j]) is Ok,
                forall|j: int|
                    0 <= j < i ==> #[trigger] inventory_items(items)[j] == spec_item(
                        (first_cptr + j) as usize,
                        descs@[j],
                    )->Ok_0,
            decreases descs@.len() - i,
        {
            match UntypedItem::new(first_cptr + i, descs[i]) {
                Ok(item) => items_push(&mut items, item),
                Err(e) => {
                    assert(spec_item((first_cptr + i) as usize, descs@[i as int]) is Err);
                    return Err(e);
                },
            }
            i = i + 1;
        }
        Ok(Allocator { items })
    }

    /// Hands out the first free block of exactly `bits` bits, of device
    /// memory or not, at `paddr` if one is given, and marks it taken. A
    /// larger block is not split.
    fn find_block(&mut self, bits: u8, device_ok: bool, paddr: Option<usize>) -> (r: Option<Capability>)
        ensures
            (forall|i: int|
                0 <= i < old(self).spec_items().len() ==> !spec_fits(
                    #[trigger] old(self).spec_items()[i],
                    bits,
                    device_ok,
                    paddr,
                )) ==> {
                &&& r is None
                &&& final(self).spec_items() == old(self).spec_items()
            },
            r is Some ==> exists|i: int|
                {
                    let item = old(self).spec_items()[i];
                    &&& 0 <= i < old(self).spec_items().len()
                    &&& spec_fits(#[trigger] old(self).spec_items()[i], bits, device_ok, paddr)
                    &&& forall|j: int|
                        0 <= j < i ==> !spec_fits(old(self).spec_items()[j], bits, device_ok, paddr)
                    &&& r == Some(
                        Capability { cptr: item.cptr, cap_type: CapType::Untyped { size_bits: bits } },
                    )
                    &&& final(self).spec_items() == old(self).spec_items().update(
                        i,
                        UntypedItem { is_free: false, ..item },
                    )
                },
            (exists|i: int|
                0 <= i < old(self).spec_items().len() && spec_fits(
                    #[trigger] old(self).spec_items()[i],
                    bits,
                    device_ok,
                    paddr,
                )) ==> r is Some,
    {
        let n = items_len(&self.items);
        let mut i: usize = 0;
        while i < n
            invariant
                n == self.spec_items().len(),
                self.spec_items() == old(self).spec_items(),
                i <= n,
                forall|j: int| 0 <= j < i ==> !spec_fits(self.spec_items()[j], bits, device_ok, paddr),
            decreases n - i,
        {
            let item = items_get(&self.items, i);
            let fits = item.is_free && item.desc.is_device == device_ok && item.desc.size_bits == bits
                && match paddr {
                Some(a) => item.desc.paddr == a,
                None => true,
            };
            if fits {
                let u = wrap_untyped(item.cptr, item.desc.size_bits, bits);
                items_set(&mut self.items, i, UntypedItem { is_free: false, ..item });
                return u;
            }
            i = i + 1;
        }
        None
    }

    /// A free block of ordinary memory of exactly `bits` bits.
    pub fn get_untyped(&mut self, bits: u8) -> (r: Option<Capability>)
        ensures
            (forall|i: int|
                0 <= i < old(self).spec_items().len() ==> !spec_fits(
                    #[trigger] old(self).spec_items()[i],
                    bits,
                    false,
                    None,
                )) <==> r is None,
            r is None ==> final(self).spec_items() == old(self).spec_items(),
            r is Some ==> exists|i: int|
                {
                    let item = old(self).spec_items()[i];
                    &&& 0 <= i < old(self).spec_items().len()
                    &&& spec_fits(#[trigger] old(self).spec_items()[i], bits, false, None)
                    &&& forall|j: int|
                        0 <= j < i ==> !spec_fits(old(self).spec_items()[j], bits, false, None)
                    &&& r == Some(
                        Capability { cptr: item.cptr, cap_type: CapType::Untyped { size_bits: bits } },
                    )
                    &&& final(self).spec_items() == old(self).spec_items().update(
                        i,
                        UntypedItem { is_free: false, ..item },
                    )
                },
    {
        self.find_block(bits, false, None)
    }

    /// A free block of device memory of exactly `bits` bits at `paddr`.
    pub fn get_device_untyped(&mut self, bits: u8, paddr: usize) -> (r: Option<Capability>)
        ensures
            (forall|i: int|
                0 <= i < old(self).spec_items().len() ==> !spec_fits(
                    #[trigger] old(self).spec_items()[i],
                    bits,
                    true,
                    Some(paddr),
                )) <==> r is None,
            r is None ==> final(self).spec_items() == old(self).spec_items(),
            r is Some ==> exists|i: int|
                {
                    let item = old(self).spec_items()[i];
                    &&& 0 <= i < old(self).spec_items().len()
                    &&& spec_fits(#[trigger] old(self).spec_items()[i], bits, true, Some(paddr))
                    &&& forall|j: int|
                        0 <= j < i ==> !spec_fits(old(self).spec_items()[j], bits, true, Some(paddr))
                    &&& r == Some(
                        Capability { cptr: item.cptr, cap_type: CapType::Untyped { size_bits: bits } },
                    )
                    &&& final(self).spec_items() == old(self).spec_items().update(
                        i,
                        UntypedItem { is_free: false, ..item },
                    )
                },
    {
        self.find_block(bits, true, Some(paddr))
    }

    /// Number of blocks in the inventory.
    pub fn len(&self) -> (r: usize)
        ensures
            r == self.spec_items().len(),
    {
        items_len(&self.items)
    }
}

} // verus!
