//! An address space held in memory: a capture of a process, or one built by
//! hand.

use crate::bootstrap::{
    clear_from, companion_needed, first_hit, lemma_bootstrap_fails,
    lemma_bootstrap_fails_for_user_info, lemma_bootstrap_succeeds, lemma_visits, required,
    searchable, swept, visits,
};
use crate::data::AddressInfo;
use crate::pattern::{first_match, lemma_first_match_is_least};
use crate::read::{readable, MemoryError, MemoryReader, MemoryRegion};
use crate::signature::Signature;
use vstd::prelude::*;
use vstd::slice::{slice_subrange, slice_to_vec};

verus! {

/// A mapped region of an image with its contents.
#[derive(Debug)]
pub struct ImageRegion {
    /// The address of the first byte.
    pub base: usize,
    /// The protection flags.
    pub protect: u32,
    /// The contents.
    pub data: Vec<u8>,
}

impl ImageRegion {
    /// Whether `addr` lies in the region.
    pub open spec fn holds(&self, addr: usize) -> bool {
        self.base <= addr && addr - self.base < self.data@.len()
    }

    /// Whether the region ends beyond `addr`: it holds it or lies above it.
    pub open spec fn reaches_past(&self, addr: usize) -> bool {
        addr < self.base || self.holds(addr)
    }

    /// What a page query reports of the region.
    pub open spec fn descriptor(&self) -> MemoryRegion {
        MemoryRegion { base: self.base, size: self.data@.len() as usize, protect: self.protect }
    }
}

/// An address space as a list of mapped regions, meant to be kept in
/// ascending order of address. The space between two regions is free.
#[derive(Debug)]
pub struct MemoryImage {
    /// The mapped regions.
    pub regions: Vec<ImageRegion>,
}

/// The index of the first region from `from` on that ends beyond `addr`.
pub open spec fn next_region(regions: Seq<ImageRegion>, addr: usize, from: int) -> Option<int>
    decreases regions.len() - from,
{
    if from < 0 || from >= regions.len() {
        None
    } else if regions[from].reaches_past(addr) {
        Some(from)
    } else {
        next_region(regions, addr, from + 1)
    }
}

impl MemoryImage {
    /// An image with nothing mapped.
    pub fn new() -> (r: Self)
        ensures
            r.regions@.len() == 0,
    {
        MemoryImage { regions: Vec::new() }
    }

    /// Maps `data` at `base`, after the regions mapped so far.
    pub fn map(&mut self, base: usize, protect: u32, data: Vec<u8>)
        ensures
            final(self).regions@ == old(self).regions@.push(ImageRegion { base, protect, data }),
    {
        self.regions.push(ImageRegion { base, protect, data });
    }

    /// Checks that the regions are laid out as those of an address space.
    pub fn is_well_formed(&self) -> (r: bool)
        ensures
            r == self.well_formed(),
    {
        let mut i: usize = 0;
        while i < self.regions.len()
            invariant
                i <= self.regions@.len(),
                forall|k: int|
                    0 <= k < i ==> {
                        &&& (#[trigger] self.regions@[k]).base > 0
                        &&& self.regions@[k].data@.len() > 0
                        &&& self.regions@[k].base + self.regions@[k].data@.len() <= usize::MAX
                    },
                forall|k: int, j: int|
                    0 <= k < j < i ==> (#[trigger] self.regions@[k]).base
                        + self.regions@[k].data@.len() <= (#[trigger] self.regions@[j]).base,
            decreases self.regions@.len() - i,
        {
            let region = &self.regions[i];
            if region.base == 0 || region.data.len() == 0 || region.base > usize::MAX
                - region.data.len() {
                return false;
            }
            if i > 0 {
                let before = &self.regions[i - 1];
                if before.base + before.data.len() > region.base {
                    return false;
                }
            }
            i += 1;
        }
        true
    }

    /// Finds the first region that ends beyond `addr`.
    fn locate(&self, addr: usize) -> (r: Option<usize>)
        ensures
            match r {
                Some(i) => next_region(self.regions@, addr, 0) == Some(i as int)
                    && i < self.regions@.len() && self.regions@[i as int].reaches_past(addr),
                None => next_region(self.regions@, addr, 0) is None,
            },
    {
        let mut i: usize = 0;
        while i < self.regions.len()
            invariant
                i <= self.regions@.len(),
                next_region(self.regions@, addr, 0) == next_region(self.regions@, addr, i as int),
            decreases self.regions@.len() - i,
        {
            let region = &self.regions[i];
            if addr < region.base || addr - region.base < region.data.len() {
                return Some(i);
            }
            i += 1;
        }
        None
    }
}

impl MemoryReader for MemoryImage {
    /// The region that holds `addr`; the free space up to the next region
    /// where none does, with null protection flags; `None` above the last
    /// region.
    open spec fn region_at(&self, addr: usize) -> Option<MemoryRegion> {
        match next_region(self.regions@, addr, 0) {
            Some(i) => if self.regions@[i].holds(addr) {
                Some(self.regions@[i].descriptor())
            } else {
                Some(
                    MemoryRegion {
                        base: addr,
                        size: (self.regions@[i].base - addr) as usize,
                        protect: 0,
                    },
                )
            },
            None => None,
        }
    }

    /// The bytes from `addr` on, where they lie in one readable region.
    open spec fn bytes_at(&self, addr: usize, len: usize) -> Option<Seq<u8>> {
        match next_region(self.regions@, addr, 0) {
            Some(i) => {
                let region = self.regions@[i];
                if region.holds(addr) && readable(region.protect) && addr - region.base + len
                    <= region.data@.len() {
                    Some(region.data@.subrange(addr - region.base, addr - region.base + len))
                } else {
                    None
                }
            },
            None => None,
        }
    }

    fn query_page(&self, addr: usize) -> (r: Option<MemoryRegion>) {
        match self.locate(addr) {
            Some(i) => {
                let region = &self.regions[i];
                if addr < region.base {
                    Some(MemoryRegion { base: addr, size: region.base - addr, protect: 0 })
                } else {
                    Some(
                        MemoryRegion {
                            base: region.base,
                            size: region.data.len(),
                            protect: region.protect,
                        },
                    )
                }
            },
            None => None,
        }
    }

    fn read_raw(&self, addr: usize, len: usize) -> (r: Result<Vec<u8>, MemoryError>) {
        match self.locate(addr) {
            Some(i) => {
                let region = &self.regions[i];
                let descriptor = MemoryRegion {
                    base: region.base,
                    size: region.data.len(),
                    protect: region.protect,
                };
                if addr < region.base || !descriptor.is_readable() {
                    return Err(MemoryError::ReadFailed(addr));
                }
                let offset = addr - region.base;
                if len > region.data.len() - offset {
                    return Err(MemoryError::ReadFailed(addr));
                }
                Ok(slice_to_vec(slice_subrange(region.data.as_slice(), offset, offset + len)))
            },
            None => Err(MemoryError::ReadFailed(addr)),
        }
    }
}

impl MemoryImage {
    /// Whether the regions are laid out as those of an address space: each
    /// holds bytes, lies above address 0 and ends within the address space,
    /// and each lies wholly below the next.
    pub open spec fn well_formed(&self) -> bool {
        &&& forall|i: int|
            0 <= i < self.regions@.len() ==> {
                &&& (#[trigger] self.regions@[i]).base > 0
                &&& self.regions@[i].data@.len() > 0
                &&& self.regions@[i].base + self.regions@[i].data@.len() <= usize::MAX
            }
        &&& forall|i: int, j: int|
            0 <= i < j < self.regions@.len() ==> (#[trigger] self.regions@[i]).base
                + self.regions@[i].data@.len() <= (#[trigger] self.regions@[j]).base
    }

    /// Whether region `k` can be read and holds the signature.
    pub open spec fn holds_signature(&self, k: int, signature: Signature) -> bool {
        &&& 0 <= k < self.regions@.len()
        &&& readable(self.regions@[k].protect)
        &&& first_match(self.regions@[k].data@, signature.tokens()) is Some
    }

    /// Whether some region can be read and holds the signature.
    pub open spec fn offers(&self, signature: Signature) -> bool {
        exists|k: int| self.holds_signature(k, signature)
    }
}

/// In a well-formed image the first region that ends beyond an address is
/// the region `k` whose predecessors all end at or below the address.
proof fn lemma_next_region(image: &MemoryImage, addr: usize, k: int, from: int)
    requires
        image.well_formed(),
        0 <= from <= k < image.regions@.len(),
        addr < image.regions@[k].base + image.regions@[k].data@.len(),
        k == 0 || image.regions@[k - 1].base + image.regions@[k - 1].data@.len() <= addr,
    ensures
        next_region(image.regions@, addr, from) == Some(k),
    decreases k - from,
{
    if from < k {
        assert(image.regions@[from].base + image.regions@[from].data@.len() <= addr) by {
            if from < k - 1 {
                assert(image.regions@[from].base + image.regions@[from].data@.len()
                    <= image.regions@[k - 1].base);
            }
        }
        lemma_next_region(image, addr, k, from + 1);
    }
}

/// The region of a well-formed image that an address below the end of
/// region `k` is answered with: the least `j` up to `k` that ends beyond it.
proof fn lemma_region_found(image: &MemoryImage, addr: usize, k: int) -> (j: int)
    requires
        image.well_formed(),
        0 <= k < image.regions@.len(),
        addr < image.regions@[k].base + image.regions@[k].data@.len(),
    ensures
        0 <= j <= k,
        next_region(image.regions@, addr, 0) == Some(j),
        addr < image.regions@[j].base + image.regions@[j].data@.len(),
        j == 0 || image.regions@[j - 1].base + image.regions@[j - 1].data@.len() <= addr,
    decreases k,
{
    if k == 0 || image.regions@[k - 1].base + image.regions@[k - 1].data@.len() <= addr {
        lemma_next_region(image, addr, k, 0);
        k
    } else {
        lemma_region_found(image, addr, k - 1)
    }
}

/// What a sweep has of a region of a well-formed image to search: all of its
/// bytes where the region may be read, and nothing where it may not.
proof fn lemma_region_contents(image: &MemoryImage, j: int)
    requires
        image.well_formed(),
        0 <= j < image.regions@.len(),
    ensures
        searchable(image, image.regions@[j].descriptor()) == if readable(
            image.regions@[j].protect,
        ) {
            Some(image.regions@[j].data@)
        } else {
            None
        },
{
    let region = image.regions@[j];
    let found = lemma_region_found(image, region.base, j);
    assert(found == j) by {
        if found < j {
            assert(image.regions@[found].base + image.regions@[found].data@.len()
                <= image.regions@[j].base);
        }
    }
    assert(region.data@.subrange(0, region.data@.len() as int) =~= region.data@);
}

/// The regions that a sweep over a well-formed image visits are in order.
pub proof fn lemma_image_is_clear(image: &MemoryImage, addr: usize)
    requires
        image.well_formed(),
    ensures
        clear_from(image, addr),
    decreases usize::MAX - addr,
{
    match next_region(image.regions@, addr, 0) {
        None => {},
        Some(j) => {
            lemma_next_region_in_range(image.regions@, addr, 0);
            let region = image.regions@[j];
            let page = image.region_at(addr)->0;
            if region.holds(addr) {
                lemma_region_contents(image, j);
            }
            let end = page.base + page.size;
            if addr < end <= usize::MAX {
                lemma_image_is_clear(image, end as usize);
            }
        },
    }
}

/// The region that `next_region` names lies in the list and ends beyond the
/// address.
proof fn lemma_next_region_in_range(regions: Seq<ImageRegion>, addr: usize, from: int)
    requires
        0 <= from,
    ensures
        next_region(regions, addr, from) matches Some(j) ==> from <= j < regions.len()
            && regions[j].reaches_past(addr),
    decreases regions.len() - from,
{
    if from < regions.len() && !regions[from].reaches_past(addr) {
        lemma_next_region_in_range(regions, addr, from + 1);
    }
}

/// A sweep over a well-formed image, from an address below the end of a
/// region, visits the region.
pub proof fn lemma_image_sweep_visits(image: &MemoryImage, addr: usize, k: int)
    requires
        image.well_formed(),
        0 <= k < image.regions@.len(),
        addr < image.regions@[k].base + image.regions@[k].data@.len(),
    ensures
        visits(image, addr, image.regions@[k].descriptor()),
    decreases image.regions@[k].base + image.regions@[k].data@.len() - addr,
{
    let j = lemma_region_found(image, addr, k);
    let region = image.regions@[j];
    let page = image.region_at(addr)->0;
    let end = page.base + page.size;
    if j < k {
        assert(region.base + region.data@.len() <= image.regions@[k].base);
    }
    lemma_visits(image, addr, image.regions@[k].descriptor());
    if region.holds(addr) && j == k {
    } else {
        lemma_image_sweep_visits(image, end as usize, k);
    }
}

/// A sweep over a well-formed image, from an address below the end of a
/// readable region that holds a signature, comes to the signature.
pub proof fn lemma_image_sweep_finds(
    image: &MemoryImage,
    addr: usize,
    k: int,
    signature: Signature,
)
    requires
        image.well_formed(),
        image.holds_signature(k, signature),
        addr < image.regions@[k].base + image.regions@[k].data@.len(),
    ensures
        first_hit(image, signature, addr) != 0,
    decreases image.regions@[k].base + image.regions@[k].data@.len() - addr,
{
    let j = lemma_region_found(image, addr, k);
    let region = image.regions@[j];
    let page = image.region_at(addr)->0;
    let end = page.base + page.size;
    if j < k {
        assert(region.base + region.data@.len() <= image.regions@[k].base);
    }
    if region.holds(addr) {
        lemma_region_contents(image, j);
        if j == k {
            lemma_first_match_is_least(region.data@, signature.tokens());
        } else {
            lemma_image_sweep_finds(image, end as usize, k, signature);
        }
    } else {
        lemma_image_sweep_finds(image, end as usize, k, signature);
    }
}

/// The bootstrap of a well-formed image that holds every signature succeeds,
/// wherever its regions hold them: each required signature in a readable
/// region, and the user-profile signature too. Every required signature is
/// then located, and so is the user-profile signature of a tournament client.
pub proof fn lemma_image_bootstrap_succeeds(image: &MemoryImage)
    requires
        image.well_formed(),
        forall|signature: Signature| #[trigger] image.offers(signature),
    ensures
        swept(image, AddressInfo::unresolved(), 0).0 is Ok,
        forall|signature: Signature|
            required(signature) ==> #[trigger] swept(image, AddressInfo::unresolved(), 0).1.of(
                signature,
            ) != 0,
        companion_needed(image, swept(image, AddressInfo::unresolved(), 0).1.status) ==> swept(
            image,
            AddressInfo::unresolved(),
            0,
        ).1.user_info != 0,
{
    assert(required(Signature::Status));
    lemma_image_is_clear(image, 0);
    assert forall|signature: Signature| first_hit(image, signature, 0) != 0 by {
        assert(image.offers(signature));
        let k = choose|k: int| image.holds_signature(k, signature);
        lemma_image_sweep_finds(image, 0, k, signature);
    }
    lemma_bootstrap_succeeds(image);
    let left = swept(image, AddressInfo::unresolved(), 0).1;
    assert(left.of(Signature::Status) == first_hit(image, Signature::Status, 0));
    assert(first_hit(image, Signature::UserInfo, 0) != 0);
}

/// A sweep over a well-formed image comes to no signature that no readable
/// region holds.
pub proof fn lemma_image_sweep_misses(image: &MemoryImage, addr: usize, signature: Signature)
    requires
        image.well_formed(),
        !image.offers(signature),
    ensures
        first_hit(image, signature, addr) == 0,
    decreases usize::MAX - addr,
{
    match next_region(image.regions@, addr, 0) {
        None => {},
        Some(j) => {
            lemma_next_region_in_range(image.regions@, addr, 0);
            let region = image.regions@[j];
            let page = image.region_at(addr)->0;
            if region.holds(addr) {
                lemma_region_contents(image, j);
                assert(!image.holds_signature(j, signature));
            }
            let end = page.base + page.size;
            if addr < end <= usize::MAX {
                lemma_image_sweep_misses(image, end as usize, signature);
            }
        },
    }
}

/// The bootstrap of a well-formed image that lacks a required signature
/// fails for want of it and still locates every required signature that a
/// readable region holds.
pub proof fn lemma_image_bootstrap_fails(image: &MemoryImage, missing: Signature)
    requires
        image.well_formed(),
        required(missing),
        !image.offers(missing),
    ensures
        swept(image, AddressInfo::unresolved(), 0).0 == Err::<(), MemoryError>(
            MemoryError::PatternsNotFound,
        ),
        swept(image, AddressInfo::unresolved(), 0).1.of(missing) == 0,
        forall|signature: Signature|
            required(signature) && image.offers(signature) ==> #[trigger] swept(
                image,
                AddressInfo::unresolved(),
                0,
            ).1.of(signature) != 0,
{
    lemma_image_is_clear(image, 0);
    lemma_image_sweep_misses(image, 0, missing);
    lemma_bootstrap_fails(image, missing);
    assert forall|signature: Signature|
        required(signature) && image.offers(signature) implies #[trigger] swept(
        image,
        AddressInfo::unresolved(),
        0,
    ).1.of(signature) != 0 by {
        let k = choose|k: int| image.holds_signature(k, signature);
        lemma_image_sweep_finds(image, 0, k, signature);
    }
}

/// The bootstrap of a well-formed image of a tournament client that lacks
/// the user-profile signature fails for want of it and still locates every
/// required signature that a readable region holds.
pub proof fn lemma_image_bootstrap_fails_for_user_info(image: &MemoryImage)
    requires
        image.well_formed(),
        companion_needed(image, first_hit(image, Signature::Status, 0)),
        !image.offers(Signature::UserInfo),
    ensures
        swept(image, AddressInfo::unresolved(), 0).0 == Err::<(), MemoryError>(
            MemoryError::PatternsNotFound,
        ),
        swept(image, AddressInfo::unresolved(), 0).1.user_info == 0,
        forall|signature: Signature|
            required(signature) && image.offers(signature) ==> #[trigger] swept(
                image,
                AddressInfo::unresolved(),
                0,
            ).1.of(signature) != 0,
{
    lemma_image_is_clear(image, 0);
    lemma_image_sweep_misses(image, 0, Signature::UserInfo);
    lemma_bootstrap_fails_for_user_info(image);
    assert forall|signature: Signature|
        required(signature) && image.offers(signature) implies #[trigger] swept(
        image,
        AddressInfo::unresolved(),
        0,
    ).1.of(signature) != 0 by {
        let k = choose|k: int| image.holds_signature(k, signature);
        lemma_image_sweep_finds(image, 0, k, signature);
    }
}

} // verus!
