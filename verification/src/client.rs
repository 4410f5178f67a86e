//! A session on one address space: locating the signatures, following
//! pointer chains, and taking snapshots.

use crate::data::AddressInfo;
use crate::read::{ptr_at, MemoryError, MemoryReader};
use vstd::prelude::*;

verus! {

/// The address that a pointer chain leads to.
///
/// Each step adds its offset to the address, wrapping round, and follows the
/// pointer stored at the sum. A step whose read is refused or yields a null
/// pointer ends the chain at address 0.
pub open spec fn resolved<R: MemoryReader>(m: &R, start: usize, offsets: Seq<isize>) -> usize
    decreases offsets.len(),
{
    if offsets.len() == 0 {
        start
    } else {
        match ptr_at(m, start.wrapping_add_signed(offsets[0])) {
            Ok(next) => resolved(m, next, offsets.skip(1)),
            Err(_) => 0,
        }
    }
}

/// The address that a chain from a record leads to. A record at address 0
/// is absent, and a chain from it leads nowhere: to address 0.
pub open spec fn chain_of<R: MemoryReader>(m: &R, base: usize, offsets: Seq<isize>) -> usize {
    if base == 0 {
        0
    } else {
        resolved(m, base, offsets)
    }
}

/// The address of the field at `offset` in the record at `base`. A field of
/// an absent record, one at address 0, is absent: its address is 0.
pub open spec fn field_at(base: usize, offset: usize) -> usize {
    if base == 0 {
        0
    } else {
        base.wrapping_add(offset)
    }
}

/// The address of the field that lies `offset` bytes before `base`; 0 where
/// `base` is 0.
pub open spec fn field_before(base: usize, offset: usize) -> usize {
    if base == 0 {
        0
    } else {
        base.wrapping_sub(offset)
    }
}

/// The address of the field at `offset` in the record at `base`; 0 for an
/// absent record.
pub fn field(base: usize, offset: usize) -> (r: usize)
    ensures
        r == field_at(base, offset),
{
    if base == 0 {
        0
    } else {
        base.wrapping_add(offset)
    }
}

/// The address of the field that lies `offset` bytes before `base`; 0 where
/// `base` is 0.
pub fn field_back(base: usize, offset: usize) -> (r: usize)
    ensures
        r == field_before(base, offset),
{
    if base == 0 {
        0
    } else {
        base.wrapping_sub(offset)
    }
}

/// The address whose pointer step `k` of a chain follows.
pub open spec fn step_address<R: MemoryReader>(
    m: &R,
    start: usize,
    offsets: Seq<isize>,
    k: int,
) -> usize {
    resolved(m, start, offsets.take(k)).wrapping_add_signed(offsets[k])
}

/// A chain leads to address 0 as soon as one of its steps finds no pointer to
/// follow, whether the read was refused or gave a null pointer.
pub proof fn lemma_broken_step_ends_chain<R: MemoryReader>(
    m: &R,
    start: usize,
    offsets: Seq<isize>,
    k: int,
)
    requires
        0 <= k < offsets.len(),
        ptr_at(m, step_address(m, start, offsets, k)) is Err,
    ensures
        resolved(m, start, offsets) == 0,
    decreases k,
{
    let first = ptr_at(m, start.wrapping_add_signed(offsets[0]));
    if k == 0 {
        assert(offsets.take(0) =~= Seq::<isize>::empty());
    } else {
        assert(offsets.take(k)[0] == offsets[0]);
        assert(offsets.take(k).skip(1) =~= offsets.skip(1).take(k - 1));
        match first {
            Ok(next) => {
                assert(offsets.skip(1)[k - 1] == offsets[k]);
                lemma_broken_step_ends_chain(m, next, offsets.skip(1), k - 1);
            },
            Err(_) => {},
        }
    }
}

/// A chain of which one step follows the pointer at address 0 leads to
/// address 0.
pub proof fn lemma_null_step_ends_chain<R: MemoryReader>(
    m: &R,
    start: usize,
    offsets: Seq<isize>,
    k: int,
)
    requires
        0 <= k < offsets.len(),
        step_address(m, start, offsets, k) == 0,
    ensures
        resolved(m, start, offsets) == 0,
{
    lemma_broken_step_ends_chain(m, start, offsets, k);
}

/// A session on the address space that `reader` gives access to.
pub struct MemoryClient<R: MemoryReader> {
    /// The access to the address space.
    pub reader: R,
    /// Whether the session has not been closed yet.
    pub is_open: bool,
    /// The addresses located so far.
    pub addresses: AddressInfo,
}

impl<R: MemoryReader> MemoryClient<R> {
    /// Opens a session on `reader`, with no address located yet.
    pub fn open(reader: R) -> (r: Self)
        ensures
            r.reader == reader,
            r.is_open,
            r.addresses == AddressInfo::unresolved(),
    {
        MemoryClient { reader, is_open: true, addresses: AddressInfo::default() }
    }

    /// Closes the session. A session can be closed once.
    pub fn close(&mut self) -> (r: Result<(), MemoryError>)
        ensures
            r == if old(self).is_open {
                Ok::<(), MemoryError>(())
            } else {
                Err::<(), MemoryError>(MemoryError::AlreadyClosed)
            },
            !final(self).is_open,
            final(self).reader == old(self).reader,
            final(self).addresses == old(self).addresses,
    {
        if !self.is_open {
            return Err(MemoryError::AlreadyClosed);
        }
        self.is_open = false;
        Ok(())
    }

    /// Follows a pointer chain from the record at `base`; 0 where the record
    /// is absent or the chain breaks.
    pub fn chain(&self, base: usize, offsets: &[isize]) -> (r: usize)
        ensures
            r == chain_of(&self.reader, base, offsets@),
    {
        if base == 0 {
            0
        } else {
            self.resolve_ptrs(base, offsets)
        }
    }

    /// Follows a pointer chain from `start`; 0 where the chain breaks.
    pub fn resolve_ptrs(&self, start: usize, offsets: &[isize]) -> (r: usize)
        ensures
            r == resolved(&self.reader, start, offsets@),
    {
        let mut addr = start;
        let mut i: usize = 0;
        assert(offsets@.skip(0) =~= offsets@);
        while i < offsets.len()
            invariant
                i <= offsets@.len(),
                resolved(&self.reader, start, offsets@) == resolved(
                    &self.reader,
                    addr,
                    offsets@.skip(i as int),
                ),
            decreases offsets@.len() - i,
        {
            assert(offsets@.skip(i as int).skip(1) =~= offsets@.skip(i + 1));
            addr = addr.wrapping_add_signed(offsets[i]);
            addr =
            match self.reader.read_ptr(addr) {
                Ok(a) => a,
                Err(_) => {
                    return 0;
                },
            };
            i += 1;
        }
        addr
    }
}

} // verus!
