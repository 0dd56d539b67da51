//! The record behind the foreign allocator bridge.
//!
//! The foreign side allocates by size alone and frees by address alone, while
//! the host allocator needs the size and alignment of a block to reclaim it.
//! The record keeps, for every live foreign allocation, its address and the
//! layout it was made with, and decides each request against that record.
use vstd::prelude::*;
use std::collections::BTreeMap;

verus! {

broadcast use vstd::laws_cmp::group_laws_cmp;

/// The alignment of every foreign allocation: the foreign ABI passes none.
pub const FOREIGN_ALIGN: usize = 16;

/// The size and alignment a block was allocated with.
#[derive(Clone, Copy, Debug, PartialEq, Eq, Structural)]
pub struct BlockLayout {
    pub size: usize,
    pub align: usize,
}

/// A foreign request that the bridge must refuse; each one is fatal.
#[derive(Clone, Copy, Debug, PartialEq, Eq, Structural)]
pub enum ShimError {
    /// The host allocator had no memory; `live_bytes` is what the live
    /// foreign allocations hold together.
    OutOfMemory { live_bytes: u64 },
    /// A fresh block came back at an address that is still live.
    AddressInUse,
    /// A reallocation to size zero, which the foreign contract leaves undefined.
    ZeroSize,
    /// A free or reallocation of an address with no live allocation: a
    /// double free, or a pointer the bridge never handed out.
    UnknownAddress,
    /// The total of live bytes no longer fits in 64 bits.
    TallyOverflow,
}

/// What a reallocation asks of the host once the record has accepted it.
#[derive(Clone, Copy, Debug, PartialEq, Eq, Structural)]
pub enum ReallocPlan {
    /// The address was null: nothing to do, answer null.
    Null,
    /// Reallocate the block, whose recorded layout was `previous`.
    Move { previous: BlockLayout },
}

/// The layout of a foreign allocation of `size` bytes.
pub open spec fn foreign_layout_of(size: u32) -> BlockLayout {
    BlockLayout { size: size as usize, align: FOREIGN_ALIGN }
}

/// The bytes that the blocks of `m` hold together.
pub open spec fn total_size(m: Map<usize, BlockLayout>) -> nat
    decreases m.dom().len(),
{
    if m.dom().finite() && m.dom().len() > 0 {
        let k = m.dom().choose();
        m[k].size as nat + total_size(m.remove(k))
    } else {
        0
    }
}

/// Removing any one block takes exactly its size off the total.
pub proof fn lemma_total_size_remove(m: Map<usize, BlockLayout>, k: usize)
    requires
        m.dom().finite(),
        m.dom().contains(k),
    ensures
        total_size(m) == m[k].size + total_size(m.remove(k)),
    decreases m.dom().len(),
{
    let c = m.dom().choose();
    if c != k {
        lemma_total_size_remove(m.remove(c), k);
        lemma_total_size_remove(m.remove(k), c);
        assert(m.remove(c).remove(k) =~= m.remove(k).remove(c));
    }
}

/// Adding a block at a free address adds exactly its size to the total.
pub proof fn lemma_total_size_insert(m: Map<usize, BlockLayout>, k: usize, b: BlockLayout)
    requires
        m.dom().finite(),
        !m.dom().contains(k),
    ensures
        total_size(m.insert(k, b)) == b.size + total_size(m),
{
    lemma_total_size_remove(m.insert(k, b), k);
    assert(m.insert(k, b).remove(k) =~= m);
}

/// The record after the host allocator answered a request for `size` bytes
/// with address `addr` (zero when it had no memory).
pub open spec fn after_alloc(m: Map<usize, BlockLayout>, addr: usize, size: u32) -> Result<
    Map<usize, BlockLayout>,
    ShimError,
> {
    if addr == 0 {
        Err(ShimError::OutOfMemory { live_bytes: total_size(m) as u64 })
    } else if m.contains_key(addr) {
        Err(ShimError::AddressInUse)
    } else if total_size(m) + size > u64::MAX {
        Err(ShimError::TallyOverflow)
    } else {
        Ok(m.insert(addr, foreign_layout_of(size)))
    }
}

/// The record, and the plan, after the foreign side asked to resize the
/// block at `addr` to `new_size` bytes.
pub open spec fn after_begin_realloc(m: Map<usize, BlockLayout>, addr: usize, new_size: u32) -> Result<
    (Map<usize, BlockLayout>, ReallocPlan),
    ShimError,
> {
    if addr == 0 {
        Ok((m, ReallocPlan::Null))
    } else if new_size == 0 {
        Err(ShimError::ZeroSize)
    } else if !m.contains_key(addr) {
        Err(ShimError::UnknownAddress)
    } else {
        Ok((m.remove(addr), ReallocPlan::Move { previous: m[addr] }))
    }
}

/// The record after the host reallocated a block of layout `previous` to
/// `new_size` bytes at `new_addr` (zero when it had no memory).
pub open spec fn after_finish_realloc(
    m: Map<usize, BlockLayout>,
    new_addr: usize,
    new_size: u32,
    previous: BlockLayout,
) -> Result<Map<usize, BlockLayout>, ShimError> {
    if new_addr == 0 {
        Err(ShimError::OutOfMemory { live_bytes: total_size(m) as u64 })
    } else if m.contains_key(new_addr) {
        Err(ShimError::AddressInUse)
    } else if total_size(m) + new_size > u64::MAX {
        Err(ShimError::TallyOverflow)
    } else {
        Ok(m.insert(new_addr, BlockLayout { size: new_size as usize, align: previous.align }))
    }
}

/// The record, and the layout to reclaim with, after the foreign side freed
/// `addr`; a null address releases nothing.
pub open spec fn after_release(m: Map<usize, BlockLayout>, addr: usize) -> Result<
    (Map<usize, BlockLayout>, Option<BlockLayout>),
    ShimError,
> {
    if addr == 0 {
        Ok((m, None))
    } else if !m.contains_key(addr) {
        Err(ShimError::UnknownAddress)
    } else {
        Ok((m.remove(addr), Some(m[addr])))
    }
}

/// A block that was recorded for a foreign allocation of `size` bytes is
/// reclaimed, when freed, with exactly the layout it was allocated with, and
/// the record returns to what it was before the allocation.
pub proof fn lemma_free_reclaims_allocated_layout(m: Map<usize, BlockLayout>, addr: usize, size: u32)
    requires
        after_alloc(m, addr, size) is Ok,
    ensures
        after_release(after_alloc(m, addr, size)->Ok_0, addr) == Ok::<
            (Map<usize, BlockLayout>, Option<BlockLayout>),
            ShimError,
        >((m, Some(BlockLayout { size: size as usize, align: FOREIGN_ALIGN }))),
{
    assert(m.insert(addr, foreign_layout_of(size)).remove(addr) =~= m);
}

/// Freeing or reallocating an address with no live allocation is always
/// refused.
pub proof fn lemma_unknown_address_refused(m: Map<usize, BlockLayout>, addr: usize, new_size: u32)
    requires
        addr != 0,
        !m.contains_key(addr),
    ensures
        after_release(m, addr) == Err::<(Map<usize, BlockLayout>, Option<BlockLayout>), ShimError>(
            ShimError::UnknownAddress,
        ),
        new_size != 0 ==> after_begin_realloc(m, addr, new_size) == Err::<
            (Map<usize, BlockLayout>, ReallocPlan),
            ShimError,
        >(ShimError::UnknownAddress),
{
}

/// Once a block is freed, freeing its address again is refused.
pub proof fn lemma_second_free_refused(m: Map<usize, BlockLayout>, addr: usize)
    requires
        after_release(m, addr) matches Ok((_, Some(_))),
    ensures
        after_release(after_release(m, addr)->Ok_0.0, addr) == Err::<
            (Map<usize, BlockLayout>, Option<BlockLayout>),
            ShimError,
        >(ShimError::UnknownAddress),
{
}

/// An accepted reallocation of a live block forgets the old address and
/// records the new one with the new size and the old alignment, which a
/// later free then reclaims with.
pub proof fn lemma_realloc_carries_alignment(
    m: Map<usize, BlockLayout>,
    addr: usize,
    new_size: u32,
    new_addr: usize,
)
    requires
        addr != 0,
        m.contains_key(addr),
        after_begin_realloc(m, addr, new_size) is Ok,
        after_finish_realloc(m.remove(addr), new_addr, new_size, m[addr]) is Ok,
    ensures
        after_begin_realloc(m, addr, new_size) == Ok::<(Map<usize, BlockLayout>, ReallocPlan), ShimError>(
            (m.remove(addr), ReallocPlan::Move { previous: m[addr] }),
        ),
        ({
            let moved = after_finish_realloc(m.remove(addr), new_addr, new_size, m[addr])->Ok_0;
            let layout = BlockLayout { size: new_size as usize, align: m[addr].align };
            &&& moved == m.remove(addr).insert(new_addr, layout)
            &&& new_addr != addr ==> !moved.contains_key(addr)
            &&& after_release(moved, new_addr) == Ok::<
                (Map<usize, BlockLayout>, Option<BlockLayout>),
                ShimError,
            >((m.remove(addr), Some(layout)))
        }),
{
    let layout = BlockLayout { size: new_size as usize, align: m[addr].align };
    assert(m.remove(addr).insert(new_addr, layout).remove(new_addr) =~= m.remove(addr));
}

/// The layout of a foreign allocation of `size` bytes.
pub fn foreign_layout(size: u32) -> (r: BlockLayout)
    ensures
        r == foreign_layout_of(size),
{
    BlockLayout { size: size as usize, align: FOREIGN_ALIGN }
}

/// Every live foreign allocation, by address, with the layout it was made with.
pub struct AllocationRecord {
    entries: BTreeMap<usize, BlockLayout>,
    live: u64,
}

impl View for AllocationRecord {
    type V = Map<usize, BlockLayout>;

    closed spec fn view(&self) -> Map<usize, BlockLayout> {
        self.entries@
    }
}

impl AllocationRecord {
    pub closed spec fn wf(&self) -> bool {
        &&& self.entries@.dom().finite()
        &&& self.live == total_size(self.entries@)
        &&& forall|a: usize| #[trigger]
            self.entries@.contains_key(a) ==> a != 0 && self.entries@[a].align == FOREIGN_ALIGN
                && self.entries@[a].size <= u32::MAX
    }

    pub fn new() -> (r: Self)
        ensures
            r.wf(),
            r@ == Map::<usize, BlockLayout>::empty(),
    {
        let r = AllocationRecord { entries: BTreeMap::new(), live: 0 };
        assert(r.entries@.dom() =~= Set::<usize>::empty());
        r
    }

    /// The bytes that the live foreign allocations hold together.
    pub fn live_bytes(&self) -> (r: u64)
        requires
            self.wf(),
        ensures
            r == total_size(self@),
    {
        self.live
    }

    /// Whether `addr` is a live foreign allocation.
    pub fn is_live(&self, addr: usize) -> (r: bool)
        requires
            self.wf(),
        ensures
            r == self@.contains_key(addr),
    {
        self.entries.contains_key(&addr)
    }

    /// Adds a block that the host just handed out.
    fn insert_live(&mut self, addr: usize, layout: BlockLayout) -> (r: Result<BlockLayout, ShimError>)
        requires
            old(self).wf(),
            addr != 0,
            layout.align == FOREIGN_ALIGN,
            layout.size <= u32::MAX,
        ensures
            final(self).wf(),
            if old(self)@.contains_key(addr) {
                r == Err::<BlockLayout, ShimError>(ShimError::AddressInUse) && final(self)@ == old(self)@
            } else if total_size(old(self)@) + layout.size > u64::MAX {
                r == Err::<BlockLayout, ShimError>(ShimError::TallyOverflow) && final(self)@ == old(self)@
            } else {
                r == Ok::<BlockLayout, ShimError>(layout) && final(self)@ == old(self)@.insert(addr, layout)
            },
    {
        if self.entries.contains_key(&addr) {
            return Err(ShimError::AddressInUse);
        }
        let size = layout.size as u64;
        if self.live > u64::MAX - size {
            return Err(ShimError::TallyOverflow);
        }
        proof {
            lemma_total_size_insert(self.entries@, addr, layout);
        }
        self.entries.insert(addr, layout);
        self.live = self.live + size;
        Ok(layout)
    }

    /// Records the answer `addr` of the host allocator to a foreign request
    /// for `size` bytes, allocated with `foreign_layout(size)`.
    pub fn record_alloc(&mut self, addr: usize, size: u32) -> (r: Result<BlockLayout, ShimError>)
        requires
            old(self).wf(),
        ensures
            final(self).wf(),
            match after_alloc(old(self)@, addr, size) {
                Ok(m) => r == Ok::<BlockLayout, ShimError>(foreign_layout_of(size)) && final(self)@ == m,
                Err(e) => r == Err::<BlockLayout, ShimError>(e) && final(self)@ == old(self)@,
            },
    {
        if addr == 0 {
            return Err(ShimError::OutOfMemory { live_bytes: self.live });
        }
        self.insert_live(addr, foreign_layout(size))
    }

    /// Accepts or refuses a foreign request to resize the block at `addr`;
    /// an accepted block leaves the record until `finish_realloc`.
    pub fn begin_realloc(&mut self, addr: usize, new_size: u32) -> (r: Result<ReallocPlan, ShimError>)
        requires
            old(self).wf(),
        ensures
            final(self).wf(),
            match after_begin_realloc(old(self)@, addr, new_size) {
                Ok((m, plan)) => r == Ok::<ReallocPlan, ShimError>(plan) && final(self)@ == m,
                Err(e) => r == Err::<ReallocPlan, ShimError>(e) && final(self)@ == old(self)@,
            },
            r matches Ok(ReallocPlan::Move { previous }) ==> previous.align == FOREIGN_ALIGN && previous.size
                <= u32::MAX,
    {
        if addr == 0 {
            return Ok(ReallocPlan::Null);
        }
        if new_size == 0 {
            return Err(ShimError::ZeroSize);
        }
        match self.entries.remove(&addr) {
            None => {
                assert(self.entries@ =~= old(self).entries@);
                Err(ShimError::UnknownAddress)
            },
            Some(previous) => {
                proof {
                    lemma_total_size_remove(old(self).entries@, addr);
                }
                self.live = self.live - previous.size as u64;
                Ok(ReallocPlan::Move { previous })
            },
        }
    }

    /// Records the block that the host reallocation of a block of layout
    /// `previous` to `new_size` bytes returned at `new_addr`.
    pub fn finish_realloc(&mut self, new_addr: usize, new_size: u32, previous: BlockLayout) -> (r: Result<
        BlockLayout,
        ShimError,
    >)
        requires
            old(self).wf(),
            previous.align == FOREIGN_ALIGN,
        ensures
            final(self).wf(),
            match after_finish_realloc(old(self)@, new_addr, new_size, previous) {
                Ok(m) => r == Ok::<BlockLayout, ShimError>(
                    BlockLayout { size: new_size as usize, align: previous.align },
                ) && final(self)@ == m,
                Err(e) => r == Err::<BlockLayout, ShimError>(e) && final(self)@ == old(self)@,
            },
    {
        if new_addr == 0 {
            return Err(ShimError::OutOfMemory { live_bytes: self.live });
        }
        self.insert_live(new_addr, BlockLayout { size: new_size as usize, align: previous.align })
    }

    /// Takes the block at `addr` out of the record and gives the layout to
    /// reclaim it with.
    pub fn release(&mut self, addr: usize) -> (r: Result<Option<BlockLayout>, ShimError>)
        requires
            old(self).wf(),
        ensures
            final(self).wf(),
            match after_release(old(self)@, addr) {
                Ok((m, layout)) => r == Ok::<Option<BlockLayout>, ShimError>(layout) && final(self)@
                    == m,
                Err(e) => r == Err::<Option<BlockLayout>, ShimError>(e) && final(self)@ == old(
                    self,
                )@,
            },
            r matches Ok(Some(l)) ==> l.align == FOREIGN_ALIGN && l.size <= u32::MAX,
    {
        if addr == 0 {
            return Ok(None);
        }
        match self.entries.remove(&addr) {
            None => {
                assert(self.entries@ =~= old(self).entries@);
                Err(ShimError::UnknownAddress)
            },
            Some(block) => {
                proof {
                    lemma_total_size_remove(old(self).entries@, addr);
                }
                self.live = self.live - block.size as u64;
                Ok(Some(block))
            },
        }
    }
}

} // verus!
