use crate::layout::{lemma_mask_rounds_down, round_down, Layout};
use vstd::prelude::*;

verus! {

/// The error an allocation request gets when the arena cannot serve it.
#[derive(Clone, Copy, PartialEq, Eq, Debug)]
pub struct AllocErr;

/// Why an arena could not be built. `E` is the backing allocator's error.
#[derive(PartialEq, Eq, Debug)]
pub enum BumpAllocErr<E> {
    /// An arena of zero bytes was asked for; the backing allocator was not called.
    ZeroCapacity,
    /// The backing allocator refused the block described by `layout`.
    AllocError { layout: Layout, inner: E },
}

/// The abstract state of an arena: the block `[base, base + capacity)` and the
/// cursor, below which the next allocation is carved.
pub struct ArenaView {
    pub base: nat,
    pub capacity: nat,
    pub cursor: nat,
}

impl ArenaView {
    /// An arena over `[base, base + capacity)` with nothing handed out yet.
    pub open spec fn fresh(base: nat, capacity: nat) -> ArenaView {
        ArenaView { base, capacity, cursor: base + capacity }
    }

    pub open spec fn end(self) -> nat {
        self.base + self.capacity
    }

    pub open spec fn wf(self) -> bool {
        &&& self.capacity > 0
        &&& self.end() <= usize::MAX
        &&& self.base <= self.cursor <= self.end()
    }

    /// Where a request for `l` would be placed: `l.size` bytes below the cursor,
    /// rounded down to the alignment.
    pub open spec fn next_address(self, l: Layout) -> int {
        round_down(self.cursor - l.size, l.align as int)
    }

    /// A request succeeds when the cursor can move down by its size and the
    /// rounded address does not fall below the start of the block.
    pub open spec fn fits(self, l: Layout) -> bool {
        &&& self.cursor >= l.size
        &&& self.next_address(l) >= self.base
    }

    /// The address a request for `l` gets, if any.
    pub open spec fn alloc_result(self, l: Layout) -> Option<nat> {
        if self.fits(l) {
            Some(self.next_address(l) as nat)
        } else {
            None
        }
    }

    /// The state after a request for `l`: the cursor moves to the returned
    /// address on success and stays put on failure.
    pub open spec fn after_alloc(self, l: Layout) -> ArenaView {
        if self.fits(l) {
            ArenaView { cursor: self.next_address(l) as nat, ..self }
        } else {
            self
        }
    }

    /// The state after the requests `ls`, in order.
    pub open spec fn after_all(self, ls: Seq<Layout>) -> ArenaView
        decreases ls.len(),
    {
        if ls.len() == 0 {
            self
        } else {
            self.after_all(ls.drop_last()).after_alloc(ls.last())
        }
    }

    /// The state after a reset: the cursor back at the end of the block.
    pub open spec fn rewound(self) -> ArenaView {
        ArenaView { cursor: self.end(), ..self }
    }
}

/// What the backing allocator promises of a block it hands out: the block
/// does not run past the end of the address space.
pub open spec fn block_in_address_space<E>(l: Layout, b: Result<usize, E>) -> bool {
    b matches Ok(addr) ==> addr + l.size <= usize::MAX
}

/// The layout of the arena's own block: `capacity` bytes, byte aligned.
pub open spec fn block_layout(capacity: usize) -> Layout {
    Layout { size: capacity, align: 1 }
}

/// A fixed-capacity arena that hands out memory by moving a cursor from the
/// end of its block toward the start.
#[derive(Debug)]
pub struct BumpAlloc {
    base: usize,
    capacity: usize,
    cursor: usize,
}

impl View for BumpAlloc {
    type V = ArenaView;

    closed spec fn view(&self) -> ArenaView {
        ArenaView { base: self.base as nat, capacity: self.capacity as nat, cursor: self.cursor as nat }
    }
}

/// `r` is what building an arena of `capacity` bytes yields when the backing
/// allocator answered with `b`.
pub open spec fn built_from<E>(
    capacity: usize,
    b: Result<usize, E>,
    r: Result<BumpAlloc, BumpAllocErr<E>>,
) -> bool {
    match b {
        Ok(addr) => r matches Ok(a) && a.wf() && a@ == ArenaView::fresh(addr as nat, capacity as nat),
        Err(e) => r == Err::<BumpAlloc, BumpAllocErr<E>>(
            BumpAllocErr::AllocError { layout: block_layout(capacity), inner: e },
        ),
    }
}

impl BumpAlloc {
    pub open spec fn wf(&self) -> bool {
        self@.wf()
    }

    /// Builds an arena of `capacity` bytes over a block obtained from
    /// `alloc_block`, which is called once, with a byte-aligned layout of
    /// exactly `capacity` bytes, and not at all when `capacity` is zero.
    pub fn try_with_capacity_in<E, F: FnOnce(Layout) -> Result<usize, E>>(
        capacity: usize,
        alloc_block: F,
    ) -> (r: Result<BumpAlloc, BumpAllocErr<E>>)
        requires
            capacity > 0 ==> alloc_block.requires((block_layout(capacity),)),
            forall|b: Result<usize, E>|
                #[trigger] alloc_block.ensures((block_layout(capacity),), b) ==> block_in_address_space(
                    block_layout(capacity),
                    b,
                ),
        ensures
            capacity == 0 ==> r matches Err(BumpAllocErr::ZeroCapacity),
            capacity > 0 ==> exists|b: Result<usize, E>|
                alloc_block.ensures((block_layout(capacity),), b) && #[trigger] built_from(
                    capacity,
                    b,
                    r,
                ),
    {
        if capacity == 0 {
            return Err(BumpAllocErr::ZeroCapacity);
        }
        let layout = Layout { size: capacity, align: 1 };
        let block = alloc_block(layout);
        let ghost b = block;
        let r = match block {
            Ok(addr) => Ok(BumpAlloc { base: addr, capacity, cursor: addr + capacity }),
            Err(inner) => Err(BumpAllocErr::AllocError { layout, inner }),
        };
        assert(built_from(capacity, b, r));
        r
    }

    /// Builds an arena of `capacity` bytes over a block from a backing
    /// allocator that never fails.
    pub fn with_capacity_in<E: core::fmt::Debug, F: FnOnce(Layout) -> Result<usize, E>>(
        capacity: usize,
        alloc_block: F,
    ) -> (r: BumpAlloc)
        requires
            capacity > 0,
            alloc_block.requires((block_layout(capacity),)),
            forall|b: Result<usize, E>|
                #[trigger] alloc_block.ensures((block_layout(capacity),), b) ==> b is Ok
                    && block_in_address_space(block_layout(capacity), b),
        ensures
            r.wf(),
            exists|addr: usize|
                alloc_block.ensures((block_layout(capacity),), Ok::<usize, E>(addr))
                    && r@ == #[trigger] ArenaView::fresh(addr as nat, capacity as nat),
    {
        let r = BumpAlloc::try_with_capacity_in(capacity, alloc_block);
        proof {
            let b = choose|b: Result<usize, E>|
                alloc_block.ensures((block_layout(capacity),), b) && built_from(capacity, b, r);
            assert(b is Ok);
        }
        r.unwrap()
    }

    /// Carves a block for `layout` out of the arena, or fails with `AllocErr`
    /// when what is left below the cursor cannot hold it; a failure leaves the
    /// arena as it was.
    pub fn allocate(&mut self, layout: Layout) -> (r: Result<usize, AllocErr>)
        requires
            old(self).wf(),
            layout.wf(),
        ensures
            final(self).wf(),
            final(self)@ == old(self)@.after_alloc(layout),
            r is Ok <==> old(self)@.fits(layout),
            r matches Ok(a) ==> a as nat == old(self)@.next_address(layout),
            r matches Ok(a) ==> old(self)@.base <= a && a + layout.size <= old(self)@.cursor && a
                % layout.align == 0,
    {
        let cursor = self.cursor;
        let candidate = match cursor.checked_sub(layout.size) {
            Some(c) => c,
            None => return Err(AllocErr),
        };
        // Round down to the requested alignment.
        let align = layout.align as u64;
        proof {
            lemma_mask_rounds_down(candidate as u64, align);
        }
        let rounded = ((candidate as u64) & !(align - 1)) as usize;
        if rounded < self.base {
            return Err(AllocErr);
        }
        self.cursor = rounded;
        Ok(rounded)
    }

    /// Carves room for one value of type `T` out of the arena, with `T`'s size
    /// and alignment; the caller places the value at the returned address.
    pub fn alloc_t<T>(&mut self) -> (r: Result<usize, AllocErr>)
        requires
            old(self).wf(),
            vstd::layout::size_of::<T>() > 0,
        ensures
            final(self).wf(),
            final(self)@ == old(self)@.after_alloc(Layout::spec_of::<T>()),
            r is Ok <==> old(self)@.fits(Layout::spec_of::<T>()),
            r matches Ok(a) ==> a as nat == old(self)@.next_address(Layout::spec_of::<T>()),
    {
        let layout = Layout::of::<T>();
        self.allocate(layout)
    }

    /// Rewinds the cursor to the end of the block, so that the whole arena is
    /// free again. Every address handed out before is then reused.
    pub fn reset(&mut self)
        requires
            old(self).wf(),
        ensures
            final(self).wf(),
            final(self)@ == old(self)@.rewound(),
    {
        self.reset_unchecked();
    }

    /// Rewinds the cursor like `reset`. Meant for loops that reuse one arena;
    /// whoever calls it must no longer read or write through any address the
    /// arena handed out before.
    pub fn reset_unchecked(&mut self)
        requires
            old(self).wf(),
        ensures
            final(self).wf(),
            final(self)@ == old(self)@.rewound(),
    {
        self.cursor = self.base + self.capacity;
    }

    /// Gives back one allocation. The arena never reclaims single objects, so
    /// this does nothing; only a reset frees space.
    pub fn dealloc(&self, _addr: usize, _layout: Layout) {
    }

    /// Moves an allocation to a larger (or smaller) layout by carving a new
    /// block for `new_layout`. The old block's bytes are not carried over:
    /// the caller copies what it needs into the returned block.
    pub fn realloc(&mut self, _addr: usize, _old_layout: Layout, new_layout: Layout) -> (r: Result<
        usize,
        AllocErr,
    >)
        requires
            old(self).wf(),
            new_layout.wf(),
        ensures
            final(self).wf(),
            final(self)@ == old(self)@.after_alloc(new_layout),
            r is Ok <==> old(self)@.fits(new_layout),
            r matches Ok(a) ==> a as nat == old(self)@.next_address(new_layout),
    {
        self.allocate(new_layout)
    }
}

} // verus!
