//! The kernel heap: a bump allocator over one contiguous region.
use vstd::prelude::*;

verus! {

/// `size` rounded up to the next multiple of `align`.
pub open spec fn aligned_size(size: int, align: int) -> int {
    align * (size / align + if size % align > 0 { 1int } else { 0int })
}

/// Rounding up gives the least multiple of `align` that is at least `size`.
pub proof fn lemma_aligned_size_bounds(size: int, align: int)
    requires
        0 <= size,
        0 < align,
    ensures
        aligned_size(size, align) % align == 0,
        size <= aligned_size(size, align) < size + align,
        size % align == 0 ==> aligned_size(size, align) == size,
{
    let q: int = size / align;
    let r: int = size % align;
    assert(size == align * q + r && 0 <= r < align) by (nonlinear_arith)
        requires
            0 < align,
            q == size / align,
            r == size % align,
    ;
    if r > 0 {
        assert(aligned_size(size, align) == align * q + align) by (nonlinear_arith)
            requires
                aligned_size(size, align) == align * (q + 1),
        ;
        assert((align * (q + 1)) % align == 0) by (nonlinear_arith)
            requires
                0 < align,
        ;
    } else {
        assert((align * q) % align == 0) by (nonlinear_arith)
            requires
                0 < align,
        ;
    }
}

/// The size actually taken from the heap for a request of `size` bytes
/// aligned to `align`: `size` rounded up to a multiple of `align`.
pub fn alloc_size(size: usize, align: usize) -> (r: usize)
    requires
        align > 0,
        aligned_size(size as int, align as int) <= usize::MAX,
    ensures
        r == aligned_size(size as int, align as int),
        r % align == 0,
        size <= r < size + align,
{
    proof {
        lemma_aligned_size_bounds(size as int, align as int);
    }
    let adjust: usize = if size % align > 0 { 1 } else { 0 };
    let q: usize = size / align;
    assert(q + adjust <= usize::MAX) by (nonlinear_arith)
        requires
            q == size / align,
            align > 0,
            aligned_size(size as int, align as int) <= usize::MAX,
            aligned_size(size as int, align as int) == align * (q + adjust),
    ;
    assert(align * (q + adjust) <= usize::MAX);
    align * (q + adjust)
}

/// The heap allocator of the kernel. It hands out the heap from its low end
/// upwards and never takes memory back.
pub struct KernelAllocator {
    /// Address of the first byte not handed out yet.
    start: u32,
    /// Number of bytes from `start` to the end of the heap.
    size: usize,
}

impl KernelAllocator {
    /// The unused part of the heap ends at an address that a `u32` can hold.
    #[verifier::type_invariant]
    spec fn inv(self) -> bool {
        self.start + self.size <= u32::MAX
    }

    /// Address of the first byte not handed out yet.
    pub closed spec fn next_free(self) -> int {
        self.start as int
    }

    /// Number of bytes still available.
    pub closed spec fn remaining(self) -> int {
        self.size as int
    }

    /// One past the last byte of the heap.
    pub open spec fn heap_end(self) -> int {
        self.next_free() + self.remaining()
    }

    /// The free part of the heap starts at a 32-bit address and ends at
    /// one: `0 <= next_free()`, `0 <= remaining()` and
    /// `next_free() + remaining() <= u32::MAX`.
    pub open spec fn in_range(self) -> bool {
        &&& 0 <= self.next_free()
        &&& 0 <= self.remaining()
        &&& self.heap_end() <= u32::MAX
    }

    /// Address of the first byte not handed out yet.
    pub fn start(&self) -> (r: u32)
        ensures
            r == self.next_free(),
            self.in_range(),
    {
        proof {
            use_type_invariant(self);
        }
        self.start
    }

    /// Number of bytes still available.
    pub fn size(&self) -> (r: usize)
        ensures
            r == self.remaining(),
            self.in_range(),
    {
        proof {
            use_type_invariant(self);
        }
        self.size
    }

    /// Hands out a block of `size` bytes aligned to `align`. The block
    /// starts at the first free address rounded up to a multiple of `align`;
    /// the padding before it and `size` rounded up to a multiple of `align`
    /// are taken from the heap. When that does not fit in what is left, the
    /// result is `None` (a null pointer) and nothing changes.
    pub fn allocate(&mut self, size: usize, align: usize) -> (r: Option<u32>)
        requires
            align > 0,
        ensures
            allocates(*old(self), size as int, align as int, r, *final(self)),
            final(self).in_range(),
    {
        proof {
            use_type_invariant(&*self);
            lemma_padding_bounds(self.start as int, align as int);
            lemma_aligned_size_bounds(size as int, align as int);
        }
        if size > self.size {
            return None;
        }
        let rem: usize = (self.start as usize) % align;
        let pad: usize = if rem == 0 { 0 } else { align - rem };
        if pad > self.size {
            return None;
        }
        let room: usize = self.size - pad;
        let q: usize = size / align;
        let m: usize = room / align;
        let fits: bool = if q < m {
            true
        } else if q == m {
            size % align == 0
        } else {
            false
        };
        proof {
            let adj: int = if size % align > 0 { 1 } else { 0 };
            assert(aligned_size(size as int, align as int) == align * (q + adj));
            assert(fits == (q + adj <= m));
            assert((align * (q + adj) <= room) == (q + adj <= m)) by (nonlinear_arith)
                requires
                    align > 0,
                    m == room / align,
                    0 <= q + adj,
            ;
        }
        if !fits {
            return None;
        }
        let rounded: usize = alloc_size(size, align);
        let addr: u32 = self.start + pad as u32;
        self.size = self.size - pad - rounded;
        self.start = addr + rounded as u32;
        Some(addr)
    }

    /// Gives memory back to the heap; this allocator keeps what it handed
    /// out, so nothing changes.
    pub fn dealloc(&mut self, ptr: u32, size: usize, align: usize)
        ensures
            *final(self) == *old(self),
    {
    }
}

/// How far `addr` lies below the next multiple of `align` (zero when it is
/// one already).
pub open spec fn padding(addr: int, align: int) -> int {
    if addr % align == 0 {
        0
    } else {
        align - addr % align
    }
}

/// The padding is less than `align` and takes `addr` to a multiple of it.
pub proof fn lemma_padding_bounds(addr: int, align: int)
    requires
        0 < align,
    ensures
        0 <= padding(addr, align) < align,
        (addr + padding(addr, align)) % align == 0,
{
    let q: int = addr / align;
    let r: int = addr % align;
    assert(addr == align * q + r && 0 <= r < align) by (nonlinear_arith)
        requires
            0 < align,
            q == addr / align,
            r == addr % align,
    ;
    if r == 0 {
        assert((align * q) % align == 0) by (nonlinear_arith)
            requires
                0 < align,
        ;
    } else {
        assert(addr + (align - r) == align * (q + 1)) by (nonlinear_arith)
            requires
                addr == align * q + r,
        ;
        assert((align * (q + 1)) % align == 0) by (nonlinear_arith)
            requires
                0 < align,
        ;
    }
}

/// What one call `pre.allocate(size, align)` does. The block would start at
/// the first free address rounded up to `align` and take `size` rounded up
/// to `align`. If the padding and the block do not fit in what is left, the
/// call returns `None` and changes nothing; otherwise it returns the block's
/// address and the first free address moves to the block's end.
pub open spec fn allocates(
    pre: KernelAllocator,
    size: int,
    align: int,
    r: Option<u32>,
    post: KernelAllocator,
) -> bool {
    let pad = padding(pre.next_free(), align);
    let need = pad + aligned_size(size, align);
    if need > pre.remaining() {
        r == None::<u32> && post == pre
    } else {
        &&& r is Some
        &&& r->0 == pre.next_free() + pad
        &&& post.next_free() == r->0 + aligned_size(size, align)
        &&& post.remaining() == pre.remaining() - need
    }
}

/// A request never moves the end of the heap.
pub proof fn lemma_heap_end_preserved(
    pre: KernelAllocator,
    size: int,
    align: int,
    r: Option<u32>,
    post: KernelAllocator,
)
    requires
        allocates(pre, size, align, r, post),
    ensures
        post.heap_end() == pre.heap_end(),
{
}

/// A granted block is aligned to `align`, lies inside the free part of the
/// heap as it was before the call, and is at least as large as the request;
/// the free part now starts at its end.
pub proof fn lemma_allocation_within_heap(
    pre: KernelAllocator,
    size: int,
    align: int,
    r: Option<u32>,
    post: KernelAllocator,
)
    requires
        allocates(pre, size, align, r, post),
        0 <= size,
        0 < align,
        r is Some,
    ensures
        (r->0 as int) % align == 0,
        pre.next_free() <= r->0,
        size <= aligned_size(size, align),
        r->0 + aligned_size(size, align) <= pre.heap_end(),
        r->0 + aligned_size(size, align) == post.next_free(),
{
    lemma_aligned_size_bounds(size, align);
    lemma_padding_bounds(pre.next_free(), align);
}

/// A request is refused only when the aligned block does not fit: it is
/// granted whenever the padding and the rounded size fit in what is left.
pub proof fn lemma_refused_only_when_full(
    pre: KernelAllocator,
    size: int,
    align: int,
    r: Option<u32>,
    post: KernelAllocator,
)
    requires
        allocates(pre, size, align, r, post),
    ensures
        r is None <==> padding(pre.next_free(), align) + aligned_size(size, align)
            > pre.remaining(),
{
}

/// Two requests in a row never get overlapping blocks: the second block, if
/// granted, starts at or after the end of the first, which holds at least
/// the `size1` bytes asked for.
pub proof fn lemma_successive_allocations_disjoint(
    s0: KernelAllocator,
    size1: int,
    align1: int,
    r1: Option<u32>,
    s1: KernelAllocator,
    size2: int,
    align2: int,
    r2: Option<u32>,
    s2: KernelAllocator,
)
    requires
        0 <= size1,
        0 < align1,
        0 < align2,
        allocates(s0, size1, align1, r1, s1),
        allocates(s1, size2, align2, r2, s2),
        r1 is Some,
    ensures
        r2 is Some ==> r1->0 + size1 <= r1->0 + aligned_size(size1, align1) <= r2->0,
{
    lemma_aligned_size_bounds(size1, align1);
    lemma_padding_bounds(s1.next_free(), align2);
}

/// `states[i + 1]` is what the `i`-th request `(sizes[i], aligns[i])`,
/// answered with `results[i]`, leaves of `states[i]`.
pub open spec fn allocation_run(
    states: Seq<KernelAllocator>,
    sizes: Seq<int>,
    aligns: Seq<int>,
    results: Seq<Option<u32>>,
) -> bool {
    &&& states.len() == sizes.len() + 1
    &&& aligns.len() == sizes.len()
    &&& results.len() == sizes.len()
    &&& forall|i: int|
        0 <= i < sizes.len() ==> {
            &&& 0 <= #[trigger] sizes[i]
            &&& 0 < aligns[i]
            &&& allocates(states[i], sizes[i], aligns[i], results[i], states[i + 1])
        }
}

proof fn lemma_run_monotone(
    states: Seq<KernelAllocator>,
    sizes: Seq<int>,
    aligns: Seq<int>,
    results: Seq<Option<u32>>,
    i: int,
    j: int,
)
    requires
        allocation_run(states, sizes, aligns, results),
        0 <= i <= j < states.len(),
    ensures
        states[i].next_free() <= states[j].next_free(),
        states[i].heap_end() == states[j].heap_end(),
    decreases j - i,
{
    if i < j {
        lemma_run_monotone(states, sizes, aligns, results, i + 1, j);
        assert(0 <= sizes[i]);
        lemma_aligned_size_bounds(sizes[i], aligns[i]);
        lemma_padding_bounds(states[i].next_free(), aligns[i]);
    }
}

/// Over any run of requests, every granted block is aligned as asked and lies
/// inside the heap the run started with, and the blocks granted are pairwise
/// disjoint: a block
/// granted earlier ends at or before the start of any block granted later.
pub proof fn lemma_allocations_disjoint(
    states: Seq<KernelAllocator>,
    sizes: Seq<int>,
    aligns: Seq<int>,
    results: Seq<Option<u32>>,
    i: int,
    j: int,
)
    requires
        allocation_run(states, sizes, aligns, results),
        0 <= i < j < sizes.len(),
        results[i] is Some,
        results[j] is Some,
    ensures
        states[0].next_free() <= results[i]->0,
        (results[i]->0 as int) % aligns[i] == 0,
        (results[j]->0 as int) % aligns[j] == 0,
        results[i]->0 + aligned_size(sizes[i], aligns[i]) <= results[j]->0,
        results[j]->0 + aligned_size(sizes[j], aligns[j]) <= states[0].heap_end(),
{
    assert(0 <= sizes[i]);
    assert(0 <= sizes[j]);
    lemma_run_monotone(states, sizes, aligns, results, 0, i);
    lemma_run_monotone(states, sizes, aligns, results, i + 1, j);
    lemma_run_monotone(states, sizes, aligns, results, 0, j + 1);
    lemma_allocation_within_heap(states[i], sizes[i], aligns[i], results[i], states[i + 1]);
    lemma_allocation_within_heap(states[j], sizes[j], aligns[j], results[j], states[j + 1]);
}

/// Sets up the allocator over the heap `[heap_start, heap_end)`.
pub fn init(heap_start: u32, heap_end: u32) -> (a: KernelAllocator)
    requires
        heap_start <= heap_end,
    ensures
        a.next_free() == heap_start,
        a.remaining() == heap_end - heap_start,
        a.in_range(),
{
    KernelAllocator { start: heap_start, size: (heap_end - heap_start) as usize }
}

} // verus!
