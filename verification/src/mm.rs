//! The physical memory allocator: a bump allocator over the largest usable
//! region of the firmware memory map.
//!
//! The allocator owns one arena for the kernel's whole lifetime; its budget
//! only ever shrinks, no allocation is ever reclaimed, and a request that
//! does not fit fails without touching the state. On hardware the
//! decrement-and-compute step is one atomic update so that an allocation
//! from interrupt context cannot interleave with one from the main path;
//! here that whole step is the body of [`Allocator::allocate`].

use vstd::prelude::*;
use vstd::arithmetic::div_mod::lemma_fundamental_div_mod;
use vstd::arithmetic::div_mod::lemma_mod_bound;
use vstd::arithmetic::div_mod::lemma_mod_multiples_basic;
use vstd::arithmetic::mul::lemma_mul_is_commutative;

verus! {

/// Region type the firmware uses for RAM the kernel may claim; every other
/// type is reserved.
pub const USABLE_RAM: u32 = 1;

/// One entry of the firmware-supplied memory map, read-only to the kernel.
#[derive(Clone, Copy, PartialEq, Eq, Structural, Debug)]
pub struct MemoryMapEntry {
    pub base_addr: u64,
    pub length: u64,
    pub entry_type: u32,
    pub acpi_attributes: u32,
}

/// Whether an entry describes RAM the allocator may claim.
pub open spec fn usable(e: MemoryMapEntry) -> bool {
    e.entry_type == USABLE_RAM
}

/// Whether entry `i` is the one the allocator adopts: usable, at least as
/// long as every usable entry, and strictly longer than every usable entry
/// before it (ties go to the first seen).
pub open spec fn selected(map: Seq<MemoryMapEntry>, i: int) -> bool {
    &&& 0 <= i < map.len()
    &&& usable(map[i])
    &&& forall|j: int| 0 <= j < map.len() && usable(#[trigger] map[j]) ==> map[j].length <= map[i].length
    &&& forall|j: int| 0 <= j < i && usable(#[trigger] map[j]) ==> map[j].length < map[i].length
}

/// `x` rounded down to a multiple of `align`.
pub open spec fn aligned_down(x: int, align: int) -> int
    recommends
        align >= 1,
{
    (x / align) * align
}

/// Whether a request of `size` bytes at alignment `align` can be served
/// from an arena at `base` with `remaining` bytes unserved: the size fits
/// the budget, and the aligned address does not fall below the arena's
/// base (a base the firmware did not align can make a tight request
/// unservable).
pub open spec fn can_alloc(base: u64, remaining: u64, size: u64, align: u64) -> bool {
    &&& 1 <= align
    &&& size <= remaining
    &&& aligned_down(base + remaining - size, align as int) >= base
}

/// The address served for the request: the arena's current top less the
/// size, rounded down to a multiple of the alignment.
pub open spec fn next_addr(base: u64, remaining: u64, size: u64, align: u64) -> int {
    aligned_down(base + remaining - size, align as int)
}

/// The budget left after serving the request: the served address's offset
/// from the arena's base.
pub open spec fn next_remaining(base: u64, remaining: u64, size: u64, align: u64) -> int {
    next_addr(base, remaining, size, align) - base
}

/// The allocator's whole state: the arena's physical base and the bytes
/// still unserved. Served blocks grow downward from the arena's top.
pub struct Allocator {
    pub arena_base: u64,
    pub remaining: u64,
}

impl Allocator {
    /// The arena must end at a representable physical address.
    pub open spec fn wf(&self) -> bool {
        self.arena_base + self.remaining <= u64::MAX
    }

    /// Serve one request: round the arena's current top less the size
    /// down to the alignment, return that address, and shrink the budget
    /// to the address's offset from the base. A request that exceeds the
    /// budget, asks alignment zero, or whose aligned address would fall
    /// below the arena, fails with the state untouched.
    pub fn allocate(&mut self, size: u64, align: u64) -> (r: Option<u64>)
        requires
            old(self).wf(),
        ensures
            final(self).wf(),
            final(self).arena_base == old(self).arena_base,
            can_alloc(old(self).arena_base, old(self).remaining, size, align) ==> {
                &&& final(self).remaining == next_remaining(
                    old(self).arena_base,
                    old(self).remaining,
                    size,
                    align,
                )
                &&& final(self).remaining <= old(self).remaining - size
                &&& old(self).remaining - size - final(self).remaining < align
                &&& r == Some(
                    next_addr(old(self).arena_base, old(self).remaining, size, align) as u64,
                )
                &&& next_addr(old(self).arena_base, old(self).remaining, size, align) % (
                align as int) == 0
                &&& old(self).arena_base <= next_addr(
                    old(self).arena_base,
                    old(self).remaining,
                    size,
                    align,
                )
                &&& next_addr(old(self).arena_base, old(self).remaining, size, align) + size <= old(
                    self,
                ).arena_base + old(self).remaining
            },
            !can_alloc(old(self).arena_base, old(self).remaining, size, align) ==> {
                &&& r is None
                &&& *final(self) == *old(self)
            },
    {
        if align == 0 || size > self.remaining {
            return None;
        }
        let left = self.remaining - size;
        let top = self.arena_base + left;
        proof {
            lemma_fundamental_div_mod(top as int, align as int);
            lemma_mod_bound(top as int, align as int);
            lemma_mul_is_commutative(align as int, top as int / align as int);
            assert(0 <= (top as int / align as int) * (align as int) <= top as int);
            lemma_mod_multiples_basic(top as int / align as int, align as int);
        }
        let addr = (top / align) * align;
        if addr < self.arena_base {
            return None;
        }
        self.remaining = addr - self.arena_base;
        Some(addr)
    }

    /// Deliberate no-op: this allocator never reclaims; its lifetime is
    /// the kernel's lifetime.
    pub fn deallocate(&mut self, _addr: u64)
        ensures
            *final(self) == *old(self),
    {
    }
}

/// Scan the memory map, adopt the usable region of greatest length (ties
/// broken by first seen) as the arena, with its whole length as the
/// budget. Fails exactly when no usable region exists, a fatal boot-time
/// condition.
pub fn init(memory_map: &Vec<MemoryMapEntry>) -> (r: Result<Allocator, ()>)
    requires
        forall|i: int|
            0 <= i < memory_map@.len() && usable(#[trigger] memory_map@[i])
                ==> memory_map@[i].base_addr + memory_map@[i].length <= u64::MAX,
    ensures
        r is Ok <==> exists|i: int| 0 <= i < memory_map@.len() && usable(#[trigger] memory_map@[i]),
        r matches Ok(a) ==> {
            &&& a.wf()
            &&& exists|i: int|
                #[trigger] selected(memory_map@, i) && a.arena_base == memory_map@[i].base_addr
                    && a.remaining == memory_map@[i].length
        },
{
    let mut best: Option<usize> = None;
    let mut idx: usize = 0;

    while idx < memory_map.len()
        invariant
            idx <= memory_map@.len(),
            best matches Some(b) ==> {
                &&& 0 <= b < idx
                &&& usable(memory_map@[b as int])
                &&& forall|j: int|
                    0 <= j < idx && usable(#[trigger] memory_map@[j])
                        ==> memory_map@[j].length <= memory_map@[b as int].length
                &&& forall|j: int|
                    0 <= j < b && usable(#[trigger] memory_map@[j])
                        ==> memory_map@[j].length < memory_map@[b as int].length
            },
            best is None ==> forall|j: int| 0 <= j < idx ==> !usable(#[trigger] memory_map@[j]),
        decreases memory_map@.len() - idx,
    {
        let entry = memory_map[idx];
        if entry.entry_type == USABLE_RAM {
            match best {
                Some(current) => {
                    if entry.length > memory_map[current].length {
                        best = Some(idx);
                    }
                },
                None => {
                    best = Some(idx);
                },
            }
        }
        idx += 1;
    }

    match best {
        Some(b) => {
            let entry = memory_map[b];
            proof {
                assert(selected(memory_map@, b as int));
            }
            Ok(Allocator { arena_base: entry.base_addr, remaining: entry.length })
        },
        None => Err(()),
    }
}

/// Law: the budget is monotone. Serving a request consumes at least its
/// size: the remaining budget after the step is at most the old budget
/// less the size, and never negative.
pub proof fn lemma_alloc_monotone(base: u64, remaining: u64, size: u64, align: u64)
    requires
        can_alloc(base, remaining, size, align),
    ensures
        0 <= next_remaining(base, remaining, size, align) <= remaining - size,
{
    lemma_fundamental_div_mod(base + remaining - size, align as int);
    lemma_mod_bound(base + remaining - size, align as int);
    lemma_mul_is_commutative(
        align as int,
        (base + remaining - size) / (align as int),
    );
}

/// Law: blocks served in order never overlap and stay inside the arena.
/// If a first request is served from budget `r0`, every later budget is
/// at most the first block's start offset; a second request served from
/// such a budget `r1` yields a block that ends at or below where the
/// first begins, whatever the sizes and alignments, and the first block
/// ends within the arena's first `r0` bytes.
pub proof fn lemma_alloc_regions_disjoint(
    base: u64,
    r0: u64,
    s1: u64,
    a1: u64,
    r1: u64,
    s2: u64,
    a2: u64,
)
    requires
        can_alloc(base, r0, s1, a1),
        r1 <= next_remaining(base, r0, s1, a1),
        can_alloc(base, r1, s2, a2),
    ensures
        next_addr(base, r1, s2, a2) + s2 <= next_addr(base, r0, s1, a1),
        base <= next_addr(base, r1, s2, a2),
        next_addr(base, r0, s1, a1) + s1 <= base + r0,
{
    lemma_alloc_monotone(base, r0, s1, a1);
    lemma_alloc_monotone(base, r1, s2, a2);
}

/// The budget after the first `n` requests of a chain, each request a
/// (size, alignment) pair: the fold of [`Allocator::allocate`]'s
/// contract, a request that cannot be served leaving the budget
/// untouched.
pub open spec fn chain_remaining(base: u64, r0: u64, reqs: Seq<(u64, u64)>, n: int) -> u64
    decreases n,
{
    if n <= 0 {
        r0
    } else {
        let prev = chain_remaining(base, r0, reqs, n - 1);
        if can_alloc(base, prev, reqs[n - 1].0, reqs[n - 1].1) {
            next_remaining(base, prev, reqs[n - 1].0, reqs[n - 1].1) as u64
        } else {
            prev
        }
    }
}

/// Whether request `i` of the chain is served.
pub open spec fn chain_step_ok(base: u64, r0: u64, reqs: Seq<(u64, u64)>, i: int) -> bool {
    can_alloc(base, chain_remaining(base, r0, reqs, i), reqs[i].0, reqs[i].1)
}

/// The address request `i` of the chain returns when it is served.
pub open spec fn chain_addr(base: u64, r0: u64, reqs: Seq<(u64, u64)>, i: int) -> int {
    next_addr(base, chain_remaining(base, r0, reqs, i), reqs[i].0, reqs[i].1)
}

/// Law: along any chain of requests the budget never grows.
pub proof fn lemma_chain_monotone(base: u64, r0: u64, reqs: Seq<(u64, u64)>, m: int, n: int)
    requires
        0 <= m <= n,
    ensures
        chain_remaining(base, r0, reqs, n) <= chain_remaining(base, r0, reqs, m),
    decreases n - m,
{
    if m < n {
        let prev = chain_remaining(base, r0, reqs, n - 1);
        if can_alloc(base, prev, reqs[n - 1].0, reqs[n - 1].1) {
            lemma_alloc_monotone(base, prev, reqs[n - 1].0, reqs[n - 1].1);
        }
        lemma_chain_monotone(base, r0, reqs, m, n - 1);
    }
}

/// Law: over any sequence of allocation requests against an arena of
/// `r0` bytes at `base`, any two requests that are served return ranges
/// that do not overlap — the later block ends at or below where the
/// earlier begins — and every served range lies inside the arena. No
/// address is ever handed out twice.
pub proof fn lemma_chain_regions_disjoint(
    base: u64,
    r0: u64,
    reqs: Seq<(u64, u64)>,
    i: int,
    j: int,
)
    requires
        0 <= i < j < reqs.len(),
        chain_step_ok(base, r0, reqs, i),
        chain_step_ok(base, r0, reqs, j),
    ensures
        chain_addr(base, r0, reqs, j) + reqs[j].0 <= chain_addr(base, r0, reqs, i),
        base <= chain_addr(base, r0, reqs, j),
        chain_addr(base, r0, reqs, i) + reqs[i].0 <= base + r0,
{
    let ri = chain_remaining(base, r0, reqs, i);
    let rj = chain_remaining(base, r0, reqs, j);
    lemma_alloc_monotone(base, ri, reqs[i].0, reqs[i].1);
    assert(chain_remaining(base, r0, reqs, i + 1) == next_remaining(
        base,
        ri,
        reqs[i].0,
        reqs[i].1,
    ));
    lemma_chain_monotone(base, r0, reqs, i + 1, j);
    lemma_chain_monotone(base, r0, reqs, 0, i);
    lemma_alloc_regions_disjoint(base, ri, reqs[i].0, reqs[i].1, rj, reqs[j].0, reqs[j].1);
}

} // verus!
