//! Alignment arithmetic and the hidden-header codec.
//!
//! The firmware pool hands out blocks aligned to [`POOL_ALIGNMENT`] bytes
//! only. A request for stronger alignment is satisfied by over-allocating,
//! placing the returned pointer at the next stronger-aligned address strictly
//! inside the block, and hiding a one-word header immediately before that
//! pointer which records the raw block address for the matching free.

use vstd::prelude::*;

verus! {

use std::collections::HashMap;
use vstd::arithmetic::div_mod::{
    lemma_fundamental_div_mod, lemma_mod_division_less_than_divisor, lemma_mod_multiples_basic,
};
use vstd::arithmetic::mul::{
    lemma_mul_is_associative, lemma_mul_is_commutative, lemma_mul_is_distributive_add,
    lemma_mul_is_distributive_sub,
};
use vstd::arithmetic::power::pow;
use vstd::arithmetic::power2::{
    is_pow2, is_pow2_equiv, lemma2_to64, lemma_pow2_adds, lemma_pow2_strictly_increases, pow2,
};

broadcast use vstd::std_specs::hash::group_hash_axioms;

/// Every block the firmware pool hands out is aligned to this many bytes;
/// nothing extra is needed for requests up to this alignment.
pub const POOL_ALIGNMENT: usize = 8;

/// The hidden header is exactly one pointer wide. This assumes a pointer
/// fits in one baseline-aligned unit, which holds on the 64-bit reference
/// target; validate it before moving to a target of another width.
pub const HEADER_SIZE: usize = 8;

/// Whether `addr` is a multiple of `align`.
pub open spec fn is_aligned(addr: int, align: int) -> bool {
    addr % align == 0
}

/// The smallest multiple of `align` that is at least `addr`.
pub open spec fn spec_align_up(addr: int, align: int) -> int {
    if addr % align == 0 {
        addr
    } else {
        addr + align - addr % align
    }
}

/// Where `stamp` places the returned pointer inside a padded block: the next
/// multiple of `align` strictly above `raw`, so that slack for the header
/// always remains between `raw` and the result.
pub open spec fn spec_stamp_addr(raw: int, align: int) -> int {
    raw + align - raw % align
}

/// How many bytes to request from the pool: alignments up to `baseline` are
/// already guaranteed, anything stronger over-allocates by one `align`.
pub open spec fn spec_pad_size(size: int, align: int, baseline: int) -> int {
    if align <= baseline {
        size
    } else {
        size + align
    }
}

/// Whether the slack between the raw block and the stamped address holds a
/// full header. Any baseline-aligned block satisfies this (see
/// [`lemma_baseline_aligned_header_fits`]), which is what the pool primitive
/// guarantees of every block it returns.
pub open spec fn header_fits(raw: int, align: int) -> bool {
    spec_stamp_addr(raw, align) - raw >= HEADER_SIZE
}

/// A power of two at least as large as the pool baseline is a multiple of it.
pub proof fn lemma_pow2_multiple_of_baseline(align: int)
    requires
        is_pow2(align),
        align >= POOL_ALIGNMENT,
    ensures
        align % (POOL_ALIGNMENT as int) == 0,
{
    is_pow2_equiv(align);
    let i = choose|i: nat| pow(2, i) == align;
    lemma2_to64();
    if i < 3 {
        lemma_pow2_strictly_increases(i, 3);
        assert(align < 8);
    }
    lemma_pow2_adds((i - 3) as nat, 3);
    assert(align == pow2((i - 3) as nat) * 8);
    lemma_mod_multiples_basic(pow2((i - 3) as nat) as int, 8);
}

/// If `x` and `d` are both multiples of `b`, so are `x % d` and `d - x % d`.
pub proof fn lemma_mod_of_multiples(x: int, d: int, b: int)
    requires
        b > 0,
        d > 0,
        x >= 0,
        x % b == 0,
        d % b == 0,
    ensures
        (x % d) % b == 0,
        (d - x % d) % b == 0,
{
    lemma_fundamental_div_mod(x, d);
    lemma_fundamental_div_mod(x, b);
    lemma_fundamental_div_mod(d, b);
    let q = x / d;
    let m = x / b;
    let k = d / b;
    lemma_mul_is_associative(b, k, q);
    assert(x % d == b * m - b * (k * q));
    lemma_mul_is_distributive_sub(b, m, k * q);
    assert(x % d == b * (m - k * q));
    lemma_mul_is_commutative(b, m - k * q);
    lemma_mod_multiples_basic(m - k * q, b);
    assert(d - x % d == b * k - b * (m - k * q));
    lemma_mul_is_distributive_sub(b, k, m - k * q);
    lemma_mul_is_commutative(b, k - (m - k * q));
    lemma_mod_multiples_basic(k - (m - k * q), b);
}

/// `spec_align_up` really is aligned and lands within `align` of the start.
pub proof fn lemma_align_up_properties(addr: int, align: int)
    requires
        align > 0,
        addr >= 0,
    ensures
        is_aligned(spec_align_up(addr, align), align),
        addr <= spec_align_up(addr, align) < addr + align,
{
    lemma_mod_division_less_than_divisor(addr, align);
    if addr % align != 0 {
        lemma_fundamental_div_mod(addr, align);
        let q = addr / align;
        lemma_mul_is_distributive_add(align, q, 1);
        assert(spec_align_up(addr, align) == align * (q + 1));
        lemma_mul_is_commutative(align, q + 1);
        lemma_mod_multiples_basic(q + 1, align);
    }
}

/// The stamped address is a multiple of `align` and sits strictly inside the
/// padding added to the raw block.
pub proof fn lemma_stamp_addr_aligned(raw: int, align: int)
    requires
        align > 0,
        raw >= 0,
    ensures
        is_aligned(spec_stamp_addr(raw, align), align),
        raw < spec_stamp_addr(raw, align) <= raw + align,
{
    lemma_mod_division_less_than_divisor(raw, align);
    lemma_fundamental_div_mod(raw, align);
    let q = raw / align;
    lemma_mul_is_distributive_add(align, q, 1);
    assert(spec_stamp_addr(raw, align) == align * (q + 1));
    lemma_mul_is_commutative(align, q + 1);
    lemma_mod_multiples_basic(q + 1, align);
}

/// A baseline-aligned raw block always leaves a full header slot below the
/// stamped address: the slack is a positive multiple of the baseline.
pub proof fn lemma_baseline_aligned_header_fits(raw: int, align: int)
    requires
        is_pow2(align),
        align > POOL_ALIGNMENT,
        raw % (POOL_ALIGNMENT as int) == 0,
        raw >= 0,
    ensures
        header_fits(raw, align),
{
    lemma_mod_division_less_than_divisor(raw, align);
    lemma_pow2_multiple_of_baseline(align);
    lemma_mod_of_multiples(raw, align, POOL_ALIGNMENT as int);
    let offset = align - raw % align;
    lemma_fundamental_div_mod(offset, POOL_ALIGNMENT as int);
    assert(offset == 8 * (offset / 8));
    assert(offset >= 8);
}

/// The slack words sitting immediately in front of over-aligned allocations,
/// keyed by address: a word-addressed model of the memory the codec is handed
/// by its caller.
pub struct HeaderStore {
    entries: HashMap<usize, usize>,
}

impl View for HeaderStore {
    type V = Map<usize, usize>;

    closed spec fn view(&self) -> Map<usize, usize> {
        self.entries@
    }
}

impl HeaderStore {
    /// An empty store: no header has been written yet.
    pub fn new() -> (s: Self)
        ensures
            s@ == Map::<usize, usize>::empty(),
    {
        Self { entries: HashMap::new() }
    }

    /// Whether a header word is present at `addr`.
    pub fn contains(&self, addr: usize) -> (b: bool)
        ensures
            b == self@.contains_key(addr),
    {
        self.entries.contains_key(&addr)
    }

    /// The header word stored at `addr`.
    pub fn read(&self, addr: usize) -> (v: usize)
        requires
            self@.contains_key(addr),
        ensures
            v == self@[addr],
    {
        match self.entries.get(&addr) {
            Some(v) => *v,
            None => {
                proof {
                    assert(false);
                }
                0
            },
        }
    }

    /// Write the header word `value` at `addr`.
    fn record(&mut self, addr: usize, value: usize)
        ensures
            final(self)@ == old(self)@.insert(addr, value),
    {
        self.entries.insert(addr, value);
    }

    /// Remove and return the header word at `addr`.
    fn take(&mut self, addr: usize) -> (v: usize)
        requires
            old(self)@.contains_key(addr),
        ensures
            v == old(self)@[addr],
            final(self)@ == old(self)@.remove(addr),
    {
        match self.entries.remove(&addr) {
            Some(v) => v,
            None => {
                proof {
                    assert(false);
                }
                0
            },
        }
    }
}

/// The smallest address at or above `raw_addr` that is a multiple of
/// `alignment`.
pub fn align_up(raw_addr: usize, alignment: usize) -> (r: usize)
    requires
        alignment >= 1,
        spec_align_up(raw_addr as int, alignment as int) <= usize::MAX,
    ensures
        r == spec_align_up(raw_addr as int, alignment as int),
        is_aligned(r as int, alignment as int),
        raw_addr <= r < raw_addr + alignment,
{
    proof {
        lemma_align_up_properties(raw_addr as int, alignment as int);
    }
    let rem: usize = raw_addr % alignment;
    if rem == 0 {
        raw_addr
    } else {
        raw_addr + (alignment - rem)
    }
}

/// The size to request from the pool so that a region of `size` bytes at
/// `alignment` fits: unchanged when the pool's `baseline` already suffices,
/// over-allocated by one `alignment` otherwise.
pub fn pad_size(size: usize, alignment: usize, baseline: usize) -> (r: usize)
    requires
        alignment > baseline ==> size + alignment <= usize::MAX,
    ensures
        r == spec_pad_size(size as int, alignment as int, baseline as int),
{
    if alignment <= baseline {
        size
    } else {
        size + alignment
    }
}

/// Compute the aligned address inside a padded raw block together with the
/// slot of the hidden header in front of it.
pub fn header_placement(raw_block: usize, alignment: usize) -> (r: (usize, usize))
    requires
        is_pow2(alignment as int),
        alignment > POOL_ALIGNMENT,
        header_fits(raw_block as int, alignment as int),
        raw_block + alignment <= usize::MAX,
    ensures
        r.0 == spec_stamp_addr(raw_block as int, alignment as int),
        is_aligned(r.0 as int, alignment as int),
        raw_block < r.0 <= raw_block + alignment,
        r.1 == r.0 - HEADER_SIZE,
        raw_block <= r.1,
{
    proof {
        lemma_stamp_addr_aligned(raw_block as int, alignment as int);
    }
    let rem: usize = raw_block % alignment;
    let aligned: usize = raw_block + (alignment - rem);
    (aligned, aligned - HEADER_SIZE)
}

/// Place the aligned address inside a padded raw block and write the hidden
/// header in front of it: the header records the raw block address so that
/// the matching `recover` can return it.
pub fn stamp(store: &mut HeaderStore, raw_block: usize, alignment: usize) -> (aligned: usize)
    requires
        is_pow2(alignment as int),
        alignment > POOL_ALIGNMENT,
        header_fits(raw_block as int, alignment as int),
        raw_block + alignment <= usize::MAX,
    ensures
        aligned == spec_stamp_addr(raw_block as int, alignment as int),
        is_aligned(aligned as int, alignment as int),
        raw_block < aligned <= raw_block + alignment,
        raw_block <= aligned - HEADER_SIZE,
        final(store)@ == old(store)@.insert((aligned - HEADER_SIZE) as usize, raw_block),
{
    let (aligned, header_addr) = header_placement(raw_block, alignment);
    store.record(header_addr, raw_block);
    aligned
}

/// Read back and discard the header in front of an over-aligned pointer,
/// returning the raw block address the pool originally handed out. The
/// pointer must have come from a `stamp` that was not yet recovered.
pub fn recover(store: &mut HeaderStore, aligned_ptr: usize) -> (raw: usize)
    requires
        aligned_ptr >= HEADER_SIZE,
        old(store)@.contains_key((aligned_ptr - HEADER_SIZE) as usize),
    ensures
        raw == old(store)@[(aligned_ptr - HEADER_SIZE) as usize],
        final(store)@ == old(store)@.remove((aligned_ptr - HEADER_SIZE) as usize),
{
    store.take(aligned_ptr - HEADER_SIZE)
}

} // verus!
