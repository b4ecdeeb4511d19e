//! The general-purpose binned allocator's bookkeeping: size classes in
//! powers of two from 8 bytes up, each with its list of free block
//! addresses, over one contiguous memory region.
//!
//! The unsafe free-list that threads pointers through freed memory
//! belongs to the hardware side; this type carries the size-class
//! arithmetic and the region bounds, and the page-granularity allocator
//! the kernel's memory logic is proved against lives in [`crate::pmem`].

use vstd::prelude::*;

verus! {

/// Exponent of the smallest bin size: bin 0 holds 8-byte blocks.
pub const BINS_START_K: usize = 3;

/// Number of bins; the largest holds 4 GiB blocks.
pub const BINS_LEN: usize = 30;

/// A binned allocator over the region `[start, end)`.
pub struct Allocator {
    pub start: usize,
    pub end: usize,
    pub bins: Vec<Vec<usize>>,
}

impl Allocator {
    /// Builds an allocator over the region `[start, end)` with every bin
    /// empty.
    pub fn new(start: usize, end: usize) -> (r: Allocator)
        ensures
            r.start == start,
            r.end == end,
            r.bins@.len() == BINS_LEN,
            forall|i: int| 0 <= i < BINS_LEN ==> (#[trigger] r.bins@[i])@.len() == 0,
    {
        let mut bins: Vec<Vec<usize>> = Vec::new();
        let mut i: usize = 0;
        while i < BINS_LEN
            invariant
                i <= BINS_LEN,
                bins@.len() == i,
                forall|j: int| 0 <= j < i ==> (#[trigger] bins@[j])@.len() == 0,
            decreases BINS_LEN - i,
        {
            bins.push(Vec::new());
            i = i + 1;
        }
        Allocator { start, end, bins }
    }
}

/// The block size of a bin: `2^(BINS_START_K + index)` bytes.
pub open spec fn spec_bin_size(index: int) -> int {
    pow2(BINS_START_K + index)
}

/// Two to the power `k`.
pub open spec fn pow2(k: int) -> int
    decreases k,
{
    if k <= 0 {
        1
    } else {
        2 * pow2(k - 1)
    }
}

proof fn lemma_pow2_shift(k: nat)
    requires
        k < 64,
    ensures
        pow2(k as int) == (1u64 << (k as u64)) as int,
        pow2(k as int) <= 0x8000_0000_0000_0000,
    decreases k,
{
    let ku = k as u64;
    if k == 0 {
        assert(1u64 << 0u64 == 1) by (bit_vector);
    } else {
        lemma_pow2_shift((k - 1) as nat);
        let km1 = (k - 1) as u64;
        assert(km1 <= 62 ==> (1u64 << km1) <= 0x4000_0000_0000_0000) by (bit_vector);
        assert(ku == km1 + 1 && km1 <= 62 ==> (1u64 << ku) == 2 * (1u64 << km1)) by (bit_vector);
    }
}

proof fn lemma_pow2_pos(k: int)
    ensures
        pow2(k) >= 1,
    decreases k,
{
    if k > 0 {
        lemma_pow2_pos(k - 1);
    }
}

proof fn lemma_pow2_mono(a: int, b: int)
    requires
        a <= b,
    ensures
        pow2(a) <= pow2(b),
    decreases b - a,
{
    if a < b {
        lemma_pow2_mono(a, b - 1);
        lemma_pow2_pos(b - 1);
    }
}

/// The block size of bin `index`, in bytes.
pub fn bin_index_size(index: usize) -> (r: u64)
    requires
        index < BINS_LEN,
    ensures
        r == spec_bin_size(index as int),
{
    proof {
        lemma_pow2_shift((BINS_START_K + index) as nat);
    }
    1u64 << ((BINS_START_K + index) as u64)
}

/// Picks the bin for a request of `size` bytes: the smallest bin whose
/// blocks are at least `size` bytes, or the largest bin when no bin is
/// big enough. Returns the bin index and its block size.
pub fn map_size_bin(size: u64) -> (r: (usize, u64))
    ensures
        r.0 < BINS_LEN,
        r.1 == spec_bin_size(r.0 as int),
        size <= spec_bin_size(BINS_LEN - 1) ==> size <= r.1,
        size > spec_bin_size(BINS_LEN - 1) ==> r.0 == BINS_LEN - 1,
        forall|j: int| 0 <= j < r.0 ==> spec_bin_size(j) < size,
{
    let mut bin_index: usize = BINS_LEN - 1;
    let mut i: usize = 0;
    let mut found = false;
    while i < BINS_LEN
        invariant
            i <= BINS_LEN,
            !found ==> bin_index == BINS_LEN - 1,
            !found ==> forall|j: int| 0 <= j < i ==> spec_bin_size(j) < size,
            found ==> bin_index < BINS_LEN && size <= spec_bin_size(bin_index as int) && (forall|
                j: int,
            | 0 <= j < bin_index ==> spec_bin_size(j) < size),
        decreases BINS_LEN - i,
    {
        if !found {
            let bin_size = bin_index_size(i);
            if bin_size >= size {
                bin_index = i;
                found = true;
            }
        }
        i = i + 1;
    }
    proof {
        if found {
            lemma_pow2_mono(BINS_START_K + bin_index, BINS_START_K + BINS_LEN - 1);
        }
    }
    (bin_index, bin_index_size(bin_index))
}

} // verus!
