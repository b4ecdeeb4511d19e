//! The physical page allocator and the physical memory it hands out.
//!
//! The allocator owns a contiguous run of page frames by index; a page
//! table holds non-owning frame addresses, and an explicit teardown walks
//! the table and returns every frame exactly once at process death.
//! Freshly allocated frames are zero-filled, so the bytes of a mapped page
//! beyond what a loader wrote into it are always zero.

use vstd::prelude::*;

use crate::param::PAGE_SIZE;

verus! {

struct Frame {
    allocated: bool,
    data: Vec<u8>,
}

/// A fixed run of page frames starting at a page-aligned base address,
/// each either free or allocated, together with its backing bytes.
pub struct PageAllocator {
    base: u64,
    frames: Vec<Frame>,
    free: usize,
}

spec fn count_free_upto(s: Seq<Frame>, n: int) -> int
    decreases n,
{
    if n <= 0 {
        0
    } else {
        count_free_upto(s, n - 1) + if !s[n - 1].allocated {
            1int
        } else {
            0int
        }
    }
}

proof fn lemma_count_free_bounds(s: Seq<Frame>, n: int)
    requires
        0 <= n <= s.len(),
    ensures
        0 <= count_free_upto(s, n) <= n,
    decreases n,
{
    if n > 0 {
        lemma_count_free_bounds(s, n - 1);
    }
}

proof fn lemma_count_free_agree(s1: Seq<Frame>, s2: Seq<Frame>, n: int)
    requires
        0 <= n <= s1.len(),
        n <= s2.len(),
        forall|j: int| 0 <= j < n ==> s1[j].allocated == s2[j].allocated,
    ensures
        count_free_upto(s1, n) == count_free_upto(s2, n),
    decreases n,
{
    if n > 0 {
        lemma_count_free_agree(s1, s2, n - 1);
    }
}

proof fn lemma_count_free_update(s: Seq<Frame>, n: int, i: int, f: Frame)
    requires
        0 <= i < n <= s.len(),
    ensures
        count_free_upto(s.update(i, f), n) == count_free_upto(s, n) + (
        if !f.allocated && s[i].allocated {
            1int
        } else if f.allocated && !s[i].allocated {
            -1int
        } else {
            0int
        }),
    decreases n,
{
    let s2 = s.update(i, f);
    if i == n - 1 {
        lemma_count_free_agree(s, s2, n - 1);
    } else {
        lemma_count_free_update(s, n - 1, i, f);
    }
}

proof fn lemma_count_free_all_same(s: Seq<Frame>, n: int, allocated: bool)
    requires
        0 <= n <= s.len(),
        forall|j: int| 0 <= j < n ==> (#[trigger] s[j]).allocated == allocated,
    ensures
        count_free_upto(s, n) == if allocated {
            0int
        } else {
            n
        },
    decreases n,
{
    if n > 0 {
        lemma_count_free_all_same(s, n - 1, allocated);
    }
}

proof fn lemma_count_free_pos(s: Seq<Frame>, n: int, i: int)
    requires
        0 <= i < n <= s.len(),
        !s[i].allocated,
    ensures
        count_free_upto(s, n) >= 1,
    decreases n,
{
    lemma_count_free_bounds(s, n - 1);
    if i < n - 1 {
        lemma_count_free_pos(s, n - 1, i);
    }
}

proof fn lemma_count_free_taken(s: Seq<Frame>, n: int, i: int)
    requires
        0 <= i < n <= s.len(),
        s[i].allocated,
    ensures
        count_free_upto(s, n) <= n - 1,
    decreases n,
{
    lemma_count_free_bounds(s, n - 1);
    if i < n - 1 {
        lemma_count_free_taken(s, n - 1, i);
    }
}

/// Builds one zero-filled page worth of bytes.
fn zero_page() -> (r: Vec<u8>)
    ensures
        r@.len() == PAGE_SIZE,
        forall|j: int| 0 <= j < PAGE_SIZE ==> r@[j] == 0,
{
    let mut v: Vec<u8> = Vec::new();
    let mut i: usize = 0;
    while i < PAGE_SIZE
        invariant
            i <= PAGE_SIZE,
            v@.len() == i,
            forall|j: int| 0 <= j < i ==> v@[j] == 0,
        decreases PAGE_SIZE - i,
    {
        v.push(0);
        i = i + 1;
    }
    v
}

impl PageAllocator {
    /// Internal consistency: aligned nonzero base, frame addresses that fit
    /// in an address word, pages of the right size, and a free counter that
    /// matches the frames.
    pub closed spec fn wf(&self) -> bool {
        &&& self.base % (PAGE_SIZE as u64) == 0
        &&& self.base > 0
        &&& self.base + self.frames@.len() * PAGE_SIZE <= 0x1_0000_0000_0000u64
        &&& forall|i: int|
            0 <= i < self.frames@.len() ==> (#[trigger] self.frames@[i]).data@.len() == PAGE_SIZE
        &&& self.free == count_free_upto(self.frames@, self.frames@.len() as int)
    }

    /// The address of the first frame.
    pub closed spec fn spec_base(&self) -> u64 {
        self.base
    }

    /// How many frames this allocator owns.
    pub closed spec fn num_frames(&self) -> int {
        self.frames@.len() as int
    }

    /// How many frames are currently free.
    pub closed spec fn spec_free(&self) -> int {
        count_free_upto(self.frames@, self.frames@.len() as int)
    }

    /// True when `pa` is the address of one of this allocator's frames.
    pub open spec fn is_frame(&self, pa: u64) -> bool {
        &&& self.spec_base() <= pa
        &&& (pa - self.spec_base()) % (PAGE_SIZE as int) == 0
        &&& (pa - self.spec_base()) / (PAGE_SIZE as int) < self.num_frames()
    }

    /// The index of the frame at address `pa`.
    pub open spec fn frame_idx(&self, pa: u64) -> int {
        (pa - self.spec_base()) / (PAGE_SIZE as int)
    }

    /// True when the frame at address `pa` is currently allocated.
    pub closed spec fn frame_allocated(&self, pa: u64) -> bool {
        self.frames@[self.frame_idx(pa)].allocated
    }

    /// True when `pa` is a frame of this allocator and that frame is
    /// currently allocated.
    pub open spec fn is_allocated(&self, pa: u64) -> bool {
        self.is_frame(pa) && self.frame_allocated(pa)
    }

    /// The byte at offset `off` of the frame at address `pa`.
    pub closed spec fn byte_at(&self, pa: u64, off: int) -> u8 {
        self.frames@[self.frame_idx(pa)].data@[off]
    }

    /// The address of the frame with index `i`.
    pub open spec fn addr_of(&self, i: int) -> u64 {
        (self.spec_base() + i * PAGE_SIZE) as u64
    }

    /// Facts every frame address satisfies: it is page-aligned, nonzero,
    /// in range of the owned run, and its index is consistent with
    /// `addr_of`.
    pub proof fn lemma_frame_facts(&self, pa: u64)
        requires
            self.wf(),
            self.is_frame(pa),
        ensures
            pa % (PAGE_SIZE as u64) == 0,
            pa > 0,
            pa < 0x1_0000_0000_0000u64,
            0 <= self.frame_idx(pa) < self.num_frames(),
            pa == self.addr_of(self.frame_idx(pa)),
    {
        let ps = PAGE_SIZE as int;
        let k = self.frame_idx(pa);
        assert(pa + ps <= self.base + self.frames@.len() * ps) by (nonlinear_arith)
            requires
                ps > 0,
                self.base <= pa,
                (pa - self.base) % ps == 0,
                k == (pa - self.base) / ps,
                k < self.frames@.len(),
        ;
        assert(pa == self.base + k * ps && k >= 0 && k * ps >= 0) by (nonlinear_arith)
            requires
                ps > 0,
                self.base <= pa,
                (pa - self.base) % ps == 0,
                k == (pa - self.base) / ps,
        ;
        assert(pa % (PAGE_SIZE as u64) == 0) by (nonlinear_arith)
            requires
                ps == PAGE_SIZE,
                PAGE_SIZE > 0,
                self.base % (PAGE_SIZE as u64) == 0,
                pa == self.base + k * ps,
                k >= 0,
                pa <= u64::MAX,
        ;
    }

    /// The free count is never negative and never exceeds the number of
    /// frames.
    pub proof fn lemma_free_bounds(&self)
        requires
            self.wf(),
        ensures
            0 <= self.spec_free() <= self.num_frames(),
    {
        lemma_count_free_bounds(self.frames@, self.frames@.len() as int);
    }

    /// Distinct frame addresses have distinct indexes.
    pub proof fn lemma_frame_idx_injective(&self, pa1: u64, pa2: u64)
        requires
            self.wf(),
            self.is_frame(pa1),
            self.is_frame(pa2),
            pa1 != pa2,
        ensures
            self.frame_idx(pa1) != self.frame_idx(pa2),
    {
        self.lemma_frame_facts(pa1);
        self.lemma_frame_facts(pa2);
    }

    /// The address of frame `i` is a frame address with index `i`.
    pub proof fn lemma_addr_of_is_frame(&self, i: int)
        requires
            self.wf(),
            0 <= i < self.num_frames(),
        ensures
            self.is_frame(self.addr_of(i)),
            self.frame_idx(self.addr_of(i)) == i,
    {
        let ps = PAGE_SIZE as int;
        assert(0 <= i * ps && i * ps + ps <= self.num_frames() * ps) by (nonlinear_arith)
            requires
                ps > 0,
                0 <= i < self.num_frames(),
        ;
        let pa = self.addr_of(i);
        assert(pa == self.base + i * ps);
        assert((pa - self.base) % ps == 0 && (pa - self.base) / ps == i) by (nonlinear_arith)
            requires
                ps > 0,
                pa - self.base == i * ps,
                i >= 0,
        ;
    }

    /// Returns an allocator owning `count` free, zero-filled frames starting
    /// at `base`.
    pub fn new(base: u64, count: usize) -> (r: PageAllocator)
        requires
            base % (PAGE_SIZE as u64) == 0,
            base > 0,
            base + count * PAGE_SIZE <= 0x1_0000_0000_0000u64,
        ensures
            r.wf(),
            r.spec_base() == base,
            r.num_frames() == count,
            r.spec_free() == count,
            forall|pa: u64| r.is_frame(pa) ==> !r.frame_allocated(pa),
    {
        let mut frames: Vec<Frame> = Vec::new();
        let mut i: usize = 0;
        while i < count
            invariant
                i <= count,
                frames@.len() == i,
                forall|j: int|
                    0 <= j < i ==> !(#[trigger] frames@[j]).allocated && frames@[j].data@.len()
                        == PAGE_SIZE,
            decreases count - i,
        {
            frames.push(Frame { allocated: false, data: zero_page() });
            i = i + 1;
        }
        proof {
            lemma_count_free_all_same(frames@, count as int, false);
        }
        PageAllocator { base, frames, free: count }
    }

    /// How many frames are currently free.
    pub fn free_count(&self) -> (r: usize)
        requires
            self.wf(),
        ensures
            r == self.spec_free(),
    {
        self.free
    }

    /// Hands out a currently free frame, zero-filled, or `None` when every
    /// frame is allocated.
    pub fn alloc_page(&mut self) -> (r: Option<u64>)
        requires
            old(self).wf(),
        ensures
            final(self).wf(),
            final(self).spec_base() == old(self).spec_base(),
            final(self).num_frames() == old(self).num_frames(),
            r is Some <==> old(self).spec_free() > 0,
            match r {
                Some(pa) => {
                    &&& final(self).is_frame(pa)
                    &&& !old(self).frame_allocated(pa)
                    &&& final(self).frame_allocated(pa)
                    &&& forall|pa2: u64|
                        final(self).is_frame(pa2) && pa2 != pa ==> #[trigger] final(self).frame_allocated(pa2)
                            == old(self).frame_allocated(pa2)
                    &&& forall|off: int| 0 <= off < PAGE_SIZE ==> final(self).byte_at(pa, off) == 0
                    &&& forall|pa2: u64, off: int|
                        final(self).is_frame(pa2) && pa2 != pa ==> #[trigger] final(self).byte_at(pa2, off)
                            == old(self).byte_at(pa2, off)
                    &&& final(self).spec_free() == old(self).spec_free() - 1
                },
                None => *final(self) == *old(self),
            },
    {
        let n = self.frames.len();
        let mut i: usize = 0;
        while i < n
            invariant
                *self == *old(self),
                old(self).wf(),
                n == self.frames@.len(),
                i <= n,
                forall|j: int| 0 <= j < i ==> (#[trigger] self.frames@[j]).allocated,
            decreases n - i,
        {
            if !self.frames[i].allocated {
                proof {
                    lemma_count_free_pos(self.frames@, n as int, i as int);
                }
                let nf = Frame { allocated: true, data: zero_page() };
                proof {
                    lemma_count_free_update(self.frames@, n as int, i as int, nf);
                }
                self.frames[i] = nf;
                self.free = self.free - 1;
                let pa = self.base + (i as u64) * (PAGE_SIZE as u64);
                proof {
                    self.lemma_alloc_post(*old(self), i as int, pa);
                }
                return Some(pa);
            }
            i = i + 1;
        }
        proof {
            lemma_count_free_all_same(self.frames@, n as int, true);
        }
        None
    }

    proof fn lemma_alloc_post(&self, prev: PageAllocator, i: int, pa: u64)
        requires
            prev.wf(),
            0 <= i < prev.frames@.len(),
            self.base == prev.base,
            self.frames@.len() == prev.frames@.len(),
            self.frames@ =~= prev.frames@.update(i, self.frames@[i]),
            self.frames@[i].allocated,
            self.frames@[i].data@.len() == PAGE_SIZE,
            pa == prev.base + i * PAGE_SIZE,
        ensures
            self.is_frame(pa),
            self.frame_idx(pa) == i,
            forall|pa2: u64|
                self.is_frame(pa2) && pa2 != pa ==> #[trigger] self.frame_allocated(pa2)
                    == prev.frame_allocated(pa2),
            forall|pa2: u64, off: int|
                self.is_frame(pa2) && pa2 != pa ==> #[trigger] self.byte_at(pa2, off)
                    == prev.byte_at(pa2, off),
    {
        self.lemma_addr_of_wf_like(prev);
        assert(self.spec_base() == prev.spec_base());
        prev.lemma_addr_of_is_frame(i);
        assert(prev.addr_of(i) == pa);
        assert(self.is_frame(pa) && self.frame_idx(pa) == i);
        assert forall|pa2: u64| self.is_frame(pa2) && pa2 != pa implies #[trigger] self
            .frame_allocated(pa2) == prev.frame_allocated(pa2) by {
            prev.lemma_frame_idx_injective(pa2, pa);
        }
        assert forall|pa2: u64, off: int| self.is_frame(pa2) && pa2 != pa implies #[trigger] self
            .byte_at(pa2, off) == prev.byte_at(pa2, off) by {
            prev.lemma_frame_idx_injective(pa2, pa);
        }
    }

    proof fn lemma_addr_of_wf_like(&self, prev: PageAllocator)
        requires
            self.base == prev.base,
            self.frames@.len() == prev.frames@.len(),
        ensures
            forall|pa2: u64| self.is_frame(pa2) == prev.is_frame(pa2),
            forall|pa2: u64| self.frame_idx(pa2) == prev.frame_idx(pa2),
    {
    }

    /// Returns the allocated frame at `pa` to the free pool; its bytes are
    /// left as they are.
    pub fn dealloc_page(&mut self, pa: u64)
        requires
            old(self).wf(),
            old(self).is_allocated(pa),
        ensures
            final(self).wf(),
            final(self).spec_base() == old(self).spec_base(),
            final(self).num_frames() == old(self).num_frames(),
            final(self).is_frame(pa),
            !final(self).frame_allocated(pa),
            forall|pa2: u64|
                final(self).is_frame(pa2) && pa2 != pa ==> #[trigger] final(self).frame_allocated(pa2) == old(self).frame_allocated(pa2),
            forall|pa2: u64, off: int|
                final(self).is_frame(pa2) ==> #[trigger] final(self).byte_at(pa2, off) == old(self).byte_at(
                    pa2,
                    off,
                ),
            final(self).spec_free() == old(self).spec_free() + 1,
    {
        proof {
            old(self).lemma_frame_facts(pa);
        }
        let n = self.frames.len();
        let idx64 = (pa - self.base) / (PAGE_SIZE as u64);
        proof {
            assert(idx64 == old(self).frame_idx(pa));
            assert(idx64 < n);
        }
        let idx = idx64 as usize;
        proof {
            assert(idx == old(self).frame_idx(pa));
            lemma_count_free_bounds(self.frames@, self.frames@.len() as int);
        }
        proof {
            lemma_count_free_taken(self.frames@, self.frames@.len() as int, idx as int);
        }
        self.frames[idx].allocated = false;
        self.free = self.free + 1;
        proof {
            let nf = self.frames@[idx as int];
            lemma_count_free_update(old(self).frames@, old(self).frames@.len() as int, idx as int, nf);
            assert(self.frames@ =~= old(self).frames@.update(idx as int, nf));
            self.lemma_addr_of_wf_like(*old(self));
            assert forall|pa2: u64| self.is_frame(pa2) && pa2 != pa implies #[trigger] self
                .frame_allocated(pa2) == old(self).frame_allocated(pa2) by {
                old(self).lemma_frame_idx_injective(pa2, pa);
            }
            assert forall|pa2: u64, off: int| self.is_frame(pa2) implies #[trigger] self.byte_at(
                pa2,
                off,
            ) == old(self).byte_at(pa2, off) by {
                if pa2 != pa {
                    old(self).lemma_frame_idx_injective(pa2, pa);
                }
            }
        }
    }

    /// Copies `len` bytes of `src` starting at `src_start` into the
    /// allocated frame at `pa`, starting at byte `off` of the frame.
    pub fn write_range(&mut self, pa: u64, off: usize, src: &Vec<u8>, src_start: usize, len: usize)
        requires
            old(self).wf(),
            old(self).is_allocated(pa),
            off + len <= PAGE_SIZE,
            src_start + len <= src@.len(),
        ensures
            final(self).wf(),
            final(self).spec_base() == old(self).spec_base(),
            final(self).num_frames() == old(self).num_frames(),
            final(self).spec_free() == old(self).spec_free(),
            forall|pa2: u64| final(self).is_frame(pa2) ==> #[trigger] final(self).frame_allocated(pa2) == old(self).frame_allocated(pa2),
            forall|o: int|
                off <= o < off + len ==> #[trigger] final(self).byte_at(pa, o) == src@[src_start
                    + (o - off)],
            forall|o: int|
                0 <= o < PAGE_SIZE && !(off <= o < off + len) ==> #[trigger] final(self).byte_at(
                    pa,
                    o,
                ) == old(self).byte_at(pa, o),
            forall|pa2: u64, off2: int|
                final(self).is_frame(pa2) && pa2 != pa ==> #[trigger] final(self).byte_at(pa2, off2) == old(self).byte_at(pa2, off2),
    {
        proof {
            old(self).lemma_frame_facts(pa);
        }
        let n = self.frames.len();
        let idx64 = (pa - self.base) / (PAGE_SIZE as u64);
        proof {
            assert(idx64 == old(self).frame_idx(pa));
            assert(idx64 < n);
        }
        let idx = idx64 as usize;
        proof {
            assert(idx == old(self).frame_idx(pa));
        }
        let mut newdata: Vec<u8> = Vec::new();
        let mut j: usize = 0;
        while j < PAGE_SIZE
            invariant
                *self == *old(self),
                old(self).wf(),
                idx == old(self).frame_idx(pa),
                0 <= idx < self.frames@.len(),
                off + len <= PAGE_SIZE,
                src_start + len <= src@.len(),
                j <= PAGE_SIZE,
                newdata@.len() == j,
                forall|o: int|
                    0 <= o < j && off <= o < off + len ==> newdata@[o] == src@[src_start + (o
                        - off)],
                forall|o: int|
                    0 <= o < j && !(off <= o < off + len) ==> newdata@[o] == self.frames@[
                        idx as int].data@[o],
            decreases PAGE_SIZE - j,
        {
            if off <= j && j < off + len {
                proof {
                    assert(src_start + (j - off) < src.len());
                }
                newdata.push(src[src_start + (j - off)]);
            } else {
                newdata.push(self.frames[idx].data[j]);
            }
            j = j + 1;
        }
        let nf = Frame { allocated: true, data: newdata };
        proof {
            lemma_count_free_update(self.frames@, self.frames@.len() as int, idx as int, nf);
            lemma_count_free_agree(
                self.frames@.update(idx as int, nf),
                self.frames@,
                self.frames@.len() as int,
            );
        }
        self.frames[idx] = nf;
        proof {
            self.lemma_addr_of_wf_like(*old(self));
            lemma_count_free_agree(self.frames@, old(self).frames@, self.frames@.len() as int);
            assert forall|pa2: u64| self.is_frame(pa2) implies #[trigger] self.frame_allocated(pa2)
                == old(self).frame_allocated(pa2) by {
                if pa2 != pa {
                    old(self).lemma_frame_idx_injective(pa2, pa);
                }
            }
            assert forall|pa2: u64, off2: int| self.is_frame(pa2) && pa2 != pa implies #[trigger] self
                .byte_at(pa2, off2) == old(self).byte_at(pa2, off2) by {
                old(self).lemma_frame_idx_injective(pa2, pa);
            }
        }
    }

    /// Reads the byte at offset `off` of the allocated frame at `pa`.
    pub fn read_byte(&self, pa: u64, off: usize) -> (r: u8)
        requires
            self.wf(),
            self.is_allocated(pa),
            off < PAGE_SIZE,
        ensures
            r == self.byte_at(pa, off as int),
    {
        proof {
            self.lemma_frame_facts(pa);
        }
        let n = self.frames.len();
        let idx64 = (pa - self.base) / (PAGE_SIZE as u64);
        proof {
            assert(idx64 == self.frame_idx(pa));
            assert(idx64 < n);
        }
        let idx = idx64 as usize;
        self.frames[idx].data[off]
    }
}

} // verus!
