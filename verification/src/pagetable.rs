//! Two-level address translation tables.
//!
//! A table covers a 1 GiB virtual window: one top-level table whose first
//! two entries point at two leaf tables, each leaf entry mapping one page.
//! Entries are value types with validated constructors and named fields;
//! `packed` gives the bit layout shared with the translation hardware.
//! The kernel table maps physical RAM 1:1 as normal memory and the
//! peripheral window as device memory; each process owns a private user
//! table. Table and page frames come from an explicit [`PageAllocator`]
//! and an explicit teardown returns them exactly once at process death.

use vstd::prelude::*;

use crate::param::{IO_BASE, IO_BASE_END, L3_ENTRIES, PAGE_SIZE, USER_IMG_BASE, VM_WINDOW_SIZE};
use crate::pmem::PageAllocator;

verus! {

/// Access-permission field value: privileged read/write.
pub const AP_KERN_RW: u64 = 0b00;

/// Access-permission field value: user and privileged read/write.
pub const AP_USER_RW: u64 = 0b01;

/// Access-permission field value: privileged read-only.
pub const AP_KERN_RO: u64 = 0b10;

/// Access-permission field value: user and privileged read-only.
pub const AP_USER_RO: u64 = 0b11;

/// Shareability field value: inner shareable (normal memory).
pub const SH_INNER: u64 = 0b11;

/// Shareability field value: outer shareable (device memory).
pub const SH_OUTER: u64 = 0b10;

/// Memory-attribute field value: normal, cacheable memory.
pub const ATTR_MEM: u64 = 0;

/// Memory-attribute field value: device, strictly-ordered memory.
pub const ATTR_DEV: u64 = 1;

/// Number of leaf entries of a whole table (both leaf tables together).
pub const TABLE_LEAVES: usize = 16384;

/// The permission a page is requested with.
///
/// The leaf entry format has no separate execute bit, so `RW` and `RWX`
/// install the same access-permission field.
#[derive(Clone, Copy, Debug, PartialEq, Eq, Structural)]
pub enum PagePerm {
    RW,
    RO,
    RWX,
}

/// One table entry: either invalid, or a link to a page (in a leaf table)
/// or to a leaf table (in the top-level table), with its access flag,
/// shareability, access permission and memory-attribute class.
#[derive(Clone, Copy, Debug, PartialEq, Eq, Structural)]
pub struct L3Entry {
    pub valid: bool,
    pub addr: u64,
    pub af: bool,
    pub sh: u64,
    pub ap: u64,
    pub attr: u64,
}

impl L3Entry {
    /// Field ranges, and the alignment invariant: a valid entry always
    /// holds a page-aligned address below the 48-bit physical limit.
    pub open spec fn wf(&self) -> bool {
        self.valid ==> {
            &&& self.addr % (PAGE_SIZE as u64) == 0
            &&& self.addr < 0x1_0000_0000_0000u64
            &&& self.af
            &&& self.sh == SH_INNER || self.sh == SH_OUTER
            &&& self.ap == AP_KERN_RW || self.ap == AP_USER_RW || self.ap == AP_KERN_RO
                || self.ap == AP_USER_RO
            &&& self.attr == ATTR_MEM || self.attr == ATTR_DEV
        }
    }

    /// The bit image of this entry as the translation hardware reads it:
    /// valid bit 0, type bit 1 (always a table/page descriptor when valid),
    /// memory attribute at bits 4:2, access permission at bits 7:6,
    /// shareability at bits 9:8, access flag at bit 10, and the physical
    /// address at bits 47:16.
    pub open spec fn spec_packed(&self) -> u64 {
        if !self.valid {
            0
        } else {
            (1u64 | 2u64 | (self.attr << 2) | (self.ap << 6) | (self.sh << 8) | (if self.af {
                0x400u64
            } else {
                0u64
            }) | self.addr) as u64
        }
    }

    /// The invalid (unmapped) entry value.
    pub open spec fn spec_invalid() -> L3Entry {
        L3Entry { valid: false, addr: 0, af: false, sh: 0, ap: 0, attr: 0 }
    }

    /// Returns an invalid (unmapped) entry.
    pub fn invalid() -> (r: L3Entry)
        ensures
            r.wf(),
            !r.valid,
            r == Self::spec_invalid(),
    {
        L3Entry { valid: false, addr: 0, af: false, sh: 0, ap: 0, attr: 0 }
    }

    /// Returns a valid entry for the page at `addr` with the given
    /// shareability, access permission and memory attribute, and the
    /// access flag set.
    pub fn new_page(addr: u64, sh: u64, ap: u64, attr: u64) -> (r: L3Entry)
        requires
            addr % (PAGE_SIZE as u64) == 0,
            addr < 0x1_0000_0000_0000u64,
            sh == SH_INNER || sh == SH_OUTER,
            ap == AP_KERN_RW || ap == AP_USER_RW || ap == AP_KERN_RO || ap == AP_USER_RO,
            attr == ATTR_MEM || attr == ATTR_DEV,
        ensures
            r.wf(),
            r == (L3Entry { valid: true, addr, af: true, sh, ap, attr }),
    {
        L3Entry { valid: true, addr, af: true, sh, ap, attr }
    }

    /// True when the entry maps a page.
    pub fn is_valid(&self) -> (r: bool)
        ensures
            r == self.valid,
    {
        self.valid
    }

    /// The mapped physical page address, or `None` for an invalid entry.
    pub fn get_page_addr(&self) -> (r: Option<u64>)
        ensures
            r == if self.valid {
                Some(self.addr)
            } else {
                None::<u64>
            },
    {
        if self.valid {
            Some(self.addr)
        } else {
            None
        }
    }

    /// Computes the packed bit image of the entry.
    pub fn packed(&self) -> (r: u64)
        requires
            self.wf(),
        ensures
            r == self.spec_packed(),
    {
        if !self.valid {
            0
        } else {
            let af_bit: u64 = if self.af {
                0x400
            } else {
                0
            };
            1u64 | 2u64 | (self.attr << 2u64) | (self.ap << 6u64) | (self.sh << 8u64) | af_bit
                | self.addr
        }
    }
}

/// The top-level table: its own physical address and one entry per
/// possible leaf table. Entries share the leaf entry value format; here a
/// valid entry's `addr` is the physical address of a leaf table.
pub struct L2PageTable {
    pub addr: u64,
    pub entries: Vec<L3Entry>,
}

impl L2PageTable {
    /// The physical address of the table itself.
    pub fn as_ptr(&self) -> (r: u64)
        ensures
            r == self.addr,
    {
        self.addr
    }
}

/// A leaf table: its own physical address and one entry per page of the
/// 512 MiB it covers.
pub struct L3PageTable {
    pub addr: u64,
    pub entries: Vec<L3Entry>,
}

impl L3PageTable {
    /// The physical address of the table itself.
    pub fn as_ptr(&self) -> (r: u64)
        ensures
            r == self.addr,
    {
        self.addr
    }
}

/// A whole translation table: the top-level table and its two leaf
/// tables, covering a 1 GiB window of page-aligned virtual offsets.
pub struct PageTable {
    pub l2: L2PageTable,
    pub l3: Vec<L3PageTable>,
}

impl PageTable {
    /// Structural consistency: full-size tables, well-formed entries, and
    /// a top level whose first two entries link the two leaf tables and
    /// whose remaining entries are invalid.
    pub open spec fn wf(&self) -> bool {
        &&& self.l2.entries@.len() == L3_ENTRIES
        &&& self.l3@.len() == 2
        &&& self.l3@[0].entries@.len() == L3_ENTRIES
        &&& self.l3@[1].entries@.len() == L3_ENTRIES
        &&& forall|i: int| 0 <= i < TABLE_LEAVES ==> (#[trigger] self.leaves()[i]).wf()
        &&& forall|i: int|
            0 <= i < 2 ==> (#[trigger] self.l2.entries@[i]).valid && self.l2.entries@[i].addr
                == self.l3@[i].addr
        &&& forall|i: int| 2 <= i < L3_ENTRIES ==> !(#[trigger] self.l2.entries@[i]).valid
        &&& forall|i: int| 0 <= i < 2 ==> (#[trigger] self.l2.entries@[i]).wf()
    }

    /// All leaf entries of both leaf tables, in window order.
    pub open spec fn leaves(&self) -> Seq<L3Entry> {
        self.l3@[0].entries@ + self.l3@[1].entries@
    }

    /// The leaf index of the page-aligned window offset `va`.
    pub open spec fn leaf_of(va: u64) -> int {
        va as int / PAGE_SIZE as int
    }

    /// True when the leaf entry for window offset `va` is valid.
    pub open spec fn spec_is_valid(&self, va: u64) -> bool {
        self.leaves()[Self::leaf_of(va)].valid
    }

    /// Splits a page-aligned window offset into its top-level and leaf
    /// table indexes.
    pub fn locate(va: u64) -> (r: (usize, usize))
        requires
            va % (PAGE_SIZE as u64) == 0,
            va < VM_WINDOW_SIZE,
        ensures
            r.0 == Self::leaf_of(va) / (L3_ENTRIES as int),
            r.1 == Self::leaf_of(va) % (L3_ENTRIES as int),
            r.0 < 2,
            r.1 < L3_ENTRIES,
            Self::leaf_of(va) == r.0 * L3_ENTRIES + r.1,
    {
        let leaf = va / (PAGE_SIZE as u64);
        let l2_index = (leaf / (L3_ENTRIES as u64)) as usize;
        let l3_index = (leaf % (L3_ENTRIES as u64)) as usize;
        proof {
            assert(leaf < TABLE_LEAVES);
            assert(leaf == l2_index * (L3_ENTRIES as int) + l3_index) by (nonlinear_arith)
                requires
                    L3_ENTRIES > 0,
                    l2_index == leaf / (L3_ENTRIES as u64),
                    l3_index == leaf % (L3_ENTRIES as u64),
            ;
        }
        (l2_index, l3_index)
    }

    /// Fetches the leaf entry for window offset `va`.
    pub fn get_entry(&self, va: u64) -> (r: L3Entry)
        requires
            self.wf(),
            va % (PAGE_SIZE as u64) == 0,
            va < VM_WINDOW_SIZE,
        ensures
            r == self.leaves()[Self::leaf_of(va)],
    {
        let (l2_index, l3_index) = Self::locate(va);
        self.l3[l2_index].entries[l3_index]
    }

    /// True when the leaf entry for window offset `va` is valid.
    pub fn is_valid(&self, va: u64) -> (r: bool)
        requires
            self.wf(),
            va % (PAGE_SIZE as u64) == 0,
            va < VM_WINDOW_SIZE,
        ensures
            r == self.spec_is_valid(va),
    {
        self.get_entry(va).is_valid()
    }

    /// True when the leaf entry for window offset `va` is invalid.
    pub fn is_invalid(&self, va: u64) -> (r: bool)
        requires
            self.wf(),
            va % (PAGE_SIZE as u64) == 0,
            va < VM_WINDOW_SIZE,
        ensures
            r == !self.spec_is_valid(va),
    {
        !self.is_valid(va)
    }

    /// Replaces the leaf entry for window offset `va`; every other entry
    /// and both table addresses stay as they were.
    pub fn set_entry(&mut self, va: u64, entry: L3Entry)
        requires
            old(self).wf(),
            va % (PAGE_SIZE as u64) == 0,
            va < VM_WINDOW_SIZE,
            entry.wf(),
        ensures
            final(self).wf(),
            final(self).leaves() =~= old(self).leaves().update(Self::leaf_of(va), entry),
            final(self).l2 == old(self).l2,
            final(self).l3@[0].addr == old(self).l3@[0].addr,
            final(self).l3@[1].addr == old(self).l3@[1].addr,
    {
        let (l2_index, l3_index) = Self::locate(va);
        self.l3[l2_index].entries[l3_index] = entry;
        proof {
            let k = Self::leaf_of(va);
            assert(self.leaves() =~= old(self).leaves().update(k, entry));
            assert forall|i: int| 0 <= i < TABLE_LEAVES implies (#[trigger] self.leaves()[i]).wf()
                by {
                assert(old(self).leaves()[i].wf());
            }
        }
    }

    /// The base address of the table: the physical address of its
    /// top-level table, as loaded into a translation-table base register.
    pub fn get_baddr(&self) -> (r: u64)
        ensures
            r == self.l2.addr,
    {
        self.l2.addr
    }

    /// Builds a table with every leaf entry invalid. The top-level table
    /// sits at `l2_addr` and links the two leaf tables at `l3_addr0` and
    /// `l3_addr1` with the access flag set, inner-shareable, the
    /// normal-memory attribute and the requested access permission.
    pub fn new(perm: u64, l2_addr: u64, l3_addr0: u64, l3_addr1: u64) -> (r: PageTable)
        requires
            perm == AP_KERN_RW || perm == AP_USER_RW || perm == AP_KERN_RO || perm == AP_USER_RO,
            l3_addr0 % (PAGE_SIZE as u64) == 0,
            l3_addr1 % (PAGE_SIZE as u64) == 0,
            l3_addr0 < 0x1_0000_0000_0000u64,
            l3_addr1 < 0x1_0000_0000_0000u64,
        ensures
            r.wf(),
            forall|i: int| 0 <= i < TABLE_LEAVES ==> #[trigger] r.leaves()[i] == L3Entry::spec_invalid(),
            r.l2.addr == l2_addr,
            r.l3@[0].addr == l3_addr0,
            r.l3@[1].addr == l3_addr1,
            forall|i: int|
                0 <= i < 2 ==> #[trigger] r.l2.entries@[i] == L3Entry::spec_link(
                    if i == 0 {
                        l3_addr0
                    } else {
                        l3_addr1
                    },
                    perm,
                ),
    {
        let mut l2_entries: Vec<L3Entry> = Vec::new();
        l2_entries.push(L3Entry::new_page(l3_addr0, SH_INNER, perm, ATTR_MEM));
        l2_entries.push(L3Entry::new_page(l3_addr1, SH_INNER, perm, ATTR_MEM));
        let mut i: usize = 2;
        while i < L3_ENTRIES
            invariant
                2 <= i <= L3_ENTRIES,
                l2_entries@.len() == i,
                l2_entries@[0] == L3Entry::spec_link(l3_addr0, perm),
                l2_entries@[1] == L3Entry::spec_link(l3_addr1, perm),
                forall|j: int| 2 <= j < i ==> !(#[trigger] l2_entries@[j]).valid,
                forall|j: int| 0 <= j < i ==> (#[trigger] l2_entries@[j]).wf(),
            decreases L3_ENTRIES - i,
        {
            l2_entries.push(L3Entry::invalid());
            i = i + 1;
        }
        let l3t0 = L3PageTable { addr: l3_addr0, entries: invalid_leaves() };
        let l3t1 = L3PageTable { addr: l3_addr1, entries: invalid_leaves() };
        let mut l3: Vec<L3PageTable> = Vec::new();
        l3.push(l3t0);
        l3.push(l3t1);
        let r = PageTable { l2: L2PageTable { addr: l2_addr, entries: l2_entries }, l3 };
        proof {
            assert(forall|i: int|
                0 <= i < TABLE_LEAVES ==> #[trigger] r.leaves()[i] == L3Entry::spec_invalid()
                    && r.leaves()[i].wf());
        }
        r
    }
}

impl L3Entry {
    /// The entry linking a leaf table at `addr` with permission `perm`, as
    /// the top-level table holds it.
    pub open spec fn spec_link(addr: u64, perm: u64) -> L3Entry {
        L3Entry { valid: true, addr, af: true, sh: SH_INNER, ap: perm, attr: ATTR_MEM }
    }
}

impl PageTable {
    /// True when `pa` is one of the frames this table holds: one of its
    /// three table frames, or a page mapped by a valid leaf entry.
    pub open spec fn owns_addr(&self, pa: u64) -> bool {
        ||| pa == self.l2.addr
        ||| pa == self.l3@[0].addr
        ||| pa == self.l3@[1].addr
        ||| exists|i: int|
            0 <= i < TABLE_LEAVES && (#[trigger] self.leaves()[i]).valid && self.leaves()[i].addr
                == pa
    }

    /// Every frame this table holds is an allocated frame of `alloc`.
    pub open spec fn frames_ok(&self, alloc: &PageAllocator) -> bool {
        forall|pa: u64| #[trigger] self.owns_addr(pa) ==> alloc.is_allocated(pa)
    }

    /// The frames this table holds are pairwise distinct: the three table
    /// frames differ, no valid leaf entry maps a table frame, and no two
    /// valid leaf entries map the same frame.
    pub open spec fn frames_distinct(&self) -> bool {
        &&& self.l2.addr != self.l3@[0].addr
        &&& self.l2.addr != self.l3@[1].addr
        &&& self.l3@[0].addr != self.l3@[1].addr
        &&& forall|i: int|
            0 <= i < TABLE_LEAVES && (#[trigger] self.leaves()[i]).valid ==> self.leaves()[i].addr
                != self.l2.addr && self.leaves()[i].addr != self.l3@[0].addr && self.leaves()[i].addr
                != self.l3@[1].addr
        &&& forall|i: int, j: int|
            0 <= i < TABLE_LEAVES && 0 <= j < TABLE_LEAVES && i != j && (#[trigger] self.leaves()[
                i]).valid && (#[trigger] self.leaves()[j]).valid ==> self.leaves()[i].addr
                != self.leaves()[j].addr
    }

    /// No frame is held by both tables: the memory behind two distinct
    /// address spaces is disjoint.
    pub open spec fn disjoint_from(&self, other: &PageTable) -> bool {
        forall|pa: u64| #[trigger] self.owns_addr(pa) ==> !other.owns_addr(pa)
    }
}

/// Takes three fresh frames from the allocator, for a top-level table and
/// its two leaf tables.
fn take_table_frames(alloc: &mut PageAllocator) -> (r: (u64, u64, u64))
    requires
        old(alloc).wf(),
        old(alloc).spec_free() >= 3,
    ensures
        final(alloc).wf(),
        final(alloc).spec_base() == old(alloc).spec_base(),
        final(alloc).num_frames() == old(alloc).num_frames(),
        final(alloc).spec_free() == old(alloc).spec_free() - 3,
        r.0 != r.1 && r.0 != r.2 && r.1 != r.2,
        final(alloc).is_frame(r.0) && final(alloc).is_frame(r.1) && final(alloc).is_frame(r.2),
        !old(alloc).frame_allocated(r.0) && !old(alloc).frame_allocated(r.1)
            && !old(alloc).frame_allocated(r.2),
        final(alloc).frame_allocated(r.0) && final(alloc).frame_allocated(r.1)
            && final(alloc).frame_allocated(r.2),
        forall|pa: u64|
            final(alloc).is_frame(pa) && pa != r.0 && pa != r.1 && pa != r.2
                ==> #[trigger] final(alloc).frame_allocated(pa) == old(alloc).frame_allocated(pa),
        forall|pa: u64, off: int|
            final(alloc).is_frame(pa) && pa != r.0 && pa != r.1 && pa != r.2
                ==> #[trigger] final(alloc).byte_at(pa, off) == old(alloc).byte_at(pa, off),
        r.0 % (PAGE_SIZE as u64) == 0 && r.1 % (PAGE_SIZE as u64) == 0 && r.2 % (PAGE_SIZE as u64)
            == 0,
        r.0 > 0 && r.1 > 0 && r.2 > 0,
        r.0 < 0x1_0000_0000_0000u64 && r.1 < 0x1_0000_0000_0000u64 && r.2 < 0x1_0000_0000_0000u64,
{
    let a = match alloc.alloc_page() {
        Some(pa) => pa,
        None => {
            proof {
                assert(false);
            }
            0
        },
    };
    let b = match alloc.alloc_page() {
        Some(pa) => pa,
        None => {
            proof {
                assert(false);
            }
            0
        },
    };
    let c = match alloc.alloc_page() {
        Some(pa) => pa,
        None => {
            proof {
                assert(false);
            }
            0
        },
    };
    proof {
        alloc.lemma_frame_facts(a);
        alloc.lemma_frame_facts(b);
        alloc.lemma_frame_facts(c);
    }
    (a, b, c)
}

/// The shared kernel translation table, built once at boot: all of
/// physical RAM below `mem_end` mapped 1:1 as inner-shareable normal
/// memory, and the peripheral MMIO window mapped 1:1 as outer-shareable
/// device memory — the attribute distinction peripherals require.
pub struct KernPageTable(pub PageTable);

/// The leaf entry the kernel table holds for leaf index `i`, with RAM
/// ending at `mem_end`.
pub open spec fn kern_leaf(i: int, mem_end: u64) -> L3Entry {
    let va = (i * PAGE_SIZE) as u64;
    if i * PAGE_SIZE < mem_end {
        L3Entry { valid: true, addr: va, af: true, sh: SH_INNER, ap: AP_KERN_RW, attr: ATTR_MEM }
    } else if IO_BASE <= i * PAGE_SIZE < IO_BASE_END {
        L3Entry { valid: true, addr: va, af: true, sh: SH_OUTER, ap: AP_KERN_RW, attr: ATTR_DEV }
    } else {
        L3Entry::spec_invalid()
    }
}

pub proof fn lemma_page_mul(i: int)
    requires
        0 <= i < TABLE_LEAVES,
    ensures
        (i * PAGE_SIZE) % (PAGE_SIZE as int) == 0,
        (i * PAGE_SIZE) / (PAGE_SIZE as int) == i,
        0 <= i * PAGE_SIZE < VM_WINDOW_SIZE,
{
    assert((i * PAGE_SIZE) % (PAGE_SIZE as int) == 0 && (i * PAGE_SIZE) / (PAGE_SIZE as int) == i
        && 0 <= i * PAGE_SIZE && i * PAGE_SIZE <= (TABLE_LEAVES - 1) * PAGE_SIZE)
        by (nonlinear_arith)
        requires
            0 <= i < TABLE_LEAVES,
            PAGE_SIZE > 0,
    ;
}

impl KernPageTable {
    /// Builds the kernel table over three fresh table frames, mapping
    /// `[0, mem_end)` as normal memory and `[IO_BASE, IO_BASE_END)` as
    /// device memory, with privileged read/write permission everywhere.
    pub fn new(alloc: &mut PageAllocator, mem_end: u64) -> (r: KernPageTable)
        requires
            old(alloc).wf(),
            old(alloc).spec_free() >= 3,
            mem_end % (PAGE_SIZE as u64) == 0,
            mem_end <= IO_BASE,
        ensures
            final(alloc).wf(),
            final(alloc).spec_base() == old(alloc).spec_base(),
            final(alloc).num_frames() == old(alloc).num_frames(),
            final(alloc).spec_free() == old(alloc).spec_free() - 3,
            r.0.wf(),
            forall|i: int| 0 <= i < TABLE_LEAVES ==> #[trigger] r.0.leaves()[i] == kern_leaf(i, mem_end),
            forall|i: int|
                0 <= i < 2 ==> #[trigger] r.0.l2.entries@[i] == L3Entry::spec_link(
                    r.0.l3@[i].addr,
                    AP_KERN_RW,
                ),
            final(alloc).is_allocated(r.0.l2.addr),
            final(alloc).is_allocated(r.0.l3@[0].addr),
            final(alloc).is_allocated(r.0.l3@[1].addr),
            !old(alloc).frame_allocated(r.0.l2.addr),
            !old(alloc).frame_allocated(r.0.l3@[0].addr),
            !old(alloc).frame_allocated(r.0.l3@[1].addr),
            forall|pa: u64|
                final(alloc).is_frame(pa) && pa != r.0.l2.addr && pa != r.0.l3@[0].addr && pa
                    != r.0.l3@[1].addr ==> #[trigger] final(alloc).frame_allocated(pa)
                    == old(alloc).frame_allocated(pa),
            forall|pa: u64, off: int|
                final(alloc).is_frame(pa) && pa != r.0.l2.addr && pa != r.0.l3@[0].addr && pa
                    != r.0.l3@[1].addr ==> #[trigger] final(alloc).byte_at(pa, off)
                    == old(alloc).byte_at(pa, off),
    {
        let (l2_addr, l3_addr0, l3_addr1) = take_table_frames(alloc);
        let mut pt = PageTable::new(AP_KERN_RW, l2_addr, l3_addr0, l3_addr1);
        let mut i: usize = 0;
        while i < TABLE_LEAVES
            invariant
                pt.wf(),
                pt.l2.addr == l2_addr,
                pt.l3@[0].addr == l3_addr0,
                pt.l3@[1].addr == l3_addr1,
                pt.l2.entries@[0] == L3Entry::spec_link(l3_addr0, AP_KERN_RW),
                pt.l2.entries@[1] == L3Entry::spec_link(l3_addr1, AP_KERN_RW),
                mem_end % (PAGE_SIZE as u64) == 0,
                mem_end <= IO_BASE,
                i <= TABLE_LEAVES,
                forall|j: int| 0 <= j < i ==> #[trigger] pt.leaves()[j] == kern_leaf(j, mem_end),
                forall|j: int|
                    i <= j < TABLE_LEAVES ==> #[trigger] pt.leaves()[j] == L3Entry::spec_invalid(),
            decreases TABLE_LEAVES - i,
        {
            proof {
                lemma_page_mul(i as int);
            }
            let va = (i as u64) * (PAGE_SIZE as u64);
            if va < mem_end {
                pt.set_entry(va, L3Entry::new_page(va, SH_INNER, AP_KERN_RW, ATTR_MEM));
            } else if IO_BASE <= va && va < IO_BASE_END {
                pt.set_entry(va, L3Entry::new_page(va, SH_OUTER, AP_KERN_RW, ATTR_DEV));
            }
            i = i + 1;
        }
        KernPageTable(pt)
    }

    /// The base address of the kernel table.
    pub fn get_baddr(&self) -> (r: u64)
        ensures
            r == self.0.l2.addr,
    {
        self.0.get_baddr()
    }
}

/// Why a user mapping request was refused.
#[derive(Clone, Copy, Debug, PartialEq, Eq, Structural)]
pub enum VmError {
    /// The virtual address lies below the user image base.
    BelowImageBase,
    /// The virtual address is not page-aligned.
    Misaligned,
    /// The virtual address is already mapped; double-mapping is a
    /// programming error.
    AlreadyMapped,
    /// The physical page allocator is exhausted.
    NoMemory,
}

/// Number of valid entries among the first `n` of `s`.
pub open spec fn count_valid_upto(s: Seq<L3Entry>, n: int) -> int
    decreases n,
{
    if n <= 0 {
        0
    } else {
        count_valid_upto(s, n - 1) + if s[n - 1].valid {
            1int
        } else {
            0int
        }
    }
}

/// The access-permission field installed for a requested page permission.
pub open spec fn ap_of(perm: PagePerm) -> u64 {
    match perm {
        PagePerm::RO => AP_USER_RO,
        _ => AP_USER_RW,
    }
}

/// A process's private translation table over the fixed 1 GiB user
/// window starting at `USER_IMG_BASE`.
pub struct UserPageTable(pub PageTable);

proof fn lemma_user_offset(va: u64)
    requires
        va >= USER_IMG_BASE,
        va % (PAGE_SIZE as u64) == 0,
    ensures
        (va - USER_IMG_BASE) % (PAGE_SIZE as int) == 0,
        va - USER_IMG_BASE < VM_WINDOW_SIZE,
{
    assert((va - USER_IMG_BASE) % (PAGE_SIZE as int) == 0) by (nonlinear_arith)
        requires
            va % (PAGE_SIZE as u64) == 0,
            USER_IMG_BASE % (PAGE_SIZE as u64) == 0,
            va >= USER_IMG_BASE,
            PAGE_SIZE > 0,
    ;
}

impl UserPageTable {
    /// Number of pages currently mapped by valid leaf entries.
    pub open spec fn mapped_count(&self) -> int {
        count_valid_upto(self.0.leaves(), TABLE_LEAVES as int)
    }

    /// Builds an empty user table over three fresh table frames, with
    /// user read/write permission at the top level and every page
    /// unmapped.
    pub fn new(alloc: &mut PageAllocator) -> (r: UserPageTable)
        requires
            old(alloc).wf(),
            old(alloc).spec_free() >= 3,
        ensures
            final(alloc).wf(),
            final(alloc).spec_base() == old(alloc).spec_base(),
            final(alloc).num_frames() == old(alloc).num_frames(),
            final(alloc).spec_free() == old(alloc).spec_free() - 3,
            r.0.wf(),
            forall|i: int|
                0 <= i < TABLE_LEAVES ==> #[trigger] r.0.leaves()[i] == L3Entry::spec_invalid(),
            forall|i: int|
                0 <= i < 2 ==> #[trigger] r.0.l2.entries@[i] == L3Entry::spec_link(
                    r.0.l3@[i].addr,
                    AP_USER_RW,
                ),
            r.0.frames_ok(final(alloc)),
            r.0.frames_distinct(),
            forall|pa: u64| #[trigger] r.0.owns_addr(pa) ==> !old(alloc).frame_allocated(pa),
            forall|pa: u64|
                final(alloc).is_frame(pa) && !r.0.owns_addr(pa) ==> #[trigger] final(alloc).frame_allocated(pa) == old(alloc).frame_allocated(pa),
            forall|pa: u64, off: int|
                final(alloc).is_frame(pa) && !r.0.owns_addr(pa) ==> #[trigger] final(alloc).byte_at(
                    pa,
                    off,
                ) == old(alloc).byte_at(pa, off),
    {
        let (l2_addr, l3_addr0, l3_addr1) = take_table_frames(alloc);
        let pt = PageTable::new(AP_USER_RW, l2_addr, l3_addr0, l3_addr1);
        let r = UserPageTable(pt);
        proof {
            assert forall|pa: u64| #[trigger] r.0.owns_addr(pa) implies pa == l2_addr || pa
                == l3_addr0 || pa == l3_addr1 by {}
        }
        r
    }

    /// The base address of this table, as loaded into the user
    /// translation-table base register.
    pub fn get_baddr(&self) -> (r: u64)
        ensures
            r == self.0.l2.addr,
    {
        self.0.get_baddr()
    }

    /// True when the page at user virtual address `va` is mapped.
    pub fn is_valid(&self, va: u64) -> (r: bool)
        requires
            self.0.wf(),
            va >= USER_IMG_BASE,
            va % (PAGE_SIZE as u64) == 0,
        ensures
            r == self.0.spec_is_valid((va - USER_IMG_BASE) as u64),
    {
        proof {
            lemma_user_offset(va);
        }
        self.0.is_valid(va - USER_IMG_BASE)
    }

    /// True when the page at user virtual address `va` is unmapped.
    pub fn is_invalid(&self, va: u64) -> (r: bool)
        requires
            self.0.wf(),
            va >= USER_IMG_BASE,
            va % (PAGE_SIZE as u64) == 0,
        ensures
            r == !self.0.spec_is_valid((va - USER_IMG_BASE) as u64),
    {
        !self.is_valid(va)
    }

    /// The physical page mapped at user virtual address `va`, or `None`.
    pub fn get_page_addr(&self, va: u64) -> (r: Option<u64>)
        requires
            self.0.wf(),
            va >= USER_IMG_BASE,
            va % (PAGE_SIZE as u64) == 0,
        ensures
            r == {
                let e = self.0.leaves()[PageTable::leaf_of((va - USER_IMG_BASE) as u64)];
                if e.valid {
                    Some(e.addr)
                } else {
                    None::<u64>
                }
            },
    {
        proof {
            lemma_user_offset(va);
        }
        self.0.get_entry(va - USER_IMG_BASE).get_page_addr()
    }

    /// Maps one fresh zero-filled page at user virtual address `va` with
    /// the requested permission; refuses an address below the image base,
    /// a misaligned address, an address that is already mapped, and an
    /// exhausted allocator — in that order of checks — changing nothing
    /// when it refuses.
    pub fn alloc_page(&mut self, va: u64, perm: PagePerm, alloc: &mut PageAllocator) -> (r: Result<
        u64,
        VmError,
    >)
        requires
            old(self).0.wf(),
            old(alloc).wf(),
            old(self).0.frames_ok(old(alloc)),
            old(self).0.frames_distinct(),
        ensures
            final(alloc).wf(),
            final(self).0.wf(),
            final(alloc).spec_base() == old(alloc).spec_base(),
            final(alloc).num_frames() == old(alloc).num_frames(),
            r is Ok <==> va >= USER_IMG_BASE && va % (PAGE_SIZE as u64) == 0 && !old(
                self,
            ).0.spec_is_valid((va - USER_IMG_BASE) as u64) && old(alloc).spec_free() > 0,
            r == Err::<u64, VmError>(VmError::BelowImageBase) <==> va < USER_IMG_BASE,
            r == Err::<u64, VmError>(VmError::Misaligned) <==> va >= USER_IMG_BASE && va % (
            PAGE_SIZE as u64) != 0,
            r == Err::<u64, VmError>(VmError::AlreadyMapped) <==> va >= USER_IMG_BASE && va % (
            PAGE_SIZE as u64) == 0 && old(self).0.spec_is_valid((va - USER_IMG_BASE) as u64),
            r == Err::<u64, VmError>(VmError::NoMemory) <==> va >= USER_IMG_BASE && va % (
            PAGE_SIZE as u64) == 0 && !old(self).0.spec_is_valid((va - USER_IMG_BASE) as u64) && old(alloc).spec_free() == 0,
            r is Err ==> *final(self) == *old(self) && *final(alloc) == *old(alloc),
            r is Ok ==> {
                let pa = r->Ok_0;
                let leaf = PageTable::leaf_of((va - USER_IMG_BASE) as u64);
                &&& final(self).0.leaves()[leaf] == (L3Entry {
                    valid: true,
                    addr: pa,
                    af: true,
                    sh: SH_INNER,
                    ap: ap_of(perm),
                    attr: ATTR_MEM,
                })
                &&& forall|j: int|
                    0 <= j < TABLE_LEAVES && j != leaf ==> #[trigger] final(self).0.leaves()[j]
                        == old(self).0.leaves()[j]
                &&& final(self).0.l2 == old(self).0.l2
                &&& final(self).0.l3@[0].addr == old(self).0.l3@[0].addr
                &&& final(self).0.l3@[1].addr == old(self).0.l3@[1].addr
                &&& final(alloc).is_frame(pa)
                &&& !old(alloc).frame_allocated(pa)
                &&& final(alloc).frame_allocated(pa)
                &&& forall|off: int| 0 <= off < PAGE_SIZE ==> final(alloc).byte_at(pa, off) == 0
                &&& forall|pa2: u64|
                    final(alloc).is_frame(pa2) && pa2 != pa ==> #[trigger] final(alloc).frame_allocated(pa2) == old(alloc).frame_allocated(pa2)
                &&& forall|pa2: u64, off: int|
                    final(alloc).is_frame(pa2) && pa2 != pa ==> #[trigger] final(alloc).byte_at(
                        pa2,
                        off,
                    ) == old(alloc).byte_at(pa2, off)
                &&& final(alloc).spec_free() == old(alloc).spec_free() - 1
                &&& final(self).0.frames_ok(final(alloc))
                &&& final(self).0.frames_distinct()
                &&& forall|pa2: u64|
                    #[trigger] final(self).0.owns_addr(pa2) <==> (old(self).0.owns_addr(pa2) || pa2
                        == pa)
                &&& final(self).mapped_count() == old(self).mapped_count() + 1
            },
    {
        if va < USER_IMG_BASE {
            return Err(VmError::BelowImageBase);
        }
        if va % (PAGE_SIZE as u64) != 0 {
            return Err(VmError::Misaligned);
        }
        proof {
            lemma_user_offset(va);
        }
        let off = va - USER_IMG_BASE;
        if self.0.is_valid(off) {
            return Err(VmError::AlreadyMapped);
        }
        match alloc.alloc_page() {
            None => {
                proof {
                    old(alloc).lemma_free_bounds();
                }
                Err(VmError::NoMemory)
            },
            Some(pa) => {
                proof {
                    alloc.lemma_frame_facts(pa);
                }
                let ap = match perm {
                    PagePerm::RO => AP_USER_RO,
                    _ => AP_USER_RW,
                };
                let entry = L3Entry::new_page(pa, SH_INNER, ap, ATTR_MEM);
                self.0.set_entry(off, entry);
                proof {
                    self.lemma_alloc_post(*old(self), *old(alloc), alloc, off, pa, entry);
                }
                Ok(pa)
            },
        }
    }

    proof fn lemma_alloc_post(
        &self,
        prev: UserPageTable,
        prev_alloc: PageAllocator,
        alloc: &PageAllocator,
        off: u64,
        pa: u64,
        entry: L3Entry,
    )
        requires
            prev.0.wf(),
            prev_alloc.wf(),
            alloc.wf(),
            prev.0.frames_ok(&prev_alloc),
            prev.0.frames_distinct(),
            0 <= off < VM_WINDOW_SIZE,
            (off as int) % (PAGE_SIZE as int) == 0,
            !prev.0.spec_is_valid(off),
            alloc.is_frame(pa),
            !prev_alloc.frame_allocated(pa),
            alloc.frame_allocated(pa),
            alloc.spec_base() == prev_alloc.spec_base(),
            alloc.num_frames() == prev_alloc.num_frames(),
            forall|pa2: u64|
                alloc.is_frame(pa2) && pa2 != pa ==> #[trigger] alloc.frame_allocated(pa2)
                    == prev_alloc.frame_allocated(pa2),
            entry == (L3Entry {
                valid: true,
                addr: pa,
                af: true,
                sh: SH_INNER,
                ap: entry.ap,
                attr: ATTR_MEM,
            }),
            self.0.leaves() =~= prev.0.leaves().update(PageTable::leaf_of(off), entry),
            self.0.l2 == prev.0.l2,
            self.0.l3@[0].addr == prev.0.l3@[0].addr,
            self.0.l3@[1].addr == prev.0.l3@[1].addr,
            self.0.wf(),
        ensures
            self.0.frames_ok(alloc),
            self.0.frames_distinct(),
            forall|pa2: u64|
                #[trigger] self.0.owns_addr(pa2) <==> (prev.0.owns_addr(pa2) || pa2 == pa),
            self.mapped_count() == prev.mapped_count() + 1,
    {
        let leaf = PageTable::leaf_of(off);
        assert(0 <= leaf < TABLE_LEAVES) by (nonlinear_arith)
            requires
                leaf == off as int / PAGE_SIZE as int,
                0 <= off < VM_WINDOW_SIZE,
                PAGE_SIZE > 0,
                VM_WINDOW_SIZE == TABLE_LEAVES * PAGE_SIZE,
        ;
        assert forall|pa2: u64| #[trigger] self.0.owns_addr(pa2) implies (prev.0.owns_addr(pa2)
            || pa2 == pa) by {
            if pa2 != self.0.l2.addr && pa2 != self.0.l3@[0].addr && pa2 != self.0.l3@[1].addr {
                let i = choose|i: int|
                    0 <= i < TABLE_LEAVES && (#[trigger] self.0.leaves()[i]).valid
                        && self.0.leaves()[i].addr == pa2;
                if i != leaf {
                    assert(prev.0.leaves()[i].valid && prev.0.leaves()[i].addr == pa2);
                }
            }
        }
        assert forall|pa2: u64| (prev.0.owns_addr(pa2) || pa2 == pa) implies #[trigger] self
            .0.owns_addr(pa2) by {
            if pa2 == pa {
                assert(self.0.leaves()[leaf].valid && self.0.leaves()[leaf].addr == pa2);
            } else if !(pa2 == prev.0.l2.addr || pa2 == prev.0.l3@[0].addr || pa2
                == prev.0.l3@[1].addr) {
                let i = choose|i: int|
                    0 <= i < TABLE_LEAVES && (#[trigger] prev.0.leaves()[i]).valid
                        && prev.0.leaves()[i].addr == pa2;
                assert(i != leaf);
                assert(self.0.leaves()[i].valid && self.0.leaves()[i].addr == pa2);
            }
        }
        assert forall|pa2: u64| #[trigger] self.0.owns_addr(pa2) implies alloc.is_allocated(
            pa2,
        ) by {
            if pa2 == pa {
            } else {
                assert(prev.0.owns_addr(pa2));
                assert(prev_alloc.is_allocated(pa2));
            }
        }
        assert forall|i: int|
            0 <= i < TABLE_LEAVES && (#[trigger] self.0.leaves()[i]).valid implies self.0.leaves()[
            i].addr != self.0.l2.addr && self.0.leaves()[i].addr != self.0.l3@[0].addr
            && self.0.leaves()[i].addr != self.0.l3@[1].addr by {
            if i == leaf {
                assert(prev.0.owns_addr(prev.0.l2.addr));
                assert(prev.0.owns_addr(prev.0.l3@[0].addr));
                assert(prev.0.owns_addr(prev.0.l3@[1].addr));
            }
        }
        assert forall|i: int, j: int|
            0 <= i < TABLE_LEAVES && 0 <= j < TABLE_LEAVES && i != j && (#[trigger] self.0.leaves()[
                i]).valid && (#[trigger] self.0.leaves()[j]).valid implies self.0.leaves()[i].addr
            != self.0.leaves()[j].addr by {
            if i == leaf {
                assert(prev.0.leaves()[j].valid && 0 <= j < TABLE_LEAVES);
                assert(prev.0.owns_addr(prev.0.leaves()[j].addr));
            } else if j == leaf {
                assert(prev.0.leaves()[i].valid && 0 <= i < TABLE_LEAVES);
                assert(prev.0.owns_addr(prev.0.leaves()[i].addr));
            }
        }
        lemma_count_valid_update(prev.0.leaves(), TABLE_LEAVES as int, leaf, entry);
    }
}

impl UserPageTable {
    /// Walks every leaf entry and returns each still-mapped page, and then
    /// the three table frames, to the allocator. This is the only
    /// reclamation path for user memory, run exactly once when the owning
    /// process dies; afterwards every frame the table held is free again
    /// and the bytes of every frame are untouched.
    pub fn teardown(self, alloc: &mut PageAllocator)
        requires
            old(alloc).wf(),
            self.0.wf(),
            self.0.frames_ok(old(alloc)),
            self.0.frames_distinct(),
        ensures
            final(alloc).wf(),
            final(alloc).spec_base() == old(alloc).spec_base(),
            final(alloc).num_frames() == old(alloc).num_frames(),
            final(alloc).spec_free() == old(alloc).spec_free() + 3 + self.mapped_count(),
            forall|pa: u64| #[trigger] self.0.owns_addr(pa) ==> !final(alloc).frame_allocated(pa),
            forall|pa: u64|
                final(alloc).is_frame(pa) && !self.0.owns_addr(pa) ==> #[trigger] final(alloc).frame_allocated(pa) == old(alloc).frame_allocated(pa),
            forall|pa: u64, off: int|
                final(alloc).is_frame(pa) ==> #[trigger] final(alloc).byte_at(pa, off) == old(alloc).byte_at(pa, off),
    {
        proof {
            assert(self.0.owns_addr(self.0.l2.addr));
            assert(self.0.owns_addr(self.0.l3@[0].addr));
            assert(self.0.owns_addr(self.0.l3@[1].addr));
            assert forall|j: int|
                0 <= j < TABLE_LEAVES && (#[trigger] self.0.leaves()[j]).valid implies alloc
                .is_allocated(self.0.leaves()[j].addr) by {
                assert(self.0.owns_addr(self.0.leaves()[j].addr));
            }
        }
        let mut i: usize = 0;
        while i < TABLE_LEAVES
            invariant
                alloc.wf(),
                self.0.wf(),
                self.0.frames_distinct(),
                alloc.spec_base() == old(alloc).spec_base(),
                alloc.num_frames() == old(alloc).num_frames(),
                i <= TABLE_LEAVES,
                alloc.spec_free() == old(alloc).spec_free() + count_valid_upto(
                    self.0.leaves(),
                    i as int,
                ),
                forall|j: int|
                    0 <= j < TABLE_LEAVES && (#[trigger] self.0.leaves()[j]).valid
                        ==> alloc.is_frame(self.0.leaves()[j].addr),
                forall|j: int|
                    0 <= j < i && (#[trigger] self.0.leaves()[j]).valid ==> !alloc.frame_allocated(
                        self.0.leaves()[j].addr,
                    ),
                forall|j: int|
                    i <= j < TABLE_LEAVES && (#[trigger] self.0.leaves()[j]).valid
                        ==> alloc.is_allocated(self.0.leaves()[j].addr),
                alloc.is_allocated(self.0.l2.addr),
                alloc.is_allocated(self.0.l3@[0].addr),
                alloc.is_allocated(self.0.l3@[1].addr),
                forall|pa: u64|
                    alloc.is_frame(pa) && !self.0.owns_addr(pa) ==> #[trigger] alloc.frame_allocated(
                        pa,
                    ) == old(alloc).frame_allocated(pa),
                forall|pa: u64, off: int|
                    alloc.is_frame(pa) ==> #[trigger] alloc.byte_at(pa, off) == old(alloc).byte_at(
                        pa,
                        off,
                    ),
            decreases TABLE_LEAVES - i,
        {
            proof {
                lemma_page_mul(i as int);
            }
            let va = (i as u64) * (PAGE_SIZE as u64);
            let e = self.0.get_entry(va);
            if e.is_valid() {
                proof {
                    assert(self.0.owns_addr(e.addr));
                    assert(alloc.is_allocated(e.addr));
                }
                alloc.dealloc_page(e.addr);
                proof {
                    assert forall|j: int|
                        0 <= j < i + 1 && (#[trigger] self.0.leaves()[j]).valid implies !alloc
                        .frame_allocated(self.0.leaves()[j].addr) by {
                        if j < i {
                            assert(self.0.leaves()[j].addr != self.0.leaves()[i as int].addr);
                        }
                    }
                    assert forall|pa: u64|
                        alloc.is_frame(pa) && !self.0.owns_addr(pa) implies #[trigger] alloc
                        .frame_allocated(pa) == old(alloc).frame_allocated(pa) by {
                        assert(pa != e.addr);
                    }
                }
            }
            i = i + 1;
        }
        let l2_addr = self.0.l2.as_ptr();
        let l3_addr0 = self.0.l3[0].as_ptr();
        let l3_addr1 = self.0.l3[1].as_ptr();
        alloc.dealloc_page(l2_addr);
        alloc.dealloc_page(l3_addr0);
        alloc.dealloc_page(l3_addr1);
        proof {
            assert forall|pa: u64| #[trigger] self.0.owns_addr(pa) implies !alloc.frame_allocated(
                pa,
            ) by {
                if pa != l2_addr && pa != l3_addr0 && pa != l3_addr1 {
                    let j = choose|j: int|
                        0 <= j < TABLE_LEAVES && (#[trigger] self.0.leaves()[j]).valid
                            && self.0.leaves()[j].addr == pa;
                    assert(self.0.leaves()[j].valid);
                }
            }
            assert forall|pa: u64|
                alloc.is_frame(pa) && !self.0.owns_addr(pa) implies #[trigger] alloc.frame_allocated(
                pa,
            ) == old(alloc).frame_allocated(pa) by {
                assert(pa != l2_addr && pa != l3_addr0 && pa != l3_addr1);
            }
        }
    }
}

/// The count of valid entries among entries that are all invalid is
/// zero.
pub proof fn lemma_count_valid_none(s: Seq<L3Entry>, n: int)
    requires
        0 <= n <= s.len(),
        forall|j: int| 0 <= j < n ==> !(#[trigger] s[j]).valid,
    ensures
        count_valid_upto(s, n) == 0,
    decreases n,
{
    if n > 0 {
        lemma_count_valid_none(s, n - 1);
    }
}

proof fn lemma_count_valid_agree(s1: Seq<L3Entry>, s2: Seq<L3Entry>, n: int)
    requires
        0 <= n <= s1.len(),
        n <= s2.len(),
        forall|j: int| 0 <= j < n ==> s1[j].valid == s2[j].valid,
    ensures
        count_valid_upto(s1, n) == count_valid_upto(s2, n),
    decreases n,
{
    if n > 0 {
        lemma_count_valid_agree(s1, s2, n - 1);
    }
}

proof fn lemma_count_valid_update(s: Seq<L3Entry>, n: int, i: int, e: L3Entry)
    requires
        0 <= i < n <= s.len(),
    ensures
        count_valid_upto(s.update(i, e), n) == count_valid_upto(s, n) + (
        if e.valid && !s[i].valid {
            1int
        } else if !e.valid && s[i].valid {
            -1int
        } else {
            0int
        }),
    decreases n,
{
    let s2 = s.update(i, e);
    if i == n - 1 {
        lemma_count_valid_agree(s, s2, n - 1);
    } else {
        lemma_count_valid_update(s, n - 1, i, e);
    }
}

/// Builds one leaf table's worth of invalid entries.
fn invalid_leaves() -> (r: Vec<L3Entry>)
    ensures
        r@.len() == L3_ENTRIES,
        forall|j: int| 0 <= j < L3_ENTRIES ==> #[trigger] r@[j] == L3Entry::spec_invalid() && r@[j].wf(),
{
    let mut v: Vec<L3Entry> = Vec::new();
    let mut i: usize = 0;
    while i < L3_ENTRIES
        invariant
            i <= L3_ENTRIES,
            v@.len() == i,
            forall|j: int| 0 <= j < i ==> #[trigger] v@[j] == L3Entry::spec_invalid() && v@[j].wf(),
        decreases L3_ENTRIES - i,
    {
        v.push(L3Entry::invalid());
        i = i + 1;
    }
    v
}

} // verus!
