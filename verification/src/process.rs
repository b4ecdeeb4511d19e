//! Processes: a register context, a private address space, and a
//! scheduling state.

use vstd::prelude::*;

use crate::frame::TrapFrame;
use crate::pagetable::{
    PagePerm, UserPageTable, AP_USER_RW, ATTR_MEM, TABLE_LEAVES,
};
use crate::param::{PAGE_SIZE, SPSR_EL0_INIT, USER_IMG_BASE, USER_MAX_VA};
use crate::pmem::PageAllocator;
use vstd::array::spec_array_update;

verus! {

/// Type of a process ID.
pub type Id = u64;

/// A recoverable operating-system error surfaced to the caller.
#[derive(Clone, Copy, Debug, PartialEq, Eq, Structural)]
pub enum OsError {
    /// The named executable does not exist or is not a regular file.
    NoEntry,
    /// Not enough memory to complete the request.
    NoMemory,
    /// The requested image does not fit the user virtual window.
    NoVmSpace,
    /// An input/output error while reading the executable.
    IoError,
}

/// Leaf index of the user stack page: the last page of the window.
pub const STACK_LEAF: usize = 16383;

/// Largest image size that still leaves the stack page free:
/// `STACK_LEAF * PAGE_SIZE` bytes.
pub const IMG_LIMIT: usize = 0x3fff_0000;

/// Number of pages needed to hold `len` bytes, rounding up.
pub open spec fn spec_pages_of(len: int) -> int {
    (len + PAGE_SIZE - 1) / (PAGE_SIZE as int)
}

proof fn lemma_pages_of(len: int)
    requires
        0 <= len,
    ensures
        spec_pages_of(len) >= 0,
        (spec_pages_of(len) - 1) * PAGE_SIZE < len,
        len <= spec_pages_of(len) * PAGE_SIZE,
        len > 0 ==> spec_pages_of(len) >= 1,
        len <= IMG_LIMIT ==> spec_pages_of(len) <= STACK_LEAF,
{
    assert(spec_pages_of(len) >= 0 && (spec_pages_of(len) - 1) * PAGE_SIZE < len && len
        <= spec_pages_of(len) * PAGE_SIZE && (len > 0 ==> spec_pages_of(len) >= 1) && (len
        <= IMG_LIMIT ==> spec_pages_of(len) <= STACK_LEAF)) by (nonlinear_arith)
        requires
            0 <= len,
            spec_pages_of(len) == (len + PAGE_SIZE - 1) / (PAGE_SIZE as int),
            PAGE_SIZE == 65536,
            IMG_LIMIT == 0x3fff_0000,
            STACK_LEAF == 16383,
    ;
}

/// Lowest virtual address of the one-page user stack: the base of the
/// last page of the user window.
pub const USER_STACK_BASE: u64 = 0xffff_ffff_ffff_0000;

/// Initial user stack pointer: the highest 16-byte-aligned address of
/// the stack page.
pub const USER_STACK_TOP: u64 = 0xffff_ffff_ffff_fff0;

/// A pending sleep: the process becomes schedulable again once
/// `ms` milliseconds have elapsed since `begun_ns`.
///
/// A blocked process's waiting condition is re-evaluated on every
/// scheduling pass; the only blocking syscall of this kernel is `sleep`,
/// so the condition is this one tagged deadline, matched explicitly.
#[derive(Clone, Copy, Debug, PartialEq, Eq, Structural)]
pub struct DeadlineWait {
    pub begun_ns: u64,
    pub ms: u32,
}

/// The scheduling state of a process.
#[derive(Clone, Copy, Debug, PartialEq, Eq, Structural)]
pub enum State {
    /// Can be scheduled.
    Ready,
    /// Currently executing; at most one process is ever in this state.
    Running,
    /// Blocked until its deadline condition holds.
    Waiting(DeadlineWait),
    /// Killed; dropped by the scheduler, which reclaims its memory.
    Dead,
}

/// Milliseconds elapsed from `begun_ns` to `now_ns` on the monotonic
/// clock (zero if the clock has not reached `begun_ns`).
pub open spec fn spec_elapsed_ms(begun_ns: u64, now_ns: u64) -> u64 {
    if now_ns >= begun_ns {
        (((now_ns - begun_ns) as u64) / 1_000_000u64) as u64
    } else {
        0
    }
}

/// Computes the milliseconds elapsed from `begun_ns` to `now_ns`.
pub fn elapsed_ms(begun_ns: u64, now_ns: u64) -> (r: u64)
    ensures
        r == spec_elapsed_ms(begun_ns, now_ns),
{
    if now_ns >= begun_ns {
        (now_ns - begun_ns) / 1_000_000
    } else {
        0
    }
}

/// The complete state of a process: its saved register context, its
/// private address space, and its scheduling state.
pub struct Process {
    /// The saved trap frame of the process.
    pub context: TrapFrame,
    /// The page table describing the virtual memory of the process.
    pub vmap: UserPageTable,
    /// The scheduling state of the process.
    pub state: State,
}

impl Process {
    /// The process id, as stamped into its saved context.
    pub open spec fn id(&self) -> Id {
        self.context.tpidr
    }

    /// Structural consistency of the owned address space.
    pub open spec fn wf(&self) -> bool {
        &&& self.vmap.0.wf()
        &&& self.vmap.0.frames_distinct()
    }

    /// True when the process can be scheduled at time `now_ns`: it is
    /// `Ready`, or it is `Waiting` and its deadline has passed.
    pub open spec fn ready_spec(&self, now_ns: u64) -> bool {
        match self.state {
            State::Ready => true,
            State::Waiting(w) => spec_elapsed_ms(w.begun_ns, now_ns) >= w.ms,
            _ => false,
        }
    }

    /// The process as it stands after a successful readiness poll at time
    /// `now_ns`: a `Waiting` process whose deadline passed becomes `Ready`
    /// with the elapsed milliseconds and a success flag written into its
    /// saved result registers; a `Ready` process is unchanged.
    pub open spec fn woken(&self, now_ns: u64) -> Process {
        match self.state {
            State::Waiting(w) => Process {
                context: TrapFrame {
                    x: spec_array_update(
                        spec_array_update(
                            self.context.x,
                            0,
                            spec_elapsed_ms(w.begun_ns, now_ns),
                        ),
                        7,
                        1u64,
                    ),
                    ..self.context
                },
                state: State::Ready,
                ..*self
            },
            _ => *self,
        }
    }

    /// Returns `true` exactly when this process is ready to be scheduled
    /// at time `now_ns`.
    ///
    /// A `Ready` process stays as it is. A `Waiting` process whose
    /// deadline has passed is woken: the elapsed milliseconds and a
    /// success flag are written into its saved `x0` and `x7` and it
    /// becomes `Ready`. A `Waiting` process whose deadline has not passed
    /// is left exactly as it was — repeated negative polls have no side
    /// effect. A `Running` or `Dead` process is never ready.
    pub fn is_ready(&mut self, now_ns: u64) -> (r: bool)
        ensures
            r == old(self).ready_spec(now_ns),
            r ==> *final(self) == old(self).woken(now_ns),
            !r ==> *final(self) == *old(self),
    {
        match self.state {
            State::Ready => true,
            State::Waiting(w) => {
                let el = elapsed_ms(w.begun_ns, now_ns);
                if el >= (w.ms as u64) {
                    self.context.x[0] = el;
                    self.context.x[7] = 1;
                    self.state = State::Ready;
                    true
                } else {
                    false
                }
            },
            State::Running => false,
            State::Dead => false,
        }
    }

    /// The highest virtual address supported for user processes.
    pub fn get_max_va() -> (r: u64)
        ensures
            r == USER_MAX_VA,
    {
        USER_MAX_VA
    }

    /// The base address of the user memory window, where the image is
    /// loaded.
    pub fn get_image_base() -> (r: u64)
        ensures
            r == USER_IMG_BASE,
    {
        USER_IMG_BASE
    }

    /// The base address of the user stack page.
    pub fn get_stack_base() -> (r: u64)
        ensures
            r == USER_STACK_BASE,
            r % (PAGE_SIZE as u64) == 0,
    {
        proof {
            assert(0xffff_ffff_ffff_0000u64 % 65536u64 == 0) by (bit_vector);
        }
        USER_STACK_BASE
    }

    /// The initial top of the user stack.
    pub fn get_stack_top() -> (r: u64)
        ensures
            r == USER_STACK_TOP,
    {
        USER_STACK_TOP
    }

    /// Creates a process with a zeroed context, an empty address space,
    /// and state `Ready`.
    pub fn new(alloc: &mut PageAllocator) -> (r: Process)
        requires
            old(alloc).wf(),
            old(alloc).spec_free() >= 3,
        ensures
            final(alloc).wf(),
            final(alloc).spec_base() == old(alloc).spec_base(),
            final(alloc).num_frames() == old(alloc).num_frames(),
            final(alloc).spec_free() == old(alloc).spec_free() - 3,
            r.wf(),
            r.state == State::Ready,
            r.context.is_zeroed(),
            forall|i: int| 0 <= i < TABLE_LEAVES ==> !(#[trigger] r.vmap.0.leaves()[i]).valid,
            r.vmap.0.frames_ok(final(alloc)),
            forall|pa: u64| #[trigger] r.vmap.0.owns_addr(pa) ==> !old(alloc).frame_allocated(pa),
            forall|pa: u64|
                final(alloc).is_frame(pa) && !r.vmap.0.owns_addr(pa) ==> #[trigger] final(alloc).frame_allocated(pa) == old(alloc).frame_allocated(pa),
    {
        let vmap = UserPageTable::new(alloc);
        Process { context: TrapFrame::zeroed(), vmap, state: State::Ready }
    }

    /// Loads a program image into a fresh process.
    ///
    /// Builds a fresh user address space; maps one zeroed page at the top
    /// of the user window with read/write permission for the stack; maps
    /// one page per `PAGE_SIZE` bytes of the image (rounding up) at the
    /// image base with read/write/execute permission and copies the image
    /// bytes into them, the final partial page zero-filled past the image
    /// end. The initial context targets user mode at the image base: the
    /// program counter is the image base, the saved processor state masks
    /// all but IRQ, the stack pointer is the top of the stack page, and
    /// the two table base registers carry the shared kernel table and
    /// this process's own table. The state is `Ready`; the id is stamped
    /// later, at admission.
    ///
    /// An image too large for the window (it would reach the stack page)
    /// is refused with `NoVmSpace` and nothing is allocated.
    pub fn load(image: &Vec<u8>, kern_baddr: u64, alloc: &mut PageAllocator) -> (r: Result<
        Process,
        OsError,
    >)
        requires
            old(alloc).wf(),
            spec_pages_of(image@.len() as int) <= TABLE_LEAVES - 1 ==> old(alloc).spec_free() >= 4
                + spec_pages_of(image@.len() as int),
        ensures
            final(alloc).wf(),
            final(alloc).spec_base() == old(alloc).spec_base(),
            final(alloc).num_frames() == old(alloc).num_frames(),
            r is Err <==> image@.len() > IMG_LIMIT,
            r is Err ==> *final(alloc) == *old(alloc) && r == Err::<Process, OsError>(
                OsError::NoVmSpace,
            ),
            r is Ok ==> {
                let p = r->Ok_0;
                let pages = spec_pages_of(image@.len() as int);
                let leaves = p.vmap.0.leaves();
                &&& p.wf()
                &&& p.state == State::Ready
                &&& p.context.elr == USER_IMG_BASE
                &&& p.context.spsr == SPSR_EL0_INIT
                &&& p.context.sp == USER_STACK_TOP
                &&& p.context.tpidr == 0
                &&& p.context.ttbr0 == kern_baddr
                &&& p.context.ttbr1 == p.vmap.0.l2.addr
                &&& p.context.lr == 0
                &&& (forall|i: int| 0 <= i < 30 ==> p.context.x@[i] == 0)
                &&& (forall|i: int| 0 <= i < 32 ==> p.context.q@[i] == 0)
                &&& (forall|k: int|
                    0 <= k < pages ==> (#[trigger] leaves[k]).valid && leaves[k].ap == AP_USER_RW
                        && leaves[k].attr == ATTR_MEM)
                &&& leaves[STACK_LEAF as int].valid && leaves[STACK_LEAF as int].ap == AP_USER_RW
                &&& (forall|k: int|
                    pages <= k < STACK_LEAF ==> !(#[trigger] leaves[k]).valid)
                &&& (forall|k: int, j: int|
                    0 <= k < pages && 0 <= j < PAGE_SIZE ==> #[trigger] final(alloc).byte_at(
                        leaves[k].addr,
                        j,
                    ) == if k * PAGE_SIZE + j < image@.len() {
                        image@[k * PAGE_SIZE + j]
                    } else {
                        0u8
                    })
                &&& (forall|j: int|
                    0 <= j < PAGE_SIZE ==> #[trigger] final(alloc).byte_at(
                        leaves[STACK_LEAF as int].addr,
                        j,
                    ) == 0)
                &&& p.vmap.mapped_count() == pages + 1
                &&& p.vmap.0.frames_ok(final(alloc))
                &&& final(alloc).spec_free() == old(alloc).spec_free() - 4 - pages
                &&& (forall|pa: u64|
                    #[trigger] p.vmap.0.owns_addr(pa) ==> !old(alloc).frame_allocated(pa))
                &&& (forall|pa: u64|
                    final(alloc).is_frame(pa) && !p.vmap.0.owns_addr(pa) ==> #[trigger] final(alloc).frame_allocated(pa) == old(alloc).frame_allocated(pa))
                &&& (forall|pa: u64, off: int|
                    final(alloc).is_frame(pa) && !p.vmap.0.owns_addr(pa) ==> #[trigger] final(alloc).byte_at(pa, off) == old(alloc).byte_at(pa, off))
            },
    {
        let len = image.len();
        if len > IMG_LIMIT {
            return Err(OsError::NoVmSpace);
        }
        proof {
            lemma_pages_of(len as int);
        }
        let pages = (len + (PAGE_SIZE - 1)) / PAGE_SIZE;
        let ghost f0 = alloc.spec_free();
        let mut vmap = UserPageTable::new(alloc);
        let ghost vm0 = vmap;
        let ghost al0 = *alloc;
        proof {
            crate::pagetable::lemma_count_valid_none(vm0.0.leaves(), TABLE_LEAVES as int);
        }
        let stack_res = vmap.alloc_page(USER_STACK_BASE, PagePerm::RW, alloc);
        proof {
            assert(0xffff_ffff_ffff_0000u64 % 65536u64 == 0) by (bit_vector);
            assert(USER_STACK_BASE % (PAGE_SIZE as u64) == 0);
            assert((USER_STACK_BASE - USER_IMG_BASE) as u64 == 0x3fff_0000u64);
            assert(crate::pagetable::PageTable::leaf_of(0x3fff_0000u64) == STACK_LEAF);
            assert(!vm0.0.spec_is_valid(0x3fff_0000u64));
            assert(al0.spec_free() == f0 - 3 >= 1);
            assert(stack_res is Ok);
        }
        let mut k: usize = 0;
        while k < pages
            invariant
                alloc.wf(),
                vmap.0.wf(),
                vmap.0.frames_distinct(),
                vmap.0.frames_ok(alloc),
                alloc.spec_base() == old(alloc).spec_base(),
                alloc.num_frames() == old(alloc).num_frames(),
                len == image@.len(),
                len <= IMG_LIMIT,
                pages == spec_pages_of(len as int),
                pages <= TABLE_LEAVES - 1,
                f0 == old(alloc).spec_free(),
                f0 >= 4 + pages,
                k <= pages,
                alloc.spec_free() == f0 - 4 - k,
                vmap.mapped_count() == k + 1,
                vmap.0.leaves()[STACK_LEAF as int].valid,
                vmap.0.leaves()[STACK_LEAF as int].ap == AP_USER_RW,
                vmap.0.leaves()[STACK_LEAF as int].attr == ATTR_MEM,
                forall|j: int|
                    0 <= j < PAGE_SIZE ==> #[trigger] alloc.byte_at(
                        vmap.0.leaves()[STACK_LEAF as int].addr,
                        j,
                    ) == 0,
                forall|i: int|
                    0 <= i < k ==> (#[trigger] vmap.0.leaves()[i]).valid && vmap.0.leaves()[i].ap
                        == AP_USER_RW && vmap.0.leaves()[i].attr == ATTR_MEM,
                forall|i: int| k <= i < STACK_LEAF ==> !(#[trigger] vmap.0.leaves()[i]).valid,
                forall|i: int, j: int|
                    0 <= i < k && 0 <= j < PAGE_SIZE ==> #[trigger] alloc.byte_at(
                        vmap.0.leaves()[i].addr,
                        j,
                    ) == if i * PAGE_SIZE + j < len {
                        image@[i * PAGE_SIZE + j]
                    } else {
                        0u8
                    },
                forall|pa: u64| #[trigger] vmap.0.owns_addr(pa) ==> !old(alloc).frame_allocated(pa),
                forall|pa: u64|
                    alloc.is_frame(pa) && !vmap.0.owns_addr(pa) ==> #[trigger] alloc.frame_allocated(
                        pa,
                    ) == old(alloc).frame_allocated(pa),
                forall|pa: u64, off: int|
                    alloc.is_frame(pa) && !vmap.0.owns_addr(pa) ==> #[trigger] alloc.byte_at(
                        pa,
                        off,
                    ) == old(alloc).byte_at(pa, off),
            decreases pages - k,
        {
            proof {
                crate::pagetable::lemma_page_mul(k as int);
                assert((k as int) * (PAGE_SIZE as int) < 0x4000_0000);
            }
            let va = USER_IMG_BASE + (k as u64) * (PAGE_SIZE as u64);
            let ghost vmk = vmap;
            let ghost alk = *alloc;
            proof {
                assert(0xffff_ffff_c000_0000u64 % 65536u64 == 0) by (bit_vector);
                assert(va >= USER_IMG_BASE);
                assert((va - USER_IMG_BASE) as int == (k as int) * (PAGE_SIZE as int));
                assert((va as int) % (PAGE_SIZE as int) == 0) by (nonlinear_arith)
                    requires
                        va == USER_IMG_BASE + (k as int) * (PAGE_SIZE as int),
                        (USER_IMG_BASE as int) % (PAGE_SIZE as int) == 0,
                        ((k as int) * (PAGE_SIZE as int)) % (PAGE_SIZE as int) == 0,
                        PAGE_SIZE > 0,
                ;
                assert(crate::pagetable::PageTable::leaf_of((va - USER_IMG_BASE) as u64)
                    == k as int);
                assert(!vmk.0.spec_is_valid((va - USER_IMG_BASE) as u64));
                assert(alk.spec_free() == f0 - 4 - k >= 1);
            }
            let res = vmap.alloc_page(va, PagePerm::RWX, alloc);
            proof {
                assert(res is Ok);
            }
            let pa = match res {
                Ok(pa) => pa,
                Err(_) => {
                    proof {
                        assert(false);
                    }
                    0
                },
            };
            let start = k * PAGE_SIZE;
            proof {
                assert((k as int) * PAGE_SIZE <= (pages - 1) * PAGE_SIZE) by (nonlinear_arith)
                    requires
                        k < pages,
                        PAGE_SIZE > 0,
                ;
                assert(start < len);
            }
            let chunk = if len - start >= PAGE_SIZE {
                PAGE_SIZE
            } else {
                len - start
            };
            alloc.write_range(pa, 0, image, start, chunk);
            k = k + 1;
            proof {
                assert forall|i: int, j: int|
                    0 <= i < k && 0 <= j < PAGE_SIZE implies #[trigger] alloc.byte_at(
                    vmap.0.leaves()[i].addr,
                    j,
                ) == if i * PAGE_SIZE + j < len {
                    image@[i * PAGE_SIZE + j]
                } else {
                    0u8
                } by {
                    if i + 1 < k {
                        assert(vmap.0.owns_addr(vmap.0.leaves()[i].addr));
                    } else {
                        assert(vmap.0.leaves()[i].addr == pa);
                        if j < chunk {
                            assert(alloc.byte_at(pa, j) == image@[start + j]);
                        }
                    }
                }
                assert(vmap.0.owns_addr(vmap.0.leaves()[STACK_LEAF as int].addr));
            }
        }
        let mut context = TrapFrame::zeroed();
        context.elr = USER_IMG_BASE;
        context.spsr = SPSR_EL0_INIT;
        context.sp = USER_STACK_TOP;
        context.ttbr0 = kern_baddr;
        context.ttbr1 = vmap.get_baddr();
        Ok(Process { context, vmap, state: State::Ready })
    }

    /// Returns every frame this process holds — its mapped pages and its
    /// table frames — to the allocator.
    pub fn teardown(self, alloc: &mut PageAllocator)
        requires
            old(alloc).wf(),
            self.wf(),
            self.vmap.0.frames_ok(old(alloc)),
        ensures
            final(alloc).wf(),
            final(alloc).spec_base() == old(alloc).spec_base(),
            final(alloc).num_frames() == old(alloc).num_frames(),
            final(alloc).spec_free() == old(alloc).spec_free() + 3 + self.vmap.mapped_count(),
            forall|pa: u64|
                #[trigger] self.vmap.0.owns_addr(pa) ==> !final(alloc).frame_allocated(pa),
            forall|pa: u64|
                final(alloc).is_frame(pa) && !self.vmap.0.owns_addr(pa) ==> #[trigger] final(alloc).frame_allocated(pa) == old(alloc).frame_allocated(pa),
            forall|pa: u64, off: int|
                final(alloc).is_frame(pa) ==> #[trigger] final(alloc).byte_at(pa, off) == old(alloc).byte_at(pa, off),
    {
        self.vmap.teardown(alloc);
    }
}

} // verus!
