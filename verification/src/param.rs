//! Machine and kernel layout constants.

use vstd::prelude::*;

verus! {

/// Size of one page / one translation granule, in bytes.
pub const PAGE_SIZE: usize = 65536;

/// Number of leaf entries in one second-level (leaf) page table.
pub const L3_ENTRIES: usize = 8192;

/// Number of entries in the top-level table (only the first
/// `L3_TABLES` are ever valid).
pub const L2_ENTRIES: usize = 8192;

/// Number of leaf tables linked from the top-level table; together they
/// bound a 1 GiB virtual window.
pub const L3_TABLES: usize = 2;

/// Size of the virtual window covered by one table, in bytes
/// (`L3_TABLES * L3_ENTRIES * PAGE_SIZE`).
pub const VM_WINDOW_SIZE: usize = 0x4000_0000;

/// Lowest virtual address of the user window; the process image is loaded
/// here.
pub const USER_IMG_BASE: u64 = 0xffff_ffff_c000_0000;

/// Highest virtual address supported for user processes.
pub const USER_MAX_VA: u64 = 0xffff_ffff_ffff_ffff;

/// First physical address of the peripheral MMIO window.
pub const IO_BASE: u64 = 0x3f00_0000;

/// First physical address past the peripheral MMIO window.
pub const IO_BASE_END: u64 = 0x4000_0000;

/// Timer tick period, in nanoseconds: how often the preemption timer fires.
pub const TICK_NS: u64 = 10_000_000;

/// Saved-processor-state bit masking FIQ delivery.
pub const SPSR_F: u64 = 0x40;

/// Saved-processor-state bit masking IRQ delivery.
pub const SPSR_I: u64 = 0x80;

/// Saved-processor-state bit masking SError delivery.
pub const SPSR_A: u64 = 0x100;

/// Saved-processor-state bit masking debug exceptions.
pub const SPSR_D: u64 = 0x200;

/// Initial saved processor state for a fresh user process: an EL0 target
/// (mode bits zero) with FIQ, SError and debug masked
/// (`SPSR_F | SPSR_A | SPSR_D`) and IRQ left deliverable, so the preemption
/// timer can interrupt it.
pub const SPSR_EL0_INIT: u64 = 0x340;

} // verus!
