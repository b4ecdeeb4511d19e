//! A verified model of a small preemptive multitasking kernel for a
//! single-core 64-bit ARM machine: processes, a round-robin scheduler,
//! two-level page tables over an explicit physical page allocator, trap
//! dispatch, and the syscall layer, together with the small utility
//! libraries the kernel is built on (a slice-backed vector, FAT32 on-disk
//! structure decoding, boot tags).
//!
//! Hardware access (MMIO, the context save/restore assembly, the privileged
//! return instruction, real timers and the serial console) stays outside the
//! library; every function here is a total, verified function from plain
//! values to plain values, and the embedding program drives the hardware.

pub mod allocator;
pub mod fat32;
pub mod atags;
pub mod frame;
pub mod irq;
pub mod pagetable;
pub mod param;
pub mod pmem;
pub mod process;
pub mod scheduler;
pub mod shell;
pub mod stack_vec;
pub mod syscall;
pub mod traps;
pub mod util;
