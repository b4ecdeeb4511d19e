//! The register-context snapshot exchanged across a privilege transition.

use vstd::prelude::*;

verus! {

/// A complete snapshot of the machine registers of an interrupted execution,
/// in the fixed layout shared with the context save/restore sequence.
///
/// The layout is part of the trap ABI of this kernel: program counter
/// (`elr`), saved processor state (`spsr`), stack pointer (`sp`), process id
/// (`tpidr`), the two translation-table base addresses (`ttbr0` for the
/// shared kernel table, `ttbr1` for the owning process's table), the SIMD
/// register bank `q`, the general register bank `x`, and the link register
/// `lr`.
#[derive(Clone, Copy, Debug, PartialEq, Eq)]
pub struct TrapFrame {
    pub elr: u64,
    pub spsr: u64,
    pub sp: u64,
    pub tpidr: u64,
    pub ttbr0: u64,
    pub ttbr1: u64,
    pub q: [u128; 32],
    pub x: [u64; 30],
    pub lr: u64,
}

impl TrapFrame {
    /// True when every register of the frame is zero.
    pub open spec fn is_zeroed(&self) -> bool {
        &&& self.elr == 0
        &&& self.spsr == 0
        &&& self.sp == 0
        &&& self.tpidr == 0
        &&& self.ttbr0 == 0
        &&& self.ttbr1 == 0
        &&& forall|i: int| 0 <= i < 32 ==> self.q@[i] == 0
        &&& forall|i: int| 0 <= i < 30 ==> self.x@[i] == 0
        &&& self.lr == 0
    }

    /// Returns a frame with every register zero.
    pub fn zeroed() -> (r: TrapFrame)
        ensures
            r.is_zeroed(),
    {
        TrapFrame {
            elr: 0,
            spsr: 0,
            sp: 0,
            tpidr: 0,
            ttbr0: 0,
            ttbr1: 0,
            q: [0u128; 32],
            x: [0u64; 30],
            lr: 0,
        }
    }
}

} // verus!
