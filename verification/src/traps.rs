//! The trap dispatcher: classifies every exception and routes it to the
//! syscall table, to a registered interrupt handler, or reports it as
//! fatal.

use vstd::prelude::*;

use crate::frame::TrapFrame;
use crate::irq::{spec_tick_queue, spec_tick_ret, spec_tick_tf, HandlerKind, Interrupt, Irq};
use crate::pmem::PageAllocator;
use crate::process::{Id, Process};
use crate::scheduler::{head_running, running_ok, Scheduler};
use crate::syscall::handle_syscall;

verus! {

/// The class of an exception, as the vector table reports it.
#[derive(Clone, Copy, Debug, PartialEq, Eq, Structural)]
pub enum Kind {
    Synchronous,
    Irq,
    Fiq,
    SError,
}

/// Where the exception was taken from.
#[derive(Clone, Copy, Debug, PartialEq, Eq, Structural)]
pub enum Source {
    CurrentSpEl0,
    CurrentSpElx,
    LowerAArch64,
    LowerAArch32,
}

/// The classification of one exception: its source and kind.
#[derive(Clone, Copy, Debug, PartialEq, Eq, Structural)]
pub struct Info {
    pub source: Source,
    pub kind: Kind,
}

/// The decoded reason for a synchronous exception, from the exception
/// syndrome register: the exception class lives in the top six bits, a
/// 16-bit immediate in the low bits.
#[derive(Clone, Copy, Debug, PartialEq, Eq, Structural)]
pub enum Syndrome {
    /// A breakpoint instruction with its immediate.
    Brk(u16),
    /// A supervisor call with its immediate — a syscall.
    Svc(u16),
    /// Any other cause, carried raw; fatal in this kernel.
    Other(u32),
}

impl Syndrome {
    /// The decode of a raw syndrome value: exception class `0b111100` is
    /// a breakpoint, `0b010101` a 64-bit supervisor call.
    pub open spec fn spec_from(esr: u32) -> Syndrome {
        if esr / 0x4000000 == 0x3c {
            Syndrome::Brk((esr % 0x10000) as u16)
        } else if esr / 0x4000000 == 0x15 {
            Syndrome::Svc((esr % 0x10000) as u16)
        } else {
            Syndrome::Other(esr)
        }
    }

    /// Decodes a raw syndrome value.
    pub fn from(esr: u32) -> (r: Syndrome)
        ensures
            r == Self::spec_from(esr),
    {
        let ec = esr / 0x400_0000;
        if ec == 0x3c {
            #[verifier::truncate]
            let imm = (esr % 0x1_0000) as u16;
            Syndrome::Brk(imm)
        } else if ec == 0x15 {
            #[verifier::truncate]
            let imm = (esr % 0x1_0000) as u16;
            Syndrome::Svc(imm)
        } else {
            Syndrome::Other(esr)
        }
    }
}

/// Why the kernel must halt: the unrecoverable exception causes of this
/// design.
#[derive(Clone, Copy, Debug, PartialEq, Eq, Structural)]
pub enum Fault {
    /// A synchronous exception that is neither a breakpoint nor a
    /// supervisor call.
    UnknownSyndrome(u32),
    /// A supervisor call with a number outside the syscall table.
    UnknownSyscall(u16),
    /// An exception class this kernel does not handle (fast interrupts,
    /// system errors).
    Unhandled(Kind),
}

/// What the embedding program must do after a handled exception: which
/// process the trap return resumes (`None`: nothing was ready, retry the
/// switch — outside any critical section — until something is), and
/// whether the preemption timer must be rearmed.
#[derive(Clone, Copy, Debug, PartialEq, Eq, Structural)]
pub struct Step {
    pub resumed: Option<Id>,
    pub rearm_timer: bool,
}

/// The run queue, live context, and resumed id after delivering every
/// pending interrupt in order, starting from `(q, tf, resumed)`.
pub open spec fn spec_irq_fold(
    q: Seq<Process>,
    tf: TrapFrame,
    resumed: Option<Id>,
    pending: Seq<Interrupt>,
    irq: &Irq,
    now_ns: u64,
) -> (Seq<Process>, TrapFrame, Option<Id>)
    decreases pending.len(),
{
    if pending.len() == 0 {
        (q, tf, resumed)
    } else {
        let step = match irq.registered(pending[0]) {
            Some(HandlerKind::TimerTick) => (
                spec_tick_queue(q, tf, now_ns),
                spec_tick_tf(q, tf, now_ns),
                spec_tick_ret(q, tf, now_ns),
            ),
            None => (q, tf, resumed),
        };
        spec_irq_fold(step.0, step.1, step.2, pending.skip(1), irq, now_ns)
    }
}

/// Handles one exception: the classification `info`, the raw syndrome
/// value `esr`, the interrupted context `tf`, and — for interrupt
/// requests — the pending sources the controller reported, in order.
///
/// A breakpoint advances the program counter past the trapping
/// instruction and resumes the interrupted process. A supervisor call is
/// dispatched by number to the syscall table. Any other synchronous
/// syndrome, an unknown syscall number, and the unhandled exception
/// classes are fatal: the kernel state is left untouched and the fault
/// is reported for the embedding program to halt on. An interrupt
/// request delivers every pending source to its registered handler —
/// the kernel enables only registered sources at the controller, so the
/// caller guarantees each pending source has one.
pub fn handle_exception(
    info: Info,
    esr: u32,
    tf: &mut TrapFrame,
    pending: &Vec<Interrupt>,
    irq: &Irq,
    sched: &mut Scheduler,
    alloc: &mut PageAllocator,
    console: &mut Vec<u8>,
    now_ns: u64,
) -> (r: Result<Step, Fault>)
    requires
        old(sched).wf(),
        old(alloc).wf(),
        running_ok(old(sched).queue()),
        old(sched).vm_ok(old(alloc)),
        head_running(old(sched).queue()) ==> old(tf).tpidr == old(sched).queue()[0].id(),
        info.kind == Kind::Irq ==> irq.initialized() && forall|i: int|
            0 <= i < pending@.len() ==> (#[trigger] irq.registered(pending@[i])) is Some,
    ensures
        final(sched).wf(),
        final(alloc).wf(),
        running_ok(final(sched).queue()),
        final(sched).vm_ok(final(alloc)),
        final(sched).spec_last_id() == old(sched).spec_last_id(),
        r is Err ==> *final(tf) == *old(tf) && final(sched).queue() =~= old(sched).queue()
            && *final(alloc) == *old(alloc) && final(console)@ =~= old(console)@,
        info.kind == Kind::Fiq ==> r == Err::<Step, Fault>(Fault::Unhandled(Kind::Fiq)),
        info.kind == Kind::SError ==> r == Err::<Step, Fault>(Fault::Unhandled(Kind::SError)),
        info.kind == Kind::Synchronous ==> match Syndrome::spec_from(esr) {
            Syndrome::Brk(_) => {
                &&& r is Ok
                &&& r->Ok_0.resumed == Some(old(tf).tpidr)
                &&& !r->Ok_0.rearm_timer
                &&& *final(tf) == (TrapFrame {
                    elr: if old(tf).elr + 4 > u64::MAX {
                        (old(tf).elr + 4 - 0x1_0000_0000_0000_0000) as u64
                    } else {
                        (old(tf).elr + 4) as u64
                    },
                    ..*old(tf)
                })
                &&& final(sched).queue() =~= old(sched).queue()
                &&& *final(alloc) == *old(alloc)
                &&& final(console)@ =~= old(console)@
            },
            Syndrome::Svc(num) => {
                &&& (r is Err <==> r == Err::<Step, Fault>(Fault::UnknownSyscall(num)))
                &&& (r is Err <==> !(num == crate::syscall::NR_SLEEP || num
                    == crate::syscall::NR_TIME || num == crate::syscall::NR_EXIT || num
                    == crate::syscall::NR_WRITE || num == crate::syscall::NR_GETPID))
                &&& (num == crate::syscall::NR_SLEEP ==> {
                    let ms = old(tf).x@[0] as u32;
                    &&& final(sched).queue() =~= crate::syscall::spec_sleep_queue(
                        old(sched).queue(),
                        *old(tf),
                        now_ns,
                        ms,
                    )
                    &&& r->Ok_0.resumed == crate::syscall::spec_sleep_ret(
                        old(sched).queue(),
                        *old(tf),
                        now_ns,
                        ms,
                    )
                    &&& *final(tf) == crate::syscall::spec_sleep_tf(
                        old(sched).queue(),
                        *old(tf),
                        now_ns,
                        ms,
                    )
                })
                &&& (num == crate::syscall::NR_TIME ==> *final(tf) == crate::syscall::spec_time_tf(
                    *old(tf),
                    now_ns,
                ) && final(sched).queue() =~= old(sched).queue())
                &&& (num == crate::syscall::NR_EXIT ==> final(sched).queue()
                    =~= crate::syscall::spec_exit_queue(old(sched).queue(), now_ns)
                    && r->Ok_0.resumed == crate::syscall::spec_exit_ret(
                    old(sched).queue(),
                    now_ns,
                ) && (head_running(old(sched).queue()) ==> final(sched).retired(
                    old(sched).queue()[0].id(),
                )) && (crate::syscall::spec_exit_ret(old(sched).queue(), now_ns) is None
                    ==> *final(tf) == *old(tf)))
                &&& (num == crate::syscall::NR_WRITE ==> *final(tf)
                    == crate::syscall::spec_write_tf(*old(tf)) && final(console)@ =~= old(console)@.push(old(tf).x@[0] as u8) && final(sched).queue() =~= old(sched).queue())
                &&& (num == crate::syscall::NR_GETPID ==> *final(tf)
                    == crate::syscall::spec_result_tf(*old(tf), old(tf).tpidr) && final(sched).queue() =~= old(sched).queue())
                &&& (r is Ok ==> !r->Ok_0.rearm_timer)
            },
            Syndrome::Other(_) => r == Err::<Step, Fault>(Fault::UnknownSyndrome(esr)),
        },
        info.kind == Kind::Irq ==> {
            let start: Option<Id> = if head_running(old(sched).queue()) {
                Some(old(sched).queue()[0].id())
            } else {
                None
            };
            let ft = spec_irq_fold(old(sched).queue(), *old(tf), start, pending@, irq, now_ns);
            &&& r is Ok
            &&& final(sched).queue() =~= ft.0
            &&& *final(tf) == ft.1
            &&& r->Ok_0.resumed == ft.2
            &&& r->Ok_0.rearm_timer == (pending@.len() > 0)
            &&& *final(alloc) == *old(alloc)
            &&& final(console)@ =~= old(console)@
        },
        forall|i: Id| old(sched).retired(i) ==> final(sched).retired(i),
{
    match info.kind {
        Kind::Synchronous => {
            match Syndrome::from(esr) {
                Syndrome::Brk(_) => {
                    tf.elr = tf.elr.wrapping_add(4);
                    Ok(Step { resumed: Some(tf.tpidr), rearm_timer: false })
                },
                Syndrome::Svc(num) => {
                    match handle_syscall(num, tf, sched, alloc, console, now_ns) {
                        Ok(resumed) => Ok(Step { resumed, rearm_timer: false }),
                        Err(n) => Err(Fault::UnknownSyscall(n)),
                    }
                },
                Syndrome::Other(_) => Err(Fault::UnknownSyndrome(esr)),
            }
        },
        Kind::Irq => {
            let ghost q0 = sched.queue();
            let ghost tf0 = *tf;
            let mut resumed: Option<Id> = if sched.head_is_running() {
                Some(tf.tpidr)
            } else {
                None
            };
            let ghost start = resumed;
            let n = pending.len();
            let mut i: usize = 0;
            proof {
                assert(pending@.skip(0) =~= pending@);
            }
            while i < n
                invariant
                    irq.initialized(),
                    forall|j: int|
                        0 <= j < pending@.len() ==> (#[trigger] irq.registered(
                            pending@[j],
                        )) is Some,
                    n == pending@.len(),
                    i <= n,
                    sched.wf(),
                    running_ok(sched.queue()),
                    sched.spec_last_id() == old(sched).spec_last_id(),
                    head_running(sched.queue()) ==> tf.tpidr == sched.queue()[0].id(),
                    spec_irq_fold(q0, tf0, start, pending@, irq, now_ns) == spec_irq_fold(
                        sched.queue(),
                        *tf,
                        resumed,
                        pending@.skip(i as int),
                        irq,
                        now_ns,
                    ),
                    forall|id: Id| old(sched).retired(id) ==> sched.retired(id),
                    forall|al: PageAllocator| #[trigger] old(sched).vm_ok(&al) ==> sched.vm_ok(&al),
                    *alloc == *old(alloc),
                    console@ == old(console)@,
                decreases n - i,
            {
                let source = pending[i];
                let ghost qb = sched.queue();
                let ghost tfb = *tf;
                let ghost rb = resumed;
                let (res, _rearm) = irq.invoke(source, tf, sched, now_ns);
                resumed = res;
                i = i + 1;
                proof {
                    let s_prev = pending@.skip(i - 1);
                    assert(s_prev[0] == pending@[i - 1]);
                    assert(s_prev.skip(1) =~= pending@.skip(i as int));
                    assert(spec_irq_fold(qb, tfb, rb, s_prev, irq, now_ns) == spec_irq_fold(
                        sched.queue(),
                        *tf,
                        res,
                        pending@.skip(i as int),
                        irq,
                        now_ns,
                    ));
                }
            }
            proof {
                assert(pending@.skip(n as int) =~= Seq::<Interrupt>::empty());
            }
            Ok(Step { resumed, rearm_timer: n > 0 })
        },
        Kind::Fiq => Err(Fault::Unhandled(Kind::Fiq)),
        Kind::SError => Err(Fault::Unhandled(Kind::SError)),
    }
}

} // verus!
