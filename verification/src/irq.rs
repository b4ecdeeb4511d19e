//! The interrupt registry: a fixed-capacity mapping from interrupt
//! source to at most one handler, where the last registration for a
//! source wins.
//!
//! Handlers are the kernel's actual interrupt actions, enumerated as a
//! tagged variant and matched explicitly; the only one this kernel
//! installs is the preemption tick.

use vstd::prelude::*;

use crate::frame::TrapFrame;
use crate::pmem::PageAllocator;
use crate::process::{Id, Process, State};
use crate::scheduler::{
    chosen, head_running, running_ok, spec_schedule_out, spec_switch_to_queue, spec_switch_to_ret,
    Scheduler,
};

verus! {

/// The interrupt sources of the machine's interrupt controller.
#[derive(Clone, Copy, Debug, PartialEq, Eq, Structural)]
pub enum Interrupt {
    Timer1,
    Timer3,
    Usb,
    Gpio0,
    Gpio1,
    Gpio2,
    Gpio3,
    Uart,
}

/// Number of interrupt sources.
pub const NUM_INTERRUPTS: usize = 8;

impl Interrupt {
    /// The registry slot of this source.
    pub open spec fn spec_index(self) -> int {
        match self {
            Interrupt::Timer1 => 0,
            Interrupt::Timer3 => 1,
            Interrupt::Usb => 2,
            Interrupt::Gpio0 => 3,
            Interrupt::Gpio1 => 4,
            Interrupt::Gpio2 => 5,
            Interrupt::Gpio3 => 6,
            Interrupt::Uart => 7,
        }
    }

    /// Computes the registry slot of this source.
    pub fn to_index(self) -> (r: usize)
        ensures
            r == self.spec_index(),
            r < NUM_INTERRUPTS,
    {
        match self {
            Interrupt::Timer1 => 0,
            Interrupt::Timer3 => 1,
            Interrupt::Usb => 2,
            Interrupt::Gpio0 => 3,
            Interrupt::Gpio1 => 4,
            Interrupt::Gpio2 => 5,
            Interrupt::Gpio3 => 6,
            Interrupt::Uart => 7,
        }
    }
}

/// What a registered interrupt handler does when its source fires.
#[derive(Clone, Copy, Debug, PartialEq, Eq, Structural)]
pub enum HandlerKind {
    /// The preemption tick: forces the current `Running` process to
    /// `Ready`, picks the next process to run, and asks for the timer to
    /// be rearmed. This is the sole preemption mechanism.
    TimerTick,
}

/// The queue after one preemption tick at time `now_ns`: the running
/// head is scheduled out as `Ready` with the live context saved, and the
/// next ready process is switched to.
pub open spec fn spec_tick_queue(q: Seq<Process>, tf: TrapFrame, now_ns: u64) -> Seq<Process> {
    spec_switch_to_queue(spec_schedule_out(q, State::Ready, tf), now_ns)
}

/// The id a preemption tick resumes, if any process was ready.
pub open spec fn spec_tick_ret(q: Seq<Process>, tf: TrapFrame, now_ns: u64) -> Option<Id> {
    spec_switch_to_ret(spec_schedule_out(q, State::Ready, tf), now_ns)
}

/// The live context after one preemption tick: the chosen process's
/// saved context, or untouched if no process was ready.
pub open spec fn spec_tick_tf(q: Seq<Process>, tf: TrapFrame, now_ns: u64) -> TrapFrame {
    if spec_tick_ret(q, tf, now_ns) is Some {
        chosen(spec_schedule_out(q, State::Ready, tf), now_ns).context
    } else {
        tf
    }
}

/// The interrupt registry. It is created inert at boot and filled in
/// once by `initialize` before any registration or delivery: a
/// single-writer-at-init, reader-after-init lifecycle.
pub struct Irq {
    handlers: Option<Vec<Option<HandlerKind>>>,
}

impl Irq {
    /// True once `initialize` has run.
    pub closed spec fn initialized(&self) -> bool {
        self.handlers is Some && self.handlers.unwrap()@.len() == NUM_INTERRUPTS
    }

    /// The handler currently registered for `source`, if any.
    pub closed spec fn registered(&self, source: Interrupt) -> Option<HandlerKind> {
        self.handlers.unwrap()@[source.spec_index()]
    }

    /// Returns an inert registry; `initialize` must run before use.
    pub fn uninitialized() -> (r: Irq)
        ensures
            !r.initialized(),
    {
        Irq { handlers: None }
    }

    /// Sets up the registry with no handler registered for any source.
    pub fn initialize(&mut self)
        ensures
            final(self).initialized(),
            forall|source: Interrupt| final(self).registered(source) is None,
    {
        let mut v: Vec<Option<HandlerKind>> = Vec::new();
        let mut i: usize = 0;
        while i < NUM_INTERRUPTS
            invariant
                i <= NUM_INTERRUPTS,
                v@.len() == i,
                forall|j: int| 0 <= j < i ==> v@[j] is None,
            decreases NUM_INTERRUPTS - i,
        {
            v.push(None);
            i = i + 1;
        }
        self.handlers = Some(v);
    }

    /// Registers `handler` for `source`, replacing any existing handler
    /// for that source; handlers for other sources are untouched.
    pub fn register(&mut self, source: Interrupt, handler: HandlerKind)
        requires
            old(self).initialized(),
        ensures
            final(self).initialized(),
            final(self).registered(source) == Some(handler),
            forall|other: Interrupt|
                other != source ==> #[trigger] final(self).registered(other) == old(self).registered(
                    other,
                ),
    {
        let idx = source.to_index();
        match &mut self.handlers {
            Some(v) => {
                v[idx] = Some(handler);
            },
            None => {
                proof {
                    assert(false);
                }
            },
        }
        proof {
            assert forall|other: Interrupt| other != source implies #[trigger] self.registered(other)
                == old(self).registered(other) by {
                assert(other.spec_index() != source.spec_index());
            }
        }
    }

    /// Delivers the interrupt `source` to its registered handler, handing it
    /// the live trap frame; the caller guarantees — as the kernel does by
    /// enabling only registered sources at the controller — that a
    /// handler is registered.
    ///
    /// The only handler of this kernel is the preemption tick, whose
    /// effect on the run queue and the live context is exactly one
    /// schedule-out of the running head as `Ready` followed by one switch
    /// attempt. It returns the resumed process's id (`None` when nothing
    /// was ready — the caller then retries the switch) and whether the
    /// timer must be rearmed.
    pub fn invoke(
        &self,
        source: Interrupt,
        tf: &mut TrapFrame,
        sched: &mut Scheduler,
        now_ns: u64,
    ) -> (r: (Option<Id>, bool))
        requires
            self.initialized(),
            self.registered(source) is Some,
            old(sched).wf(),
            running_ok(old(sched).queue()),
            head_running(old(sched).queue()) ==> old(tf).tpidr == old(sched).queue()[0].id(),
        ensures
            final(sched).wf(),
            running_ok(final(sched).queue()),
            r.0 is Some ==> head_running(final(sched).queue()) && final(sched).queue()[0].id()
                == r.0->0,
            final(sched).spec_last_id() == old(sched).spec_last_id(),
            final(sched).queue() =~= spec_tick_queue(old(sched).queue(), *old(tf), now_ns),
            r.0 == spec_tick_ret(old(sched).queue(), *old(tf), now_ns),
            *final(tf) == spec_tick_tf(old(sched).queue(), *old(tf), now_ns),
            r.1,
            forall|i: Id| old(sched).retired(i) ==> final(sched).retired(i),
            forall|al: PageAllocator| #[trigger] old(sched).vm_ok(&al) ==> final(sched).vm_ok(&al),
    {
        sched.schedule_out(State::Ready, tf);
        let resumed = sched.switch_to(tf, now_ns);
        (resumed, true)
    }
}

} // verus!
