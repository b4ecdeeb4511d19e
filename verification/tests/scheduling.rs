//! Scheduler, syscall and trap dispatch behavior, including the
//! end-to-end life of a loaded process.

use kernos::frame::TrapFrame;
use kernos::irq::{HandlerKind, Interrupt, Irq};
use kernos::param::{PAGE_SIZE, SPSR_EL0_INIT, USER_IMG_BASE};
use kernos::pmem::PageAllocator;
use kernos::process::{DeadlineWait, Process, State, USER_STACK_TOP};
use kernos::scheduler::Scheduler;
use kernos::syscall::{
    handle_syscall, sys_getpid, sys_sleep, sys_time, sys_write, NR_EXIT, NR_GETPID, NR_SLEEP,
    NR_TIME, NR_WRITE,
};
use kernos::traps::{handle_exception, Fault, Info, Kind, Source, Syndrome};

const BASE: u64 = 0x100_0000;
const MS: u64 = 1_000_000;

fn fresh_alloc(frames: usize) -> PageAllocator {
    PageAllocator::new(BASE, frames)
}

fn ready_process(alloc: &mut PageAllocator) -> Process {
    Process {
        context: TrapFrame::zeroed(),
        vmap: kernos::pagetable::UserPageTable::new(alloc),
        state: State::Ready,
    }
}

#[test]
fn add_assigns_increasing_ids_from_zero() {
    let mut alloc = fresh_alloc(16);
    let mut sched = Scheduler::new();
    for expected in 0u64..4 {
        let p = ready_process(&mut alloc);
        let id = sched.add(p).expect("id space is fresh");
        assert_eq!(id, expected);
    }
    assert_eq!(sched.ids(), vec![0, 1, 2, 3]);
}

#[test]
fn add_stamps_the_id_into_the_context() {
    let mut alloc = fresh_alloc(8);
    let mut sched = Scheduler::new();
    let mut p = ready_process(&mut alloc);
    p.context.tpidr = 999;
    let id = sched.add(p).unwrap();
    assert_eq!(id, 0);
    let mut tf = TrapFrame::zeroed();
    let got = sched.switch_to(&mut tf, 0).unwrap();
    assert_eq!(got, 0);
    assert_eq!(tf.tpidr, 0);
}

#[test]
fn switch_to_with_no_ready_entry_rotates_once() {
    let mut alloc = fresh_alloc(16);
    let mut sched = Scheduler::new();
    for slot in 0..3 {
        let mut p = ready_process(&mut alloc);
        p.state = if slot == 1 {
            State::Dead
        } else {
            State::Waiting(DeadlineWait { begun_ns: 0, ms: 1000 })
        };
        sched.add(p).unwrap();
    }
    let mut tf = TrapFrame::zeroed();
    // Every entry is waiting on an unexpired deadline or dead at 1 ms.
    assert_eq!(sched.switch_to(&mut tf, MS), None);
    // Exactly one rotation step: the head moved to the tail, relative
    // order otherwise unchanged.
    assert_eq!(sched.ids(), vec![1, 2, 0]);
    assert_eq!(tf, TrapFrame::zeroed());
}

#[test]
fn empty_scheduler_has_nothing_to_run_or_kill() {
    let mut alloc = fresh_alloc(4);
    let mut sched = Scheduler::new();
    let mut tf = TrapFrame::zeroed();
    assert_eq!(sched.switch_to(&mut tf, 0), None);
    assert_eq!(sched.kill(&tf, &mut alloc), None);
    assert!(!sched.schedule_out(State::Ready, &tf));
    assert!(sched.ids().is_empty());
}

#[test]
fn switch_to_restores_the_frame_saved_by_schedule_out() {
    let mut alloc = fresh_alloc(8);
    let mut sched = Scheduler::new();
    let mut p = ready_process(&mut alloc);
    p.state = State::Ready;
    sched.add(p).unwrap();

    // Make it the running process.
    let mut tf = TrapFrame::zeroed();
    assert_eq!(sched.switch_to(&mut tf, 0), Some(0));

    // Save a distinctive live frame and schedule it out.
    tf.elr = 0xdead_0000;
    tf.sp = 0x1234_5678;
    tf.x[3] = 42;
    tf.q[31] = 7;
    tf.lr = 99;
    let saved = tf;
    assert!(sched.schedule_out(State::Ready, &tf));

    // The next switch returns the same process with a byte-identical
    // frame.
    let mut restored = TrapFrame::zeroed();
    assert_eq!(sched.switch_to(&mut restored, 0), Some(0));
    assert_eq!(restored, saved);
}

#[test]
fn schedule_out_without_a_running_head_is_refused() {
    let mut alloc = fresh_alloc(8);
    let mut sched = Scheduler::new();
    let p = ready_process(&mut alloc);
    sched.add(p).unwrap();
    let tf = TrapFrame::zeroed();
    // The head is Ready, not Running: defensive false, queue untouched.
    assert!(!sched.schedule_out(State::Ready, &tf));
    assert_eq!(sched.ids(), vec![0]);
}

#[test]
fn is_ready_polls_are_idempotent_until_the_deadline() {
    let mut alloc = fresh_alloc(8);
    let mut p = ready_process(&mut alloc);
    p.context.x[0] = 0xaaaa;
    p.context.x[7] = 0xbbbb;
    p.state = State::Waiting(DeadlineWait { begun_ns: 10 * MS, ms: 50 });
    let before_state = p.state;
    let before_ctx = p.context;

    // Repeated negative polls: no result, no side effect at all.
    for now in [10 * MS, 20 * MS, 59 * MS] {
        assert!(!p.is_ready(now));
        assert_eq!(p.state, before_state);
        assert_eq!(p.context, before_ctx);
    }

    // Once the deadline passes, the process wakes with the elapsed
    // milliseconds and a success flag in its saved registers.
    assert!(p.is_ready(72 * MS));
    assert_eq!(p.state, State::Ready);
    assert_eq!(p.context.x[0], 62);
    assert_eq!(p.context.x[7], 1);
}

#[test]
fn kill_retires_the_running_head_for_good() {
    let mut alloc = fresh_alloc(16);
    let baseline = alloc.free_count();
    let mut sched = Scheduler::new();
    sched.add(ready_process(&mut alloc)).unwrap();
    sched.add(ready_process(&mut alloc)).unwrap();

    let mut tf = TrapFrame::zeroed();
    assert_eq!(sched.switch_to(&mut tf, 0), Some(0));
    let killed = sched.kill(&tf, &mut alloc);
    assert_eq!(killed, Some(0));

    // Its memory went back to the allocator...
    assert_eq!(alloc.free_count(), baseline - 3);

    // ...and no later switch ever returns it again.
    for round in 0..8u64 {
        match sched.switch_to(&mut tf, round) {
            Some(id) => assert_ne!(id, 0),
            None => {}
        }
        sched.schedule_out(State::Ready, &tf);
    }
}

#[test]
fn kill_without_a_running_head_changes_nothing() {
    let mut alloc = fresh_alloc(8);
    let mut sched = Scheduler::new();
    sched.add(ready_process(&mut alloc)).unwrap();
    let free = alloc.free_count();
    let tf = TrapFrame::zeroed();
    assert_eq!(sched.kill(&tf, &mut alloc), None);
    assert_eq!(sched.ids(), vec![0]);
    assert_eq!(alloc.free_count(), free);
}

#[test]
fn sys_time_writes_seconds_and_nanos() {
    let mut tf = TrapFrame::zeroed();
    tf.tpidr = 3;
    sys_time(&mut tf, 2_500_000_123);
    assert_eq!(tf.x[0], 2);
    assert_eq!(tf.x[1], 500_000_123);
    assert_eq!(tf.x[7], 1);
    assert_eq!(tf.tpidr, 3);
}

#[test]
fn sys_getpid_returns_the_callers_id() {
    let mut tf = TrapFrame::zeroed();
    tf.tpidr = 17;
    sys_getpid(&mut tf);
    assert_eq!(tf.x[0], 17);
    assert_eq!(tf.x[7], 1);
}

#[test]
fn sys_write_appends_to_the_console_stream() {
    let mut tf = TrapFrame::zeroed();
    let mut console = Vec::new();
    sys_write(b'h', &mut tf, &mut console);
    sys_write(b'i', &mut tf, &mut console);
    assert_eq!(console, b"hi".to_vec());
    assert_eq!(tf.x[7], 1);
}

#[test]
fn sleep_parks_the_caller_until_its_deadline() {
    let mut alloc = fresh_alloc(8);
    let mut sched = Scheduler::new();
    sched.add(ready_process(&mut alloc)).unwrap();
    let mut tf = TrapFrame::zeroed();
    assert_eq!(sched.switch_to(&mut tf, 0), Some(0));

    // The only process goes to sleep: nothing is ready to switch to.
    assert_eq!(sys_sleep(50, &mut tf, &mut sched, 0), None);

    // Retrying before the deadline still finds nothing.
    assert_eq!(sched.switch_to(&mut tf, 49 * MS), None);

    // After the deadline the sleeper returns, with the true elapsed time
    // and a success flag in its result registers.
    assert_eq!(sched.switch_to(&mut tf, 60 * MS), Some(0));
    assert_eq!(tf.x[0], 60);
    assert_eq!(tf.x[7], 1);
}

#[test]
fn unknown_syscall_number_is_fatal_and_inert() {
    let mut alloc = fresh_alloc(8);
    let mut sched = Scheduler::new();
    sched.add(ready_process(&mut alloc)).unwrap();
    let mut tf = TrapFrame::zeroed();
    assert_eq!(sched.switch_to(&mut tf, 0), Some(0));
    let before = tf;
    let mut console = Vec::new();
    let r = handle_syscall(77, &mut tf, &mut sched, &mut alloc, &mut console, 0);
    assert_eq!(r, Err(77));
    assert_eq!(tf, before);
    assert_eq!(sched.ids(), vec![0]);
    assert!(console.is_empty());
}

#[test]
fn syndrome_decodes_brk_svc_and_other() {
    assert_eq!(Syndrome::from(0xf000_0007), Syndrome::Brk(7));
    assert_eq!(Syndrome::from(0x5400_0001), Syndrome::Svc(1));
    assert_eq!(Syndrome::from(0x2400_0000), Syndrome::Other(0x2400_0000));
}

#[test]
fn brk_advances_the_program_counter() {
    let mut alloc = fresh_alloc(8);
    let mut sched = Scheduler::new();
    sched.add(ready_process(&mut alloc)).unwrap();
    let mut tf = TrapFrame::zeroed();
    assert_eq!(sched.switch_to(&mut tf, 0), Some(0));
    tf.elr = 0x8000_0000;
    let irq = Irq::uninitialized();
    let pending = Vec::new();
    let mut console = Vec::new();
    let info = Info { source: Source::LowerAArch64, kind: Kind::Synchronous };
    let step = handle_exception(
        info,
        0xf000_0001,
        &mut tf,
        &pending,
        &irq,
        &mut sched,
        &mut alloc,
        &mut console,
        0,
    )
    .expect("a breakpoint is non-fatal");
    assert_eq!(tf.elr, 0x8000_0004);
    assert_eq!(step.resumed, Some(0));
    assert!(!step.rearm_timer);
}

#[test]
fn fiq_and_serror_are_fatal() {
    let mut alloc = fresh_alloc(4);
    let mut sched = Scheduler::new();
    let mut tf = TrapFrame::zeroed();
    let irq = Irq::uninitialized();
    let pending = Vec::new();
    let mut console = Vec::new();
    for (kind, fault) in [
        (Kind::Fiq, Fault::Unhandled(Kind::Fiq)),
        (Kind::SError, Fault::Unhandled(Kind::SError)),
    ] {
        let info = Info { source: Source::CurrentSpElx, kind };
        let r = handle_exception(
            info,
            0,
            &mut tf,
            &pending,
            &irq,
            &mut sched,
            &mut alloc,
            &mut console,
            0,
        );
        assert_eq!(r, Err(fault));
    }
}

#[test]
fn unknown_syndrome_is_fatal() {
    let mut alloc = fresh_alloc(4);
    let mut sched = Scheduler::new();
    let mut tf = TrapFrame::zeroed();
    let irq = Irq::uninitialized();
    let pending = Vec::new();
    let mut console = Vec::new();
    let info = Info { source: Source::LowerAArch64, kind: Kind::Synchronous };
    let r = handle_exception(
        info,
        0x2400_0000,
        &mut tf,
        &pending,
        &irq,
        &mut sched,
        &mut alloc,
        &mut console,
        0,
    );
    assert_eq!(r, Err(Fault::UnknownSyndrome(0x2400_0000)));
}

#[test]
fn timer_tick_preempts_round_robin() {
    let mut alloc = fresh_alloc(16);
    let mut sched = Scheduler::new();
    sched.add(ready_process(&mut alloc)).unwrap();
    sched.add(ready_process(&mut alloc)).unwrap();
    let mut tf = TrapFrame::zeroed();
    assert_eq!(sched.switch_to(&mut tf, 0), Some(0));

    let mut irq = Irq::uninitialized();
    irq.initialize();
    irq.register(Interrupt::Timer1, HandlerKind::TimerTick);

    // Each tick forces the running process out as Ready and installs the
    // next one: 0, 1, 0, 1, ...
    let (resumed, rearm) = irq.invoke(Interrupt::Timer1, &mut tf, &mut sched, MS);
    assert_eq!(resumed, Some(1));
    assert!(rearm);
    let (resumed, _) = irq.invoke(Interrupt::Timer1, &mut tf, &mut sched, 2 * MS);
    assert_eq!(resumed, Some(0));
}

#[test]
fn irq_dispatch_delivers_pending_sources() {
    let mut alloc = fresh_alloc(16);
    let mut sched = Scheduler::new();
    sched.add(ready_process(&mut alloc)).unwrap();
    sched.add(ready_process(&mut alloc)).unwrap();
    let mut tf = TrapFrame::zeroed();
    assert_eq!(sched.switch_to(&mut tf, 0), Some(0));

    let mut irq = Irq::uninitialized();
    irq.initialize();
    irq.register(Interrupt::Timer1, HandlerKind::TimerTick);
    let pending = vec![Interrupt::Timer1];
    let mut console = Vec::new();
    let info = Info { source: Source::LowerAArch64, kind: Kind::Irq };
    let step = handle_exception(
        info,
        0,
        &mut tf,
        &pending,
        &irq,
        &mut sched,
        &mut alloc,
        &mut console,
        MS,
    )
    .expect("an interrupt is non-fatal");
    assert_eq!(step.resumed, Some(1));
    assert!(step.rearm_timer);
    assert_eq!(tf.tpidr, 1);
}

#[test]
fn loaded_process_lives_sleeps_and_exits() {
    // End to end: load a two-page image, run it, let it sleep, advance
    // the clock, wake it, and let it exit.
    let mut alloc = fresh_alloc(32);
    let kern = kernos::pagetable::KernPageTable::new(&mut alloc, 0x20_0000);
    let baseline = alloc.free_count();

    let mut image = vec![0u8; PAGE_SIZE + 16];
    image[0] = 0xe7;
    let p = Process::load(&image, kern.get_baddr(), &mut alloc).expect("image fits");
    assert_eq!(p.context.elr, USER_IMG_BASE);
    assert_eq!(p.context.sp, USER_STACK_TOP);
    assert_eq!(p.context.spsr, SPSR_EL0_INIT);
    assert_eq!(p.context.ttbr0, kern.get_baddr());

    let mut sched = Scheduler::new();
    let id = sched.add(p).expect("fresh id space");
    assert_eq!(id, 0);

    // First switch runs the loaded process.
    let mut tf = TrapFrame::zeroed();
    assert_eq!(sched.switch_to(&mut tf, 0), Some(id));
    assert_eq!(tf.elr, USER_IMG_BASE);

    // It issues sleep(50): syscall number in the trap, count in x0.
    let irq = Irq::uninitialized();
    let pending = Vec::new();
    let mut console = Vec::new();
    tf.x[0] = 50;
    let info = Info { source: Source::LowerAArch64, kind: Kind::Synchronous };
    let esr_svc = 0x5400_0000 | (NR_SLEEP as u32);
    let step = handle_exception(
        info,
        esr_svc,
        &mut tf,
        &pending,
        &irq,
        &mut sched,
        &mut alloc,
        &mut console,
        0,
    )
    .unwrap();
    assert_eq!(step.resumed, None);

    // The clock advances 60 ms; the retried switch reports success with
    // the elapsed time, at least the 50 ms asked for, in its result
    // register.
    assert_eq!(sched.switch_to(&mut tf, 60 * MS), Some(id));
    assert!(tf.x[0] >= 50);
    assert_eq!(tf.x[7], 1);

    // It exits: the id never comes back, and its two image pages, its
    // stack page and its table frames all return to the allocator.
    let esr_exit = 0x5400_0000 | (NR_EXIT as u32);
    let step = handle_exception(
        info,
        esr_exit,
        &mut tf,
        &pending,
        &irq,
        &mut sched,
        &mut alloc,
        &mut console,
        61 * MS,
    )
    .unwrap();
    assert_eq!(step.resumed, None);
    assert_eq!(alloc.free_count(), baseline);
    for round in 0..4u64 {
        assert_eq!(sched.switch_to(&mut tf, (62 + round) * MS), None);
    }
}

#[test]
fn synchronous_syscalls_resume_the_caller() {
    let mut alloc = fresh_alloc(8);
    let mut sched = Scheduler::new();
    sched.add(ready_process(&mut alloc)).unwrap();
    let mut tf = TrapFrame::zeroed();
    assert_eq!(sched.switch_to(&mut tf, 0), Some(0));
    let mut console = Vec::new();

    let r = handle_syscall(NR_TIME, &mut tf, &mut sched, &mut alloc, &mut console, 3_000_000_007);
    assert_eq!(r, Ok(Some(0)));
    assert_eq!(tf.x[0], 3);
    assert_eq!(tf.x[1], 7);

    tf.x[0] = b'!' as u64;
    let r = handle_syscall(NR_WRITE, &mut tf, &mut sched, &mut alloc, &mut console, 0);
    assert_eq!(r, Ok(Some(0)));
    assert_eq!(console, vec![b'!']);

    let r = handle_syscall(NR_GETPID, &mut tf, &mut sched, &mut alloc, &mut console, 0);
    assert_eq!(r, Ok(Some(0)));
    assert_eq!(tf.x[0], 0);
    assert_eq!(tf.x[7], 1);
}
