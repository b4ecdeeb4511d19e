//! The syscall layer: the five kernel entry points processes may invoke.
//!
//! The syscall number arrives in a dedicated register; every syscall
//! writes a success flag into the caller's `x7` and result values into
//! `x0` (and `x1`), as stated by the `spec_*` functions the contracts
//! share.

use vstd::prelude::*;

use crate::frame::TrapFrame;
use crate::pmem::PageAllocator;
use crate::process::{DeadlineWait, Id, Process, State};
use crate::scheduler::{
    chosen, head_running, running_ok, spec_kill_queue, spec_schedule_out, spec_switch_to_queue,
    spec_switch_to_ret, Scheduler,
};
use vstd::array::spec_array_update;

verus! {

/// Syscall number of `sleep`.
pub const NR_SLEEP: u16 = 1;

/// Syscall number of `time`.
pub const NR_TIME: u16 = 2;

/// Syscall number of `exit`.
pub const NR_EXIT: u16 = 3;

/// Syscall number of `write`.
pub const NR_WRITE: u16 = 4;

/// Syscall number of `getpid`.
pub const NR_GETPID: u16 = 5;

/// The waiting state a `sleep(ms)` call parks its caller in.
pub open spec fn sleep_state(now_ns: u64, ms: u32) -> State {
    State::Waiting(DeadlineWait { begun_ns: now_ns, ms })
}

/// The queue after `sleep(ms)`: the caller scheduled out as `Waiting`
/// on its deadline, then one switch attempt.
pub open spec fn spec_sleep_queue(q: Seq<Process>, tf: TrapFrame, now_ns: u64, ms: u32) -> Seq<
    Process,
> {
    spec_switch_to_queue(spec_schedule_out(q, sleep_state(now_ns, ms), tf), now_ns)
}

/// The id `sleep` resumes, if any process was ready.
pub open spec fn spec_sleep_ret(q: Seq<Process>, tf: TrapFrame, now_ns: u64, ms: u32) -> Option<
    Id,
> {
    spec_switch_to_ret(spec_schedule_out(q, sleep_state(now_ns, ms), tf), now_ns)
}

/// The live context after `sleep`: the resumed process's saved context,
/// or untouched if nothing was ready yet.
pub open spec fn spec_sleep_tf(q: Seq<Process>, tf: TrapFrame, now_ns: u64, ms: u32) -> TrapFrame {
    if spec_sleep_ret(q, tf, now_ns, ms) is Some {
        chosen(spec_schedule_out(q, sleep_state(now_ns, ms), tf), now_ns).context
    } else {
        tf
    }
}

/// The live context after `time()`: whole seconds in `x0`, the
/// sub-second nanoseconds in `x1`, and success in `x7`.
pub open spec fn spec_time_tf(tf: TrapFrame, now_ns: u64) -> TrapFrame {
    TrapFrame {
        x: spec_array_update(
            spec_array_update(
                spec_array_update(tf.x, 0, (now_ns / 1_000_000_000u64) as u64),
                1,
                (now_ns % 1_000_000_000u64) as u64,
            ),
            7,
            1u64,
        ),
        ..tf
    }
}

/// The queue after `exit()`: the running caller killed and removed for
/// good, then one switch attempt.
pub open spec fn spec_exit_queue(q: Seq<Process>, now_ns: u64) -> Seq<Process> {
    spec_switch_to_queue(spec_kill_queue(q), now_ns)
}

/// The id `exit` resumes, if any process was ready.
pub open spec fn spec_exit_ret(q: Seq<Process>, now_ns: u64) -> Option<Id> {
    spec_switch_to_ret(spec_kill_queue(q), now_ns)
}

/// The live context after a successful `write` or `getpid`-style
/// synchronous syscall that stores `v0` into `x0`: result in `x0`,
/// success in `x7`.
pub open spec fn spec_result_tf(tf: TrapFrame, v0: u64) -> TrapFrame {
    TrapFrame { x: spec_array_update(spec_array_update(tf.x, 0, v0), 7, 1u64), ..tf }
}

/// The live context after `write`: only the success flag is written.
pub open spec fn spec_write_tf(tf: TrapFrame) -> TrapFrame {
    TrapFrame { x: spec_array_update(tf.x, 7, 1u64), ..tf }
}

/// Sleep for `ms` milliseconds.
///
/// Captures the current time as the start of the deadline and parks the
/// caller `Waiting`; each scheduling pass recomputes the elapsed time,
/// and once it reaches `ms` the caller is woken with the true elapsed
/// milliseconds in `x0` and success in `x7`. Returns the id resumed by
/// the immediate switch attempt, or `None` when no process was ready —
/// the caller of the kernel then retries the switch outside any critical
/// section.
pub fn sys_sleep(ms: u32, tf: &mut TrapFrame, sched: &mut Scheduler, now_ns: u64) -> (r: Option<
    Id,
>)
    requires
        old(sched).wf(),
        running_ok(old(sched).queue()),
        head_running(old(sched).queue()) ==> old(tf).tpidr == old(sched).queue()[0].id(),
    ensures
        final(sched).wf(),
        running_ok(final(sched).queue()),
        r is Some ==> head_running(final(sched).queue()) && final(sched).queue()[0].id() == r->0,
        final(sched).spec_last_id() == old(sched).spec_last_id(),
        final(sched).queue() =~= spec_sleep_queue(old(sched).queue(), *old(tf), now_ns, ms),
        r == spec_sleep_ret(old(sched).queue(), *old(tf), now_ns, ms),
        *final(tf) == spec_sleep_tf(old(sched).queue(), *old(tf), now_ns, ms),
        forall|i: Id| old(sched).retired(i) ==> final(sched).retired(i),
        forall|al: PageAllocator| #[trigger] old(sched).vm_ok(&al) ==> final(sched).vm_ok(&al),
{
    sched.schedule_out(State::Waiting(DeadlineWait { begun_ns: now_ns, ms }), tf);
    sched.switch_to(tf, now_ns)
}

/// Returns the current time: whole seconds in `x0`, the sub-second
/// nanoseconds in `x1`, and success in `x7`.
pub fn sys_time(tf: &mut TrapFrame, now_ns: u64)
    ensures
        *final(tf) == spec_time_tf(*old(tf), now_ns),
{
    tf.x[0] = now_ns / 1_000_000_000;
    tf.x[1] = now_ns % 1_000_000_000;
    tf.x[7] = 1;
}

/// Kills the calling process and immediately switches to the next one;
/// the caller's id is retired for good and its memory returned to the
/// allocator. Never returns to the caller.
pub fn sys_exit(
    tf: &mut TrapFrame,
    sched: &mut Scheduler,
    alloc: &mut PageAllocator,
    now_ns: u64,
) -> (r: Option<Id>)
    requires
        old(sched).wf(),
        old(alloc).wf(),
        running_ok(old(sched).queue()),
        old(sched).vm_ok(old(alloc)),
    ensures
        final(sched).wf(),
        final(alloc).wf(),
        running_ok(final(sched).queue()),
        r is Some ==> head_running(final(sched).queue()) && final(sched).queue()[0].id() == r->0,
        final(sched).vm_ok(final(alloc)),
        final(sched).spec_last_id() == old(sched).spec_last_id(),
        final(alloc).spec_base() == old(alloc).spec_base(),
        final(alloc).num_frames() == old(alloc).num_frames(),
        final(sched).queue() =~= spec_exit_queue(old(sched).queue(), now_ns),
        r == spec_exit_ret(old(sched).queue(), now_ns),
        head_running(old(sched).queue()) ==> final(sched).retired(old(sched).queue()[0].id())
            && final(alloc).spec_free() == old(alloc).spec_free() + 3 + old(sched).queue()[0].vmap.mapped_count(),
        !head_running(old(sched).queue()) ==> *final(alloc) == *old(alloc),
        r is Some ==> *final(tf) == chosen(spec_kill_queue(old(sched).queue()), now_ns).context,
        r is None ==> *final(tf) == *old(tf),
        forall|i: Id| old(sched).retired(i) ==> final(sched).retired(i),
{
    let ghost q0 = sched.queue();
    let killed = sched.kill(tf, alloc);
    let r = sched.switch_to(tf, now_ns);
    proof {
        assert(sched.queue() =~= spec_exit_queue(q0, now_ns));
    }
    r
}

/// Emits one byte to the console device and reports success in `x7`.
/// The byte is appended to `console`, the kernel's outgoing console
/// stream.
pub fn sys_write(b: u8, tf: &mut TrapFrame, console: &mut Vec<u8>)
    ensures
        *final(tf) == spec_write_tf(*old(tf)),
        final(console)@ =~= old(console)@.push(b),
{
    console.push(b);
    tf.x[7] = 1;
}

/// Returns the calling process's id in `x0` and success in `x7`.
pub fn sys_getpid(tf: &mut TrapFrame)
    ensures
        *final(tf) == spec_result_tf(*old(tf), old(tf).tpidr),
{
    tf.x[0] = tf.tpidr;
    tf.x[7] = 1;
}

/// Dispatches a syscall by number.
///
/// `sleep` takes its millisecond count from the caller's `x0`. An
/// unknown number is refused — fatal to the kernel — with everything
/// untouched. On success the result tells which process the trap return
/// resumes: `Some` id after a switch or for a synchronous syscall the
/// caller itself, or `None` when a switch found nothing ready and the
/// caller of the kernel must retry the switch.
pub fn handle_syscall(
    num: u16,
    tf: &mut TrapFrame,
    sched: &mut Scheduler,
    alloc: &mut PageAllocator,
    console: &mut Vec<u8>,
    now_ns: u64,
) -> (r: Result<Option<Id>, u16>)
    requires
        old(sched).wf(),
        old(alloc).wf(),
        running_ok(old(sched).queue()),
        old(sched).vm_ok(old(alloc)),
        head_running(old(sched).queue()) ==> old(tf).tpidr == old(sched).queue()[0].id(),
    ensures
        final(sched).wf(),
        final(alloc).wf(),
        running_ok(final(sched).queue()),
        final(sched).vm_ok(final(alloc)),
        final(sched).spec_last_id() == old(sched).spec_last_id(),
        r is Err <==> !(num == NR_SLEEP || num == NR_TIME || num == NR_EXIT || num == NR_WRITE
            || num == NR_GETPID),
        r is Err ==> r == Err::<Option<Id>, u16>(num) && *final(tf) == *old(tf) && final(sched).queue() =~= old(sched).queue() && *final(alloc) == *old(alloc) && final(console)@ =~= old(console)@,
        num == NR_SLEEP ==> {
            let ms = old(tf).x@[0] as u32;
            &&& final(sched).queue() =~= spec_sleep_queue(old(sched).queue(), *old(tf), now_ns, ms)
            &&& r == Ok::<Option<Id>, u16>(spec_sleep_ret(old(sched).queue(), *old(tf), now_ns, ms))
            &&& *final(tf) == spec_sleep_tf(old(sched).queue(), *old(tf), now_ns, ms)
            &&& *final(alloc) == *old(alloc)
            &&& final(console)@ =~= old(console)@
        },
        num == NR_TIME ==> *final(tf) == spec_time_tf(*old(tf), now_ns) && final(sched).queue()
            =~= old(sched).queue() && *final(alloc) == *old(alloc) && final(console)@ =~= old(console)@ && r == Ok::<Option<Id>, u16>(Some(old(tf).tpidr)),
        num == NR_EXIT ==> {
            &&& final(sched).queue() =~= spec_exit_queue(old(sched).queue(), now_ns)
            &&& r == Ok::<Option<Id>, u16>(spec_exit_ret(old(sched).queue(), now_ns))
            &&& (spec_exit_ret(old(sched).queue(), now_ns) is Some ==> *final(tf) == chosen(
                spec_kill_queue(old(sched).queue()),
                now_ns,
            ).context)
            &&& (spec_exit_ret(old(sched).queue(), now_ns) is None ==> *final(tf) == *old(tf))
            &&& (head_running(old(sched).queue()) ==> final(sched).retired(
                old(sched).queue()[0].id(),
            ) && final(alloc).spec_free() == old(alloc).spec_free() + 3 + old(sched).queue()[0].vmap.mapped_count())
            &&& final(console)@ =~= old(console)@
        },
        num == NR_WRITE ==> *final(tf) == spec_write_tf(*old(tf)) && final(sched).queue() =~= old(sched).queue() && *final(alloc) == *old(alloc) && final(console)@ =~= old(console)@.push(
            old(tf).x@[0] as u8,
        ) && r == Ok::<Option<Id>, u16>(Some(old(tf).tpidr)),
        num == NR_GETPID ==> *final(tf) == spec_result_tf(*old(tf), old(tf).tpidr) && final(sched).queue() =~= old(sched).queue() && *final(alloc) == *old(alloc) && final(console)@ =~= old(console)@ && r == Ok::<Option<Id>, u16>(Some(old(tf).tpidr)),
        forall|i: Id| old(sched).retired(i) ==> final(sched).retired(i),
{
    if num == NR_SLEEP {
        #[verifier::truncate]
        let ms = tf.x[0] as u32;
        Ok(sys_sleep(ms, tf, sched, now_ns))
    } else if num == NR_TIME {
        let pid = tf.tpidr;
        sys_time(tf, now_ns);
        Ok(Some(pid))
    } else if num == NR_EXIT {
        Ok(sys_exit(tf, sched, alloc, now_ns))
    } else if num == NR_WRITE {
        #[verifier::truncate]
        let b = tf.x[0] as u8;
        let pid = tf.tpidr;
        sys_write(b, tf, console);
        Ok(Some(pid))
    } else if num == NR_GETPID {
        let pid = tf.tpidr;
        sys_getpid(tf);
        Ok(Some(pid))
    } else {
        Err(num)
    }
}

} // verus!
