//! What holds of every timer handle, whatever it is asked to do.

use crate::adapter::{free_plan, Adapter, Op};
use crate::apple::{delta_of, interval_of};
use crate::bits::{lemma_readings_in_range, low64};
use crate::capsule::Callback;
use crate::duration::{
    duration_secs, duration_subsec_nanos, is_zero, total_millis, total_nanos, total_ticks,
};
use crate::posix::itimerspec;
use crate::timer::{State, TimerView};
use crate::web::delay_of;
use crate::win32::{period_of, FileTime};
use core::time::Duration;
use vstd::prelude::*;

verus! {

/// Initialization happens once. On a handle that holds a native object after a
/// first call of `init`, a second call answers `false` and changes nothing: the
/// native object is the same, and the handle still owns the capsule it owned
/// before. The object that was created for the second call, if any, is given
/// back, and the second capsule is freed rather than kept.
pub proof fn law_init_takes_effect_once(
    start: TimerView,
    first: Callback,
    first_created: usize,
    second: Callback,
    second_created: usize,
)
    requires
        start.wf(),
        start.init(first, first_created).is_init(),
    ensures
        ({
            let once = start.init(first, first_created);
            let twice = once.init(second, second_created);
            &&& !once.init_ok(second_created)
            &&& twice == once
            &&& twice.handle == once.handle
            &&& twice.capsule == once.capsule
            &&& start.init_ok(first_created) ==> once.capsule == first.storage()
            &&& once.init_plan(second, second_created) == once.adapter.discard_plan(second_created)
                + free_plan(second.storage())
        }),
{
}

/// Of two initializations that compete for an empty handle, each with a native
/// object of its own, exactly one takes effect: whichever completes first. The
/// other's object is given back and never adopted.
pub proof fn law_one_of_two_initializers_wins(
    adapter: Adapter,
    one: Callback,
    one_created: usize,
    other: Callback,
    other_created: usize,
)
    requires
        one_created != 0,
        other_created != 0,
    ensures
        ({
            let empty = TimerView::fresh(adapter);
            let first = empty.init(one, one_created);
            let both = first.init(other, other_created);
            &&& empty.init_ok(one_created)
            &&& !first.init_ok(other_created)
            &&& both.handle == one_created
            &&& both.capsule == one.storage()
            &&& first.init_plan(other, other_created) == adapter.discard_plan(other_created)
                + free_plan(other.storage())
            &&& adapter != Adapter::Web ==> adapter.discard_plan(other_created).len() == 1
        }),
{
}

/// An initialization that fails leaves no trace: the handle is as it was, and
/// the capsule that came with the call is freed.
pub proof fn law_failed_init_leaves_no_state(start: TimerView, cb: Callback, created: usize)
    requires
        !start.init_ok(created),
    ensures
        start.init(cb, created) == start,
        !cb.storage().null_spec() ==> start.init_plan(cb, created).last() == Op::Free(cb.storage()),
{
}

/// The life of a handle runs one way. Only a successful initialization leaves
/// the empty state, and nothing returns to it; programming leads to the armed
/// state and cancelling to the disarmed one, from either of the two.
pub proof fn law_states_follow_the_life_cycle(start: TimerView, cb: Callback, created: usize)
    requires
        start.wf(),
    ensures
        TimerView::fresh(start.adapter).state() == State::Uninit,
        start.is_init() <==> start.state() != State::Uninit,
        start.init(cb, created).state() == if start.init_ok(created) {
            State::Disarmed
        } else {
            start.state()
        },
        start.is_init() ==> start.armed().state() == State::Armed,
        start.is_init() ==> start.disarmed().state() == State::Disarmed,
        start.is_init() ==> start.init(cb, created).handle == start.handle,
{
}

/// Every step keeps a handle well formed: it never owns a capsule, and never
/// runs a program, without holding a native object. An initialization that takes
/// effect finds the capsule slot empty, so no capsule is ever overwritten.
pub proof fn law_steps_keep_handle_well_formed(start: TimerView, cb: Callback, created: usize)
    requires
        start.wf(),
    ensures
        TimerView::fresh(start.adapter).wf(),
        !TimerView::fresh(start.adapter).is_init(),
        start.init(cb, created).wf(),
        start.init_ok(created) ==> start.capsule.null_spec(),
        start.is_init() ==> start.armed().wf(),
        start.disarmed().wf(),
{
}

/// A schedule without an initial timeout uses its interval as the initial
/// timeout: it makes the very calls that programming the timer with the
/// interval for both would make.
pub proof fn law_schedule_defaults_initial_to_interval(
    timer: TimerView,
    unset: Duration,
    interval: Duration,
)
    requires
        is_zero(unset),
    ensures
        timer.schedule_plan(unset, interval) == timer.adapter.arm_plan(
            timer.handle,
            timer.running,
            interval,
            interval,
        ),
{
}

/// A schedule with an initial timeout makes the calls that programming the
/// timer with that timeout and the interval would make.
pub proof fn law_schedule_keeps_configured_initial(
    timer: TimerView,
    timeout: Duration,
    interval: Duration,
)
    requires
        !is_zero(timeout),
    ensures
        timer.schedule_plan(timeout, interval) == timer.adapter.arm_plan(
            timer.handle,
            timer.running,
            timeout,
            interval,
        ),
{
}

/// Cancelling is idempotent: a second cancellation leaves the handle as the
/// first left it, and on a dispatch source, which counts its suspensions, it
/// makes no call at all.
pub proof fn law_cancel_is_idempotent(timer: TimerView)
    ensures
        timer.disarmed().disarmed() == timer.disarmed(),
        !timer.disarmed().running,
        timer.adapter == Adapter::Apple ==> timer.adapter.disarm_plan(
            timer.handle,
            timer.disarmed().running,
        ) == Seq::<Op>::empty(),
{
}

/// Programming a timer that runs already is permitted, and leaves it running.
pub proof fn law_rearming_keeps_running(timer: TimerView)
    ensures
        timer.armed().armed() == timer.armed(),
        timer.armed().running,
        timer.armed().disarmed() == timer.disarmed(),
        timer.disarmed().armed() == timer.armed(),
{
}

/// A dispatch source is suspended and resumed in turn. A programming suspends
/// the source only if it runs, sets its timer, and resumes it; a cancellation
/// suspends it only if it runs. So the source is never suspended twice over.
pub proof fn law_dispatch_suspensions_balance(
    handle: usize,
    timeout: Duration,
    interval: Duration,
)
    ensures
        Adapter::Apple.arm_plan(handle, true, timeout, interval) == seq![
            Op::DispatchSuspend { source: handle },
            Op::DispatchSetTimer {
                source: handle,
                delta: delta_of(timeout),
                interval: interval_of(interval),
            },
            Op::DispatchResume { source: handle },
        ],
        Adapter::Apple.arm_plan(handle, false, timeout, interval) == seq![
            Op::DispatchSetTimer {
                source: handle,
                delta: delta_of(timeout),
                interval: interval_of(interval),
            },
            Op::DispatchResume { source: handle },
        ],
        Adapter::Apple.disarm_plan(handle, true) == seq![Op::DispatchSuspend { source: handle }],
        Adapter::Apple.disarm_plan(handle, false) == Seq::<Op>::empty(),
{
    assert(Adapter::Apple.arm_plan(handle, true, timeout, interval) =~= seq![
        Op::DispatchSuspend { source: handle },
        Op::DispatchSetTimer {
            source: handle,
            delta: delta_of(timeout),
            interval: interval_of(interval),
        },
        Op::DispatchResume { source: handle },
    ]);
    assert(Adapter::Apple.arm_plan(handle, false, timeout, interval) =~= seq![
        Op::DispatchSetTimer {
            source: handle,
            delta: delta_of(timeout),
            interval: interval_of(interval),
        },
        Op::DispatchResume { source: handle },
    ]);
}

/// Outside Apple's adapter, firing once is firing with no repeat interval.
pub proof fn law_once_is_interval_without_repeat(
    adapter: Adapter,
    handle: usize,
    running: bool,
    timeout: Duration,
    none: Duration,
)
    requires
        adapter != Adapter::Apple,
        is_zero(none),
    ensures
        adapter.arm_once_plan(handle, running, timeout) == adapter.arm_plan(
            handle,
            running,
            timeout,
            none,
        ),
{
    lemma_readings_in_range(0);
}

/// Whether a call frees a capsule.
pub open spec fn frees(op: Op) -> bool {
    op is Free
}

/// No step before the end of a handle's life frees a capsule that the handle
/// owns: neither binding, programming nor cancelling plans such a call.
pub proof fn law_capsule_outlives_every_program(
    adapter: Adapter,
    handle: usize,
    running: bool,
    cb: Callback,
    timeout: Duration,
    interval: Duration,
)
    ensures
        forall|i: int|
            0 <= i < adapter.install_plan(handle, &cb).len() ==> !frees(
                #[trigger] adapter.install_plan(handle, &cb)[i],
            ),
        forall|i: int|
            0 <= i < adapter.arm_plan(handle, running, timeout, interval).len() ==> !frees(
                #[trigger] adapter.arm_plan(handle, running, timeout, interval)[i],
            ),
        forall|i: int|
            0 <= i < adapter.arm_once_plan(handle, running, timeout).len() ==> !frees(
                #[trigger] adapter.arm_once_plan(handle, running, timeout)[i],
            ),
        forall|i: int|
            0 <= i < adapter.disarm_plan(handle, running).len() ==> !frees(
                #[trigger] adapter.disarm_plan(handle, running)[i],
            ),
{
}

/// At the end of a handle's life the capsule is freed exactly once, and last:
/// after the native object was stopped and given back.
pub proof fn law_teardown_frees_capsule_last(timer: TimerView)
    requires
        timer.wf(),
        timer.is_init(),
    ensures
        ({
            let plan = timer.teardown_plan();
            let before = timer.adapter.disarm_plan(timer.handle, timer.running)
                + timer.adapter.release_plan(timer.handle);
            &&& forall|i: int| 0 <= i < before.len() ==> plan[i] == before[i] && !frees(plan[i])
            &&& timer.capsule.null_spec() ==> plan == before
            &&& !timer.capsule.null_spec() ==> plan == before.push(Op::Free(timer.capsule))
        }),
{
    let before = timer.adapter.disarm_plan(timer.handle, timer.running)
        + timer.adapter.release_plan(timer.handle);
    if timer.capsule.null_spec() {
        assert(timer.teardown_plan() =~= before);
    } else {
        assert(timer.teardown_plan() =~= before.push(Op::Free(timer.capsule)));
    }
}

/// A handle that was never initialized ends its life without a call.
pub proof fn law_empty_handle_needs_no_teardown(timer: TimerView)
    requires
        timer.wf(),
        !timer.is_init(),
    ensures
        timer.teardown_plan() == Seq::<Op>::empty(),
{
}

/// What is reported of a pending expiry: the native object's word where it
/// was asked and can tell, otherwise whether the timer was programmed and not
/// cancelled since.
pub proof fn law_pending_report(timer: TimerView, report: bool)
    ensures
        timer.adapter == Adapter::Posix || timer.adapter == Adapter::Windows ==> timer.scheduled(
            Some(report),
        ) == report,
        timer.adapter == Adapter::Apple || timer.adapter == Adapter::Web ==> timer.scheduled(
            Some(report),
        ) == timer.running,
        timer.scheduled(None) == timer.running,
        timer.disarmed().scheduled(None) == false,
        timer.armed().scheduled(None) == true,
{
}

/// A POSIX program arms the timer exactly when its timeout is not zero: a zero
/// first expiry stops it. A timeout whose seconds fit a signed 64-bit number is
/// carried over unchanged, and so is every interval of that kind.
pub proof fn law_posix_program_of_durations(timeout: Duration, interval: Duration)
    ensures
        itimerspec::of(timeout, interval).arms() <==> !is_zero(timeout),
        itimerspec::of(timeout, interval).it_value.tv_nsec == duration_subsec_nanos(timeout),
        itimerspec::of(timeout, interval).it_interval.tv_nsec == duration_subsec_nanos(interval),
        duration_secs(timeout) <= i64::MAX ==> itimerspec::of(timeout, interval).it_value.tv_sec
            == duration_secs(timeout),
        duration_secs(interval) <= i64::MAX ==> itimerspec::of(
            timeout,
            interval,
        ).it_interval.tv_sec == duration_secs(interval),
{
    lemma_readings_in_range(duration_secs(timeout) as int);
    lemma_readings_in_range(duration_secs(interval) as int);
    assert(low64(duration_secs(timeout) as int) == duration_secs(timeout));
}

/// A Windows due time is the negated tick count of the timeout, wherever that
/// count fits a signed 64-bit number; and a period is the interval's whole
/// milliseconds wherever they fit 32 bits, else their low 32 bits.
pub proof fn law_windows_times_of_durations(timeout: Duration, interval: Duration)
    ensures
        total_ticks(timeout) <= i64::MAX ==> FileTime::due_in(timeout).ticks() == -total_ticks(
            timeout,
        ),
        total_millis(interval) <= u32::MAX ==> period_of(interval) == total_millis(interval),
        period_of(interval) == total_millis(interval) % 0x1_0000_0000,
{
    let t = -total_ticks(timeout);
    if -0x8000_0000_0000_0000 <= t < 0 {
        assert(low64(t) == t + 0x1_0000_0000_0000_0000);
    }
}

/// The halves of a tick count hold that count again, for every count of 64 bits.
pub proof fn law_file_time_keeps_ticks(ticks: i64)
    ensures
        FileTime::of_ticks(ticks as int).ticks() == ticks,
{
    if ticks < 0 {
        assert(low64(ticks as int) == ticks + 0x1_0000_0000_0000_0000);
    }
}

/// Apple's start offset and repeat interval are the durations' nanoseconds
/// wherever those fit: a signed 64-bit number for the offset, an unsigned one
/// for the interval. Beyond that only the low 64 bits remain.
pub proof fn law_apple_times_of_durations(timeout: Duration, interval: Duration)
    ensures
        total_nanos(timeout) <= i64::MAX ==> delta_of(timeout) == total_nanos(timeout),
        total_nanos(interval) <= u64::MAX ==> interval_of(interval) == total_nanos(interval),
        interval_of(interval) == total_nanos(interval) % 0x1_0000_0000_0000_0000,
{
}

/// A browser delay is the interval's whole milliseconds wherever they fit 32
/// bits, else their low 32 bits.
pub proof fn law_web_delay_of_duration(interval: Duration)
    ensures
        total_millis(interval) <= u32::MAX ==> delay_of(interval) == total_millis(interval),
        delay_of(interval) == total_millis(interval) % 0x1_0000_0000,
{
}

} // verus!
