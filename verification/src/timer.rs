//! The timer handle: the life of one native timer object and of the capsule it
//! calls, from creation to release.
//!
//! The handle performs no native call itself. Each step answers with the plan of
//! calls that carries it out, and takes what the system answered as an argument.

use crate::adapter::{free, free_plan, Adapter, Create, Op};
use crate::capsule::{BoxFnPtr, Callback, FatPtr};
use crate::duration::{duration_is_zero, is_zero};
use core::time::Duration;
use vstd::prelude::*;

verus! {

/// Where a handle stands in its life. A handle that was destroyed is gone, and
/// so has no state.
#[derive(Clone, Copy, PartialEq, Eq, Debug, Structural)]
pub enum State {
    /// No native object yet.
    Uninit,
    /// A native object that carries no program: fresh, or cancelled.
    Disarmed,
    /// A native object that was programmed and not cancelled since.
    Armed,
}

/// What a timer handle is, as plain values.
pub struct TimerView {
    /// The native facility behind the handle.
    pub adapter: Adapter,
    /// The native object; zero while the handle is not initialized.
    pub handle: usize,
    /// The heap block of the closure that the handle owns; null if it owns none.
    pub capsule: FatPtr,
    /// Whether the native object carries a program that has not been cancelled.
    pub running: bool,
}

impl TimerView {
    /// A handle without a native object owns no capsule and runs no program.
    pub open spec fn wf(self) -> bool {
        self.handle == 0 ==> self.capsule.null_spec() && !self.running
    }

    /// The handle that has not been initialized.
    pub open spec fn fresh(adapter: Adapter) -> TimerView {
        TimerView { adapter, handle: 0, capsule: FatPtr { ptr: 0, vtable: 0 }, running: false }
    }

    /// Whether the handle holds a native object.
    pub open spec fn is_init(self) -> bool {
        self.handle != 0
    }

    /// Where the handle stands in its life.
    pub open spec fn state(self) -> State {
        if self.handle == 0 {
            State::Uninit
        } else if self.running {
            State::Armed
        } else {
            State::Disarmed
        }
    }

    /// Whether an initialization that was answered with `created` takes effect:
    /// the handle was empty and the system made an object.
    pub open spec fn init_ok(self, created: usize) -> bool {
        self.handle == 0 && created != 0
    }

    /// The handle after an initialization with `cb` that was answered with
    /// `created`.
    pub open spec fn init(self, cb: Callback, created: usize) -> TimerView {
        if self.init_ok(created) {
            TimerView {
                adapter: self.adapter,
                handle: created,
                capsule: cb.storage(),
                running: false,
            }
        } else {
            self
        }
    }

    /// The calls that complete an initialization: the binding of the callback
    /// where it took effect; otherwise the release of the object that was made
    /// in vain, if any, and of the capsule that was turned away.
    pub open spec fn init_plan(self, cb: Callback, created: usize) -> Seq<Op> {
        if self.init_ok(created) {
            self.adapter.install_plan(created, &cb)
        } else {
            self.adapter.discard_plan(created) + free_plan(cb.storage())
        }
    }

    /// The handle after it was programmed.
    pub open spec fn armed(self) -> TimerView {
        TimerView { running: true, ..self }
    }

    /// The handle after it was cancelled.
    pub open spec fn disarmed(self) -> TimerView {
        TimerView { running: false, ..self }
    }

    /// The initial timeout that a schedule uses: the configured one, or the
    /// interval where none was configured.
    pub open spec fn effective_timeout(timeout: Duration, interval: Duration) -> Duration {
        if is_zero(timeout) {
            interval
        } else {
            timeout
        }
    }

    /// The calls that carry out a schedule built with `timeout` and `interval`.
    pub open spec fn schedule_plan(self, timeout: Duration, interval: Duration) -> Seq<Op> {
        self.adapter.arm_plan(
            self.handle,
            self.running,
            TimerView::effective_timeout(timeout, interval),
            interval,
        )
    }

    /// The calls that end the handle's life: stop the object, give it back, and
    /// only then free the capsule. Nothing is to be done for an empty handle.
    pub open spec fn teardown_plan(self) -> Seq<Op> {
        if self.handle == 0 {
            seq![]
        } else {
            self.adapter.disarm_plan(self.handle, self.running) + self.adapter.release_plan(
                self.handle,
            ) + free_plan(self.capsule)
        }
    }

    /// What `is_scheduled` answers, given what the native object reports about
    /// a pending expiry, if it was asked.
    pub open spec fn scheduled(self, pending: Option<bool>) -> bool {
        match pending {
            Some(report) if self.adapter.exposes_pending_spec() => report,
            _ => self.running,
        }
    }
}

/// A handle to one native timer object.
pub struct Timer {
    adapter: Adapter,
    inner: usize,
    data: BoxFnPtr,
    suspend: bool,
}

impl View for Timer {
    type V = TimerView;

    closed spec fn view(&self) -> TimerView {
        TimerView {
            adapter: self.adapter,
            handle: self.inner,
            capsule: self.data.0,
            running: !self.suspend,
        }
    }
}

/// The settings of one programming of a timer, gathered before they are applied.
///
/// If no initial timeout is configured, the interval serves as the initial
/// timeout.
pub struct Schedule<'a> {
    pub timer: &'a mut Timer,
    pub timeout: Duration,
    pub interval: Duration,
}

impl Timer {
    /// Every handle is well formed, at all times.
    #[verifier::type_invariant]
    pub open spec fn inv(&self) -> bool {
        self@.wf()
    }

    /// Creates a handle that holds no native object yet.
    ///
    /// It must be initialized with `init` before it is programmed.
    pub fn uninit(adapter: Adapter) -> (timer: Self)
        ensures
            timer@ == TimerView::fresh(adapter),
    {
        Timer { adapter, inner: 0, data: BoxFnPtr::null(), suspend: true }
    }

    /// The native facility behind the handle.
    pub fn adapter(&self) -> (adapter: Adapter)
        ensures
            adapter == self@.adapter,
    {
        self.adapter
    }

    /// The native object, or zero while the handle is not initialized.
    pub fn handle(&self) -> (handle: usize)
        ensures
            handle == self@.handle,
    {
        self.inner
    }

    /// The heap block of the closure that the handle owns, or null.
    pub fn capsule(&self) -> (capsule: FatPtr)
        ensures
            capsule == self@.capsule,
    {
        self.data.0
    }

    fn get_inner(&self) -> (inner: usize)
        requires
            self@.is_init(),
        ensures
            inner == self@.handle,
            inner != 0,
    {
        self.inner
    }

    /// Where the handle stands in its life.
    pub fn state(&self) -> (state: State)
        ensures
            state == self@.state(),
    {
        if self.inner == 0 {
            State::Uninit
        } else if self.suspend {
            State::Disarmed
        } else {
            State::Armed
        }
    }

    /// Returns whether the handle is initialized.
    pub fn is_init(&self) -> (init: bool)
        ensures
            init == self@.is_init(),
            init == (self@.handle != 0),
    {
        self.inner != 0
    }

    /// Opens an initialization with `cb`: answers the call that creates the
    /// native object, or nothing if the handle is initialized already, in
    /// which case no object is to be created.
    pub fn begin_init(&self, cb: &Callback) -> (call: Option<Create>)
        ensures
            call == if self@.is_init() {
                None
            } else {
                Some(self@.adapter.create_spec(cb))
            },
    {
        if self.is_init() {
            None
        } else {
            Some(self.adapter.create(cb))
        }
    }

    /// Completes an initialization with `cb`, for which the system answered
    /// `created`: the new object's handle, or zero if none was created.
    ///
    /// Returns whether the handle has been initialized by this call, and the
    /// calls that remain to be made. If the handle is already initialized it is
    /// left as it is, and the answer is `false`.
    pub fn init(&mut self, cb: Callback, created: usize) -> (done: (bool, Vec<Op>))
        ensures
            done.0 == old(self)@.init_ok(created),
            final(self)@ == old(self)@.init(cb, created),
            done.1@ == old(self)@.init_plan(cb, created),
    {
        if self.inner == 0 && created != 0 {
            let ops = self.adapter.install(created, &cb);
            self.inner = created;
            self.data = cb.into_storage();
            self.suspend = true;
            (true, ops)
        } else {
            let mut ops = self.adapter.discard(created);
            let mut freed = free(cb.into_storage().0);
            ops.append(&mut freed);
            (false, ops)
        }
    }

    /// Creates a timer that calls `cb`, for which the system answered
    /// `created`.
    ///
    /// Returns no timer if the system created no object, and in either case the
    /// calls that remain to be made.
    pub fn new(adapter: Adapter, cb: Callback, created: usize) -> (made: (Option<Self>, Vec<Op>))
        ensures
            made.0 is Some <==> created != 0,
            made.0 matches Some(timer) ==> timer@ == TimerView::fresh(adapter).init(cb, created),
            made.1@ == TimerView::fresh(adapter).init_plan(cb, created),
    {
        let mut timer = Timer::uninit(adapter);
        let (done, ops) = timer.init(cb, created);
        if done {
            (Some(timer), ops)
        } else {
            (None, ops)
        }
    }

    /// Creates a new schedule.
    pub fn schedule(&mut self) -> (schedule: Schedule<'_>)
        ensures
            *schedule.timer == *old(self),
            *final(schedule.timer) == *final(self),
            is_zero(schedule.timeout),
            is_zero(schedule.interval),
    {
        Schedule { timer: self, timeout: Duration::from_secs(0), interval: Duration::from_secs(0) }
    }

    /// Programs the timer to fire once after `timeout` passes.
    ///
    /// A program that has not expired yet is replaced.
    pub fn schedule_once(&mut self, timeout: Duration) -> (ops: Vec<Op>)
        requires
            old(self)@.is_init(),
            old(self)@.adapter != Adapter::Apple ==> !is_zero(timeout),
        ensures
            final(self)@ == old(self)@.armed(),
            ops@ == old(self)@.adapter.arm_once_plan(
                old(self)@.handle,
                old(self)@.running,
                timeout,
            ),
    {
        let handle = self.get_inner();
        let ops = self.adapter.arm_once(handle, !self.suspend, timeout);
        self.suspend = false;
        ops
    }

    /// Programs the timer to fire every `interval`, for the first time after
    /// `timeout`.
    ///
    /// A program that has not expired yet is replaced.
    pub fn schedule_interval(&mut self, timeout: Duration, interval: Duration) -> (ops: Vec<Op>)
        requires
            old(self)@.is_init(),
        ensures
            final(self)@ == old(self)@.armed(),
            ops@ == old(self)@.adapter.arm_plan(
                old(self)@.handle,
                old(self)@.running,
                timeout,
                interval,
            ),
    {
        let handle = self.get_inner();
        let ops = self.adapter.arm(handle, !self.suspend, timeout, interval);
        self.suspend = false;
        ops
    }

    /// Returns whether the timer has been programmed and is still pending.
    ///
    /// `pending` is what the native object reports, if it was asked. Where the
    /// native facility cannot tell, the answer is whether the timer has been
    /// programmed and not cancelled since.
    pub fn is_scheduled(&self, pending: Option<bool>) -> (scheduled: bool)
        requires
            self@.is_init(),
        ensures
            scheduled == self@.scheduled(pending),
    {
        match pending {
            Some(report) => {
                if self.adapter.exposes_pending() {
                    report
                } else {
                    !self.suspend
                }
            },
            None => !self.suspend,
        }
    }

    /// Cancels the timer's program, if it has one.
    pub fn cancel(&mut self) -> (ops: Vec<Op>)
        requires
            old(self)@.is_init(),
        ensures
            final(self)@ == old(self)@.disarmed(),
            ops@ == old(self)@.adapter.disarm_plan(old(self)@.handle, old(self)@.running),
    {
        let handle = self.get_inner();
        let ops = self.adapter.disarm(handle, !self.suspend);
        self.suspend = true;
        ops
    }

    /// Ends the handle's life and answers the calls that release what it held.
    pub fn destroy(self) -> (ops: Vec<Op>)
        ensures
            ops@ == self@.teardown_plan(),
    {
        proof {
            use_type_invariant(&self);
        }
        let mut ops: Vec<Op> = Vec::new();
        if self.inner != 0 {
            let mut stop = self.adapter.disarm(self.inner, !self.suspend);
            let mut give_back = self.adapter.release(self.inner);
            let mut freed = free(self.data.0);
            ops.append(&mut stop);
            ops.append(&mut give_back);
            ops.append(&mut freed);
        }
        assert(ops@ =~= self@.teardown_plan());
        ops
    }
}

impl<'a> Schedule<'a> {
    /// Sets the initial `timeout` after which the timer fires first.
    pub fn initial(self, timeout: Duration) -> (schedule: Self)
        requires
            !is_zero(timeout),
        ensures
            schedule.timer == self.timer,
            schedule.timeout == timeout,
            schedule.interval == self.interval,
    {
        let mut schedule = self;
        schedule.timeout = timeout;
        schedule
    }

    /// Sets the `timeout` after which the timer fires again and again, once
    /// the initial timeout has passed.
    pub fn interval(self, timeout: Duration) -> (schedule: Self)
        ensures
            schedule.timer == self.timer,
            schedule.timeout == self.timeout,
            schedule.interval == timeout,
    {
        let mut schedule = self;
        schedule.interval = timeout;
        schedule
    }

    /// Programs the timer with the settings gathered.
    pub fn schedule(self) -> (ops: Vec<Op>)
        requires
            old(self.timer)@.is_init(),
        ensures
            final(self.timer)@ == old(self.timer)@.armed(),
            ops@ == old(self.timer)@.schedule_plan(self.timeout, self.interval),
    {
        if duration_is_zero(self.timeout) {
            self.timer.schedule_interval(self.interval, self.interval)
        } else {
            self.timer.schedule_interval(self.timeout, self.interval)
        }
    }
}

} // verus!
