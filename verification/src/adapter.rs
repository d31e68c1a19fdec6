//! The platform adapters: which native calls carry out each step of a timer's
//! life, in which order and with which arguments.
//!
//! Nothing here touches the operating system. An adapter answers with a plan, a
//! list of native calls, and whoever drives the timer performs them in order.

use crate::apple::{delta_of, interval_of, repeat_interval, start_delta, DISPATCH_TIME_FOREVER};
use crate::capsule::{Callback, FatPtr, Trampoline};
use crate::posix::{itimerspec, timespec};
use crate::win32::{period, period_of, FileTime};
use core::time::Duration;
use vstd::prelude::*;

verus! {

/// The native timer facility that a handle is built on.
#[derive(Clone, Copy, PartialEq, Eq, Debug, Structural)]
pub enum Adapter {
    /// POSIX interval timers.
    Posix,
    /// Windows thread-pool timers.
    Windows,
    /// Apple dispatch-source timers.
    Apple,
    /// The browser placeholder, which has no native object.
    Web,
}

/// The native call that creates a timer object. It answers with the object's
/// handle, or with zero when the system refuses.
#[derive(Clone, Copy, PartialEq, Eq, Debug)]
pub enum Create {
    /// `posix_timer(CLOCK_MONOTONIC, trampoline, context)`.
    PosixTimer { trampoline: Trampoline, context: usize },
    /// `CreateThreadpoolTimer(trampoline, context, NULL)`.
    ThreadpoolTimer { trampoline: Trampoline, context: usize },
    /// `dispatch_source_create` of a timer source on the default global queue.
    DispatchSource,
    /// No native call: the placeholder stands for itself.
    Placeholder,
}

/// One native call on an existing timer object, or the release of a capsule.
#[derive(Clone, Copy, PartialEq, Eq, Debug)]
pub enum Op {
    /// `timer_settime(timer, 0, &value, NULL)`.
    TimerSettime { timer: usize, value: itimerspec },
    /// `timer_delete(timer)`.
    TimerDelete { timer: usize },
    /// `SetThreadpoolTimerEx(timer, due, period, 0)`; without a due time the
    /// timer is stopped.
    SetThreadpoolTimerEx { timer: usize, due: Option<FileTime>, period: u32 },
    /// `WaitForThreadpoolTimerCallbacks(timer, TRUE)`.
    WaitForThreadpoolTimerCallbacks { timer: usize },
    /// `CloseThreadpoolTimer(timer)`.
    CloseThreadpoolTimer { timer: usize },
    /// `dispatch_source_set_event_handler_f(source, handler)`.
    DispatchSetEventHandler { source: usize, handler: Trampoline },
    /// `dispatch_set_context(source, context)`.
    DispatchSetContext { source: usize, context: usize },
    /// `dispatch_suspend(source)`.
    DispatchSuspend { source: usize },
    /// `dispatch_resume(source)`.
    DispatchResume { source: usize },
    /// `dispatch_source_set_timer(source, dispatch_walltime(NULL, delta), interval, 0)`.
    DispatchSetTimer { source: usize, delta: i64, interval: u64 },
    /// `dispatch_source_cancel(source)`.
    DispatchSourceCancel { source: usize },
    /// `dispatch_release(source)`.
    DispatchRelease { source: usize },
    /// Frees the heap block of a closure.
    Free(FatPtr),
}

/// The plan that frees a capsule's heap block, if it has one.
pub open spec fn free_plan(capsule: FatPtr) -> Seq<Op> {
    if capsule.null_spec() {
        seq![]
    } else {
        seq![Op::Free(capsule)]
    }
}

/// Plans the release of a capsule's heap block.
pub fn free(capsule: FatPtr) -> (ops: Vec<Op>)
    ensures
        ops@ == free_plan(capsule),
{
    let mut ops: Vec<Op> = Vec::new();
    if !capsule.is_null() {
        ops.push(Op::Free(capsule));
    }
    assert(ops@ =~= free_plan(capsule));
    ops
}

impl Adapter {
    /// The call that creates a native object for `cb`.
    pub open spec fn create_spec(self, cb: &Callback) -> Create {
        match self {
            Adapter::Posix => Create::PosixTimer {
                trampoline: cb.trampoline_spec(),
                context: cb.context_spec(),
            },
            Adapter::Windows => Create::ThreadpoolTimer {
                trampoline: cb.trampoline_spec(),
                context: cb.context_spec(),
            },
            Adapter::Apple => Create::DispatchSource,
            Adapter::Web => Create::Placeholder,
        }
    }

    /// The calls that bind `cb` to a freshly published object. Only a dispatch
    /// source takes its handler after creation.
    pub open spec fn install_plan(self, handle: usize, cb: &Callback) -> Seq<Op> {
        match self {
            Adapter::Apple => seq![
                Op::DispatchSetEventHandler { source: handle, handler: cb.trampoline_spec() },
                Op::DispatchSetContext { source: handle, context: cb.context_spec() },
            ],
            _ => seq![],
        }
    }

    /// The calls that program the object to fire first after `timeout` and then
    /// every `interval`. `running` says whether it carries a program already.
    pub open spec fn arm_plan(
        self,
        handle: usize,
        running: bool,
        timeout: Duration,
        interval: Duration,
    ) -> Seq<Op> {
        match self {
            Adapter::Posix => seq![
                Op::TimerSettime { timer: handle, value: itimerspec::of(timeout, interval) },
            ],
            Adapter::Windows => seq![
                Op::SetThreadpoolTimerEx {
                    timer: handle,
                    due: Some(FileTime::due_in(timeout)),
                    period: period_of(interval),
                },
            ],
            Adapter::Apple => self.disarm_plan(handle, running) + seq![
                Op::DispatchSetTimer {
                    source: handle,
                    delta: delta_of(timeout),
                    interval: interval_of(interval),
                },
                Op::DispatchResume { source: handle },
            ],
            Adapter::Web => seq![],
        }
    }

    /// The calls that program the object to fire once, after `timeout`.
    pub open spec fn arm_once_plan(self, handle: usize, running: bool, timeout: Duration) -> Seq<
        Op,
    > {
        match self {
            Adapter::Posix => seq![
                Op::TimerSettime {
                    timer: handle,
                    value: itimerspec {
                        it_interval: timespec { tv_sec: 0, tv_nsec: 0 },
                        it_value: timespec::of(timeout),
                    },
                },
            ],
            Adapter::Windows => seq![
                Op::SetThreadpoolTimerEx {
                    timer: handle,
                    due: Some(FileTime::due_in(timeout)),
                    period: 0,
                },
            ],
            Adapter::Apple => self.disarm_plan(handle, running) + seq![
                Op::DispatchSetTimer {
                    source: handle,
                    delta: delta_of(timeout),
                    interval: DISPATCH_TIME_FOREVER,
                },
                Op::DispatchResume { source: handle },
            ],
            Adapter::Web => seq![],
        }
    }

    /// The calls that stop the object from firing. A dispatch source is
    /// suspended, and only if it runs; a thread-pool timer is stopped and its
    /// callbacks in flight are waited for.
    pub open spec fn disarm_plan(self, handle: usize, running: bool) -> Seq<Op> {
        match self {
            Adapter::Posix => seq![
                Op::TimerSettime { timer: handle, value: itimerspec::stopped() },
            ],
            Adapter::Windows => seq![
                Op::SetThreadpoolTimerEx { timer: handle, due: None, period: 0 },
                Op::WaitForThreadpoolTimerCallbacks { timer: handle },
            ],
            Adapter::Apple => if running {
                seq![Op::DispatchSuspend { source: handle }]
            } else {
                seq![]
            },
            Adapter::Web => seq![],
        }
    }

    /// The calls that give a stopped object back to the system. A dispatch
    /// source is cancelled and resumed first: it may not be released suspended.
    pub open spec fn release_plan(self, handle: usize) -> Seq<Op> {
        match self {
            Adapter::Posix => seq![Op::TimerDelete { timer: handle }],
            Adapter::Windows => seq![Op::CloseThreadpoolTimer { timer: handle }],
            Adapter::Apple => seq![
                Op::DispatchSourceCancel { source: handle },
                Op::DispatchResume { source: handle },
                Op::DispatchRelease { source: handle },
            ],
            Adapter::Web => seq![],
        }
    }

    /// The calls that give back an object that was created but never published.
    /// Nothing is to be done where creation failed.
    pub open spec fn discard_plan(self, created: usize) -> Seq<Op> {
        if created == 0 {
            seq![]
        } else {
            match self {
                Adapter::Posix => seq![Op::TimerDelete { timer: created }],
                Adapter::Windows => seq![Op::CloseThreadpoolTimer { timer: created }],
                Adapter::Apple => seq![Op::DispatchRelease { source: created }],
                Adapter::Web => seq![],
            }
        }
    }

    /// Whether a programming call that answered `status` succeeded. Only the
    /// POSIX call can fail, and it answers zero on success.
    pub open spec fn arm_succeeded_spec(self, status: i32) -> bool {
        self == Adapter::Posix ==> status == 0
    }

    /// Whether the native object can tell if an expiry is still pending.
    pub open spec fn exposes_pending_spec(self) -> bool {
        self == Adapter::Posix || self == Adapter::Windows
    }

    /// Plans the creation of a native object for `cb`.
    pub fn create(self, cb: &Callback) -> (call: Create)
        ensures
            call == self.create_spec(cb),
    {
        match self {
            Adapter::Posix => Create::PosixTimer {
                trampoline: cb.trampoline(),
                context: cb.context(),
            },
            Adapter::Windows => Create::ThreadpoolTimer {
                trampoline: cb.trampoline(),
                context: cb.context(),
            },
            Adapter::Apple => Create::DispatchSource,
            Adapter::Web => Create::Placeholder,
        }
    }

    /// Plans the binding of `cb` to the published object `handle`.
    pub fn install(self, handle: usize, cb: &Callback) -> (ops: Vec<Op>)
        ensures
            ops@ == self.install_plan(handle, cb),
    {
        let mut ops: Vec<Op> = Vec::new();
        match self {
            Adapter::Apple => {
                ops.push(Op::DispatchSetEventHandler { source: handle, handler: cb.trampoline() });
                ops.push(Op::DispatchSetContext { source: handle, context: cb.context() });
            },
            _ => {},
        }
        assert(ops@ =~= self.install_plan(handle, cb));
        ops
    }

    /// Plans a first expiry after `timeout` and a repeat every `interval`.
    pub fn arm(self, handle: usize, running: bool, timeout: Duration, interval: Duration) -> (ops:
        Vec<Op>)
        ensures
            ops@ == self.arm_plan(handle, running, timeout, interval),
    {
        let mut ops: Vec<Op> = Vec::new();
        match self {
            Adapter::Posix => {
                ops.push(Op::TimerSettime { timer: handle, value: itimerspec::new(timeout, interval) });
            },
            Adapter::Windows => {
                ops.push(
                    Op::SetThreadpoolTimerEx {
                        timer: handle,
                        due: Some(FileTime::relative(timeout)),
                        period: period(interval),
                    },
                );
            },
            Adapter::Apple => {
                if running {
                    ops.push(Op::DispatchSuspend { source: handle });
                }
                ops.push(
                    Op::DispatchSetTimer {
                        source: handle,
                        delta: start_delta(timeout),
                        interval: repeat_interval(interval),
                    },
                );
                ops.push(Op::DispatchResume { source: handle });
            },
            Adapter::Web => {},
        }
        assert(ops@ =~= self.arm_plan(handle, running, timeout, interval));
        ops
    }

    /// Plans a single expiry after `timeout`.
    pub fn arm_once(self, handle: usize, running: bool, timeout: Duration) -> (ops: Vec<Op>)
        ensures
            ops@ == self.arm_once_plan(handle, running, timeout),
    {
        let mut ops: Vec<Op> = Vec::new();
        match self {
            Adapter::Posix => {
                ops.push(
                    Op::TimerSettime {
                        timer: handle,
                        value: itimerspec {
                            it_interval: timespec::zero(),
                            it_value: timespec::from_duration(timeout),
                        },
                    },
                );
            },
            Adapter::Windows => {
                ops.push(
                    Op::SetThreadpoolTimerEx {
                        timer: handle,
                        due: Some(FileTime::relative(timeout)),
                        period: 0,
                    },
                );
            },
            Adapter::Apple => {
                if running {
                    ops.push(Op::DispatchSuspend { source: handle });
                }
                ops.push(
                    Op::DispatchSetTimer {
                        source: handle,
                        delta: start_delta(timeout),
                        interval: DISPATCH_TIME_FOREVER,
                    },
                );
                ops.push(Op::DispatchResume { source: handle });
            },
            Adapter::Web => {},
        }
        assert(ops@ =~= self.arm_once_plan(handle, running, timeout));
        ops
    }

    /// Plans the stopping of the object `handle`.
    pub fn disarm(self, handle: usize, running: bool) -> (ops: Vec<Op>)
        ensures
            ops@ == self.disarm_plan(handle, running),
    {
        let mut ops: Vec<Op> = Vec::new();
        match self {
            Adapter::Posix => {
                ops.push(Op::TimerSettime { timer: handle, value: itimerspec::disarm() });
            },
            Adapter::Windows => {
                ops.push(Op::SetThreadpoolTimerEx { timer: handle, due: None, period: 0 });
                ops.push(Op::WaitForThreadpoolTimerCallbacks { timer: handle });
            },
            Adapter::Apple => {
                if running {
                    ops.push(Op::DispatchSuspend { source: handle });
                }
            },
            Adapter::Web => {},
        }
        assert(ops@ =~= self.disarm_plan(handle, running));
        ops
    }

    /// Plans the release of the stopped object `handle`.
    pub fn release(self, handle: usize) -> (ops: Vec<Op>)
        ensures
            ops@ == self.release_plan(handle),
    {
        let mut ops: Vec<Op> = Vec::new();
        match self {
            Adapter::Posix => {
                ops.push(Op::TimerDelete { timer: handle });
            },
            Adapter::Windows => {
                ops.push(Op::CloseThreadpoolTimer { timer: handle });
            },
            Adapter::Apple => {
                ops.push(Op::DispatchSourceCancel { source: handle });
                ops.push(Op::DispatchResume { source: handle });
                ops.push(Op::DispatchRelease { source: handle });
            },
            Adapter::Web => {},
        }
        assert(ops@ =~= self.release_plan(handle));
        ops
    }

    /// Plans the release of an object that was created but never published.
    pub fn discard(self, created: usize) -> (ops: Vec<Op>)
        ensures
            ops@ == self.discard_plan(created),
    {
        let mut ops: Vec<Op> = Vec::new();
        if created != 0 {
            match self {
                Adapter::Posix => {
                    ops.push(Op::TimerDelete { timer: created });
                },
                Adapter::Windows => {
                    ops.push(Op::CloseThreadpoolTimer { timer: created });
                },
                Adapter::Apple => {
                    ops.push(Op::DispatchRelease { source: created });
                },
                Adapter::Web => {},
            }
        }
        assert(ops@ =~= self.discard_plan(created));
        ops
    }

    /// Tells whether a programming call that answered `status` succeeded.
    pub fn arm_succeeded(self, status: i32) -> (ok: bool)
        ensures
            ok == self.arm_succeeded_spec(status),
    {
        match self {
            Adapter::Posix => status == 0,
            _ => true,
        }
    }

    /// Tells whether the native object can report a pending expiry.
    pub fn exposes_pending(self) -> (exposes: bool)
        ensures
            exposes == self.exposes_pending_spec(),
    {
        match self {
            Adapter::Posix => true,
            Adapter::Windows => true,
            _ => false,
        }
    }
}

} // verus!
