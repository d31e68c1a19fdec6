use os_timer::posix::itimerspec;
use os_timer::{Adapter, Callback, Create, FatPtr, Op, Timer, Trampoline};

use core::time;

/// A stand-in for the POSIX timer facility that keeps its own clock.
struct Posix {
    now: u128,
    next: Option<u128>,
    period: u128,
    registered: Option<(Trampoline, usize)>,
    count: u8,
    live: bool,
    freed: Vec<FatPtr>,
}

const HANDLE: usize = 0x7f00;

fn nanos(ts: &os_timer::posix::timespec) -> u128 {
    (ts.tv_sec as u128) * 1_000_000_000 + ts.tv_nsec as u128
}

impl Posix {
    fn boot() -> Self {
        Posix { now: 0, next: None, period: 0, registered: None, count: 0, live: false, freed: Vec::new() }
    }

    fn create(&mut self, call: Create) -> usize {
        match call {
            Create::PosixTimer { trampoline, context } => {
                self.registered = Some((trampoline, context));
                self.live = true;
                HANDLE
            }
            _ => 0,
        }
    }

    fn settime(&mut self, value: &itimerspec) -> i32 {
        if !self.live || value.it_value.tv_sec < 0 || value.it_interval.tv_sec < 0 {
            return -1;
        }
        if value.it_value.tv_sec == 0 && value.it_value.tv_nsec == 0 {
            self.next = None;
        } else {
            self.next = Some(self.now + nanos(&value.it_value));
        }
        self.period = nanos(&value.it_interval);
        0
    }

    fn run(&mut self, ops: Vec<Op>) -> i32 {
        let mut status = 0;
        for op in ops {
            match op {
                Op::TimerSettime { timer, value } => {
                    assert_eq!(timer, HANDLE);
                    status = self.settime(&value);
                }
                Op::TimerDelete { timer } => {
                    assert_eq!(timer, HANDLE);
                    self.live = false;
                    self.next = None;
                }
                Op::Free(block) => {
                    assert!(!self.live, "capsule freed while the timer may still fire");
                    self.freed.push(block);
                }
                other => panic!("not a call of this facility: {:?}", other),
            }
        }
        status
    }

    fn pending(&self) -> bool {
        self.next.is_some()
    }

    fn sleep(&mut self, span: time::Duration) {
        self.now += span.as_nanos();
        while let Some(due) = self.next {
            if due > self.now {
                break;
            }
            assert!(self.live && self.registered.is_some());
            self.count += 1;
            self.next = if self.period == 0 { None } else { Some(due + self.period) };
        }
    }
}

#[test]
fn timer_schedule_once() {
    let mut os = Posix::boot();

    let cb = Callback::closure(FatPtr { ptr: 0x5000, vtable: 0x6000 });
    let created = os.create(Adapter::Posix.create(&cb));
    let (timer, ops) = Timer::new(Adapter::Posix, cb, created);
    os.run(ops);
    let mut timer = timer.expect("To create timer");
    assert!(!timer.is_scheduled(Some(os.pending())));
    let ops = timer.schedule_once(time::Duration::from_millis(250));
    assert!(timer.adapter().arm_succeeded(os.run(ops)));
    assert!(timer.is_scheduled(Some(os.pending())));

    os.sleep(time::Duration::from_millis(1000));

    assert_eq!(os.count, 1);

    assert!(!timer.is_scheduled(Some(os.pending())));

    let ops = timer.schedule_once(time::Duration::from_millis(250));
    os.run(ops);
    os.run(timer.cancel());

    assert!(!timer.is_scheduled(Some(os.pending())));

    os.sleep(time::Duration::from_millis(1000));
    assert_eq!(os.count, 1);

    os.run(timer.cancel());
    assert!(!timer.is_scheduled(Some(os.pending())));

    os.sleep(time::Duration::from_millis(1000));
    assert_eq!(os.count, 1);
}

#[test]
fn timer_schedule_interval() {
    let mut os = Posix::boot();

    let cb = Callback::plain(0x4000);
    let created = os.create(Adapter::Posix.create(&cb));
    let (timer, ops) = Timer::new(Adapter::Posix, cb, created);
    os.run(ops);
    let mut timer = timer.expect("To create timer");
    assert!(!timer.is_scheduled(Some(os.pending())));
    let ops = timer.schedule_interval(time::Duration::from_secs(1), time::Duration::from_millis(300));
    assert!(timer.adapter().arm_succeeded(os.run(ops)));
    assert!(timer.is_scheduled(Some(os.pending())));

    os.sleep(time::Duration::from_millis(1100));
    assert_eq!(os.count, 1);
    assert!(timer.is_scheduled(Some(os.pending())));
    os.sleep(time::Duration::from_millis(1150));
    assert_eq!(os.count, 5);
    assert!(timer.is_scheduled(Some(os.pending())));

    os.run(timer.cancel());
    assert!(!timer.is_scheduled(Some(os.pending())));

    os.sleep(time::Duration::from_millis(1100));
    assert_eq!(os.count, 5);
}

#[test]
fn timer_schedule_interval_without_initial() {
    let mut os = Posix::boot();

    let cb = Callback::plain(0x4000);
    let created = os.create(Adapter::Posix.create(&cb));
    let (timer, ops) = Timer::new(Adapter::Posix, cb, created);
    os.run(ops);
    let mut timer = timer.expect("To create timer");
    assert!(!timer.is_scheduled(Some(os.pending())));
    let ops = timer.schedule().interval(time::Duration::from_millis(200)).schedule();
    assert!(timer.adapter().arm_succeeded(os.run(ops)));
    assert!(timer.is_scheduled(Some(os.pending())));

    os.sleep(time::Duration::from_millis(150));
    assert_eq!(os.count, 0);
    assert!(timer.is_scheduled(Some(os.pending())));
    os.sleep(time::Duration::from_millis(150));
    assert_eq!(os.count, 1);
    assert!(timer.is_scheduled(Some(os.pending())));
    os.sleep(time::Duration::from_millis(1000));
    assert_eq!(os.count, 6);
    assert!(timer.is_scheduled(Some(os.pending())));

    os.run(timer.cancel());
    assert!(!timer.is_scheduled(Some(os.pending())));

    os.sleep(time::Duration::from_secs(1));
    assert_eq!(os.count, 6);
}

#[test]
fn schedule_without_initial_equals_interval_for_both() {
    for adapter in [Adapter::Posix, Adapter::Windows, Adapter::Apple, Adapter::Web] {
        let interval = time::Duration::from_millis(200);
        let (built, _) = Timer::new(adapter, Callback::plain(0x4000), 0x10);
        let mut built = built.expect("To create timer");
        let (direct, _) = Timer::new(adapter, Callback::plain(0x4000), 0x10);
        let mut direct = direct.expect("To create timer");

        assert_eq!(
            built.schedule().interval(interval).schedule(),
            direct.schedule_interval(interval, interval)
        );
        assert_eq!(built.is_scheduled(None), direct.is_scheduled(None));
    }
}

#[test]
fn schedule_with_initial_keeps_both_settings() {
    let (timer, _) = Timer::new(Adapter::Posix, Callback::plain(0x4000), 0x10);
    let mut timer = timer.expect("To create timer");
    let ops = timer
        .schedule()
        .initial(time::Duration::from_millis(1500))
        .interval(time::Duration::from_millis(300))
        .schedule();
    assert_eq!(
        ops,
        vec![Op::TimerSettime {
            timer: 0x10,
            value: itimerspec {
                it_interval: os_timer::posix::timespec { tv_sec: 0, tv_nsec: 300_000_000 },
                it_value: os_timer::posix::timespec { tv_sec: 1, tv_nsec: 500_000_000 },
            },
        }]
    );
}

#[test]
fn schedule_without_settings_stops_a_posix_timer() {
    // Neither timeout nor interval configured: both are zero, and a zero first
    // expiry is the program that stops an interval timer.
    let (timer, _) = Timer::new(Adapter::Posix, Callback::plain(0x4000), 0x10);
    let mut timer = timer.expect("To create timer");
    let ops = timer.schedule().schedule();
    assert_eq!(ops, vec![Op::TimerSettime { timer: 0x10, value: itimerspec::disarm() }]);
}

#[test]
fn closure_capsule_lives_until_teardown() {
    let mut os = Posix::boot();
    let block = FatPtr { ptr: 0x5000, vtable: 0x6000 };

    let cb = Callback::closure(block);
    let created = os.create(Adapter::Posix.create(&cb));
    assert_eq!(os.registered, Some((Trampoline::Closure, 0x5000)));
    let (timer, ops) = Timer::new(Adapter::Posix, cb, created);
    os.run(ops);
    let mut timer = timer.expect("To create timer");
    assert_eq!(timer.capsule(), block);

    let ops = timer.schedule().interval(time::Duration::from_millis(100)).schedule();
    os.run(ops);
    os.sleep(time::Duration::from_millis(650));
    assert_eq!(os.count, 6);
    assert!(os.freed.is_empty());
    assert_eq!(timer.capsule(), block);

    let ops = timer.destroy();
    assert_eq!(
        ops,
        vec![
            Op::TimerSettime { timer: HANDLE, value: itimerspec::disarm() },
            Op::TimerDelete { timer: HANDLE },
            Op::Free(block),
        ]
    );
    os.run(ops);
    assert_eq!(os.freed, vec![block]);

    os.sleep(time::Duration::from_millis(1000));
    assert_eq!(os.count, 6);
}

#[test]
fn rearming_replaces_the_pending_program() {
    let mut os = Posix::boot();
    let cb = Callback::plain(0x4000);
    let created = os.create(Adapter::Posix.create(&cb));
    let (timer, _) = Timer::new(Adapter::Posix, cb, created);
    let mut timer = timer.expect("To create timer");

    os.run(timer.schedule_once(time::Duration::from_millis(250)));
    os.sleep(time::Duration::from_millis(100));
    os.run(timer.schedule_once(time::Duration::from_millis(250)));
    os.sleep(time::Duration::from_millis(200));
    assert_eq!(os.count, 0);
    os.sleep(time::Duration::from_millis(100));
    assert_eq!(os.count, 1);
}

#[test]
fn posix_reports_a_rejected_program() {
    let mut os = Posix::boot();
    let cb = Callback::plain(0x4000);
    let created = os.create(Adapter::Posix.create(&cb));
    let (timer, _) = Timer::new(Adapter::Posix, cb, created);
    let mut timer = timer.expect("To create timer");

    // Seconds beyond the signed range read as negative, which the system rejects.
    let ops = timer.schedule_once(time::Duration::from_secs(u64::MAX));
    let status = os.run(ops);
    assert_eq!(status, -1);
    assert!(!timer.adapter().arm_succeeded(status));
    assert!(!timer.is_scheduled(Some(os.pending())));
}
