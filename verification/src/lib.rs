//! Verified core of a timer handle backed by the operating system's native timers.
//!
//! The handle keeps the books of one native timer object: whether it exists, which
//! capsule it calls, whether it carries a program. It never calls the operating
//! system. Each step answers with the native calls that carry it out, and the
//! caller performs them and hands back what the system answered.

pub mod adapter;
pub mod apple;
pub mod bits;
pub mod capsule;
pub mod duration;
pub mod laws;
pub mod posix;
pub mod timer;
pub mod web;
pub mod win32;

pub use crate::adapter::{Adapter, Create, Op};
pub use crate::capsule::{BoxFnPtr, Callback, FatPtr, Trampoline};
pub use crate::timer::{Schedule, State, Timer, TimerView};
pub use crate::win32::FileTime;
