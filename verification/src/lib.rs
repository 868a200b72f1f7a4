//! Portable thread-priority model with a verified Haiku backend.
//!
//! The crate models thread priorities on a normalized crossplatform scale
//! (0 through 99) together with the operating system's own scale, and the
//! `haiku` module carries the conversions between the two and the
//! interpretation of the native kernel-kit calls.

use vstd::prelude::*;

pub mod haiku;

pub use haiku::{
    get_thread_priority, interpret_set_priority_result, set_current_thread_priority,
    set_thread_priority_and_policy, thread_schedule_policy, thread_schedule_policy_param,
    NormalThreadSchedulePolicy, PriorityUpdate, RealtimeThreadSchedulePolicy, ScheduleParams,
    ThreadId, ThreadSchedulePolicy, HAIKU_MAX_PRIORITY, HAIKU_MIN_PRIORITY, HAIKU_NORMAL_PRIORITY,
};

verus! {

/// The errors a thread-priority operation can surface.
#[derive(Debug, Clone, PartialEq, Eq)]
pub enum Error {
    /// The operating system rejected the call; carries the native return code.
    OS(i32),
    /// A priority value was malformed; carries a short description.
    Priority(&'static str),
    /// A native priority value fell outside the allowed range; carries the
    /// inclusive lower and upper bounds of that range.
    PriorityNotInRange(i32, i32),
}

/// A priority on the normalized crossplatform scale.
///
/// Invariant: the value lies in 0 through 99 inclusive, enforced at
/// construction.
#[derive(Debug, Clone, Copy, PartialEq, Eq, Structural)]
pub struct ThreadPriorityValue {
    value: u8,
}

impl ThreadPriorityValue {
    #[verifier::type_invariant]
    spec fn in_range(self) -> bool {
        self.value <= 99
    }

    /// The priority as the plain number it wraps.
    pub closed spec fn as_u8(self) -> u8 {
        self.value
    }

    /// Builds a crossplatform priority, rejecting values above 99.
    pub fn try_new(value: u8) -> (r: Result<Self, Error>)
        ensures
            value <= 99 ==> (r matches Ok(p) && p.as_u8() == value),
            value > 99 ==> (r matches Err(e) && e is Priority),
    {
        if value <= 99 {
            Ok(ThreadPriorityValue { value })
        } else {
            Err(Error::Priority("The value is out of the range of 0..=99"))
        }
    }

    pub(crate) fn new(value: u8) -> (r: Self)
        requires
            value <= 99,
        ensures
            r.as_u8() == value,
    {
        ThreadPriorityValue { value }
    }

    /// Returns the wrapped value, which always lies in 0 through 99.
    pub fn get(&self) -> (r: u8)
        ensures
            r == self.as_u8(),
            r <= 99,
    {
        proof {
            use_type_invariant(&*self);
        }
        self.value
    }
}

/// A priority stated directly on the operating system's own scale.
#[derive(Debug, Clone, Copy, PartialEq, Eq, Structural)]
pub struct ThreadPriorityOsValue(pub u32);

/// A portable priority request.
#[derive(Debug, Clone, Copy, PartialEq, Eq, Structural)]
pub enum ThreadPriority {
    /// The lowest priority the policy allows.
    Min,
    /// A priority on the normalized crossplatform scale.
    Crossplatform(ThreadPriorityValue),
    /// A priority on the operating system's own scale, validated before use.
    Os(ThreadPriorityOsValue),
    /// The highest priority the policy allows.
    Max,
}

} // verus!
