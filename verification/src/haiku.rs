//! The Haiku backend: conversions between the crossplatform priority scale
//! and Haiku's native 0 through 120 scale, policy code translation, and the
//! interpretation of the native kernel-kit calls.
//!
//! The kernel calls themselves (`find_thread`, `set_thread_priority`,
//! `_get_thread_info`) live outside the verified library; the functions here
//! prepare the values handed to them and interpret the values they return.

use vstd::prelude::*;
use vstd::arithmetic::div_mod::{
    lemma_div_is_ordered, lemma_div_multiples_vanish, lemma_div_of0, lemma_fundamental_div_mod,
    lemma_mod_bound,
};

use crate::{Error, ThreadPriority, ThreadPriorityValue};

verus! {

/// An alias type for a thread id.
/// On Haiku, this is the native `thread_id` type (i32) rather than pthread_t.
pub type ThreadId = i32;

/// Minimum thread priority value on Haiku.
pub const HAIKU_MIN_PRIORITY: i32 = 0;

/// Maximum thread priority value on Haiku.
pub const HAIKU_MAX_PRIORITY: i32 = 120;

/// Default/normal thread priority value on Haiku.
pub const HAIKU_NORMAL_PRIORITY: i32 = 10;

/// Carrier for the native priority between "read native state" and
/// "convert to portable form".
#[derive(Debug, Copy, Clone, Eq, PartialEq, Ord, PartialOrd, Structural)]
pub struct ScheduleParams {
    /// The thread priority value (Haiku native priority).
    pub sched_priority: i32,
}

/// The normal (non-realtime) scheduling policies.
/// Haiku supports SCHED_OTHER as the primary scheduling policy.
#[derive(Debug, Copy, Clone, Eq, PartialEq, Ord, PartialOrd, Hash, Structural)]
pub enum NormalThreadSchedulePolicy {
    /// The standard round-robin time-sharing policy.
    Other,
}

/// Realtime scheduling policies.
/// Haiku's realtime support is limited compared to other systems.
#[derive(Debug, Copy, Clone, Eq, PartialEq, Ord, PartialOrd, Hash, Structural)]
pub enum RealtimeThreadSchedulePolicy {
    /// A first-in, first-out policy.
    Fifo,
    /// A round-robin policy.
    RoundRobin,
}

/// Thread schedule policy definition.
#[derive(Debug, Copy, Clone, Eq, PartialEq, Ord, PartialOrd, Hash, Structural)]
pub enum ThreadSchedulePolicy {
    /// Normal (non-realtime) scheduling policies.
    Normal(NormalThreadSchedulePolicy),
    /// Realtime scheduling policies.
    Realtime(RealtimeThreadSchedulePolicy),
}

/// The fixed native code of each scheduling policy.
pub open spec fn policy_to_posix_spec(policy: ThreadSchedulePolicy) -> i32 {
    match policy {
        ThreadSchedulePolicy::Normal(NormalThreadSchedulePolicy::Other) => 3,
        ThreadSchedulePolicy::Realtime(RealtimeThreadSchedulePolicy::Fifo) => 1,
        ThreadSchedulePolicy::Realtime(RealtimeThreadSchedulePolicy::RoundRobin) => 2,
    }
}

/// The policy a native code stands for; unrecognized codes fall back to the
/// normal policy rather than failing.
pub open spec fn policy_from_posix_spec(policy: i32) -> ThreadSchedulePolicy {
    if policy == 1 {
        ThreadSchedulePolicy::Realtime(RealtimeThreadSchedulePolicy::Fifo)
    } else if policy == 2 {
        ThreadSchedulePolicy::Realtime(RealtimeThreadSchedulePolicy::RoundRobin)
    } else {
        ThreadSchedulePolicy::Normal(NormalThreadSchedulePolicy::Other)
    }
}

impl NormalThreadSchedulePolicy {
    fn to_posix(self) -> (r: i32)
        ensures
            r == 3i32,
    {
        match self {
            NormalThreadSchedulePolicy::Other => 3,  // SCHED_OTHER on Haiku
        }
    }
}

impl RealtimeThreadSchedulePolicy {
    fn to_posix(self) -> (r: i32)
        ensures
            self is Fifo ==> r == 1i32,
            self is RoundRobin ==> r == 2i32,
    {
        match self {
            RealtimeThreadSchedulePolicy::Fifo => 1,  // SCHED_FIFO
            RealtimeThreadSchedulePolicy::RoundRobin => 2,  // SCHED_RR
        }
    }
}

impl ThreadSchedulePolicy {
    /// Converts to a POSIX policy value (for compatibility).
    pub fn to_posix(self) -> (r: i32)
        ensures
            r == policy_to_posix_spec(self),
    {
        match self {
            ThreadSchedulePolicy::Normal(p) => p.to_posix(),
            ThreadSchedulePolicy::Realtime(p) => p.to_posix(),
        }
    }

    /// Creates a policy from a POSIX policy value; never fails, since
    /// unrecognized codes fall back to the normal policy.
    pub fn from_posix(policy: i32) -> (r: Result<ThreadSchedulePolicy, Error>)
        ensures
            r == Ok::<ThreadSchedulePolicy, Error>(policy_from_posix_spec(policy)),
    {
        match policy {
            1 => Ok(ThreadSchedulePolicy::Realtime(RealtimeThreadSchedulePolicy::Fifo)),
            2 => Ok(ThreadSchedulePolicy::Realtime(RealtimeThreadSchedulePolicy::RoundRobin)),
            3 => Ok(ThreadSchedulePolicy::Normal(NormalThreadSchedulePolicy::Other)),
            _ => Ok(ThreadSchedulePolicy::Normal(NormalThreadSchedulePolicy::Other)),
        }
    }
}

/// The native priority a crossplatform priority rescales to: the linear map
/// from 0 through 99 onto 0 through 120, rounding down.
pub open spec fn crossplatform_to_native(p: int) -> int {
    (p * HAIKU_MAX_PRIORITY) / 99
}

/// The crossplatform priority a native priority rescales to: the inverse
/// linear map from 0 through 120 back onto 0 through 99, rounding down.
pub open spec fn native_to_crossplatform(native: int) -> int {
    (native * 99) / (HAIKU_MAX_PRIORITY as int)
}

/// The validation every native priority value passes through: values inside
/// the documented native bounds are kept, all others draw the range error.
pub open spec fn allowed_value_spec(priority: i32) -> Result<i32, Error> {
    if HAIKU_MIN_PRIORITY <= priority <= HAIKU_MAX_PRIORITY {
        Ok(priority)
    } else {
        Err(Error::PriorityNotInRange(HAIKU_MIN_PRIORITY, HAIKU_MAX_PRIORITY))
    }
}

/// The native priority a portable priority request converts to: Min and Max
/// map to the documented native bounds, a crossplatform value rescales
/// linearly, and a value already on the native scale is validated against
/// the native bounds.
pub open spec fn to_posix_spec(priority: ThreadPriority) -> Result<i32, Error> {
    match priority {
        ThreadPriority::Min => Ok(HAIKU_MIN_PRIORITY),
        ThreadPriority::Max => Ok(HAIKU_MAX_PRIORITY),
        ThreadPriority::Crossplatform(p) => Ok(
            crossplatform_to_native(p.as_u8() as int) as i32,
        ),
        ThreadPriority::Os(p) => if p.0 <= HAIKU_MAX_PRIORITY {
            Ok(p.0 as i32)
        } else {
            Err(Error::PriorityNotInRange(HAIKU_MIN_PRIORITY, HAIKU_MAX_PRIORITY))
        },
    }
}

impl ThreadPriority {
    /// Returns the minimum allowed native priority value for a policy.
    pub fn min_value_for_policy(_policy: ThreadSchedulePolicy) -> (r: Result<i32, Error>)
        ensures
            r == Ok::<i32, Error>(HAIKU_MIN_PRIORITY),
    {
        Ok(HAIKU_MIN_PRIORITY)
    }

    /// Returns the maximum allowed native priority value for a policy.
    pub fn max_value_for_policy(_policy: ThreadSchedulePolicy) -> (r: Result<i32, Error>)
        ensures
            r == Ok::<i32, Error>(HAIKU_MAX_PRIORITY),
    {
        Ok(HAIKU_MAX_PRIORITY)
    }

    /// Checks that the passed native priority value is within the range of
    /// allowed values; an out-of-range value draws the range error and is
    /// never handed on to a native call.
    pub fn to_allowed_value_for_policy(priority: i32, policy: ThreadSchedulePolicy) -> (r:
        Result<i32, Error>)
        ensures
            r == allowed_value_spec(priority),
    {
        let min_priority = match Self::min_value_for_policy(policy) {
            Ok(v) => v,
            Err(e) => {
                return Err(e);
            },
        };
        let max_priority = match Self::max_value_for_policy(policy) {
            Ok(v) => v,
            Err(e) => {
                return Err(e);
            },
        };
        if min_priority <= priority && priority <= max_priority {
            Ok(priority)
        } else {
            Err(Error::PriorityNotInRange(min_priority, max_priority))
        }
    }

    /// Converts the priority to a Haiku-compatible native value.
    pub fn to_posix(self, policy: ThreadSchedulePolicy) -> (r: Result<i32, Error>)
        ensures
            r == to_posix_spec(self),
            self is Min ==> r == Ok::<i32, Error>(HAIKU_MIN_PRIORITY),
            self is Max ==> r == Ok::<i32, Error>(HAIKU_MAX_PRIORITY),
    {
        match self {
            ThreadPriority::Min => Self::min_value_for_policy(policy),
            ThreadPriority::Max => Self::max_value_for_policy(policy),
            ThreadPriority::Crossplatform(p) => {
                // Map the 0..=99 range to Haiku's 0..=120 range.
                let value: u8 = p.get();
                let haiku_priority: i32 = (value as i32 * HAIKU_MAX_PRIORITY) / 99;
                proof {
                    lemma_div_is_ordered(0, value as int * 120, 99);
                    lemma_div_of0(99);
                    lemma_div_is_ordered(value as int * 120, 99int * 120, 99);
                    lemma_div_multiples_vanish(120, 99);
                }
                Self::to_allowed_value_for_policy(haiku_priority, policy)
            },
            ThreadPriority::Os(os) => {
                let value: u32 = os.0;
                let native: i32 = value as i32;
                proof {
                    assert(value <= 120 ==> value as i32 == value) by (bit_vector);
                    assert(value > 120 ==> (value as i32) < 0 || (value as i32) > 120)
                        by (bit_vector);
                }
                Self::to_allowed_value_for_policy(native, policy)
            },
        }
    }

    /// Gets the portable priority that a native priority reads back as.
    pub fn from_posix(params: ScheduleParams) -> (r: ThreadPriority)
        requires
            HAIKU_MIN_PRIORITY <= params.sched_priority <= HAIKU_MAX_PRIORITY,
        ensures
            r matches ThreadPriority::Crossplatform(v) && v.as_u8()
                == native_to_crossplatform(params.sched_priority as int),
    {
        // Map Haiku's 0..=120 range back to 0..=99.
        let wide: u32 = (params.sched_priority as u32 * 99) / (HAIKU_MAX_PRIORITY as u32);
        proof {
            lemma_div_is_ordered(0, params.sched_priority as int * 99, 120);
            lemma_div_of0(120);
            lemma_div_is_ordered(params.sched_priority as int * 99, 120int * 99, 120);
            lemma_div_multiples_vanish(99, 120);
        }
        let crossplatform: u8 = wide as u8;
        // Clamped to 99 to absorb rounding; a value from the native range
        // never actually exceeds it.
        let clamped: u8 = if crossplatform <= 99 {
            crossplatform
        } else {
            99
        };
        ThreadPriority::Crossplatform(ThreadPriorityValue::new(clamped))
    }
}

/// The update a priority request resolves to before the native call is made:
/// the thread it concerns and the validated native priority to install.
#[derive(Debug, Clone, Copy, PartialEq, Eq, Structural)]
pub struct PriorityUpdate {
    /// The thread whose priority is to change.
    pub thread: ThreadId,
    /// The validated priority on the native scale.
    pub native_priority: i32,
}

/// The update that setting a priority resolves to, or the error that stops
/// it before any native call.
pub open spec fn set_priority_update_spec(native: ThreadId, priority: ThreadPriority) -> Result<
    PriorityUpdate,
    Error,
> {
    match to_posix_spec(priority) {
        Ok(native_priority) => Ok(PriorityUpdate { thread: native, native_priority }),
        Err(e) => Err(e),
    }
}

/// Resolves a priority request for a thread into the native update to
/// install, converting and validating the priority first: an out-of-range
/// value draws the range error here, before any native call is issued.
pub fn set_thread_priority_and_policy(
    native: ThreadId,
    priority: ThreadPriority,
    policy: ThreadSchedulePolicy,
) -> (r: Result<PriorityUpdate, Error>)
    ensures
        r == set_priority_update_spec(native, priority),
{
    let haiku_priority = match priority.to_posix(policy) {
        Ok(p) => p,
        Err(e) => {
            return Err(e);
        },
    };
    Ok(PriorityUpdate { thread: native, native_priority: haiku_priority })
}

/// Resolves a priority request for the calling thread, under the schedule
/// policy the backend reports for it.
pub fn set_current_thread_priority(native: ThreadId, priority: ThreadPriority) -> (r: Result<
    PriorityUpdate,
    Error,
>)
    ensures
        r == set_priority_update_spec(native, priority),
{
    let policy = match thread_schedule_policy() {
        Ok(p) => p,
        Err(e) => {
            return Err(e);
        },
    };
    set_thread_priority_and_policy(native, priority, policy)
}

/// Interprets the value the native set-priority call returns: it hands back
/// the previous priority on success and a negative error code on failure.
pub fn interpret_set_priority_result(result: i32) -> (r: Result<(), Error>)
    ensures
        result < 0 ==> r == Err::<(), Error>(Error::OS(result)),
        result >= 0 ==> r == Ok::<(), Error>(()),
{
    if result < 0 {
        Err(Error::OS(result))
    } else {
        Ok(())
    }
}

/// Returns the schedule policy of the current process: Haiku exposes only
/// the normal time-sharing policy through this interface.
pub fn thread_schedule_policy() -> (r: Result<ThreadSchedulePolicy, Error>)
    ensures
        r == Ok::<ThreadSchedulePolicy, Error>(
            ThreadSchedulePolicy::Normal(NormalThreadSchedulePolicy::Other),
        ),
{
    Ok(ThreadSchedulePolicy::Normal(NormalThreadSchedulePolicy::Other))
}

/// Interprets the outcome of the native get-thread-info call: its return
/// code and the priority field of the record it filled. A non-zero code is
/// surfaced as an OS error carrying that code; on success the policy is the
/// single supported normal policy and the parameters carry the priority the
/// record held.
pub fn thread_schedule_policy_param(status: i32, native_priority: i32) -> (r: Result<
    (ThreadSchedulePolicy, ScheduleParams),
    Error,
>)
    ensures
        status != 0 ==> r == Err::<(ThreadSchedulePolicy, ScheduleParams), Error>(
            Error::OS(status),
        ),
        status == 0 ==> r == Ok::<(ThreadSchedulePolicy, ScheduleParams), Error>(
            (
                ThreadSchedulePolicy::Normal(NormalThreadSchedulePolicy::Other),
                ScheduleParams { sched_priority: native_priority },
            ),
        ),
{
    if status != 0 {
        return Err(Error::OS(status));
    }
    Ok(
        (
            ThreadSchedulePolicy::Normal(NormalThreadSchedulePolicy::Other),
            ScheduleParams { sched_priority: native_priority },
        ),
    )
}

/// Interprets the outcome of the native get-thread-info call as a portable
/// priority: the native priority the record held, rescaled back to the
/// crossplatform scale.
pub fn get_thread_priority(status: i32, native_priority: i32) -> (r: Result<ThreadPriority, Error>)
    requires
        status == 0 ==> HAIKU_MIN_PRIORITY <= native_priority <= HAIKU_MAX_PRIORITY,
    ensures
        status != 0 ==> r == Err::<ThreadPriority, Error>(Error::OS(status)),
        status == 0 ==> (r matches Ok(p) && p matches ThreadPriority::Crossplatform(v)
            && v.as_u8() == native_to_crossplatform(native_priority as int)),
{
    let params = match thread_schedule_policy_param(status, native_priority) {
        Ok(r) => r.1,
        Err(e) => {
            return Err(e);
        },
    };
    Ok(ThreadPriority::from_posix(params))
}

/// Rescaling a crossplatform priority to the native scale and back returns
/// a value within one of the original: the rounding of the two integer
/// divisions loses at most one step, and never overshoots.
pub proof fn lemma_crossplatform_round_trip(p: int)
    requires
        0 <= p <= 99,
    ensures
        p - 1 <= native_to_crossplatform(crossplatform_to_native(p)) <= p,
{
    let native = crossplatform_to_native(p);
    lemma_fundamental_div_mod(p * 120, 99);
    lemma_mod_bound(p * 120, 99);
    assert(99 * native <= p * 120 <= 99 * native + 98);
    lemma_div_is_ordered(native * 99, p * 120, 120);
    lemma_div_multiples_vanish(p, 120);
    lemma_div_is_ordered(120 * (p - 1), native * 99, 120);
    lemma_div_multiples_vanish(p - 1, 120);
}

/// Reading a priority back right after an accepted update is consistent with
/// the request: the native priority the update installs rescales to the
/// bottom of the crossplatform scale for Min, its top for Max, a value
/// within one of the requested crossplatform value, and the exact rescaling
/// of an accepted native value.
pub proof fn lemma_get_after_set_consistent(native: ThreadId, priority: ThreadPriority)
    requires
        priority matches ThreadPriority::Crossplatform(v) ==> v.as_u8() <= 99,
    ensures
        set_priority_update_spec(native, priority) matches Ok(update) ==> {
            let read_back = native_to_crossplatform(update.native_priority as int);
            &&& 0 <= read_back <= 99
            &&& priority is Min ==> read_back == 0
            &&& priority is Max ==> read_back == 99
            &&& priority matches ThreadPriority::Crossplatform(v) ==> v.as_u8() - 1 <= read_back
                <= v.as_u8()
            &&& priority matches ThreadPriority::Os(v) ==> read_back == native_to_crossplatform(
                v.0 as int,
            )
        },
{
    if set_priority_update_spec(native, priority) is Ok {
        let update = set_priority_update_spec(native, priority)->Ok_0;
        let native_priority = update.native_priority as int;
        assert(0 <= native_priority <= 120) by {
            match priority {
                ThreadPriority::Min => {},
                ThreadPriority::Max => {},
                ThreadPriority::Crossplatform(v) => {
                    lemma_div_is_ordered(0, v.as_u8() as int * 120, 99);
                    lemma_div_of0(99);
                    lemma_div_is_ordered(v.as_u8() as int * 120, 99int * 120, 99);
                    lemma_div_multiples_vanish(120, 99);
                },
                ThreadPriority::Os(_) => {},
            }
        }
        lemma_div_is_ordered(0, native_priority * 99, 120);
        lemma_div_of0(120);
        lemma_div_is_ordered(native_priority * 99, 120int * 99, 120);
        lemma_div_multiples_vanish(99, 120);
        match priority {
            ThreadPriority::Min => {},
            ThreadPriority::Max => {},
            ThreadPriority::Crossplatform(v) => {
                lemma_crossplatform_round_trip(v.as_u8() as int);
            },
            ThreadPriority::Os(_) => {},
        }
    }
}

} // verus!
