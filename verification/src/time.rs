//! Time-and-timer-related API.
//!
//! The clock interface is declared as an explicit trait: reading the
//! current tick count promises nothing (time moves on its own), while the
//! conversions between ticks and nanoseconds are pure functions the
//! provider fixes. A time value is carried as a nanosecond count.

use vstd::prelude::*;

verus! {

/// Nanoseconds count.
pub type Nanos = u64;

/// Tick count.
pub type Ticks = u64;

/// Cancel token, used to cancel a scheduled timer event.
pub type CancelToken = usize;

/// Time value, carried as a nanosecond count.
#[derive(Clone, Copy, PartialEq, Eq, Structural, Debug)]
pub struct TimeValue {
    pub nanos: Nanos,
}

impl TimeValue {
    /// Make a time value from a nanosecond count.
    pub fn from_nanos(nanos: Nanos) -> (r: TimeValue)
        ensures
            r.nanos == nanos,
    {
        TimeValue { nanos }
    }

    /// The nanosecond count of this time value.
    pub fn as_nanos(&self) -> (r: Nanos)
        ensures
            r == self.nanos,
    {
        self.nanos
    }
}

/// The clock interface: declared here, implemented by exactly one
/// provider elsewhere.
pub trait TimeApi: Sized {
    /// The provider's tick-to-nanosecond conversion.
    spec fn ticks_to_nanos_spec(&self, ticks: Ticks) -> Nanos;

    /// The provider's nanosecond-to-tick conversion.
    spec fn nanos_to_ticks_spec(&self, nanos: Nanos) -> Ticks;

    /// Get the current tick count. Nothing is promised of the value: the
    /// clock advances on its own.
    fn current_ticks(&self) -> Ticks;

    /// Convert ticks to nanoseconds.
    fn ticks_to_nanos(&self, ticks: Ticks) -> (r: Nanos)
        ensures
            r == self.ticks_to_nanos_spec(ticks),
    ;

    /// Convert nanoseconds to ticks.
    fn nanos_to_ticks(&self, nanos: Nanos) -> (r: Ticks)
        ensures
            r == self.nanos_to_ticks_spec(nanos),
    ;

    /// What the provider promises of registering a timer.
    spec fn register_post(pre: Self, post: Self, deadline: TimeValue, r: CancelToken) -> bool;

    /// What the provider promises of cancelling a timer.
    spec fn cancel_post(pre: Self, post: Self, token: CancelToken) -> bool;

    /// Register a timer: the callback runs, at the provider's discretion,
    /// when the deadline passes.
    fn register_timer<F: FnOnce(TimeValue) + Send + 'static>(
        &mut self,
        deadline: TimeValue,
        callback: F,
    ) -> (r: CancelToken)
        ensures
            Self::register_post(*old(self), *final(self), deadline, r),
    ;

    /// Cancel a timer.
    fn cancel_timer(&mut self, token: CancelToken)
        ensures
            Self::cancel_post(*old(self), *final(self), token),
    ;
}

/// Register a timer.
pub fn register_timer<T: TimeApi, F: FnOnce(TimeValue) + Send + 'static>(
    api: &mut T,
    deadline: TimeValue,
    callback: F,
) -> (r: CancelToken)
    ensures
        T::register_post(*old(api), *final(api), deadline, r),
{
    api.register_timer(deadline, callback)
}

/// Cancel a timer.
pub fn cancel_timer<T: TimeApi>(api: &mut T, token: CancelToken)
    ensures
        T::cancel_post(*old(api), *final(api), token),
{
    api.cancel_timer(token)
}

/// Get the current time in nanoseconds: the nanosecond conversion of some
/// reading of the clock.
pub fn current_time_nanos<T: TimeApi>(api: &T) -> (r: Nanos)
    ensures
        exists|t: Ticks| r == api.ticks_to_nanos_spec(t),
{
    let t = api.current_ticks();
    let r = api.ticks_to_nanos(t);
    proof {
        assert(r == api.ticks_to_nanos_spec(t));
    }
    r
}

/// Get the current time.
pub fn current_time<T: TimeApi>(api: &T) -> (r: TimeValue)
    ensures
        exists|t: Ticks| r.nanos == api.ticks_to_nanos_spec(t),
{
    let nanos = current_time_nanos(api);
    TimeValue { nanos }
}

/// Convert ticks to time.
pub fn ticks_to_time<T: TimeApi>(api: &T, ticks: Ticks) -> (r: TimeValue)
    ensures
        r.nanos == api.ticks_to_nanos_spec(ticks),
{
    TimeValue { nanos: api.ticks_to_nanos(ticks) }
}

/// Convert time to ticks.
pub fn time_to_ticks<T: TimeApi>(api: &T, time: TimeValue) -> (r: Ticks)
    ensures
        r == api.nanos_to_ticks_spec(time.nanos),
{
    api.nanos_to_ticks(time.nanos)
}

/// A sample provider: a settable tick counter with a fixed period of ten
/// nanoseconds per tick, conversions saturating at the machine maximum. It
/// counts timer registrations and cancellations without ever firing a
/// callback. It demonstrates the interface and backs the crate's tests.
pub struct SimTime {
    pub now: Ticks,
    pub registered: usize,
    pub cancelled: usize,
}

impl TimeApi for SimTime {
    open spec fn ticks_to_nanos_spec(&self, ticks: Ticks) -> Nanos {
        if ticks * 10 <= u64::MAX {
            (ticks * 10) as u64
        } else {
            u64::MAX
        }
    }

    open spec fn nanos_to_ticks_spec(&self, nanos: Nanos) -> Ticks {
        (nanos / 10) as u64
    }

    fn current_ticks(&self) -> Ticks {
        self.now
    }

    fn ticks_to_nanos(&self, ticks: Ticks) -> (r: Nanos) {
        if ticks <= u64::MAX / 10 {
            ticks * 10
        } else {
            u64::MAX
        }
    }

    fn nanos_to_ticks(&self, nanos: Nanos) -> (r: Ticks) {
        nanos / 10
    }

    open spec fn register_post(pre: Self, post: Self, deadline: TimeValue, r: CancelToken)
        -> bool {
        &&& post.now == pre.now
        &&& post.cancelled == pre.cancelled
        &&& r == pre.registered
        &&& post.registered == if pre.registered < usize::MAX {
            pre.registered + 1
        } else {
            pre.registered as int
        }
    }

    open spec fn cancel_post(pre: Self, post: Self, token: CancelToken) -> bool {
        &&& post.now == pre.now
        &&& post.registered == pre.registered
        &&& post.cancelled == if pre.cancelled < usize::MAX {
            pre.cancelled + 1
        } else {
            pre.cancelled as int
        }
    }

    fn register_timer<F: FnOnce(TimeValue) + Send + 'static>(
        &mut self,
        deadline: TimeValue,
        callback: F,
    ) -> (r: CancelToken) {
        let token = self.registered;
        if self.registered < usize::MAX {
            self.registered = self.registered + 1;
        }
        token
    }

    fn cancel_timer(&mut self, token: CancelToken) {
        if self.cancelled < usize::MAX {
            self.cancelled = self.cancelled + 1;
        }
    }
}

} // verus!
