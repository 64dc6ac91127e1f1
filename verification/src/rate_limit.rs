//! The minimum spacing between two requests to one provider.
//!
//! Instants are `u64` counts of nanoseconds since an origin that the caller
//! fixes once (the start of the process, say) and reads from a clock that
//! never runs backwards.

use vstd::prelude::*;

verus! {

/// What a caller does before it issues its next request.
#[derive(Clone, Copy, Debug, PartialEq, Eq, Structural)]
pub enum Pause {
    /// Issue the request at once.
    Proceed,
    /// Wait until the clock reads at least this instant, then issue it.
    Until(u64),
    /// The instant to wait for lies beyond what the clock can represent:
    /// issue the request at once, and warn.
    Unrepresentable,
}

/// The clock of one provider instance: the spacing it keeps, and the instant
/// at which the last request was issued, if there was one.
#[derive(Clone, Copy, Debug, PartialEq, Eq, Structural)]
pub struct RateLimiter {
    pub min_interval: u64,
    pub last_request: Option<u64>,
}

/// The pause that is due at `now`, when the last request was issued at
/// `last_request` and requests are to be `min_interval` apart.
pub open spec fn pause_for(last_request: Option<u64>, min_interval: u64, now: u64) -> Pause {
    match last_request {
        None => Pause::Proceed,
        Some(previous) => if previous + min_interval > u64::MAX {
            Pause::Unrepresentable
        } else if previous + min_interval > now {
            Pause::Until((previous + min_interval) as u64)
        } else {
            Pause::Proceed
        },
    }
}

impl RateLimiter {
    /// A limiter through which no request has gone yet.
    pub fn new(min_interval: u64) -> (limiter: RateLimiter)
        ensures
            limiter == (RateLimiter { min_interval, last_request: None }),
    {
        RateLimiter { min_interval, last_request: None }
    }

    /// The pause that is due before the next request, the clock reading `now`.
    pub fn throttle(&self, now: u64) -> (pause: Pause)
        ensures
            pause == pause_for(self.last_request, self.min_interval, now),
    {
        match self.last_request {
            None => Pause::Proceed,
            Some(previous) => match previous.checked_add(self.min_interval) {
                None => Pause::Unrepresentable,
                Some(target) => if target > now {
                    Pause::Until(target)
                } else {
                    Pause::Proceed
                },
            },
        }
    }

    /// Notes that a request is issued at `now`, whether or not a pause came
    /// before it.
    pub fn record(&mut self, now: u64)
        ensures
            *final(self) == (RateLimiter {
                min_interval: old(self).min_interval,
                last_request: Some(now),
            }),
    {
        self.last_request = Some(now);
    }
}

/// One request as the caller made it: the clock's reading when it asked for
/// the pause, and its reading when it issued the request.
pub struct Call {
    pub asked: u64,
    pub issued: u64,
}

/// The caller kept to the pause: it issued the request no earlier than it
/// asked, and where it was told to wait, no earlier than the instant named.
pub open spec fn kept(last_request: Option<u64>, min_interval: u64, call: Call) -> bool {
    &&& call.asked <= call.issued
    &&& pause_for(last_request, min_interval, call.asked) matches Pause::Until(target)
        ==> target <= call.issued
}

/// The instant of the last request before the call at `index`.
pub open spec fn last_before(first: Option<u64>, calls: Seq<Call>, index: int) -> Option<u64> {
    if index == 0 {
        first
    } else {
        Some(calls[index - 1].issued)
    }
}

/// Every call of the sequence kept to its pause, each one recorded before
/// the next asked.
pub open spec fn all_kept(first: Option<u64>, min_interval: u64, calls: Seq<Call>) -> bool {
    forall|index: int|
        0 <= index < calls.len() ==> kept(
            #[trigger] last_before(first, calls, index),
            min_interval,
            calls[index],
        )
}

/// A request that keeps to its pause is issued at least `min_interval` after
/// the one before it, wherever that spacing can be represented.
pub proof fn lemma_request_spaced(limiter: RateLimiter, call: Call)
    requires
        limiter.last_request is Some,
        limiter.last_request->0 + limiter.min_interval <= u64::MAX,
        kept(limiter.last_request, limiter.min_interval, call),
    ensures
        call.issued - limiter.last_request->0 >= limiter.min_interval,
{
}

/// In any sequence of requests through one limiter that keep to their pauses,
/// two requests in a row are at least `min_interval` apart, wherever that
/// spacing can be represented.
pub proof fn lemma_requests_spaced(first: Option<u64>, min_interval: u64, calls: Seq<Call>)
    requires
        all_kept(first, min_interval, calls),
    ensures
        forall|index: int|
            0 <= index < calls.len() - 1 && (#[trigger] calls[index]).issued + min_interval
                <= u64::MAX ==> calls[index + 1].issued - calls[index].issued >= min_interval,
{
    assert forall|index: int|
        0 <= index < calls.len() - 1 && (#[trigger] calls[index]).issued + min_interval
            <= u64::MAX implies calls[index + 1].issued - calls[index].issued >= min_interval by {
        assert(kept(last_before(first, calls, index + 1), min_interval, calls[index + 1]));
    }
}

} // verus!
