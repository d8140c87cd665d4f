use vstd::prelude::*;
use crate::errors::DomainError;
use vstd::string::StringExecFns;
use crate::parse::{i64_of_text, parse_i64, parse_u32, u32_of_text};

verus! {

/// The states of a circuit breaker.
#[derive(Debug, Clone, Copy, PartialEq, Eq, Structural)]
pub enum State {
    Closed,
    Open,
    HalfOpen,
}

/// The state that a stored code stands for: 0 is closed, 1 open, any other half-open.
pub open spec fn state_of_code(v: u8) -> State {
    if v == 0 {
        State::Closed
    } else if v == 1 {
        State::Open
    } else {
        State::HalfOpen
    }
}

/// The code under which a state is stored.
pub open spec fn code_of_state(s: State) -> u8 {
    match s {
        State::Closed => 0,
        State::Open => 1,
        State::HalfOpen => 2,
    }
}

impl From<u8> for State {
    fn from(v: u8) -> (s: State) {
        if v == 0 {
            State::Closed
        } else if v == 1 {
            State::Open
        } else {
            State::HalfOpen
        }
    }
}

impl vstd::std_specs::convert::FromSpecImpl<u8> for State {
    open spec fn obeys_from_spec() -> bool {
        true
    }

    open spec fn from_spec(v: u8) -> State {
        state_of_code(v)
    }
}

impl State {
    /// The code under which the state is stored.
    pub fn code(&self) -> (c: u8)
        ensures
            c == code_of_state(*self),
    {
        match self {
            State::Closed => 0,
            State::Open => 1,
            State::HalfOpen => 2,
        }
    }
}

/// The state that a breaker is judged to be in: closed while the failures stay
/// under the threshold, half-open once the timeout has passed since the last
/// failure, open otherwise.
pub open spec fn judged_state(threshold: u32, timeout: i64, failures: u32, last_failure: i64, now: i64) -> State {
    if failures < threshold {
        State::Closed
    } else if now - last_failure >= timeout {
        State::HalfOpen
    } else {
        State::Open
    }
}

/// The failure count after one more failure (the counter wraps around).
pub open spec fn bumped(f: u32) -> u32 {
    if f == u32::MAX {
        0
    } else {
        (f + 1) as u32
    }
}

/// Calls `chrono::Utc::now` and gives its Unix time in seconds. Nothing is
/// stated of the value: it is the clock's.
#[verifier::external_body]
pub(crate) fn unix_now_secs() -> i64 {
    chrono::Utc::now().timestamp()
}

/// A circuit breaker that guards calls to an outside service.
#[derive(Debug, Clone, Copy)]
pub struct CircuitBreaker {
    pub threshold: u32,
    pub timeout: i64,
    pub failures: u32,
    pub last_failure_time: i64,
    pub state: State,
}

/// The breaker after its state has been judged at time `now` and stored.
pub open spec fn checked(cb: CircuitBreaker, now: i64) -> CircuitBreaker {
    let s = judged_state(cb.threshold, cb.timeout, cb.failures, cb.last_failure_time, now);
    CircuitBreaker {
        state: s,
        failures: if s != cb.state && s == State::Closed { 0 } else { cb.failures },
        ..cb
    }
}

/// The breaker after a failure recorded at time `now`.
pub open spec fn failure_recorded(cb: CircuitBreaker, now: i64) -> CircuitBreaker {
    CircuitBreaker { failures: bumped(cb.failures), last_failure_time: now, ..cb }
}

/// The breaker after a success.
pub open spec fn success_recorded(cb: CircuitBreaker) -> CircuitBreaker {
    CircuitBreaker { failures: 0, ..cb }
}

/// The breaker after calls made at the times `ts`, in order, each admitted
/// and each failing because the service was unreachable.
pub open spec fn failed_calls(cb: CircuitBreaker, ts: Seq<i64>) -> CircuitBreaker
    decreases ts.len(),
{
    if ts.len() == 0 {
        cb
    } else {
        failure_recorded(checked(failed_calls(cb, ts.drop_last()), ts.last()), ts.last())
    }
}

impl CircuitBreaker {
    /// A closed breaker with no failures recorded.
    pub open spec fn new_spec(threshold: u32, timeout: i64) -> Self {
        CircuitBreaker { threshold, timeout, failures: 0, last_failure_time: 0, state: State::Closed }
    }

    /// A closed breaker with no failures recorded.
    pub fn new(threshold: u32, timeout: i64) -> (cb: Self)
        ensures
            cb == Self::new_spec(threshold, timeout),
    {
        CircuitBreaker { threshold, timeout, failures: 0, last_failure_time: 0, state: State::Closed }
    }

    /// A fresh breaker from the texts of its settings (the threshold of
    /// failures, default 5, and the timeout in seconds, default 30); `None`
    /// when a text is not a number (the service panics then).
    pub fn from_settings(threshold: Option<&str>, timeout: Option<&str>) -> (r: Option<Self>)
        ensures
            ({
                let t = match threshold { Some(s) => s@, None => "5"@ };
                let o = match timeout { Some(s) => s@, None => "30"@ };
                match (u32_of_text(t), i64_of_text(o)) {
                    (Some(th), Some(to)) => r == Some(Self::new_spec(th, to)),
                    _ => r is None,
                }
            }),
    {
        let th = match threshold {
            Some(s) => parse_u32(s),
            None => parse_u32("5"),
        };
        let to = match timeout {
            Some(s) => parse_i64(s),
            None => parse_i64("30"),
        };
        match (th, to) {
            (Some(th), Some(to)) => Some(Self::new(th, to)),
            _ => None,
        }
    }

    /// Judges the state at time `now` (seconds) and stores it; entering the
    /// closed state clears the failures.
    pub fn check_state_at(&mut self, now: i64) -> (s: State)
        ensures
            s == judged_state(old(self).threshold, old(self).timeout, old(self).failures,
                old(self).last_failure_time, now),
            *final(self) == checked(*old(self), now),
    {
        let old_state = self.state;
        let fails = self.failures;
        let elapsed: i128 = now as i128 - self.last_failure_time as i128;
        let final_state = if fails < self.threshold {
            State::Closed
        } else if elapsed >= self.timeout as i128 {
            State::HalfOpen
        } else {
            State::Open
        };
        if old_state != final_state {
            self.state = final_state;
            if final_state == State::Closed {
                self.failures = 0;
            }
        }
        final_state
    }

    /// Judges the state now, by the clock: the breaker ends as
    /// `check_state_at` leaves it at some time the clock gave.
    pub fn check_state(&mut self) -> (s: State)
        ensures
            exists|now: i64| #[trigger] checked(*old(self), now) == *final(self) && s == judged_state(
                old(self).threshold, old(self).timeout, old(self).failures, old(self).last_failure_time, now),
            final(self).state == s,
            old(self).failures < old(self).threshold ==> s == State::Closed,
    {
        let now = unix_now_secs();
        self.check_state_at(now)
    }

    /// Clears the failures (a call succeeded).
    pub fn reset(&mut self)
        ensures
            *final(self) == success_recorded(*old(self)),
    {
        self.failures = 0;
    }

    /// Records a failure at time `now` (seconds).
    pub fn record_failure_at(&mut self, now: i64)
        ensures
            *final(self) == failure_recorded(*old(self), now),
    {
        self.failures = self.failures.wrapping_add(1);
        self.last_failure_time = now;
    }

    /// Before a call at time `now`: refuses it while the breaker is open.
    pub fn admit_call_at(&mut self, now: i64) -> (r: Result<(), DomainError>)
        ensures
            ({
                let s = judged_state(old(self).threshold, old(self).timeout, old(self).failures,
                    old(self).last_failure_time, now);
                &&& (r is Err <==> s == State::Open)
                &&& (r matches Err(e) ==> e is DependencyUnavailable)
                &&& (r matches Err(DomainError::DependencyUnavailable { service }) ==> service@ == "todo"@)
            }),
            *final(self) == checked(*old(self), now),
    {
        match self.check_state_at(now) {
            State::Open => Err(DomainError::DependencyUnavailable { service: String::from_str("todo") }),
            _ => Ok(()),
        }
    }

    /// After a call at time `now`: a success clears the failures, an
    /// unreachable service counts as a failure, any other error leaves the
    /// breaker as it was. The outcome is handed back unchanged.
    pub fn record_outcome_at<T>(&mut self, outcome: Result<T, DomainError>, now: i64) -> (r: Result<T, DomainError>)
        ensures
            r == outcome,
            outcome is Ok ==> *final(self) == success_recorded(*old(self)),
            outcome matches Err(DomainError::DependencyUnavailable { .. }) ==> *final(self)
                == failure_recorded(*old(self), now),
            (outcome is Err && !(outcome matches Err(DomainError::DependencyUnavailable { .. })))
                ==> *final(self) == *old(self),
    {
        match outcome {
            Ok(data) => {
                self.reset();
                Ok(data)
            },
            Err(err) => {
                match err {
                    DomainError::DependencyUnavailable { .. } => {
                        self.record_failure_at(now);
                    },
                    _ => {},
                }
                Err(err)
            },
        }
    }
}

/// While the failures stay under the threshold the breaker is closed,
/// whatever the time.
pub proof fn law_closed_below_threshold(cb: CircuitBreaker, now: i64)
    requires
        cb.failures < cb.threshold,
    ensures
        judged_state(cb.threshold, cb.timeout, cb.failures, cb.last_failure_time, now) == State::Closed,
        checked(cb, now).state == State::Closed,
{
}

/// From a fresh breaker, calls that fail because the service is unreachable,
/// at any times, are all admitted (the breaker is judged closed when each is
/// made) while their number stays within the threshold, and leave that many
/// failures recorded, at the time of the last one.
pub proof fn law_failures_counted(threshold: u32, timeout: i64, ts: Seq<i64>)
    requires
        ts.len() <= threshold,
    ensures
        ({
            let cb = failed_calls(CircuitBreaker::new_spec(threshold, timeout), ts);
            &&& cb.failures == ts.len()
            &&& cb.state == State::Closed
            &&& cb.threshold == threshold
            &&& cb.timeout == timeout
            &&& ts.len() > 0 ==> cb.last_failure_time == ts.last()
        }),
        forall|j: int| 0 <= j < ts.len() ==> {
            let before = #[trigger] failed_calls(CircuitBreaker::new_spec(threshold, timeout), ts.take(j));
            judged_state(before.threshold, before.timeout, before.failures, before.last_failure_time, ts[j])
                == State::Closed
        },
    decreases ts.len(),
{
    if ts.len() > 0 {
        let prev = ts.drop_last();
        law_failures_counted(threshold, timeout, prev);
        assert forall|j: int| 0 <= j < ts.len() implies {
            let before = #[trigger] failed_calls(CircuitBreaker::new_spec(threshold, timeout), ts.take(j));
            judged_state(before.threshold, before.timeout, before.failures, before.last_failure_time, ts[j])
                == State::Closed
        } by {
            if j < prev.len() {
                assert(ts.take(j) =~= prev.take(j));
                assert(ts[j] == prev[j]);
            } else {
                assert(ts.take(j) =~= prev);
            }
        }
    }
}

/// From a fresh breaker with a positive threshold, once `threshold` calls
/// have failed because the service is unreachable (at any times), a call made
/// before the timeout has passed since the last of them is refused without
/// reaching the service.
pub proof fn law_fails_fast_after_threshold(threshold: u32, timeout: i64, ts: Seq<i64>, now: i64)
    requires
        threshold > 0,
        ts.len() == threshold,
        now - ts.last() < timeout,
    ensures
        ({
            let cb = failed_calls(CircuitBreaker::new_spec(threshold, timeout), ts);
            judged_state(cb.threshold, cb.timeout, cb.failures, cb.last_failure_time, now) == State::Open
        }),
{
    law_failures_counted(threshold, timeout, ts);
}

/// Once the timeout has passed since the last failure, an open breaker lets
/// one call through (half-open).
pub proof fn law_half_open_after_timeout(cb: CircuitBreaker, now: i64)
    requires
        cb.failures >= cb.threshold,
        now - cb.last_failure_time >= cb.timeout,
    ensures
        judged_state(cb.threshold, cb.timeout, cb.failures, cb.last_failure_time, now) == State::HalfOpen,
{
}

/// After a success, a breaker with a positive threshold is judged closed at
/// any time.
pub proof fn law_success_closes(cb: CircuitBreaker, now: i64)
    requires
        cb.threshold > 0,
    ensures
        ({
            let c = success_recorded(cb);
            judged_state(c.threshold, c.timeout, c.failures, c.last_failure_time, now) == State::Closed
        }),
{
}

/// The state a breaker is judged in, over all failure counts and times:
/// closed exactly while the failures stay under the threshold; at or above
/// it, open until the timeout has passed since the last failure, and
/// half-open after. A half-open trial that fails again therefore opens the
/// breaker for another timeout.
pub proof fn law_breaker_states(threshold: u32, timeout: i64, failures: u32, last: i64, now: i64)
    ensures
        (judged_state(threshold, timeout, failures, last, now) == State::Closed) <==> failures < threshold,
        (judged_state(threshold, timeout, failures, last, now) == State::Open) <==> (failures >= threshold
            && now - last < timeout),
        (judged_state(threshold, timeout, failures, last, now) == State::HalfOpen) <==> (failures >= threshold
            && now - last >= timeout),
{
}

/// A breaker at or over its threshold refuses every call made before the
/// timeout has passed since its last failure, however many failures it
/// holds, and refuses it without changing its counts.
pub proof fn law_open_refuses_within_timeout(cb: CircuitBreaker, now: i64)
    requires
        cb.failures >= cb.threshold,
        now - cb.last_failure_time < cb.timeout,
    ensures
        checked(cb, now).state == State::Open,
        checked(cb, now).failures == cb.failures,
        checked(cb, now).last_failure_time == cb.last_failure_time,
{
}

/// A failed half-open trial opens the breaker again: after a failure
/// recorded at time `t`, any call before `t + timeout` is refused.
pub proof fn law_failed_trial_reopens(cb: CircuitBreaker, t: i64, now: i64)
    requires
        cb.failures >= cb.threshold,
        cb.failures < u32::MAX,
        t <= now,
        now - t < cb.timeout,
    ensures
        ({
            let c = failure_recorded(checked(cb, t), t);
            judged_state(c.threshold, c.timeout, c.failures, c.last_failure_time, now) == State::Open
        }),
{
}

/// What the outcome of a call does to a breaker, over all breakers and
/// times: a success clears the failures; an unreachable service adds one
/// failure (below the counter's limit) at the time of the call; nothing
/// else changes the threshold, the timeout or the state.
pub proof fn law_outcome_effects(cb: CircuitBreaker, now: i64)
    ensures
        success_recorded(cb).failures == 0,
        success_recorded(cb).last_failure_time == cb.last_failure_time,
        cb.failures < u32::MAX ==> failure_recorded(cb, now).failures == cb.failures + 1,
        failure_recorded(cb, now).last_failure_time == now,
        failure_recorded(cb, now).threshold == cb.threshold && success_recorded(cb).threshold == cb.threshold,
        failure_recorded(cb, now).timeout == cb.timeout && success_recorded(cb).timeout == cb.timeout,
        failure_recorded(cb, now).state == cb.state && success_recorded(cb).state == cb.state,
{
}

} // verus!
