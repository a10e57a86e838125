//! A circuit breaker: after `threshold` failures calls are refused until a
//! timeout has passed since the last failure; then one trial call decides
//! whether the circuit closes again.
use vstd::prelude::*;

verus! {

#[verifier::external_type_specification]
#[verifier::external_body]
pub struct ExInstant(std::time::Instant);

/// `Instant::now()` of std: a reading of the monotonic clock.
#[verifier::external_body]
fn instant_now() -> std::time::Instant {
    std::time::Instant::now()
}

/// `since.elapsed() >= timeout` of std: whether the timeout has passed since
/// `since`. It depends on the clock, so nothing is stated of it.
#[verifier::external_body]
fn elapsed_at_least(since: &std::time::Instant, timeout: &std::time::Duration) -> bool {
    since.elapsed() >= *timeout
}

/// The position of the breaker.
#[derive(Debug, Clone, Copy, PartialEq, Eq, Structural)]
pub enum CircuitState {
    Closed,
    Open,
    HalfOpen,
}

/// A circuit breaker with its failure count, the time of the last failure,
/// its threshold and reset timeout, and its position.
#[derive(Debug)]
pub struct CircuitBreaker {
    failures: u32,
    last_failure: std::time::Instant,
    threshold: u32,
    reset_timeout: std::time::Duration,
    state: CircuitState,
}

/// One run through the breaker, from position `state` with `failures`
/// counted, given whether the reset timeout had passed (`due`) and whether the
/// call succeeded (`ok`), ends in position `new_state` with `new_failures`.
pub open spec fn breaker_step(
    state: CircuitState,
    failures: u32,
    threshold: u32,
    due: bool,
    ok: bool,
    new_state: CircuitState,
    new_failures: u32,
) -> bool {
    match state {
        CircuitState::Closed => if ok {
            new_state == CircuitState::Closed && new_failures == failures
        } else {
            new_failures == failures + 1 && new_state == (if failures + 1 >= threshold {
                CircuitState::Open
            } else {
                CircuitState::Closed
            })
        },
        CircuitState::HalfOpen => if ok {
            new_state == CircuitState::Closed && new_failures == 0
        } else {
            new_failures == failures + 1 && new_state == (if failures + 1 >= threshold {
                CircuitState::Open
            } else {
                CircuitState::HalfOpen
            })
        },
        CircuitState::Open => if due {
            new_state == CircuitState::HalfOpen && new_failures == 0
        } else {
            !ok && new_state == CircuitState::Open && new_failures == failures
        },
    }
}

impl CircuitBreaker {
    /// The number of failures counted since the last success or reset.
    pub closed spec fn failures(&self) -> u32 {
        self.failures
    }

    /// The number of failures that opens the circuit.
    pub closed spec fn threshold(&self) -> u32 {
        self.threshold
    }

    /// The breaker's position.
    pub closed spec fn state(&self) -> CircuitState {
        self.state
    }

    /// How long an open breaker waits after its last failure before it half-opens.
    pub closed spec fn reset_timeout(&self) -> std::time::Duration {
        self.reset_timeout
    }

    /// The clock reading taken at the last failure counted (at creation, before any).
    pub closed spec fn last_failure(&self) -> std::time::Instant {
        self.last_failure
    }

    /// The breaker is open only once the threshold was reached, and the count
    /// never passes the threshold (or 1, when the threshold is 0).
    pub open spec fn inv(&self) -> bool {
        &&& self.state() == CircuitState::Open ==> self.failures() >= self.threshold()
        &&& self.state() != CircuitState::Open ==> (self.failures() < self.threshold()
            || self.failures() == 0)
        &&& self.failures() <= self.threshold() || self.failures() <= 1
    }

    /// A closed breaker with no failures.
    pub fn new(threshold: u32, reset_timeout: std::time::Duration) -> (b: Self)
        ensures
            b.inv(),
            b.state() == CircuitState::Closed,
            b.failures() == 0,
            b.threshold() == threshold,
            b.reset_timeout() == reset_timeout,
    {
        CircuitBreaker {
            failures: 0,
            last_failure: instant_now(),
            threshold,
            reset_timeout,
            state: CircuitState::Closed,
        }
    }

    /// The breaker's position.
    pub fn current_state(&self) -> (s: CircuitState)
        ensures
            s == self.state(),
    {
        self.state
    }

    /// The failures counted since the last success or reset.
    pub fn failure_count(&self) -> (n: u32)
        ensures
            n == self.failures(),
    {
        self.failures
    }

    /// Whether the reset timeout has passed since the last failure.
    fn should_reset(&self) -> bool {
        elapsed_at_least(&self.last_failure, &self.reset_timeout)
    }

    /// Half-opens the circuit and forgets the failures.
    fn reset(&mut self)
        ensures
            final(self).state() == CircuitState::HalfOpen,
            final(self).failures() == 0,
            final(self).threshold() == old(self).threshold(),
            final(self).reset_timeout() == old(self).reset_timeout(),
            final(self).last_failure() == old(self).last_failure(),
    {
        self.state = CircuitState::HalfOpen;
        self.failures = 0;
    }

    /// Closes the circuit and forgets the failures.
    fn on_success(&mut self)
        ensures
            final(self).state() == CircuitState::Closed,
            final(self).failures() == 0,
            final(self).threshold() == old(self).threshold(),
            final(self).reset_timeout() == old(self).reset_timeout(),
            final(self).last_failure() == old(self).last_failure(),
    {
        self.state = CircuitState::Closed;
        self.failures = 0;
    }

    /// Counts a failure; the circuit opens once the count reaches the threshold.
    fn on_failure(&mut self)
        requires
            old(self).inv(),
            old(self).state() != CircuitState::Open,
        ensures
            final(self).inv(),
            final(self).failures() == old(self).failures() + 1,
            final(self).threshold() == old(self).threshold(),
            final(self).reset_timeout() == old(self).reset_timeout(),
            final(self).state() == (if old(self).failures() + 1 >= old(self).threshold() {
                CircuitState::Open
            } else {
                old(self).state()
            }),
    {
        let failures = self.failures + 1;
        self.failures = failures;
        self.last_failure = instant_now();
        if failures >= self.threshold {
            self.state = CircuitState::Open;
        }
    }

    /// Runs `f` through the breaker, given whether the reset timeout has
    /// passed since the last failure (`due`; it matters only when open).
    ///
    /// Open and not due: `f` runs and its error is returned; nothing changes.
    /// A success, and any call on an open breaker, keeps the time of the last
    /// failure; a failure counted reads the clock afresh.
    /// Open and due: the circuit half-opens with no failures, and `f`'s result
    /// is returned as it is.
    /// Half-open: a success closes the circuit, a failure is counted.
    /// Closed: a failure is counted.
    pub fn execute_due<T, E, F: FnOnce() -> Result<T, E>>(&mut self, due: bool, f: F) -> (r: Result<
        T,
        E,
    >)
        requires
            old(self).inv(),
            call_requires(f, ()),
            old(self).state() == CircuitState::Open && !due ==> forall|x: Result<T, E>|
                call_ensures(f, (), x) ==> x is Err,
        ensures
            final(self).inv(),
            call_ensures(f, (), r),
            final(self).threshold() == old(self).threshold(),
            final(self).reset_timeout() == old(self).reset_timeout(),
            r is Ok || old(self).state() == CircuitState::Open ==> final(self).last_failure()
                == old(self).last_failure(),
            breaker_step(
                old(self).state(),
                old(self).failures(),
                old(self).threshold(),
                due,
                r is Ok,
                final(self).state(),
                final(self).failures(),
            ),
    {
        match self.state {
            CircuitState::Open => {
                if due {
                    self.reset();
                }
                f()
            },
            CircuitState::HalfOpen => {
                let r = f();
                if r.is_ok() {
                    self.on_success();
                } else {
                    self.on_failure();
                }
                r
            },
            CircuitState::Closed => {
                let r = f();
                if !r.is_ok() {
                    self.on_failure();
                }
                r
            },
        }
    }

    /// Runs `f` through the breaker: an open breaker first reads the clock to
    /// learn whether its reset timeout has passed; then `execute_due`.
    pub fn execute<T, E, F: FnOnce() -> Result<T, E>>(&mut self, f: F) -> (r: Result<T, E>)
        requires
            old(self).inv(),
            call_requires(f, ()),
            old(self).state() == CircuitState::Open ==> forall|x: Result<T, E>|
                call_ensures(f, (), x) ==> x is Err,
        ensures
            final(self).inv(),
            call_ensures(f, (), r),
            final(self).threshold() == old(self).threshold(),
            final(self).reset_timeout() == old(self).reset_timeout(),
            r is Ok || old(self).state() == CircuitState::Open ==> final(self).last_failure()
                == old(self).last_failure(),
            exists|due: bool|
                #[trigger] breaker_step(
                    old(self).state(),
                    old(self).failures(),
                    old(self).threshold(),
                    due,
                    r is Ok,
                    final(self).state(),
                    final(self).failures(),
                ),
    {
        let due = match self.state {
            CircuitState::Open => self.should_reset(),
            _ => false,
        };
        self.execute_due(due, f)
    }
}

} // verus!
