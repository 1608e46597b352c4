use vstd::prelude::*;
use vstd::string::*;
use crate::probe::ReadinessOutcome;
use crate::text::{decimal_spec, decimal_text};

verus! {

/// How often, and how far apart, delivery to the frontend is tried.
#[derive(Clone, Copy, Debug, PartialEq, Eq, Structural)]
pub struct DeliveryPolicy {
    pub max_attempts: u32,
    pub interval_ms: u64,
}

impl DeliveryPolicy {
    /// At least one attempt, a positive interval, and a total wait that fits
    /// in a `u64`.
    pub open spec fn wf(&self) -> bool {
        self.max_attempts > 0 && self.interval_ms > 0 && self.max_attempts as int * self.interval_ms as int
            <= u64::MAX as int
    }
}

/// What to do after one delivery attempt.
#[derive(Clone, Copy, Debug, PartialEq, Eq, Structural)]
pub enum DeliveryDecision {
    /// The frontend has the notification.
    Delivered,
    /// Wait `ms`, then try again.
    RetryAfter { ms: u64 },
    /// The attempt budget is spent; the notification is dropped.
    Exhausted,
}

/// Bookkeeping of one delivery: attempts made, time spent waiting between
/// them, and whether it has ended.
pub struct DeliveryAttempt {
    attempts: u32,
    waited_ms: u64,
    finished: bool,
}

impl DeliveryAttempt {
    pub closed spec fn attempts_spec(&self) -> nat {
        self.attempts as nat
    }

    pub closed spec fn waited_spec(&self) -> nat {
        self.waited_ms as nat
    }

    pub closed spec fn finished_spec(&self) -> bool {
        self.finished
    }

    /// The attempts stay within the budget, and one interval was waited after
    /// each failed attempt that was followed by another.
    pub open spec fn inv(&self, p: DeliveryPolicy) -> bool {
        &&& self.attempts_spec() <= p.max_attempts
        &&& !self.finished_spec() ==> self.attempts_spec() < p.max_attempts && self.waited_spec()
            == self.attempts_spec() * p.interval_ms
        &&& self.finished_spec() ==> self.attempts_spec() >= 1 && self.waited_spec() == (
        self.attempts_spec() - 1) * p.interval_ms
    }

    pub fn new() -> (r: DeliveryAttempt)
        ensures
            r.attempts_spec() == 0,
            r.waited_spec() == 0,
            !r.finished_spec(),
    {
        DeliveryAttempt { attempts: 0, waited_ms: 0, finished: false }
    }

    pub fn attempts(&self) -> (r: u32)
        ensures
            r == self.attempts_spec(),
    {
        self.attempts
    }

    pub fn waited_ms(&self) -> (r: u64)
        ensures
            r == self.waited_spec(),
    {
        self.waited_ms
    }

    /// Records the result of one attempt and decides what follows.
    pub fn record(&mut self, p: DeliveryPolicy, succeeded: bool) -> (r: DeliveryDecision)
        requires
            p.wf(),
            old(self).inv(p),
            !old(self).finished_spec(),
        ensures
            final(self).inv(p),
            final(self).attempts_spec() == old(self).attempts_spec() + 1,
            r == (if succeeded {
                DeliveryDecision::Delivered
            } else if final(self).attempts_spec() < p.max_attempts {
                DeliveryDecision::RetryAfter { ms: p.interval_ms }
            } else {
                DeliveryDecision::Exhausted
            }),
            final(self).finished_spec() == !(r is RetryAfter),
            r is RetryAfter ==> final(self).waited_spec() == old(self).waited_spec() + p.interval_ms,
            !(r is RetryAfter) ==> final(self).waited_spec() == old(self).waited_spec(),
    {
        self.attempts = self.attempts + 1;
        if succeeded {
            self.finished = true;
            proof {
                assert((self.attempts - 1) * p.interval_ms == old(self).attempts * p.interval_ms);
            }
            DeliveryDecision::Delivered
        } else if self.attempts < p.max_attempts {
            proof {
                let k = self.attempts as int;
                let i = p.interval_ms as int;
                let m = p.max_attempts as int;
                assert(k * i == (k - 1) * i + i) by (nonlinear_arith);
                assert(k * i <= m * i) by (nonlinear_arith)
                    requires
                        k < m,
                        i > 0,
                ;
            }
            self.waited_ms = self.waited_ms + p.interval_ms;
            DeliveryDecision::RetryAfter { ms: p.interval_ms }
        } else {
            self.finished = true;
            DeliveryDecision::Exhausted
        }
    }
}

/// However a delivery goes, it makes at most the budgeted number of attempts,
/// and the notification, if delivered, arrives after waiting less than
/// `max_attempts` intervals.
pub proof fn lemma_delivery_within_budget(a: DeliveryAttempt, p: DeliveryPolicy)
    requires
        p.wf(),
        a.inv(p),
    ensures
        a.attempts_spec() <= p.max_attempts,
        a.finished_spec() ==> a.waited_spec() < p.max_attempts * p.interval_ms,
{
    if a.finished_spec() {
        assert((a.attempts_spec() - 1) * p.interval_ms < p.max_attempts * p.interval_ms) by (nonlinear_arith)
            requires
                a.attempts_spec() >= 1,
                a.attempts_spec() <= p.max_attempts,
                p.interval_ms > 0;
    }
}

/// The frontend script that publishes a ready backend's port.
pub open spec fn ready_script_spec(port: u16) -> Seq<char> {
    "localStorage.setItem('backend_port', '"@ + decimal_spec(port as nat)
        + "'); localStorage.removeItem('backend_error'); console.log('Backend port injected:', "@
        + decimal_spec(port as nat) + ");"@
}

pub fn ready_script(port: u16) -> (r: String)
    ensures
        r@ == ready_script_spec(port),
{
    let digits = decimal_text(port as u64);
    let mut s = String::from_str("localStorage.setItem('backend_port', '");
    s.append(digits.as_str());
    s.append("'); localStorage.removeItem('backend_error'); console.log('Backend port injected:', ");
    s.append(digits.as_str());
    s.append(");");
    s
}

/// The frontend script that flags a backend that failed to start.
pub fn error_script() -> (r: &'static str)
    ensures
        r@ == "localStorage.setItem('backend_error', 'true');"@,
{
    "localStorage.setItem('backend_error', 'true');"
}

/// The notification for `outcome`, as a frontend script.
pub fn outcome_script(outcome: ReadinessOutcome) -> (r: String)
    ensures
        r@ == match outcome {
            ReadinessOutcome::Ready { port } => ready_script_spec(port),
            ReadinessOutcome::Failed => "localStorage.setItem('backend_error', 'true');"@,
        },
{
    match outcome {
        ReadinessOutcome::Ready { port } => ready_script(port),
        ReadinessOutcome::Failed => String::from_str(error_script()),
    }
}

} // verus!
