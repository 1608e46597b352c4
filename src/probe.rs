use vstd::prelude::*;

verus! {

/// The terminal result of the readiness handshake.
#[derive(Clone, Copy, Debug, PartialEq, Eq, Structural)]
pub enum ReadinessOutcome {
    Ready { port: u16 },
    Failed,
}

/// The time bounds of the handshake, in milliseconds.
#[derive(Clone, Copy, Debug, PartialEq, Eq, Structural)]
pub struct ProbeTiming {
    /// Overall bound, measured from process start.
    pub startup_timeout_ms: u64,
    /// Pause between two health checks.
    pub health_poll_ms: u64,
    /// Longest single wait on the port handoff.
    pub port_poll_ms: u64,
}

impl ProbeTiming {
    /// All durations are positive, and a wait on the port handoff is no
    /// longer than the pause between health checks.
    pub open spec fn wf(&self) -> bool {
        self.startup_timeout_ms > 0 && self.health_poll_ms > 0 && self.port_poll_ms > 0
            && self.port_poll_ms <= self.health_poll_ms
    }
}

/// Where the handshake stands.
#[derive(Clone, Copy, Debug, PartialEq, Eq, Structural)]
pub enum ProbePhase {
    /// The backend has not reported its port yet.
    AwaitingPort,
    /// The port is known; the health endpoint is being polled.
    Polling { port: u16 },
    /// The outcome is final.
    Finished { outcome: ReadinessOutcome },
}

/// What the driver of the handshake observed.
#[derive(Clone, Copy, Debug, PartialEq, Eq, Structural)]
pub enum ProbeEvent {
    Started,
    PortReceived { port: u16 },
    PortWaitTimedOut,
    PortChannelClosed,
    HealthSucceeded,
    HealthFailed,
    SleepElapsed,
}

/// What the driver is to do next.
#[derive(Clone, Copy, Debug, PartialEq, Eq, Structural)]
pub enum ProbeAction {
    /// Wait on the port handoff for at most `max_ms`.
    WaitForPort { max_ms: u64 },
    /// Issue one health request to the backend on `port`.
    CheckHealth { port: u16 },
    /// Pause for `ms`.
    Sleep { ms: u64 },
    /// Hand the final outcome on.
    Report { outcome: ReadinessOutcome },
}

/// The step that ends the handshake with `Failed`.
pub open spec fn failed_step() -> (ProbePhase, ProbeAction) {
    (
        ProbePhase::Finished { outcome: ReadinessOutcome::Failed },
        ProbeAction::Report { outcome: ReadinessOutcome::Failed },
    )
}

/// The handshake's transition: from the phase, the event and the time
/// elapsed since process start to the next phase and action.
pub open spec fn probe_next(t: ProbeTiming, phase: ProbePhase, event: ProbeEvent, elapsed_ms: u64) -> (
    ProbePhase,
    ProbeAction,
) {
    match phase {
        ProbePhase::Finished { outcome } => (phase, ProbeAction::Report { outcome }),
        ProbePhase::AwaitingPort => match event {
            ProbeEvent::PortReceived { port } => if elapsed_ms < t.startup_timeout_ms {
                (ProbePhase::Polling { port }, ProbeAction::CheckHealth { port })
            } else {
                failed_step()
            },
            ProbeEvent::PortChannelClosed => failed_step(),
            _ => if elapsed_ms > t.startup_timeout_ms {
                failed_step()
            } else {
                (phase, ProbeAction::WaitForPort { max_ms: t.port_poll_ms })
            },
        },
        ProbePhase::Polling { port } => match event {
            ProbeEvent::HealthSucceeded => (
                ProbePhase::Finished { outcome: ReadinessOutcome::Ready { port } },
                ProbeAction::Report { outcome: ReadinessOutcome::Ready { port } },
            ),
            ProbeEvent::HealthFailed => if elapsed_ms < t.startup_timeout_ms {
                (phase, ProbeAction::Sleep { ms: t.health_poll_ms })
            } else {
                failed_step()
            },
            _ => if elapsed_ms < t.startup_timeout_ms {
                (phase, ProbeAction::CheckHealth { port })
            } else {
                failed_step()
            },
        },
    }
}

/// The readiness handshake: waits for the backend's port, then polls its
/// health, all within the startup timeout.
pub struct ReadinessProbe {
    timing: ProbeTiming,
    phase: ProbePhase,
}

impl ReadinessProbe {
    pub closed spec fn timing_spec(&self) -> ProbeTiming {
        self.timing
    }

    pub closed spec fn phase_spec(&self) -> ProbePhase {
        self.phase
    }

    /// A handshake for a backend that reports its own port (`known_port` is
    /// `None`), or one whose port was chosen before the spawn.
    pub fn new(timing: ProbeTiming, known_port: Option<u16>) -> (r: ReadinessProbe)
        ensures
            r.timing_spec() == timing,
            r.phase_spec() == match known_port {
                Some(port) => ProbePhase::Polling { port },
                None => ProbePhase::AwaitingPort,
            },
    {
        let phase = match known_port {
            Some(port) => ProbePhase::Polling { port },
            None => ProbePhase::AwaitingPort,
        };
        ReadinessProbe { timing, phase }
    }

    pub fn phase(&self) -> (r: ProbePhase)
        ensures
            r == self.phase_spec(),
    {
        self.phase
    }

    /// The final outcome, once there is one.
    pub fn outcome(&self) -> (r: Option<ReadinessOutcome>)
        ensures
            r == match self.phase_spec() {
                ProbePhase::Finished { outcome } => Some(outcome),
                _ => None,
            },
    {
        match self.phase {
            ProbePhase::Finished { outcome } => Some(outcome),
            _ => None,
        }
    }

    /// Takes what the driver observed at `elapsed_ms` after process start and
    /// returns what it is to do next.
    pub fn step(&mut self, event: ProbeEvent, elapsed_ms: u64) -> (r: ProbeAction)
        ensures
            final(self).timing_spec() == old(self).timing_spec(),
            (final(self).phase_spec(), r) == probe_next(old(self).timing_spec(), old(self).phase_spec(), event, elapsed_ms),
    {
        let t = self.timing;
        let failed = ReadinessOutcome::Failed;
        let (phase, action) = match self.phase {
            ProbePhase::Finished { outcome } => (self.phase, ProbeAction::Report { outcome }),
            ProbePhase::AwaitingPort => match event {
                ProbeEvent::PortReceived { port } => if elapsed_ms < t.startup_timeout_ms {
                    (ProbePhase::Polling { port }, ProbeAction::CheckHealth { port })
                } else {
                    (ProbePhase::Finished { outcome: failed }, ProbeAction::Report { outcome: failed })
                },
                ProbeEvent::PortChannelClosed => (
                    ProbePhase::Finished { outcome: failed },
                    ProbeAction::Report { outcome: failed },
                ),
                _ => if elapsed_ms > t.startup_timeout_ms {
                    (ProbePhase::Finished { outcome: failed }, ProbeAction::Report { outcome: failed })
                } else {
                    (self.phase, ProbeAction::WaitForPort { max_ms: t.port_poll_ms })
                },
            },
            ProbePhase::Polling { port } => match event {
                ProbeEvent::HealthSucceeded => (
                    ProbePhase::Finished { outcome: ReadinessOutcome::Ready { port } },
                    ProbeAction::Report { outcome: ReadinessOutcome::Ready { port } },
                ),
                ProbeEvent::HealthFailed => if elapsed_ms < t.startup_timeout_ms {
                    (self.phase, ProbeAction::Sleep { ms: t.health_poll_ms })
                } else {
                    (ProbePhase::Finished { outcome: failed }, ProbeAction::Report { outcome: failed })
                },
                _ => if elapsed_ms < t.startup_timeout_ms {
                    (self.phase, ProbeAction::CheckHealth { port })
                } else {
                    (ProbePhase::Finished { outcome: failed }, ProbeAction::Report { outcome: failed })
                },
            },
        };
        self.phase = phase;
        action
    }
}

/// Once the startup timeout has passed, the first event that is not a health
/// success ends the handshake with `Failed`; and no wait the handshake asks
/// for is longer than one health poll interval. So a backend that never
/// turns healthy is reported failed no later than one poll interval after
/// the timeout.
pub proof fn lemma_readiness_bound(t: ProbeTiming, phase: ProbePhase, event: ProbeEvent, elapsed_ms: u64)
    requires
        t.wf(),
    ensures
        !(phase is Finished) && elapsed_ms > t.startup_timeout_ms && event != ProbeEvent::HealthSucceeded
            ==> probe_next(t, phase, event, elapsed_ms) == failed_step(),
        probe_next(t, phase, event, elapsed_ms).1 matches ProbeAction::WaitForPort { max_ms } ==> max_ms <= t.health_poll_ms,
        probe_next(t, phase, event, elapsed_ms).1 matches ProbeAction::Sleep { ms } ==> ms <= t.health_poll_ms,
{
}

/// An outcome is reported only when it is justified: `Ready` on the port the
/// backend reported, and only after a health success; `Failed` only once the
/// timeout has been reached or the port handoff has closed. A final outcome
/// never changes.
pub proof fn lemma_outcome_justified(t: ProbeTiming, phase: ProbePhase, event: ProbeEvent, elapsed_ms: u64)
    ensures
        phase matches ProbePhase::Finished { outcome } ==> probe_next(t, phase, event, elapsed_ms) == (
            phase,
            ProbeAction::Report { outcome },
        ),
        forall|port: u16|
            !(phase is Finished) && probe_next(t, phase, event, elapsed_ms).0 == (ProbePhase::Finished { outcome: ReadinessOutcome::Ready { port } })
                ==> event == ProbeEvent::HealthSucceeded && phase == (ProbePhase::Polling { port }),
        !(phase is Finished) && probe_next(t, phase, event, elapsed_ms).0 == (ProbePhase::Finished { outcome: ReadinessOutcome::Failed })
            ==> elapsed_ms >= t.startup_timeout_ms || event == ProbeEvent::PortChannelClosed,
{
}

/// The phase reached from `phase` after the timed events `events`, in order.
pub open spec fn run_phase(t: ProbeTiming, phase: ProbePhase, events: Seq<(ProbeEvent, u64)>) -> ProbePhase
    decreases events.len(),
{
    if events.len() == 0 {
        phase
    } else {
        let (event, elapsed_ms) = events.last();
        probe_next(t, run_phase(t, phase, events.drop_last()), event, elapsed_ms).0
    }
}

pub open spec fn never_healthy(events: Seq<(ProbeEvent, u64)>) -> bool {
    forall|i: int| 0 <= i < events.len() ==> (#[trigger] events[i]).0 != ProbeEvent::HealthSucceeded
}

pub open spec fn is_ready(phase: ProbePhase) -> bool {
    phase matches ProbePhase::Finished { outcome: ReadinessOutcome::Ready { .. } }
}

proof fn lemma_never_healthy_init(events: Seq<(ProbeEvent, u64)>)
    requires
        never_healthy(events),
        events.len() > 0,
    ensures
        never_healthy(events.drop_last()),
{
    let init = events.drop_last();
    assert forall|i: int| 0 <= i < init.len() implies (#[trigger] init[i]).0 != ProbeEvent::HealthSucceeded by {
        assert(init[i] == events[i]);
    }
}

proof fn lemma_never_ready(t: ProbeTiming, phase: ProbePhase, events: Seq<(ProbeEvent, u64)>)
    requires
        !is_ready(phase),
        never_healthy(events),
    ensures
        !is_ready(run_phase(t, phase, events)),
    decreases events.len(),
{
    if events.len() > 0 {
        let init = events.drop_last();
        lemma_never_healthy_init(events);
        lemma_never_ready(t, phase, init);
        assert(events.last() == events[events.len() - 1]);
    }
}

/// In a run in which the backend never answers a health check with success,
/// every event observed after the startup timeout leaves the handshake
/// finished with `Failed`.
pub proof fn lemma_never_healthy_fails(t: ProbeTiming, phase: ProbePhase, events: Seq<(ProbeEvent, u64)>)
    requires
        !is_ready(phase),
        never_healthy(events),
        events.len() > 0,
        events.last().1 > t.startup_timeout_ms,
    ensures
        run_phase(t, phase, events) == (ProbePhase::Finished { outcome: ReadinessOutcome::Failed }),
{
    let init = events.drop_last();
    lemma_never_healthy_init(events);
    lemma_never_ready(t, phase, init);
    assert(events.last() == events[events.len() - 1]);
}

} // verus!
