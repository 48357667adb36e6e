//! Decisions of the storage supervisor and of the first connection to the database, as
//! step functions: the caller performs the outside work (connect, check, reconnect, ping,
//! sleep) and hands back what came of it.

use vstd::prelude::*;

use crate::store::{next_delay_ms, RetryPolicy};

verus! {

/// First wait of the supervisor, in milliseconds.
pub const SUPERVISOR_INITIAL_DELAY_MS: u64 = 1000;

/// Longest wait of the supervisor, in milliseconds.
pub const SUPERVISOR_MAX_DELAY_MS: u64 = 10000;

/// Wait between two health checks of a working backend, in milliseconds.
pub const HEALTH_POLL_INTERVAL_MS: u64 = 5000;

/// Reconnection attempts after a failed health check before connecting afresh.
pub const MAX_RECONNECT_ATTEMPTS: u32 = 3;

/// Wait after `current` milliseconds: twice as long, at most ten seconds.
pub open spec fn doubled_delay(current: u64) -> u64 {
    if 2 * current < SUPERVISOR_MAX_DELAY_MS {
        (2 * current) as u64
    } else {
        SUPERVISOR_MAX_DELAY_MS
    }
}

/// What the supervisor does next.
#[derive(Clone, Copy, Debug, PartialEq, Eq, Structural)]
pub enum SupervisorPhase {
    /// Connect to the backend.
    Connecting,
    /// Check the health of the connected backend.
    Monitoring,
    /// Ask the backend to reconnect, after `attempt` failed attempts, waiting `retry_delay_ms`
    /// after the next failure.
    Reconnecting { attempt: u32, retry_delay_ms: u64 },
}

/// State of the supervisor: its phase, and the wait after the next failed connection.
#[derive(Clone, Copy, Debug, PartialEq, Eq, Structural)]
pub struct Supervisor {
    /// What comes next.
    pub phase: SupervisorPhase,
    /// Wait after the next failed connection (or exhausted reconnection), in milliseconds.
    pub delay_ms: u64,
}

/// What came of the work the phase asked for.
#[derive(Clone, Copy, Debug, PartialEq, Eq, Structural)]
pub enum SupervisorEvent {
    /// The connection was made.
    ConnectSucceeded,
    /// The connection failed.
    ConnectFailed,
    /// The backend answered the health check; `degraded` is the current mode.
    HealthOk { degraded: bool },
    /// The health check failed.
    HealthFailed,
    /// The backend reconnected.
    ReconnectSucceeded,
    /// The reconnection failed.
    ReconnectFailed,
}

/// What the caller does before the next phase's work.
#[derive(Clone, Copy, Debug, PartialEq, Eq, Structural)]
pub struct SupervisorAction {
    /// Hand the freshly connected backend to the application.
    pub install_store: bool,
    /// Switch the degraded mode to this value.
    pub set_degraded: Option<bool>,
    /// Then wait this long, in milliseconds.
    pub sleep_ms: u64,
}

/// The waits stay between one and ten seconds, and the attempts below their limit.
pub open spec fn supervisor_well_formed(s: Supervisor) -> bool {
    &&& SUPERVISOR_INITIAL_DELAY_MS <= s.delay_ms <= SUPERVISOR_MAX_DELAY_MS
    &&& match s.phase {
        SupervisorPhase::Reconnecting { attempt, retry_delay_ms } => attempt < MAX_RECONNECT_ATTEMPTS
            && SUPERVISOR_INITIAL_DELAY_MS <= retry_delay_ms <= SUPERVISOR_MAX_DELAY_MS,
        _ => true,
    }
}

/// Nothing to do.
pub open spec fn idle() -> SupervisorAction {
    SupervisorAction { install_store: false, set_degraded: None, sleep_ms: 0 }
}

/// The next state and action of the supervisor on an event. Events that the phase does not
/// wait for change nothing.
pub open spec fn supervisor_next(s: Supervisor, e: SupervisorEvent) -> (Supervisor, SupervisorAction) {
    match (s.phase, e) {
        (SupervisorPhase::Connecting, SupervisorEvent::ConnectSucceeded) => (
            Supervisor { phase: SupervisorPhase::Monitoring, delay_ms: SUPERVISOR_INITIAL_DELAY_MS },
            SupervisorAction { install_store: true, set_degraded: None, sleep_ms: 0 },
        ),
        (SupervisorPhase::Connecting, SupervisorEvent::ConnectFailed) => (
            Supervisor { phase: SupervisorPhase::Connecting, delay_ms: doubled_delay(s.delay_ms) },
            SupervisorAction { install_store: false, set_degraded: None, sleep_ms: s.delay_ms },
        ),
        (SupervisorPhase::Monitoring, SupervisorEvent::HealthOk { degraded }) => (
            s,
            SupervisorAction {
                install_store: false,
                set_degraded: if degraded { Some(false) } else { None },
                sleep_ms: HEALTH_POLL_INTERVAL_MS,
            },
        ),
        (SupervisorPhase::Monitoring, SupervisorEvent::HealthFailed) => (
            Supervisor {
                phase: SupervisorPhase::Reconnecting { attempt: 0, retry_delay_ms: SUPERVISOR_INITIAL_DELAY_MS },
                delay_ms: s.delay_ms,
            },
            idle(),
        ),
        (SupervisorPhase::Reconnecting { .. }, SupervisorEvent::ReconnectSucceeded) => (
            Supervisor { phase: SupervisorPhase::Monitoring, delay_ms: s.delay_ms },
            SupervisorAction { install_store: false, set_degraded: Some(false), sleep_ms: HEALTH_POLL_INTERVAL_MS },
        ),
        (SupervisorPhase::Reconnecting { attempt, retry_delay_ms }, SupervisorEvent::ReconnectFailed) => {
            let set_degraded = if attempt == 0 { Some(true) } else { None };
            if attempt + 1 < MAX_RECONNECT_ATTEMPTS {
                (
                    Supervisor {
                        phase: SupervisorPhase::Reconnecting {
                            attempt: (attempt + 1) as u32,
                            retry_delay_ms: doubled_delay(retry_delay_ms),
                        },
                        delay_ms: s.delay_ms,
                    },
                    SupervisorAction { install_store: false, set_degraded, sleep_ms: retry_delay_ms },
                )
            } else {
                (
                    Supervisor { phase: SupervisorPhase::Connecting, delay_ms: doubled_delay(s.delay_ms) },
                    SupervisorAction {
                        install_store: false,
                        set_degraded,
                        sleep_ms: (retry_delay_ms + s.delay_ms) as u64,
                    },
                )
            }
        },
        _ => (s, idle()),
    }
}

/// Wait after `current` milliseconds: twice as long, at most ten seconds.
fn double_delay(current: u64) -> (d: u64)
    requires
        current <= SUPERVISOR_MAX_DELAY_MS,
    ensures
        d == doubled_delay(current),
{
    if 2 * current < SUPERVISOR_MAX_DELAY_MS {
        2 * current
    } else {
        SUPERVISOR_MAX_DELAY_MS
    }
}

impl Supervisor {
    /// A supervisor about to make its first connection.
    pub fn new() -> (s: Self)
        ensures
            s.phase == SupervisorPhase::Connecting,
            s.delay_ms == SUPERVISOR_INITIAL_DELAY_MS,
            supervisor_well_formed(s),
    {
        Supervisor { phase: SupervisorPhase::Connecting, delay_ms: SUPERVISOR_INITIAL_DELAY_MS }
    }

    /// Take in what came of the phase's work: move to the next phase and say what to do.
    pub fn step(&mut self, event: SupervisorEvent) -> (a: SupervisorAction)
        requires
            supervisor_well_formed(*old(self)),
        ensures
            (*final(self), a) == supervisor_next(*old(self), event),
            supervisor_well_formed(*final(self)),
    {
        let delay = self.delay_ms;
        match (self.phase, event) {
            (SupervisorPhase::Connecting, SupervisorEvent::ConnectSucceeded) => {
                self.phase = SupervisorPhase::Monitoring;
                self.delay_ms = SUPERVISOR_INITIAL_DELAY_MS;
                SupervisorAction { install_store: true, set_degraded: None, sleep_ms: 0 }
            },
            (SupervisorPhase::Connecting, SupervisorEvent::ConnectFailed) => {
                self.delay_ms = double_delay(delay);
                SupervisorAction { install_store: false, set_degraded: None, sleep_ms: delay }
            },
            (SupervisorPhase::Monitoring, SupervisorEvent::HealthOk { degraded }) => {
                SupervisorAction {
                    install_store: false,
                    set_degraded: if degraded { Some(false) } else { None },
                    sleep_ms: HEALTH_POLL_INTERVAL_MS,
                }
            },
            (SupervisorPhase::Monitoring, SupervisorEvent::HealthFailed) => {
                self.phase = SupervisorPhase::Reconnecting { attempt: 0, retry_delay_ms: SUPERVISOR_INITIAL_DELAY_MS };
                SupervisorAction { install_store: false, set_degraded: None, sleep_ms: 0 }
            },
            (SupervisorPhase::Reconnecting { .. }, SupervisorEvent::ReconnectSucceeded) => {
                self.phase = SupervisorPhase::Monitoring;
                SupervisorAction { install_store: false, set_degraded: Some(false), sleep_ms: HEALTH_POLL_INTERVAL_MS }
            },
            (SupervisorPhase::Reconnecting { attempt, retry_delay_ms }, SupervisorEvent::ReconnectFailed) => {
                let set_degraded = if attempt == 0 { Some(true) } else { None };
                if attempt + 1 < MAX_RECONNECT_ATTEMPTS {
                    self.phase = SupervisorPhase::Reconnecting {
                        attempt: attempt + 1,
                        retry_delay_ms: double_delay(retry_delay_ms),
                    };
                    SupervisorAction { install_store: false, set_degraded, sleep_ms: retry_delay_ms }
                } else {
                    self.phase = SupervisorPhase::Connecting;
                    self.delay_ms = double_delay(delay);
                    SupervisorAction { install_store: false, set_degraded, sleep_ms: retry_delay_ms + delay }
                }
            },
            _ => SupervisorAction { install_store: false, set_degraded: None, sleep_ms: 0 },
        }
    }
}

/// Progress of the first connection to the database: failed pings so far, and the wait
/// before the next one.
#[derive(Clone, Copy, Debug, PartialEq, Eq, Structural)]
pub struct ConnectAttempts {
    /// Pings that failed.
    pub failures: u32,
    /// Wait before the next ping, in milliseconds.
    pub delay_ms: u64,
}

/// What to do after a ping.
#[derive(Clone, Copy, Debug, PartialEq, Eq, Structural)]
pub enum ConnectDecision {
    /// The database answered: the connection is made.
    Connected,
    /// Too many pings failed: give up, reporting how many were made.
    GiveUp { attempts: u32 },
    /// Wait this long, then ping again.
    RetryAfter { delay_ms: u64 },
}

/// A first connection still under way: fewer failures than the limit, and a wait of at
/// most five seconds.
pub open spec fn attempts_well_formed(c: ConnectAttempts) -> bool {
    c.failures < RetryPolicy::MAX_ATTEMPTS && c.delay_ms <= 5000
}

/// The next progress and decision after a ping that succeeded (`ok`) or failed.
pub open spec fn connect_next(c: ConnectAttempts, ok: bool) -> (ConnectAttempts, ConnectDecision) {
    if ok {
        (c, ConnectDecision::Connected)
    } else if c.failures + 1 >= RetryPolicy::MAX_ATTEMPTS {
        (ConnectAttempts { failures: (c.failures + 1) as u32, delay_ms: c.delay_ms },
         ConnectDecision::GiveUp { attempts: (c.failures + 1) as u32 })
    } else {
        (ConnectAttempts { failures: (c.failures + 1) as u32, delay_ms: next_delay_ms(c.delay_ms) as u64 },
         ConnectDecision::RetryAfter { delay_ms: c.delay_ms })
    }
}

impl ConnectAttempts {
    /// No ping made yet; the first wait is a quarter of a second.
    pub fn new() -> (c: Self)
        ensures
            c.failures == 0,
            c.delay_ms == 250,
            attempts_well_formed(c),
    {
        ConnectAttempts { failures: 0, delay_ms: RetryPolicy::initial_delay() }
    }

    /// Take in the outcome of a ping and decide what comes next.
    pub fn on_ping(&mut self, ok: bool) -> (d: ConnectDecision)
        requires
            attempts_well_formed(*old(self)),
        ensures
            (*final(self), d) == connect_next(*old(self), ok),
            d is RetryAfter ==> attempts_well_formed(*final(self)),
    {
        if ok {
            return ConnectDecision::Connected;
        }
        let failures = self.failures + 1;
        if failures >= RetryPolicy::MAX_ATTEMPTS {
            self.failures = failures;
            ConnectDecision::GiveUp { attempts: failures }
        } else {
            let wait = self.delay_ms;
            self.failures = failures;
            self.delay_ms = RetryPolicy::next_delay(wait);
            ConnectDecision::RetryAfter { delay_ms: wait }
        }
    }
}

} // verus!
