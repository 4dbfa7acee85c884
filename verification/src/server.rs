//! The server's life as a state machine: it starts by loading configuration,
//! building the pool and binding the listener, then serves indefinitely; any
//! startup failure is fatal and final. The outside work (reading the
//! environment, connecting, binding, accepting requests) is performed by the
//! caller, which reports each outcome as an event and obeys the phase this
//! module decides.

use vstd::prelude::*;

use crate::config::StartupError;
use crate::health::HealthResponse;
use crate::health::health_response;
use crate::health::spec_body;
use crate::health::spec_status;

verus! {

/// Where the server stands. The first three phases are the steps of startup,
/// in the order they must happen; `Serving` accepts requests indefinitely;
/// `Failed` is the fatal end of a startup that went wrong.
#[derive(Clone, Copy, Debug, PartialEq, Eq, Structural)]
pub enum Phase {
    /// Startup: the connection string has not been read yet.
    AwaitingConfig,
    /// Startup: the configuration is loaded; the pool is not built yet.
    AwaitingPool,
    /// Startup: the pool is built; the listener is not bound yet.
    AwaitingBind,
    /// The server accepts and dispatches requests.
    Serving,
    /// Startup failed; the process terminates with this error.
    Failed(StartupError),
}

/// One outcome of the outside work done during startup.
#[derive(Debug, PartialEq, Eq)]
pub enum StartupEvent {
    /// The environment was read: the value of the connection-string
    /// variable, if it was set.
    EnvRead(Option<String>),
    /// Pool construction finished: whether the connection string was
    /// accepted (lazily, without touching the network).
    PoolBuilt(bool),
    /// The bind of the listening address finished: whether it succeeded.
    BindCompleted(bool),
}

/// The phase that follows `phase` when `event` is reported. An event that
/// does not belong to the current phase changes nothing; a failure during
/// startup is fatal and `Failed` is never left.
pub open spec fn phase_after(phase: Phase, event: StartupEvent) -> Phase {
    match phase {
        Phase::AwaitingConfig => match event {
            StartupEvent::EnvRead(v) => if v is Some {
                Phase::AwaitingPool
            } else {
                Phase::Failed(StartupError::MissingDatabaseUrl)
            },
            _ => phase,
        },
        Phase::AwaitingPool => match event {
            StartupEvent::PoolBuilt(ok) => if ok {
                Phase::AwaitingBind
            } else {
                Phase::Failed(StartupError::InvalidDatabaseUrl)
            },
            _ => phase,
        },
        Phase::AwaitingBind => match event {
            StartupEvent::BindCompleted(ok) => if ok {
                Phase::Serving
            } else {
                Phase::Failed(StartupError::BindFailed)
            },
            _ => phase,
        },
        Phase::Serving => phase,
        Phase::Failed(_) => phase,
    }
}

/// Advance the server by one reported outcome.
pub fn on_event(phase: Phase, event: &StartupEvent) -> (next: Phase)
    ensures
        next == phase_after(phase, *event),
{
    match phase {
        Phase::AwaitingConfig => match event {
            StartupEvent::EnvRead(v) => match v {
                Some(_) => Phase::AwaitingPool,
                None => Phase::Failed(StartupError::MissingDatabaseUrl),
            },
            _ => phase,
        },
        Phase::AwaitingPool => match event {
            StartupEvent::PoolBuilt(ok) => if *ok {
                Phase::AwaitingBind
            } else {
                Phase::Failed(StartupError::InvalidDatabaseUrl)
            },
            _ => phase,
        },
        Phase::AwaitingBind => match event {
            StartupEvent::BindCompleted(ok) => if *ok {
                Phase::Serving
            } else {
                Phase::Failed(StartupError::BindFailed)
            },
            _ => phase,
        },
        Phase::Serving => phase,
        Phase::Failed(_) => phase,
    }
}

/// Whether the server is in the phase that accepts requests.
pub fn is_serving(phase: &Phase) -> (r: bool)
    ensures
        r == (phase is Serving),
{
    match phase {
        Phase::Serving => true,
        _ => false,
    }
}

/// Dispatch one inbound health-check request: only a serving server answers,
/// and its answer is decided by the database outcome alone.
pub fn handle_request(phase: &Phase, db_ok: bool) -> (r: Option<HealthResponse>)
    ensures
        match r {
            Some(resp) => phase is Serving && resp.status == spec_status(db_ok)
                && resp.body@ == spec_body(db_ok),
            None => !(phase is Serving),
        },
{
    if is_serving(phase) {
        Some(health_response(db_ok))
    } else {
        None
    }
}

/// The phase reached from `phase` after every event of `events` has been
/// reported, in order.
pub open spec fn run(phase: Phase, events: Seq<StartupEvent>) -> Phase
    decreases events.len(),
{
    if events.len() == 0 {
        phase
    } else {
        run(phase_after(phase, events[0]), events.skip(1))
    }
}

/// A failed startup is final: no later event leaves `Failed`.
pub proof fn lemma_failed_is_final(e: StartupError, events: Seq<StartupEvent>)
    ensures
        run(Phase::Failed(e), events) == Phase::Failed(e),
    decreases events.len(),
{
    if events.len() > 0 {
        lemma_failed_is_final(e, events.skip(1));
    }
}

/// A server that serves goes on serving: no startup event changes that.
pub proof fn lemma_serving_is_stable(events: Seq<StartupEvent>)
    ensures
        run(Phase::Serving, events) == Phase::Serving,
    decreases events.len(),
{
    if events.len() > 0 {
        lemma_serving_is_stable(events.skip(1));
    }
}

/// When the environment held no connection string, every later moment of the
/// run stands at the same fatal error: the server never reaches the phase
/// that binds the listener, nor the one that serves, so no port is opened
/// and no request is answered.
pub proof fn lemma_missing_env_never_serves(events: Seq<StartupEvent>, k: int)
    requires
        1 <= k <= events.len(),
        events[0] == StartupEvent::EnvRead(None::<String>),
    ensures
        run(Phase::AwaitingConfig, events.take(k)) == Phase::Failed(
            StartupError::MissingDatabaseUrl,
        ),
{
    assert(events.take(k)[0] == events[0]);
    lemma_failed_is_final(StartupError::MissingDatabaseUrl, events.take(k).skip(1));
}

/// When the listening address could not be bound, every later moment of the
/// run stands at the same fatal error: the server never serves, so no
/// request is answered.
pub proof fn lemma_bind_failure_never_serves(events: Seq<StartupEvent>, url: String, k: int)
    requires
        3 <= k <= events.len(),
        events[0] == StartupEvent::EnvRead(Some(url)),
        events[1] == StartupEvent::PoolBuilt(true),
        events[2] == StartupEvent::BindCompleted(false),
    ensures
        run(Phase::AwaitingConfig, events.take(k)) == Phase::Failed(StartupError::BindFailed),
{
    let t = events.take(k);
    assert(t[0] == events[0]);
    assert(t.skip(1)[0] == events[1]);
    assert(t.skip(1).skip(1)[0] == events[2]);
    assert(run(Phase::AwaitingConfig, t) == run(Phase::AwaitingPool, t.skip(1)));
    assert(run(Phase::AwaitingPool, t.skip(1)) == run(Phase::AwaitingBind, t.skip(1).skip(1)));
    assert(run(Phase::AwaitingBind, t.skip(1).skip(1)) == run(
        Phase::Failed(StartupError::BindFailed),
        t.skip(1).skip(1).skip(1),
    ));
    lemma_failed_is_final(StartupError::BindFailed, t.skip(1).skip(1).skip(1));
}

/// The fixed address and port the listener binds.
pub fn bind_address() -> (r: &'static str)
    ensures
        r@ == "0.0.0.0:8080"@,
{
    "0.0.0.0:8080"
}

/// The path of the one registered route.
pub fn health_route() -> (r: &'static str)
    ensures
        r@ == "/health"@,
{
    "/health"
}

} // verus!
