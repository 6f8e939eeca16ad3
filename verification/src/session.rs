//! The connect operation as a state machine: what the driver must do next
//! (open a socket, write the handshake, validate the response) and how each
//! outcome moves the session forward. The driver performs the I/O and hands
//! back one event per step; every decision — the one-shot fallback, the
//! uniform continuation on a direct stream, which flag the finished stream
//! carries — is taken here.

use vstd::prelude::*;
use crate::strategy::spec_fallback_route;
use crate::strategy::spec_initial_route;
use crate::strategy::spec_route_is_proxied;
use crate::strategy::fallback_route;
use crate::strategy::initial_route;
use crate::strategy::route_is_proxied;
use crate::strategy::Route;

verus! {

/// Where a connect session stands. The payload of the middle phases is the
/// `is_proxied` flag of the stream being established; `Ready` carries the
/// flag the finished stream keeps for its whole life.
#[derive(Clone, Copy, Debug, PartialEq, Eq, Structural)]
pub enum Phase {
    /// A socket to the given route's endpoint must be opened.
    Opening(Route),
    /// The handshake (the CONNECT line, or zero bytes) must be written.
    Handshaking(bool),
    /// The response validator must be run (it succeeds at once when the
    /// stream is not proxied).
    Validating(bool),
    /// The stream is established; terminal.
    Ready(bool),
    /// The operation failed and the error propagates; terminal.
    Failed,
}

/// The outcome of the I/O step a phase asked for.
#[derive(Clone, Copy, Debug, PartialEq, Eq, Structural)]
pub enum Event {
    Opened,
    OpenFailed,
    Written,
    WriteFailed,
    Validated,
    ValidationFailed,
}

/// One step of the session: a successful open leads to the handshake with
/// the flag of the route that succeeded; a failed open takes the fallback
/// route if one is left and fails otherwise; write and validation outcomes
/// move on or fail; the terminal phases never move again. An event a phase
/// did not ask for fails the session.
pub open spec fn spec_step(p: Phase, e: Event) -> Phase {
    match (p, e) {
        (Phase::Opening(route), Event::Opened) => Phase::Handshaking(
            spec_route_is_proxied(route),
        ),
        (Phase::Opening(route), Event::OpenFailed) => match spec_fallback_route(route) {
            Some(next) => Phase::Opening(next),
            None => Phase::Failed,
        },
        (Phase::Handshaking(is_proxied), Event::Written) => Phase::Validating(is_proxied),
        (Phase::Handshaking(_), Event::WriteFailed) => Phase::Failed,
        (Phase::Validating(is_proxied), Event::Validated) => Phase::Ready(is_proxied),
        (Phase::Validating(_), Event::ValidationFailed) => Phase::Failed,
        (Phase::Ready(is_proxied), _) => Phase::Ready(is_proxied),
        (Phase::Failed, _) => Phase::Failed,
        (_, _) => Phase::Failed,
    }
}

/// The session a connect operation starts in: opening the proxy's endpoint
/// when a proxy is configured, the destination itself otherwise.
pub open spec fn spec_initial_phase(has_proxy: bool) -> Phase {
    Phase::Opening(spec_initial_route(has_proxy))
}

/// The phase after the whole event sequence, one step per event.
pub open spec fn spec_run(p: Phase, events: Seq<Event>) -> Phase
    decreases events.len(),
{
    if events.len() == 0 {
        p
    } else {
        spec_run(spec_step(p, events[0]), events.skip(1))
    }
}

pub fn initial_phase(has_proxy: bool) -> (r: Phase)
    ensures
        r == spec_initial_phase(has_proxy),
{
    Phase::Opening(initial_route(has_proxy))
}

pub fn step(p: Phase, e: Event) -> (r: Phase)
    ensures
        r == spec_step(p, e),
{
    match (p, e) {
        (Phase::Opening(route), Event::Opened) => Phase::Handshaking(route_is_proxied(route)),
        (Phase::Opening(route), Event::OpenFailed) => match fallback_route(route) {
            Some(next) => Phase::Opening(next),
            None => Phase::Failed,
        },
        (Phase::Handshaking(is_proxied), Event::Written) => Phase::Validating(is_proxied),
        (Phase::Handshaking(_), Event::WriteFailed) => Phase::Failed,
        (Phase::Validating(is_proxied), Event::Validated) => Phase::Ready(is_proxied),
        (Phase::Validating(_), Event::ValidationFailed) => Phase::Failed,
        (Phase::Ready(is_proxied), _) => Phase::Ready(is_proxied),
        (Phase::Failed, _) => Phase::Failed,
        (_, _) => Phase::Failed,
    }
}

/// The terminal phases absorb: once ready or failed, no event moves the
/// session again.
pub proof fn lemma_terminal_phases_absorb(is_proxied: bool, events: Seq<Event>)
    ensures
        spec_run(Phase::Ready(is_proxied), events) == Phase::Ready(is_proxied),
        spec_run(Phase::Failed, events) == Phase::Failed,
    decreases events.len(),
{
    if events.len() > 0 {
        lemma_terminal_phases_absorb(is_proxied, events.skip(1));
    }
}

/// Every phase a session without a proxy can reach carries a direct,
/// unproxied stream.
pub open spec fn unproxied_phase(p: Phase) -> bool {
    match p {
        Phase::Opening(route) => route is Direct,
        Phase::Handshaking(is_proxied) => !is_proxied,
        Phase::Validating(is_proxied) => !is_proxied,
        Phase::Ready(is_proxied) => !is_proxied,
        Phase::Failed => true,
    }
}

proof fn lemma_step_preserves_unproxied(p: Phase, e: Event)
    requires
        unproxied_phase(p),
    ensures
        unproxied_phase(spec_step(p, e)),
{
}

/// With no proxy configured, however the I/O goes, the session never
/// handshakes, validates or finishes as a proxied stream: whatever events
/// arrive, a session that ends ready ends with `is_proxied` false.
pub proof fn lemma_no_proxy_session_stays_direct(events: Seq<Event>)
    ensures
        unproxied_phase(spec_run(spec_initial_phase(false), events)),
{
    lemma_run_preserves_unproxied(spec_initial_phase(false), events);
}

proof fn lemma_run_preserves_unproxied(p: Phase, events: Seq<Event>)
    requires
        unproxied_phase(p),
    ensures
        unproxied_phase(spec_run(p, events)),
    decreases events.len(),
{
    if events.len() > 0 {
        lemma_step_preserves_unproxied(p, events[0]);
        lemma_run_preserves_unproxied(spec_step(p, events[0]), events.skip(1));
    }
}

/// Every phase of a session still on its proxied path: the flag it carries
/// is `true`, and only a failed open can ever leave this set.
pub open spec fn proxied_phase(p: Phase) -> bool {
    match p {
        Phase::Opening(route) => route is Proxied,
        Phase::Handshaking(is_proxied) => is_proxied,
        Phase::Validating(is_proxied) => is_proxied,
        Phase::Ready(is_proxied) => is_proxied,
        Phase::Failed => true,
    }
}

proof fn lemma_leaving_proxied_takes_open_failure(p: Phase, e: Event)
    requires
        proxied_phase(p),
        !proxied_phase(spec_step(p, e)),
    ensures
        e == Event::OpenFailed,
{
}

proof fn lemma_run_leaving_proxied_takes_open_failure(p: Phase, events: Seq<Event>)
    requires
        proxied_phase(p),
        !proxied_phase(spec_run(p, events)),
    ensures
        exists|i: int| 0 <= i < events.len() && events[i] == Event::OpenFailed,
    decreases events.len(),
{
    assert(events.len() > 0);
    let next = spec_step(p, events[0]);
    if proxied_phase(next) {
        lemma_run_leaving_proxied_takes_open_failure(next, events.skip(1));
        let j = choose|j: int|
            0 <= j < events.skip(1).len() && events.skip(1)[j] == Event::OpenFailed;
        assert(events[j + 1] == Event::OpenFailed);
    } else {
        lemma_leaving_proxied_takes_open_failure(p, events[0]);
        assert(events[0] == Event::OpenFailed);
    }
}

/// The finished flag reflects which attempt succeeded: a session that
/// starts with a proxy configured and ends ready with an unproxied stream
/// saw a failed connection attempt on the way — the stream is direct only
/// because the fallback ran.
pub proof fn lemma_unproxied_result_implies_fallback(events: Seq<Event>)
    requires
        spec_run(spec_initial_phase(true), events) == Phase::Ready(false),
    ensures
        exists|i: int| 0 <= i < events.len() && events[i] == Event::OpenFailed,
{
    lemma_run_leaving_proxied_takes_open_failure(spec_initial_phase(true), events);
}

/// The fallback is one-shot at the session level: the first failed open of
/// a proxied session retries on the direct route, and a second failed open
/// fails the whole operation.
pub proof fn lemma_session_fallback_is_one_shot()
    ensures
        spec_step(spec_initial_phase(true), Event::OpenFailed) == Phase::Opening(Route::Direct),
        spec_step(Phase::Opening(Route::Direct), Event::OpenFailed) == Phase::Failed,
{
}

} // verus!
