use proxy_tunnel::session::initial_phase;
use proxy_tunnel::session::step;
use proxy_tunnel::session::Event;
use proxy_tunnel::session::Phase;
use proxy_tunnel::strategy::Route;

#[test]
fn direct_session_runs_to_unproxied_ready() {
    let mut phase = initial_phase(false);
    assert_eq!(phase, Phase::Opening(Route::Direct));
    phase = step(phase, Event::Opened);
    assert_eq!(phase, Phase::Handshaking(false));
    phase = step(phase, Event::Written);
    assert_eq!(phase, Phase::Validating(false));
    phase = step(phase, Event::Validated);
    assert_eq!(phase, Phase::Ready(false));
}

#[test]
fn proxied_session_runs_to_proxied_ready() {
    let mut phase = initial_phase(true);
    assert_eq!(phase, Phase::Opening(Route::Proxied));
    phase = step(phase, Event::Opened);
    assert_eq!(phase, Phase::Handshaking(true));
    phase = step(phase, Event::Written);
    assert_eq!(phase, Phase::Validating(true));
    phase = step(phase, Event::Validated);
    assert_eq!(phase, Phase::Ready(true));
}

#[test]
fn failed_proxy_open_falls_back_to_direct_once() {
    let mut phase = initial_phase(true);
    phase = step(phase, Event::OpenFailed);
    assert_eq!(phase, Phase::Opening(Route::Direct));
    let failed_twice = step(phase, Event::OpenFailed);
    assert_eq!(failed_twice, Phase::Failed);
    phase = step(phase, Event::Opened);
    assert_eq!(phase, Phase::Handshaking(false));
    phase = step(phase, Event::Written);
    phase = step(phase, Event::Validated);
    assert_eq!(phase, Phase::Ready(false));
}

#[test]
fn write_and_validation_failures_end_the_session() {
    let handshaking = step(initial_phase(true), Event::Opened);
    assert_eq!(step(handshaking, Event::WriteFailed), Phase::Failed);
    let validating = step(handshaking, Event::Written);
    assert_eq!(step(validating, Event::ValidationFailed), Phase::Failed);
}

#[test]
fn terminal_phases_absorb_every_event() {
    let events = [
        Event::Opened,
        Event::OpenFailed,
        Event::Written,
        Event::WriteFailed,
        Event::Validated,
        Event::ValidationFailed,
    ];
    for &e in &events {
        assert_eq!(step(Phase::Ready(true), e), Phase::Ready(true));
        assert_eq!(step(Phase::Ready(false), e), Phase::Ready(false));
        assert_eq!(step(Phase::Failed, e), Phase::Failed);
    }
}

#[test]
fn unexpected_events_fail_the_session() {
    assert_eq!(step(Phase::Opening(Route::Direct), Event::Written), Phase::Failed);
    assert_eq!(step(Phase::Handshaking(true), Event::Opened), Phase::Failed);
    assert_eq!(step(Phase::Validating(false), Event::OpenFailed), Phase::Failed);
}
