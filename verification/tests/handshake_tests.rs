use spd2010_touch::handshake::{handshake_step, HandshakeEvent, HandshakeState};

#[test]
fn handshake_success_path() {
    let s0 = HandshakeState::Idle;
    let s1 = handshake_step(s0, HandshakeEvent::Edge);
    assert_eq!(s1, HandshakeState::Pending);
    let s2 = handshake_step(s1, HandshakeEvent::AckOk);
    assert_eq!(s2, HandshakeState::Acknowledging);
    let s3 = handshake_step(s2, HandshakeEvent::RearmOk);
    assert_eq!(s3, HandshakeState::Rearming);
    let s4 = handshake_step(s3, HandshakeEvent::LineArmed);
    assert_eq!(s4, HandshakeState::Idle);
}

#[test]
fn handshake_failure_paths() {
    assert_eq!(
        handshake_step(HandshakeState::Pending, HandshakeEvent::AckFault),
        HandshakeState::Failed
    );
    assert_eq!(
        handshake_step(HandshakeState::Acknowledging, HandshakeEvent::RearmFault),
        HandshakeState::Failed
    );
    assert_eq!(
        handshake_step(HandshakeState::Rearming, HandshakeEvent::LineDead),
        HandshakeState::Failed
    );
}

#[test]
fn handshake_failed_is_terminal() {
    let events = [
        HandshakeEvent::Edge,
        HandshakeEvent::AckOk,
        HandshakeEvent::AckFault,
        HandshakeEvent::RearmOk,
        HandshakeEvent::RearmFault,
        HandshakeEvent::LineArmed,
        HandshakeEvent::LineDead,
    ];
    for ev in events {
        assert_eq!(handshake_step(HandshakeState::Failed, ev), HandshakeState::Failed);
    }
}

#[test]
fn handshake_ignores_unexpected_events() {
    assert_eq!(
        handshake_step(HandshakeState::Idle, HandshakeEvent::AckOk),
        HandshakeState::Idle
    );
    assert_eq!(
        handshake_step(HandshakeState::Pending, HandshakeEvent::LineArmed),
        HandshakeState::Pending
    );
    assert_eq!(
        handshake_step(HandshakeState::Rearming, HandshakeEvent::Edge),
        HandshakeState::Rearming
    );
}
