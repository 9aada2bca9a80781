use nexus_gateway::channels::reconnect::{ReconnectAction, ReconnectEvent, Reconnector};

#[test]
fn waits_double_up_to_a_minute() {
    let mut r = Reconnector::new();
    assert_eq!(r.step(ReconnectEvent::Started { shutdown: false }), ReconnectAction::Connect);
    for secs in [1, 2, 4, 8, 16, 32, 60, 60, 60] {
        assert_eq!(
            r.step(ReconnectEvent::SessionOver { shutdown: false }),
            ReconnectAction::Wait { secs }
        );
        assert_eq!(r.step(ReconnectEvent::WaitOver { shutdown: false }), ReconnectAction::Connect);
    }
}

#[test]
fn shutdown_stops_at_every_point() {
    let mut r = Reconnector::new();
    assert_eq!(r.step(ReconnectEvent::Started { shutdown: true }), ReconnectAction::Stop);
    assert_eq!(r.step(ReconnectEvent::SessionOver { shutdown: true }), ReconnectAction::Stop);
    assert_eq!(r.step(ReconnectEvent::WaitOver { shutdown: true }), ReconnectAction::Stop);
    assert_eq!(r.step(ReconnectEvent::WaitInterrupted), ReconnectAction::Stop);
}
