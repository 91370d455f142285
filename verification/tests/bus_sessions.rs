use liveserve::ReloadBus;
use liveserve::WsFrame;
use liveserve::note_fs_event;
use liveserve::session_on_frame;
use liveserve::session_on_tick;

#[test]
fn one_publish_fans_out_to_every_subscribed_session_once() {
    let mut bus = ReloadBus::new();
    let mut sessions = vec![bus.subscribe(), bus.subscribe(), bus.subscribe()];
    bus.publish();
    let late = &mut bus.subscribe();
    for rx in sessions.iter_mut() {
        assert_eq!(session_on_tick(&bus, rx).as_deref(), Some("reload"));
        assert_eq!(session_on_tick(&bus, rx), None);
    }
    assert_eq!(session_on_tick(&bus, late), None);
}

#[test]
fn subscriber_sees_only_signals_published_after_subscribing() {
    let mut bus = ReloadBus::new();
    bus.publish();
    bus.publish();
    let mut rx = bus.subscribe();
    assert_eq!(session_on_tick(&bus, &mut rx), None);
    bus.publish();
    assert_eq!(session_on_tick(&bus, &mut rx).as_deref(), Some("reload"));
}

#[test]
fn lag_beyond_capacity_collapses_to_capacity() {
    let mut bus = ReloadBus::new();
    let mut rx = bus.subscribe();
    for _ in 0..100 {
        bus.publish();
    }
    let mut delivered = 0;
    while session_on_tick(&bus, &mut rx).is_some() {
        delivered += 1;
    }
    assert_eq!(delivered, 16);
}

#[test]
fn session_may_trigger_many_reloads_over_its_life() {
    let mut bus = ReloadBus::new();
    let mut rx = bus.subscribe();
    for _ in 0..5 {
        bus.publish();
        assert_eq!(session_on_tick(&bus, &mut rx).as_deref(), Some("reload"));
        assert_eq!(session_on_tick(&bus, &mut rx), None);
    }
}

#[test]
fn errored_fs_events_publish_nothing() {
    let mut bus = ReloadBus::new();
    let mut rx = bus.subscribe();
    note_fs_event(&mut bus, false);
    assert_eq!(session_on_tick(&bus, &mut rx), None);
    note_fs_event(&mut bus, true);
    assert_eq!(session_on_tick(&bus, &mut rx).as_deref(), Some("reload"));
}

#[test]
fn ping_is_answered_with_matching_pong() {
    let payload = vec![1u8, 2, 3];
    assert_eq!(session_on_frame(WsFrame::Ping(payload.clone())), Some(payload));
    assert_eq!(session_on_frame(WsFrame::Other), None);
}
