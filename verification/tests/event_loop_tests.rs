use tv_tauri::event_loop::{
    loaded_dimensions, number_event, observed_properties, POLL_WAIT_MS, route_event, LoopStep, ObservedProperty, PlayerEvent, WakeState,
};
use tv_tauri::mpv::MpvFormat;

#[test]
fn observed_properties_in_order() {
    let props = observed_properties();
    let seen: Vec<(u64, String, MpvFormat)> = props.iter().map(|p| (p.id(), p.name(), p.format())).collect();
    assert_eq!(
        seen,
        vec![
            (1, "time-pos".to_string(), MpvFormat::Double),
            (2, "pause".to_string(), MpvFormat::Flag),
            (3, "duration".to_string(), MpvFormat::Double),
            (4, "core-idle".to_string(), MpvFormat::Flag),
            (5, "eof-reached".to_string(), MpvFormat::Flag),
            (6, "idle-active".to_string(), MpvFormat::Flag),
        ]
    );
}

#[test]
fn routing_of_events() {
    assert_eq!(route_event(1, 0), LoopStep::Stop);
    assert_eq!(route_event(1, 2), LoopStep::Stop);
    assert_eq!(route_event(22, 1), LoopStep::Read(ObservedProperty::TimePos));
    assert_eq!(route_event(22, 2), LoopStep::Read(ObservedProperty::Pause));
    assert_eq!(route_event(22, 6), LoopStep::Read(ObservedProperty::IdleActive));
    assert_eq!(route_event(22, 0), LoopStep::Ignore);
    assert_eq!(route_event(22, 7), LoopStep::Ignore);
    assert_eq!(route_event(8, 3), LoopStep::FileLoaded);
    assert_eq!(route_event(7, 0), LoopStep::FileEnded);
    assert_eq!(route_event(0, 0), LoopStep::Ignore);
    assert_eq!(route_event(20, 0), LoopStep::Ignore);
}

#[test]
fn event_names() {
    assert_eq!(PlayerEvent::TimePos.name(), "mpv:time-pos");
    assert_eq!(PlayerEvent::Pause.name(), "mpv:pause");
    assert_eq!(PlayerEvent::Duration.name(), "mpv:duration");
    assert_eq!(PlayerEvent::Idle.name(), "mpv:idle");
    assert_eq!(PlayerEvent::Eof.name(), "mpv:eof");
    assert_eq!(PlayerEvent::Loaded.name(), "mpv:loaded");
    assert_eq!(PlayerEvent::End.name(), "mpv:end");
    assert_eq!(number_event(ObservedProperty::TimePos), Some(PlayerEvent::TimePos));
    assert_eq!(number_event(ObservedProperty::Duration), Some(PlayerEvent::Duration));
    assert_eq!(number_event(ObservedProperty::Pause), None);
}

#[test]
fn fresh_player_lets_the_machine_sleep() {
    let w = WakeState::new();
    assert_eq!(w, WakeState { paused: false, idle_active: true });
    assert!(!w.wants_awake());
}

#[test]
fn wake_lock_follows_latest_pause_and_idle() {
    let mut w = WakeState::new();
    let r = w.on_flag(ObservedProperty::IdleActive, Some(false));
    assert_eq!(r.emit, None);
    assert_eq!(r.wake, Some(true));
    let r = w.on_flag(ObservedProperty::Pause, Some(true));
    assert_eq!(r.emit, Some(PlayerEvent::Pause));
    assert_eq!(r.payload, Some(true));
    assert_eq!(r.wake, Some(false));
    let r = w.on_flag(ObservedProperty::Pause, None);
    assert_eq!(r.emit, None);
    assert_eq!(r.wake, None);
    assert!(w.paused);
    let r = w.on_flag(ObservedProperty::Pause, Some(false));
    assert_eq!(r.wake, Some(true));
    let r = w.on_flag(ObservedProperty::IdleActive, Some(true));
    assert_eq!(r.wake, Some(false));
    assert_eq!(w, WakeState { paused: false, idle_active: true });
}

#[test]
fn other_flags_emit_without_touching_the_wake_lock() {
    let mut w = WakeState { paused: false, idle_active: false };
    let r = w.on_flag(ObservedProperty::CoreIdle, Some(true));
    assert_eq!(r.emit, Some(PlayerEvent::Idle));
    assert_eq!(r.payload, Some(true));
    assert_eq!(r.wake, None);
    let r = w.on_flag(ObservedProperty::EofReached, Some(false));
    assert_eq!(r.emit, None);
    let r = w.on_flag(ObservedProperty::EofReached, Some(true));
    assert_eq!(r.emit, Some(PlayerEvent::Eof));
    assert_eq!(r.payload, None);
    assert_eq!(r.wake, None);
    assert_eq!(w, WakeState { paused: false, idle_active: false });
}

#[test]
fn poll_waits_one_second() {
    assert_eq!(POLL_WAIT_MS, 1000);
}

#[test]
fn shutdown_releases_the_wake_lock() {
    let mut w = WakeState::new();
    w.on_flag(ObservedProperty::IdleActive, Some(false));
    assert!(w.wants_awake());
    assert!(!w.on_shutdown());
}

#[test]
fn loaded_size_defaults_to_zero() {
    assert_eq!(loaded_dimensions(Some(1920), Some(1080)), (1920, 1080));
    assert_eq!(loaded_dimensions(None, Some(1080)), (0, 1080));
    assert_eq!(loaded_dimensions(None, None), (0, 0));
}
