use tv_tauri::mpv::{MPV_EVENT_END_FILE, MPV_EVENT_FILE_LOADED, MPV_EVENT_NONE};
use tv_tauri::probe::{deadline_passed, probe_blocking, probe_failure, start, EVENT_WAIT_MS, ProbeAction, ProbeInput, ProbePhase, ProbeResult, ProbeState};

fn ok() -> ProbeInput {
    ProbeInput::Done(Ok(()))
}

/// Starts a probe and walks it through creation, options, init and load.
fn loaded() -> ProbeState {
    let (mut st, first) = start("http://h/clip.mkv".to_string(), 5000);
    assert!(matches!(first, ProbeAction::Create));
    let mut opts = Vec::new();
    let mut next = probe_blocking(&mut st, ok());
    while let ProbeAction::SetOption(k, v) = next {
        opts.push((k, v));
        next = probe_blocking(&mut st, ok());
    }
    assert_eq!(
        opts,
        vec![
            ("vo".to_string(), "null".to_string()),
            ("ao".to_string(), "null".to_string()),
            ("hwdec".to_string(), "no".to_string()),
            ("keep-open".to_string(), "no".to_string()),
        ]
    );
    assert!(matches!(next, ProbeAction::Initialize));
    match probe_blocking(&mut st, ok()) {
        ProbeAction::LoadFile(args) => assert_eq!(args, vec!["loadfile", "http://h/clip.mkv"]),
        other => panic!("unexpected {other:?}"),
    }
    assert!(matches!(probe_blocking(&mut st, ok()), ProbeAction::CheckDeadline));
    st
}

fn finish(a: ProbeAction) -> ProbeResult {
    match a {
        ProbeAction::Finish(r) => r,
        other => panic!("not finished: {other:?}"),
    }
}

fn assert_failed(r: &ProbeResult, msg: &str) {
    assert!(!r.decoded);
    assert_eq!((r.width, r.height, r.audio), (0, 0, false));
    assert_eq!(r.error.as_deref(), Some(msg));
}

#[test]
fn failure_result_shape() {
    let r = probe_failure("probe task failed".to_string());
    assert_failed(&r, "probe task failed");
}

#[test]
fn create_failure() {
    let (mut st, _) = start("u".to_string(), 5000);
    let r = finish(probe_blocking(&mut st, ProbeInput::Done(Err("no libmpv".to_string()))));
    assert_failed(&r, "mpv create: no libmpv");
    assert_eq!(st.phase(), ProbePhase::Finished);
}

#[test]
fn option_failure_names_the_option() {
    let (mut st, _) = start("u".to_string(), 5000);
    probe_blocking(&mut st, ok());
    probe_blocking(&mut st, ok());
    let r = finish(probe_blocking(&mut st, ProbeInput::Done(Err("bad".to_string()))));
    assert_failed(&r, "set ao: bad");
}

#[test]
fn init_and_load_failures() {
    let (mut st, _) = start("u".to_string(), 5000);
    for _ in 0..5 {
        probe_blocking(&mut st, ok());
    }
    assert_eq!(st.phase(), ProbePhase::Initializing);
    let r = finish(probe_blocking(&mut st, ProbeInput::Done(Err("mpv_initialize() failed: -1".to_string()))));
    assert_failed(&r, "init: mpv_initialize() failed: -1");

    let (mut st, _) = start("u".to_string(), 5000);
    for _ in 0..6 {
        probe_blocking(&mut st, ok());
    }
    assert_eq!(st.phase(), ProbePhase::Loading);
    let r = finish(probe_blocking(&mut st, ProbeInput::Done(Err("x".to_string()))));
    assert_failed(&r, "loadfile: x");
}

#[test]
fn timeout_without_frame() {
    let mut st = loaded();
    assert!(matches!(probe_blocking(&mut st, ProbeInput::Elapsed(10)), ProbeAction::WaitEvent(100)));
    assert!(matches!(probe_blocking(&mut st, ProbeInput::Event(MPV_EVENT_NONE, 0)), ProbeAction::ReadDimensions));
    assert!(matches!(
        probe_blocking(&mut st, ProbeInput::Dimensions(None, None)),
        ProbeAction::CheckDeadline
    ));
    probe_blocking(&mut st, ProbeInput::Elapsed(10));
    probe_blocking(&mut st, ProbeInput::Event(MPV_EVENT_NONE, 0));
    assert!(matches!(
        probe_blocking(&mut st, ProbeInput::Dimensions(Some(-4), Some(100))),
        ProbeAction::CheckDeadline
    ));
    let r = finish(probe_blocking(&mut st, ProbeInput::Elapsed(5000)));
    assert_failed(&r, "timeout (no frame)");
}

#[test]
fn end_file_error_ends_probe() {
    let mut st = loaded();
    probe_blocking(&mut st, ProbeInput::Elapsed(10));
    let r = finish(probe_blocking(&mut st, ProbeInput::Event(MPV_EVENT_END_FILE, -13)));
    assert_failed(&r, "end-file error -13");
}

#[test]
fn end_file_without_error_keeps_waiting() {
    let mut st = loaded();
    probe_blocking(&mut st, ProbeInput::Elapsed(10));
    assert!(matches!(probe_blocking(&mut st, ProbeInput::Event(MPV_EVENT_END_FILE, 0)), ProbeAction::ReadDimensions));
}

#[test]
fn decoded_with_audio_seen_at_load() {
    let mut st = loaded();
    probe_blocking(&mut st, ProbeInput::Elapsed(10));
    assert!(matches!(probe_blocking(&mut st, ProbeInput::Event(MPV_EVENT_FILE_LOADED, 0)), ProbeAction::ReadAid));
    assert!(matches!(probe_blocking(&mut st, ProbeInput::Aid(Some(1))), ProbeAction::ReadDimensions));
    assert!(matches!(
        probe_blocking(&mut st, ProbeInput::Dimensions(Some(1920), Some(0))),
        ProbeAction::CheckDeadline
    ));
    probe_blocking(&mut st, ProbeInput::Elapsed(10));
    probe_blocking(&mut st, ProbeInput::Event(MPV_EVENT_NONE, 0));
    let r = finish(probe_blocking(&mut st, ProbeInput::Dimensions(Some(1920), Some(1080))));
    assert!(r.decoded);
    assert_eq!((r.width, r.height, r.audio), (1920, 1080, true));
    assert!(r.error.is_none());
}

#[test]
fn audio_found_by_codec_at_the_end() {
    let mut st = loaded();
    probe_blocking(&mut st, ProbeInput::Elapsed(10));
    probe_blocking(&mut st, ProbeInput::Event(MPV_EVENT_FILE_LOADED, 0));
    assert!(matches!(probe_blocking(&mut st, ProbeInput::Aid(Some(0))), ProbeAction::ReadAudioCodec));
    assert!(matches!(probe_blocking(&mut st, ProbeInput::AudioCodec(false)), ProbeAction::ReadDimensions));
    assert!(matches!(
        probe_blocking(&mut st, ProbeInput::Dimensions(Some(640), Some(360))),
        ProbeAction::ReadAid
    ));
    assert!(matches!(probe_blocking(&mut st, ProbeInput::Aid(None)), ProbeAction::ReadAudioCodec));
    let r = finish(probe_blocking(&mut st, ProbeInput::AudioCodec(true)));
    assert!(r.decoded && r.audio);
    assert_eq!((r.width, r.height), (640, 360));
}

#[test]
fn decoded_without_audio() {
    let mut st = loaded();
    probe_blocking(&mut st, ProbeInput::Elapsed(10));
    probe_blocking(&mut st, ProbeInput::Event(MPV_EVENT_NONE, 0));
    assert!(matches!(
        probe_blocking(&mut st, ProbeInput::Dimensions(Some(2), Some(2))),
        ProbeAction::ReadAid
    ));
    assert!(matches!(probe_blocking(&mut st, ProbeInput::Aid(Some(2))), ProbeAction::Finish(_)));
    let mut st = loaded();
    probe_blocking(&mut st, ProbeInput::Elapsed(10));
    probe_blocking(&mut st, ProbeInput::Event(MPV_EVENT_NONE, 0));
    probe_blocking(&mut st, ProbeInput::Dimensions(Some(2), Some(2)));
    probe_blocking(&mut st, ProbeInput::Aid(Some(-1)));
    let r = finish(probe_blocking(&mut st, ProbeInput::AudioCodec(false)));
    assert!(r.decoded && !r.audio);
    assert_eq!((r.width, r.height), (2, 2));
}

#[test]
fn deadline_arithmetic() {
    assert_eq!(EVENT_WAIT_MS, 100);
    assert!(!deadline_passed(4999, 5000));
    assert!(deadline_passed(5000, 5000));
    assert!(deadline_passed(7000, 5000));
    assert!(deadline_passed(0, 0));
}

#[test]
fn zero_timeout_never_waits() {
    let (mut st, _) = start("u".to_string(), 0);
    for _ in 0..6 {
        probe_blocking(&mut st, ok());
    }
    assert!(matches!(probe_blocking(&mut st, ok()), ProbeAction::CheckDeadline));
    let r = finish(probe_blocking(&mut st, ProbeInput::Elapsed(0)));
    assert_failed(&r, "timeout (no frame)");
}

#[test]
fn just_before_deadline_keeps_waiting() {
    let mut st = loaded();
    assert!(matches!(probe_blocking(&mut st, ProbeInput::Elapsed(4999)), ProbeAction::WaitEvent(100)));
}
