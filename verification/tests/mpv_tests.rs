use tv_tauri::mpv::{
    c_string_ok, call_outcome, check_call, flag_code, flag_value, read_outcome, MpvCall, MpvFormat,
    MPV_EVENT_END_FILE, MPV_EVENT_FILE_LOADED, MPV_EVENT_NONE, MPV_EVENT_PROPERTY_CHANGE,
    MPV_EVENT_SHUTDOWN,
};

fn s(x: &str) -> String {
    x.to_string()
}

#[test]
fn event_ids_are_libmpv_numbers() {
    assert_eq!(MPV_EVENT_NONE, 0);
    assert_eq!(MPV_EVENT_SHUTDOWN, 1);
    assert_eq!(MPV_EVENT_END_FILE, 7);
    assert_eq!(MPV_EVENT_FILE_LOADED, 8);
    assert_eq!(MPV_EVENT_PROPERTY_CHANGE, 22);
}

#[test]
fn format_codes() {
    assert_eq!(MpvFormat::Flag.code(), 3);
    assert_eq!(MpvFormat::Int64.code(), 4);
    assert_eq!(MpvFormat::Double.code(), 5);
}

#[test]
fn c_strings_without_nul_are_accepted() {
    assert!(c_string_ok("vo"));
    assert!(c_string_ok(""));
    assert!(c_string_ok("héllo wörld"));
    assert!(!c_string_ok("a\0b"));
    assert!(!c_string_ok("\0"));
}

#[test]
fn option_name_with_nul_is_refused_first() {
    let call = MpvCall::SetOptionString { name: s("v\0o"), value: s("x\0") };
    assert_eq!(check_call(&call), Err(s("option name has null byte")));
    let call = MpvCall::SetOptionString { name: s("vo"), value: s("x\0") };
    assert_eq!(check_call(&call), Err(s("option value has null byte")));
    let call = MpvCall::SetOptionString { name: s("vo"), value: s("null") };
    assert_eq!(check_call(&call), Ok(()));
    let call = MpvCall::SetOptionI64 { name: s("w\0id"), number: 5 };
    assert_eq!(check_call(&call), Err(s("option name has null byte")));
}

#[test]
fn property_name_with_nul_is_refused() {
    let calls = vec![
        MpvCall::SetPropertyFlag { name: s("pa\0use"), flag: true },
        MpvCall::SetPropertyI64 { name: s("\0"), number: 1 },
        MpvCall::SetPropertyDouble { name: s("x\0") },
        MpvCall::SetPropertyString { name: s("a\0id"), value: s("auto") },
        MpvCall::ObserveProperty { id: 1, name: s("t\0"), format: MpvFormat::Double },
    ];
    for call in &calls {
        assert_eq!(check_call(call), Err(s("property name has null byte")));
    }
    let call = MpvCall::SetPropertyString { name: s("aid"), value: s("a\0") };
    assert_eq!(check_call(&call), Err(s("property value has null byte")));
    assert_eq!(check_call(&MpvCall::Initialize), Ok(()));
    assert_eq!(check_call(&MpvCall::Command { args: vec![s("stop")] }), Ok(()));
}

#[test]
fn non_negative_status_is_success() {
    assert_eq!(call_outcome(&MpvCall::Initialize, 0), Ok(()));
    assert_eq!(call_outcome(&MpvCall::Initialize, 3), Ok(()));
}

#[test]
fn failure_messages_name_call_and_code() {
    let cases: Vec<(MpvCall, &str)> = vec![
        (
            MpvCall::SetOptionString { name: s("vo"), value: s("gpu-next") },
            "mpv_set_option_string(vo=gpu-next) failed: -5",
        ),
        (MpvCall::SetOptionI64 { name: s("wid"), number: 42 }, "mpv_set_option(wid=i64) failed: -5"),
        (MpvCall::Initialize, "mpv_initialize() failed: -5"),
        (MpvCall::SetPropertyFlag { name: s("pause"), flag: false }, "mpv_set_property(pause=flag) failed: -5"),
        (MpvCall::SetPropertyI64 { name: s("volume"), number: 3 }, "mpv_set_property(volume=i64) failed: -5"),
        (
            MpvCall::SetPropertyDouble { name: s("video-margin-ratio-left") },
            "mpv_set_property(video-margin-ratio-left=double) failed: -5",
        ),
        (
            MpvCall::SetPropertyString { name: s("aid"), value: s("auto") },
            "mpv_set_property_string(aid=auto) failed: -5",
        ),
        (
            MpvCall::ObserveProperty { id: 2, name: s("pause"), format: MpvFormat::Flag },
            "mpv_observe_property(pause) failed: -5",
        ),
    ];
    for (call, msg) in &cases {
        assert_eq!(call_outcome(call, -5), Err(s(msg)));
    }
}

#[test]
fn command_failure_lists_arguments_as_debug() {
    let call = MpvCall::Command { args: vec![s("loadfile"), s("a \"b\".mkv")] };
    let args: &[&str] = &["loadfile", "a \"b\".mkv"];
    assert_eq!(call_outcome(&call, -12), Err(format!("mpv_command({args:?}) failed: -12")));
    assert_eq!(
        call_outcome(&call, -12),
        Err(s("mpv_command([\"loadfile\", \"a \\\"b\\\".mkv\"]) failed: -12"))
    );
}

#[test]
fn reads_and_flags() {
    assert_eq!(read_outcome(-1, 5i64), None);
    assert_eq!(read_outcome(0, 5i64), Some(5));
    assert_eq!(read_outcome(0, 2.5f64), Some(2.5));
    assert!(flag_value(1));
    assert!(flag_value(-3));
    assert!(!flag_value(0));
    assert_eq!(flag_code(true), 1);
    assert_eq!(flag_code(false), 0);
}
