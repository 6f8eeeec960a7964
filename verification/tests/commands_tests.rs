use tv_tauri::commands::{
    baseline_options, load_command, loadfile_command, margin_properties, player_options,
    probe_options, seek_command, stop_command,
};

fn pairs(v: &[(&str, &str)]) -> Vec<(String, String)> {
    v.iter().map(|(a, b)| (a.to_string(), b.to_string())).collect()
}

#[test]
fn baseline_never_picks_subtitles() {
    assert_eq!(
        baseline_options(),
        pairs(&[
            ("vo", "gpu-next"),
            ("gpu-api", "auto"),
            ("keep-open", "yes"),
            ("target-colorspace-hint", "yes"),
            ("hdr-compute-peak", "auto"),
            ("audio-fallback-to-null", "yes"),
            ("sid", "no"),
            ("sub-auto", "no"),
        ])
    );
}

#[test]
fn probe_is_headless_software_decode() {
    assert_eq!(
        probe_options(),
        pairs(&[("vo", "null"), ("ao", "null"), ("hwdec", "no"), ("keep-open", "no")])
    );
}

#[test]
fn player_options_per_output() {
    assert_eq!(player_options(true), pairs(&[("hwdec", "auto"), ("vo", "libmpv")]));
    assert_eq!(player_options(false), pairs(&[("hwdec", "auto")]));
}

#[test]
fn load_from_beginning_and_at_offset() {
    assert_eq!(load_command("http://h/v.mkv", None), vec!["loadfile", "http://h/v.mkv", "replace"]);
    assert_eq!(
        load_command("http://h/v.mkv", Some("12.5")),
        vec!["loadfile", "http://h/v.mkv", "replace", "0", "start=12.5"]
    );
}

#[test]
fn other_commands() {
    assert_eq!(loadfile_command("x.mp4"), vec!["loadfile", "x.mp4"]);
    assert_eq!(seek_command("30"), vec!["seek", "30", "absolute"]);
    assert_eq!(stop_command(), vec!["stop"]);
    assert_eq!(
        margin_properties(),
        vec![
            "video-margin-ratio-left",
            "video-margin-ratio-right",
            "video-margin-ratio-top",
            "video-margin-ratio-bottom"
        ]
    );
}
