//! The option sets and command lines that the player sends to mpv.
use vstd::prelude::*;

verus! {

fn push_text(v: &mut Vec<String>, s: &str)
    ensures
        final(v).deep_view() == old(v).deep_view().push(s@),
{
    push_owned(v, String::from_str(s));
}

fn push_owned(v: &mut Vec<String>, s: String)
    ensures
        final(v).deep_view() == old(v).deep_view().push(s@),
{
    v.push(s);
    assert(final(v).deep_view() =~= old(v).deep_view().push(s@));
}

fn push_option(v: &mut Vec<(String, String)>, key: &str, value: &str)
    ensures
        final(v).deep_view() == old(v).deep_view().push((key@, value@)),
{
    v.push((String::from_str(key), String::from_str(value)));
    assert(final(v).deep_view() =~= old(v).deep_view().push((key@, value@)));
}

/// The options that every visible player starts from, in the order they are set.
pub open spec fn baseline_option_list() -> Seq<(Seq<char>, Seq<char>)> {
    seq![
        ("vo"@, "gpu-next"@),
        ("gpu-api"@, "auto"@),
        ("keep-open"@, "yes"@),
        ("target-colorspace-hint"@, "yes"@),
        ("hdr-compute-peak"@, "auto"@),
        ("audio-fallback-to-null"@, "yes"@),
        ("sid"@, "no"@),
        ("sub-auto"@, "no"@),
    ]
}

/// Baseline options of a new player: mpv's own GPU output, keep the last frame at the end
/// of a file, HDR hints, a null audio fallback, and never a subtitle track of mpv's own
/// choosing (subtitles come burnt in by the server).
pub fn baseline_options() -> (r: Vec<(String, String)>)
    ensures
        r.deep_view() == baseline_option_list(),
{
    let mut v: Vec<(String, String)> = Vec::new();
    push_option(&mut v, "vo", "gpu-next");
    push_option(&mut v, "gpu-api", "auto");
    push_option(&mut v, "keep-open", "yes");
    push_option(&mut v, "target-colorspace-hint", "yes");
    push_option(&mut v, "hdr-compute-peak", "auto");
    push_option(&mut v, "audio-fallback-to-null", "yes");
    push_option(&mut v, "sid", "no");
    push_option(&mut v, "sub-auto", "no");
    assert(v.deep_view() =~= baseline_option_list());
    v
}

/// The options of a throwaway decode probe, set after the baseline ones.
pub open spec fn probe_option_list() -> Seq<(Seq<char>, Seq<char>)> {
    seq![("vo"@, "null"@), ("ao"@, "null"@), ("hwdec"@, "no"@), ("keep-open"@, "no"@)]
}

/// A probe player is headless and decodes in software: no video or audio output,
/// no hardware decoding, and it does not hold the last frame.
pub fn probe_options() -> (r: Vec<(String, String)>)
    ensures
        r.deep_view() == probe_option_list(),
{
    let mut v: Vec<(String, String)> = Vec::new();
    push_option(&mut v, "vo", "null");
    push_option(&mut v, "ao", "null");
    push_option(&mut v, "hwdec", "no");
    push_option(&mut v, "keep-open", "no");
    assert(v.deep_view() =~= probe_option_list());
    v
}

/// The options that the visible player gets on top of the baseline: hardware decoding, and
/// where the video is drawn through mpv's render API, the `libmpv` video output.
pub open spec fn player_option_list(render_api: bool) -> Seq<(Seq<char>, Seq<char>)> {
    if render_api {
        seq![("hwdec"@, "auto"@), ("vo"@, "libmpv"@)]
    } else {
        seq![("hwdec"@, "auto"@)]
    }
}

/// Options of the visible player, set before `mpv_initialize`.
pub fn player_options(render_api: bool) -> (r: Vec<(String, String)>)
    ensures
        r.deep_view() == player_option_list(render_api),
{
    let mut v: Vec<(String, String)> = Vec::new();
    push_option(&mut v, "hwdec", "auto");
    if render_api {
        push_option(&mut v, "vo", "libmpv");
    }
    assert(v.deep_view() =~= player_option_list(render_api));
    v
}

/// The command that opens `url` in place of what plays, at `start` seconds when one is
/// given (mpv's `start=` seeks while opening) and from the beginning otherwise.
pub open spec fn load_command_line(url: Seq<char>, start: Option<Seq<char>>) -> Seq<Seq<char>> {
    match start {
        Some(s) => seq!["loadfile"@, url, "replace"@, "0"@, "start="@ + s],
        None => seq!["loadfile"@, url, "replace"@],
    }
}

/// Builds the `loadfile` command of a load request; `start` is the start position as
/// text, given only when it is past the beginning.
pub fn load_command(url: &str, start: Option<&str>) -> (r: Vec<String>)
    ensures
        r.deep_view() == load_command_line(url@, match start { Some(s) => Some(s@), None => None }),
{
    let mut v: Vec<String> = Vec::new();
    push_text(&mut v, "loadfile");
    push_text(&mut v, url);
    push_text(&mut v, "replace");
    match start {
        Some(s) => {
            push_text(&mut v, "0");
            let mut opt = String::from_str("start=");
            opt.append(s);
            push_owned(&mut v, opt);
            assert(v.deep_view() =~= load_command_line(url@, Some(s@)));
        },
        None => {
            assert(v.deep_view() =~= load_command_line(url@, None));
        },
    }
    v
}

/// The command that loads and plays a file or URL, replacing nothing explicitly.
pub fn loadfile_command(url: &str) -> (r: Vec<String>)
    ensures
        r.deep_view() == seq!["loadfile"@, url@],
{
    let mut v: Vec<String> = Vec::new();
    push_text(&mut v, "loadfile");
    push_text(&mut v, url);
    assert(v.deep_view() =~= seq!["loadfile"@, url@]);
    v
}

/// The command of an absolute seek to `position` (seconds, as text).
pub fn seek_command(position: &str) -> (r: Vec<String>)
    ensures
        r.deep_view() == seq!["seek"@, position@, "absolute"@],
{
    let mut v: Vec<String> = Vec::new();
    push_text(&mut v, "seek");
    push_text(&mut v, position);
    push_text(&mut v, "absolute");
    assert(v.deep_view() =~= seq!["seek"@, position@, "absolute"@]);
    v
}

/// The command that stops playback.
pub fn stop_command() -> (r: Vec<String>)
    ensures
        r.deep_view() == seq!["stop"@],
{
    let mut v: Vec<String> = Vec::new();
    push_text(&mut v, "stop");
    assert(v.deep_view() =~= seq!["stop"@]);
    v
}

/// The four margin properties that place the video in a region of the window, in the order
/// left, right, top, bottom.
pub open spec fn margin_property_list() -> Seq<Seq<char>> {
    seq![
        "video-margin-ratio-left"@,
        "video-margin-ratio-right"@,
        "video-margin-ratio-top"@,
        "video-margin-ratio-bottom"@,
    ]
}

/// Names of the video margin properties (left, right, top, bottom).
pub fn margin_properties() -> (r: Vec<String>)
    ensures
        r.deep_view() == margin_property_list(),
{
    let mut v: Vec<String> = Vec::new();
    push_text(&mut v, "video-margin-ratio-left");
    push_text(&mut v, "video-margin-ratio-right");
    push_text(&mut v, "video-margin-ratio-top");
    push_text(&mut v, "video-margin-ratio-bottom");
    assert(v.deep_view() =~= margin_property_list());
    v
}

/// What the option sets promise: the visible player never picks a subtitle track itself and
/// starts with mpv's own GPU output; the probe has no video or audio output and decodes in
/// software, in the order video, audio, decoding, keep-open; the visible player decodes in
/// hardware, and uses the `libmpv` output exactly when the video goes through the render API.
pub proof fn lemma_option_sets(render_api: bool)
    ensures
        baseline_option_list().len() == 8,
        baseline_option_list()[0] == ("vo"@, "gpu-next"@),
        baseline_option_list().contains(("sid"@, "no"@)),
        baseline_option_list().contains(("sub-auto"@, "no"@)),
        baseline_option_list().contains(("keep-open"@, "yes"@)),
        probe_option_list().len() == 4,
        probe_option_list()[0] == ("vo"@, "null"@),
        probe_option_list()[1] == ("ao"@, "null"@),
        probe_option_list()[2] == ("hwdec"@, "no"@),
        probe_option_list()[3] == ("keep-open"@, "no"@),
        player_option_list(render_api)[0] == ("hwdec"@, "auto"@),
        player_option_list(render_api).contains(("vo"@, "libmpv"@)) <==> render_api,
{
    assert(baseline_option_list()[6] == ("sid"@, "no"@));
    assert(baseline_option_list()[7] == ("sub-auto"@, "no"@));
    assert(baseline_option_list()[2] == ("keep-open"@, "yes"@));
    if render_api {
        assert(player_option_list(render_api)[1] == ("vo"@, "libmpv"@));
    } else {
        reveal_strlit("hwdec");
        reveal_strlit("vo");
        assert("hwdec"@.len() == 5 && "vo"@.len() == 2);
        assert(!player_option_list(render_api).contains(("vo"@, "libmpv"@))) by {
            if player_option_list(render_api).contains(("vo"@, "libmpv"@)) {
                let k = choose|k: int| 0 <= k < player_option_list(render_api).len()
                    && player_option_list(render_api)[k] == ("vo"@, "libmpv"@);
                assert(player_option_list(render_api)[k].0.len() == 5);
            }
        }
    }
}

/// A load command opens the URL in place of what plays: `loadfile`, the URL, `replace`; with a
/// start position it adds the playlist index `0` and the option `start=` followed by it.
pub proof fn lemma_load_command_line(url: Seq<char>, start: Option<Seq<char>>)
    ensures
        load_command_line(url, start)[0] == "loadfile"@,
        load_command_line(url, start)[1] == url,
        load_command_line(url, start)[2] == "replace"@,
        start is None ==> load_command_line(url, start).len() == 3,
        start is Some ==> load_command_line(url, start).len() == 5
            && load_command_line(url, start)[3] == "0"@
            && load_command_line(url, start)[4] == "start="@ + start->0,
{
}

/// The four margin properties are distinct.
pub proof fn lemma_margins_distinct()
    ensures
        margin_property_list().len() == 4,
        margin_property_list().no_duplicates(),
{
    reveal_strlit("video-margin-ratio-left");
    reveal_strlit("video-margin-ratio-right");
    reveal_strlit("video-margin-ratio-top");
    reveal_strlit("video-margin-ratio-bottom");
    let m = margin_property_list();
    assert(m[0].len() == 23 && m[1].len() == 24 && m[2].len() == 22 && m[3].len() == 25);
}

} // verus!
