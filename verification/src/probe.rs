//! The decode probe: whether a clip decodes, found by a throwaway headless player that
//! opens it and waits for a decoded frame's dimensions, an end-of-file error, or a deadline.
//!
//! The probe is a state machine. [`start`] gives the first thing to do; the caller does it
//! (creates the player, sets an option, waits for an event, reads a property, measures the time since the
//! load) and hands the outcome to [`probe_blocking`], which says what to do next, until it
//! answers [`ProbeAction::Finish`] with the probe's result.
use vstd::prelude::*;

use crate::commands::{probe_option_list, probe_options};
use crate::mpv::{MPV_EVENT_END_FILE, MPV_EVENT_FILE_LOADED};
use crate::text::{decimal_string, decimal_text};

verus! {

/// The outcome of a probe. `decoded` with the frame's dimensions when a frame was decoded;
/// otherwise `error` says why not.
#[derive(Debug)]
pub struct ProbeResult {
    pub decoded: bool,
    pub width: i64,
    pub height: i64,
    pub audio: bool,
    pub error: Option<String>,
}

/// A probe result as values.
pub struct ResultView {
    pub decoded: bool,
    pub width: int,
    pub height: int,
    pub audio: bool,
    pub error: Option<Seq<char>>,
}

impl View for ProbeResult {
    type V = ResultView;

    open spec fn view(&self) -> ResultView {
        ResultView {
            decoded: self.decoded,
            width: self.width as int,
            height: self.height as int,
            audio: self.audio,
            error: match self.error {
                Some(e) => Some(e@),
                None => None,
            },
        }
    }
}

pub open spec fn failed(msg: Seq<char>) -> ResultView {
    ResultView { decoded: false, width: 0, height: 0, audio: false, error: Some(msg) }
}

pub open spec fn succeeded(width: int, height: int, audio: bool) -> ResultView {
    ResultView { decoded: true, width, height, audio, error: None }
}

/// A result says one of two things: a decoded frame of positive size and no error, or an
/// error and nothing else.
pub open spec fn result_consistent(r: ResultView) -> bool {
    if r.decoded {
        r.width > 0 && r.height > 0 && r.error is None
    } else {
        r.width == 0 && r.height == 0 && !r.audio && r.error is Some
    }
}

/// The result of a probe that failed with `msg`.
pub fn probe_failure(msg: String) -> (r: ProbeResult)
    ensures
        r@ == failed(msg@),
{
    ProbeResult { decoded: false, width: 0, height: 0, audio: false, error: Some(msg) }
}

/// How long one wait for an event lasts at most, in milliseconds (a tenth of a second).
pub const EVENT_WAIT_MS: u64 = 100;

/// The deadline lies `timeout_ms` after the load: it has passed once that many whole
/// milliseconds have elapsed.
pub open spec fn timed_out(elapsed_ms: u64, timeout_ms: u64) -> bool {
    elapsed_ms >= timeout_ms
}

/// Whether a probe with a timeout of `timeout_ms` milliseconds is past its deadline when
/// `elapsed_ms` whole milliseconds have passed since the clip was loaded.
pub fn deadline_passed(elapsed_ms: u64, timeout_ms: u64) -> (r: bool)
    ensures
        r == timed_out(elapsed_ms, timeout_ms),
{
    elapsed_ms >= timeout_ms
}

/// Where the audio check was asked for: right after the file loaded, or before reporting a
/// decoded frame of the given size.
#[derive(Clone, Copy, Debug, PartialEq, Eq, Structural)]
pub enum AudioCheck {
    AfterLoad,
    BeforeFinish(i64, i64),
}

/// What the probe waits for.
#[derive(Clone, Copy, Debug, PartialEq, Eq, Structural)]
pub enum ProbePhase {
    Creating,
    SettingOption(usize),
    Initializing,
    Loading,
    CheckingDeadline,
    Waiting,
    ReadingAid(AudioCheck),
    ReadingCodec(AudioCheck),
    ReadingDimensions,
    Finished,
}

/// The state of a probe: its phase, whether audio was seen at load time, and the clip.
#[derive(Debug)]
pub struct ProbeState {
    phase: ProbePhase,
    audio: bool,
    url: String,
    timeout_ms: u64,
}

/// A probe state as values.
pub struct StateView {
    pub phase: ProbePhase,
    pub audio: bool,
    pub url: Seq<char>,
    pub timeout_ms: u64,
}

impl View for ProbeState {
    type V = StateView;

    closed spec fn view(&self) -> StateView {
        StateView { phase: self.phase, audio: self.audio, url: self.url@, timeout_ms: self.timeout_ms }
    }
}

/// What the caller does next.
#[derive(Debug)]
pub enum ProbeAction {
    /// Create the player (with its baseline options).
    Create,
    /// Set a string option before initialization.
    SetOption(String, String),
    /// Initialize the player.
    Initialize,
    /// Run this command (it opens the clip).
    LoadFile(Vec<String>),
    /// Tell how many whole milliseconds have passed since the clip was loaded.
    CheckDeadline,
    /// Wait up to this many milliseconds for the next event.
    WaitEvent(u64),
    /// Read the integer property `aid`.
    ReadAid,
    /// Tell whether the string property `audio-codec` is set.
    ReadAudioCodec,
    /// Read the integer properties `dwidth` and `dheight`.
    ReadDimensions,
    /// The probe is over.
    Finish(ProbeResult),
}

/// A next step as values.
pub enum ActionView {
    Create,
    SetOption(Seq<char>, Seq<char>),
    Initialize,
    LoadFile(Seq<Seq<char>>),
    CheckDeadline,
    WaitEvent(u64),
    ReadAid,
    ReadAudioCodec,
    ReadDimensions,
    Finish(ResultView),
}

impl View for ProbeAction {
    type V = ActionView;

    open spec fn view(&self) -> ActionView {
        match self {
            ProbeAction::Create => ActionView::Create,
            ProbeAction::SetOption(k, v) => ActionView::SetOption(k@, v@),
            ProbeAction::Initialize => ActionView::Initialize,
            ProbeAction::LoadFile(args) => ActionView::LoadFile(args.deep_view()),
            ProbeAction::CheckDeadline => ActionView::CheckDeadline,
            ProbeAction::WaitEvent(ms) => ActionView::WaitEvent(*ms),
            ProbeAction::ReadAid => ActionView::ReadAid,
            ProbeAction::ReadAudioCodec => ActionView::ReadAudioCodec,
            ProbeAction::ReadDimensions => ActionView::ReadDimensions,
            ProbeAction::Finish(r) => ActionView::Finish(r@),
        }
    }
}

/// The outcome of what the caller was asked to do.
#[derive(Debug)]
pub enum ProbeInput {
    /// Creating, setting an option, initializing or loading went through (`Ok`) or failed.
    Done(Result<(), String>),
    /// The whole milliseconds that have passed since the clip was loaded.
    Elapsed(u64),
    /// The event that arrived: its id and error code (`MPV_EVENT_NONE` when none did).
    Event(i32, i32),
    /// The value of `aid`, if it could be read.
    Aid(Option<i64>),
    /// Whether `audio-codec` is set.
    AudioCodec(bool),
    /// The values of `dwidth` and `dheight`, each if it could be read.
    Dimensions(Option<i64>, Option<i64>),
}

/// An outcome as values.
pub enum InputView {
    Done(Result<(), Seq<char>>),
    Elapsed(u64),
    Event(i32, i32),
    Aid(Option<i64>),
    AudioCodec(bool),
    Dimensions(Option<i64>, Option<i64>),
}

impl View for ProbeInput {
    type V = InputView;

    open spec fn view(&self) -> InputView {
        match self {
            ProbeInput::Done(r) => InputView::Done(match r {
                Ok(()) => Ok(()),
                Err(e) => Err(e@),
            }),
            ProbeInput::Elapsed(ms) => InputView::Elapsed(*ms),
            ProbeInput::Event(id, err) => InputView::Event(*id, *err),
            ProbeInput::Aid(a) => InputView::Aid(*a),
            ProbeInput::AudioCodec(b) => InputView::AudioCodec(*b),
            ProbeInput::Dimensions(w, h) => InputView::Dimensions(*w, *h),
        }
    }
}

impl ProbeState {
    /// The state is one the probe can be in: an option index within the option list, and a
    /// frame size held for the final audio check that is positive.
    pub closed spec fn wf(&self) -> bool {
        match self.phase {
            ProbePhase::SettingOption(i) => i < probe_option_list().len(),
            ProbePhase::ReadingAid(AudioCheck::BeforeFinish(w, h)) => w > 0 && h > 0,
            ProbePhase::ReadingCodec(AudioCheck::BeforeFinish(w, h)) => w > 0 && h > 0,
            _ => true,
        }
    }
}

/// The kind of outcome that each phase waits for.
pub open spec fn expects(phase: ProbePhase, input: InputView) -> bool {
    match phase {
        ProbePhase::Creating => input is Done,
        ProbePhase::SettingOption(_) => input is Done,
        ProbePhase::Initializing => input is Done,
        ProbePhase::Loading => input is Done,
        ProbePhase::CheckingDeadline => input is Elapsed,
        ProbePhase::Waiting => input is Event,
        ProbePhase::ReadingAid(_) => input is Aid,
        ProbePhase::ReadingCodec(_) => input is AudioCodec,
        ProbePhase::ReadingDimensions => input is Dimensions,
        ProbePhase::Finished => false,
    }
}

/// The step after the audio check of `stage` found audio (`found`) or not.
pub open spec fn after_audio(stage: AudioCheck, audio: bool, found: bool) -> (ProbePhase, bool, ActionView) {
    match stage {
        AudioCheck::AfterLoad => (ProbePhase::ReadingDimensions, found, ActionView::ReadDimensions),
        AudioCheck::BeforeFinish(w, h) =>
            (ProbePhase::Finished, audio, ActionView::Finish(succeeded(w as int, h as int, found))),
    }
}

/// One step of the probe: from its phase, its audio flag and the outcome it was handed, the
/// next phase, audio flag and thing to do.
///  - creating, each probe option, initializing and loading the clip must go through, in this
///    order; the first that fails ends the probe with its error, after `mpv create: `,
///    `set {option}: `, `init: ` or `loadfile: `;
///  - then, round after round: once `timeout_ms` milliseconds have passed since the load
///    (at once, for a timeout of 0) the probe ends with `timeout (no frame)`; otherwise an
///    event is awaited for at most [`EVENT_WAIT_MS`] milliseconds; an end-of-file with a negative error ends it with `end-file error {code}`;
///    a loaded file has its audio checked; and once `dwidth` and `dheight` (0 when unread)
///    are both positive, the probe ends decoded with them, audio being what was found at
///    load time or, failing that, now;
///  - the audio check finds audio when `aid` is positive, else when `audio-codec` is set.
pub open spec fn transition(phase: ProbePhase, audio: bool, url: Seq<char>, timeout_ms: u64, input: InputView) -> (ProbePhase, bool, ActionView) {
    match (phase, input) {
        (ProbePhase::Creating, InputView::Done(Ok(()))) =>
            (ProbePhase::SettingOption(0), audio, ActionView::SetOption(probe_option_list()[0].0, probe_option_list()[0].1)),
        (ProbePhase::Creating, InputView::Done(Err(e))) =>
            (ProbePhase::Finished, audio, ActionView::Finish(failed("mpv create: "@ + e))),
        (ProbePhase::SettingOption(i), InputView::Done(Ok(()))) =>
            if i + 1 < probe_option_list().len() {
                (ProbePhase::SettingOption((i + 1) as usize), audio,
                    ActionView::SetOption(probe_option_list()[i + 1].0, probe_option_list()[i + 1].1))
            } else {
                (ProbePhase::Initializing, audio, ActionView::Initialize)
            },
        (ProbePhase::SettingOption(i), InputView::Done(Err(e))) =>
            (ProbePhase::Finished, audio,
                ActionView::Finish(failed("set "@ + probe_option_list()[i as int].0 + ": "@ + e))),
        (ProbePhase::Initializing, InputView::Done(Ok(()))) =>
            (ProbePhase::Loading, audio, ActionView::LoadFile(seq!["loadfile"@, url])),
        (ProbePhase::Initializing, InputView::Done(Err(e))) =>
            (ProbePhase::Finished, audio, ActionView::Finish(failed("init: "@ + e))),
        (ProbePhase::Loading, InputView::Done(Ok(()))) =>
            (ProbePhase::CheckingDeadline, audio, ActionView::CheckDeadline),
        (ProbePhase::Loading, InputView::Done(Err(e))) =>
            (ProbePhase::Finished, audio, ActionView::Finish(failed("loadfile: "@ + e))),
        (ProbePhase::CheckingDeadline, InputView::Elapsed(elapsed)) =>
            if timed_out(elapsed, timeout_ms) {
                (ProbePhase::Finished, audio, ActionView::Finish(failed("timeout (no frame)"@)))
            } else {
                (ProbePhase::Waiting, audio, ActionView::WaitEvent(EVENT_WAIT_MS))
            },
        (ProbePhase::Waiting, InputView::Event(id, err)) =>
            if id == MPV_EVENT_END_FILE && err < 0 {
                (ProbePhase::Finished, audio,
                    ActionView::Finish(failed("end-file error "@ + decimal_text(err as int))))
            } else if id == MPV_EVENT_FILE_LOADED {
                (ProbePhase::ReadingAid(AudioCheck::AfterLoad), audio, ActionView::ReadAid)
            } else {
                (ProbePhase::ReadingDimensions, audio, ActionView::ReadDimensions)
            },
        (ProbePhase::ReadingAid(stage), InputView::Aid(aid)) =>
            if aid matches Some(a) && a > 0 {
                after_audio(stage, audio, true)
            } else {
                (ProbePhase::ReadingCodec(stage), audio, ActionView::ReadAudioCodec)
            },
        (ProbePhase::ReadingCodec(stage), InputView::AudioCodec(present)) =>
            after_audio(stage, audio, present),
        (ProbePhase::ReadingDimensions, InputView::Dimensions(w, h)) => {
            let dw = match w { Some(x) => x, None => 0 };
            let dh = match h { Some(x) => x, None => 0 };
            if dw > 0 && dh > 0 {
                if audio {
                    (ProbePhase::Finished, audio, ActionView::Finish(succeeded(dw as int, dh as int, true)))
                } else {
                    (ProbePhase::ReadingAid(AudioCheck::BeforeFinish(dw, dh)), audio, ActionView::ReadAid)
                }
            } else {
                (ProbePhase::CheckingDeadline, audio, ActionView::CheckDeadline)
            }
        },
        _ => (phase, audio, ActionView::CheckDeadline),
    }
}

/// Begins a probe of `url`: the first thing to do is to create the player.
pub fn start(url: String, timeout_ms: u64) -> (r: (ProbeState, ProbeAction))
    ensures
        r.0.wf(),
        r.0@ == (StateView { phase: ProbePhase::Creating, audio: false, url: url@, timeout_ms }),
        r.1@ == ActionView::Create,
{
    (ProbeState { phase: ProbePhase::Creating, audio: false, url, timeout_ms }, ProbeAction::Create)
}

fn prefixed(prefix: &str, e: &String) -> (r: String)
    ensures
        r@ == prefix@ + e@,
{
    let mut r = String::from_str(prefix);
    r.append(e.as_str());
    r
}

fn option_action(i: usize) -> (r: ProbeAction)
    requires
        i < probe_option_list().len(),
    ensures
        r@ == ActionView::SetOption(probe_option_list()[i as int].0, probe_option_list()[i as int].1),
{
    let opts = probe_options();
    proof {
        assert(opts.deep_view()[i as int] == opts@[i as int].deep_view());
    }
    let k = opts[i].0.clone();
    let v = opts[i].1.clone();
    ProbeAction::SetOption(k, v)
}

impl ProbeState {
    /// The phase the probe is in.
    pub fn phase(&self) -> (r: ProbePhase)
        ensures
            r == self@.phase,
    {
        self.phase
    }

    fn after_audio_check(&mut self, stage: AudioCheck, found: bool) -> (r: ProbeAction)
        requires
            stage matches AudioCheck::BeforeFinish(w, h) ==> w > 0 && h > 0,
        ensures
            final(self).wf(),
            (final(self)@.phase, final(self)@.audio, r@) == after_audio(stage, old(self)@.audio, found),
            final(self)@.url == old(self)@.url,
            final(self)@.timeout_ms == old(self)@.timeout_ms,
    {
        match stage {
            AudioCheck::AfterLoad => {
                self.audio = found;
                self.phase = ProbePhase::ReadingDimensions;
                ProbeAction::ReadDimensions
            },
            AudioCheck::BeforeFinish(w, h) => {
                self.phase = ProbePhase::Finished;
                ProbeAction::Finish(ProbeResult { decoded: true, width: w, height: h, audio: found, error: None })
            },
        }
    }
}

/// Advances the probe by the outcome of what it last asked for, and says what to do next
/// (see [`transition`]). Every result it finishes with is consistent: a decoded frame of
/// positive size and no error, or an error and nothing else.
pub fn probe_blocking(state: &mut ProbeState, input: ProbeInput) -> (r: ProbeAction)
    requires
        old(state).wf(),
        expects(old(state)@.phase, input@),
    ensures
        final(state).wf(),
        final(state)@.url == old(state)@.url,
        final(state)@.timeout_ms == old(state)@.timeout_ms,
        (final(state)@.phase, final(state)@.audio, r@)
            == transition(old(state)@.phase, old(state)@.audio, old(state)@.url, old(state)@.timeout_ms, input@),
        r@ matches ActionView::Finish(res) ==> result_consistent(res) && final(state)@.phase == ProbePhase::Finished,
{
    match input {
        ProbeInput::Done(outcome) => {
            match state.phase {
                ProbePhase::Creating => match outcome {
                    Ok(()) => {
                        state.phase = ProbePhase::SettingOption(0);
                        option_action(0)
                    },
                    Err(e) => {
                        state.phase = ProbePhase::Finished;
                        ProbeAction::Finish(probe_failure(prefixed("mpv create: ", &e)))
                    },
                },
                ProbePhase::SettingOption(i) => match outcome {
                    Ok(()) => {
                        if i + 1 < 4 {
                            state.phase = ProbePhase::SettingOption(i + 1);
                            option_action(i + 1)
                        } else {
                            state.phase = ProbePhase::Initializing;
                            ProbeAction::Initialize
                        }
                    },
                    Err(e) => {
                        state.phase = ProbePhase::Finished;
                        let opts = probe_options();
                        proof {
                            assert(opts.deep_view()[i as int] == opts@[i as int].deep_view());
                        }
                        let mut msg = String::from_str("set ");
                        msg.append(opts[i].0.as_str());
                        msg.append(": ");
                        msg.append(e.as_str());
                        ProbeAction::Finish(probe_failure(msg))
                    },
                },
                ProbePhase::Initializing => match outcome {
                    Ok(()) => {
                        state.phase = ProbePhase::Loading;
                        let mut args: Vec<String> = Vec::new();
                        args.push(String::from_str("loadfile"));
                        args.push(state.url.clone());
                        assert(args.deep_view() =~= seq!["loadfile"@, state.url@]);
                        ProbeAction::LoadFile(args)
                    },
                    Err(e) => {
                        state.phase = ProbePhase::Finished;
                        ProbeAction::Finish(probe_failure(prefixed("init: ", &e)))
                    },
                },
                _ => match outcome {
                    Ok(()) => {
                        state.phase = ProbePhase::CheckingDeadline;
                        ProbeAction::CheckDeadline
                    },
                    Err(e) => {
                        state.phase = ProbePhase::Finished;
                        ProbeAction::Finish(probe_failure(prefixed("loadfile: ", &e)))
                    },
                },
            }
        },
        ProbeInput::Elapsed(elapsed) => {
            if deadline_passed(elapsed, state.timeout_ms) {
                state.phase = ProbePhase::Finished;
                ProbeAction::Finish(probe_failure(String::from_str("timeout (no frame)")))
            } else {
                state.phase = ProbePhase::Waiting;
                ProbeAction::WaitEvent(EVENT_WAIT_MS)
            }
        },
        ProbeInput::Event(id, err) => {
            if id == MPV_EVENT_END_FILE && err < 0 {
                state.phase = ProbePhase::Finished;
                let mut msg = String::from_str("end-file error ");
                let code = decimal_string(err as i64);
                msg.append(code.as_str());
                ProbeAction::Finish(probe_failure(msg))
            } else if id == MPV_EVENT_FILE_LOADED {
                state.phase = ProbePhase::ReadingAid(AudioCheck::AfterLoad);
                ProbeAction::ReadAid
            } else {
                state.phase = ProbePhase::ReadingDimensions;
                ProbeAction::ReadDimensions
            }
        },
        ProbeInput::Aid(aid) => {
            let stage = match state.phase {
                ProbePhase::ReadingAid(stage) => stage,
                _ => AudioCheck::AfterLoad,
            };
            let found = match aid {
                Some(a) => a > 0,
                None => false,
            };
            if found {
                state.after_audio_check(stage, true)
            } else {
                state.phase = ProbePhase::ReadingCodec(stage);
                ProbeAction::ReadAudioCodec
            }
        },
        ProbeInput::AudioCodec(present) => {
            let stage = match state.phase {
                ProbePhase::ReadingCodec(stage) => stage,
                _ => AudioCheck::AfterLoad,
            };
            state.after_audio_check(stage, present)
        },
        ProbeInput::Dimensions(w, h) => {
            let dw = match w {
                Some(x) => x,
                None => 0,
            };
            let dh = match h {
                Some(x) => x,
                None => 0,
            };
            if dw > 0 && dh > 0 {
                if state.audio {
                    state.phase = ProbePhase::Finished;
                    ProbeAction::Finish(ProbeResult { decoded: true, width: dw, height: dh, audio: true, error: None })
                } else {
                    state.phase = ProbePhase::ReadingAid(AudioCheck::BeforeFinish(dw, dh));
                    ProbeAction::ReadAid
                }
            } else {
                state.phase = ProbePhase::CheckingDeadline;
                ProbeAction::CheckDeadline
            }
        },
    }
}


/// With a timeout of 0 the probe waits for no event: the first look at the clock after the
/// load ends it with `timeout (no frame)`, however little time has passed.
pub proof fn lemma_zero_timeout_waits_for_nothing(url: Seq<char>, audio: bool, elapsed_ms: u64)
    ensures
        transition(ProbePhase::CheckingDeadline, audio, url, 0, InputView::Elapsed(elapsed_ms))
            == (ProbePhase::Finished, audio, ActionView::Finish(failed("timeout (no frame)"@))),
{
}

/// Before its deadline the probe only ever waits [`EVENT_WAIT_MS`] for an event; at or after
/// its deadline it ends with `timeout (no frame)`.
pub proof fn lemma_deadline_decides(url: Seq<char>, audio: bool, timeout_ms: u64, elapsed_ms: u64)
    ensures
        elapsed_ms < timeout_ms ==> transition(ProbePhase::CheckingDeadline, audio, url, timeout_ms,
            InputView::Elapsed(elapsed_ms)) == (ProbePhase::Waiting, audio, ActionView::WaitEvent(100)),
        elapsed_ms >= timeout_ms ==> transition(ProbePhase::CheckingDeadline, audio, url, timeout_ms,
            InputView::Elapsed(elapsed_ms)) == (ProbePhase::Finished, audio,
            ActionView::Finish(failed("timeout (no frame)"@))),
{
}

/// A property read that gave a positive number.
pub open spec fn positive(read: Option<i64>) -> bool {
    match read {
        Some(x) => x > 0,
        None => false,
    }
}

/// The audio rule of a decoded probe: the result has audio exactly when audio was found
/// when the file loaded, or else, once a frame of positive size is decoded, `aid` is positive
/// or (failing that) `audio-codec` is set. The check at the end is made only when no audio
/// was found at load time.
pub proof fn lemma_decoded_audio(url: Seq<char>, t: u64, load_audio: bool, w: i64, h: i64, aid: Option<i64>, codec: bool)
    requires
        w > 0,
        h > 0,
    ensures
        ({
            let s1 = transition(ProbePhase::ReadingDimensions, load_audio, url, t,
                InputView::Dimensions(Some(w), Some(h)));
            let s2 = transition(s1.0, s1.1, url, t, InputView::Aid(aid));
            let s3 = transition(s2.0, s2.1, url, t, InputView::AudioCodec(codec));
            &&& load_audio ==> s1.0 == ProbePhase::Finished && s1.2 == ActionView::Finish(
                ResultView { decoded: true, width: w as int, height: h as int, audio: true, error: None })
            &&& !load_audio ==> s1.2 == ActionView::ReadAid
            &&& (!load_audio && positive(aid)) ==> s2.0 == ProbePhase::Finished
                && s2.2 == ActionView::Finish(
                ResultView { decoded: true, width: w as int, height: h as int, audio: true, error: None })
            &&& (!load_audio && !positive(aid)) ==> s2.2 == ActionView::ReadAudioCodec
                && s3.0 == ProbePhase::Finished && s3.2 == ActionView::Finish(
                ResultView { decoded: true, width: w as int, height: h as int, audio: codec, error: None })
        }),
{
}

/// The audio check when a file loads: audio is found when `aid` is positive, else when
/// `audio-codec` is set; either way the probe goes on to read the frame size.
pub proof fn lemma_audio_at_load(url: Seq<char>, t: u64, audio: bool, err: i32, aid: Option<i64>, codec: bool)
    ensures
        ({
            let s1 = transition(ProbePhase::Waiting, audio, url, t, InputView::Event(MPV_EVENT_FILE_LOADED, err));
            let s2 = transition(s1.0, s1.1, url, t, InputView::Aid(aid));
            let s3 = transition(s2.0, s2.1, url, t, InputView::AudioCodec(codec));
            &&& s1.2 == ActionView::ReadAid
            &&& positive(aid) ==> s2.0 == ProbePhase::ReadingDimensions && s2.1
                && s2.2 == ActionView::ReadDimensions
            &&& !positive(aid) ==> s2.2 == ActionView::ReadAudioCodec
                && s3.0 == ProbePhase::ReadingDimensions && s3.1 == codec
                && s3.2 == ActionView::ReadDimensions
        }),
{
}

/// A frame is reported decoded only when both sides read positive; otherwise the probe
/// goes back to the clock.
pub proof fn lemma_no_frame_no_decode(url: Seq<char>, t: u64, audio: bool, w: Option<i64>, h: Option<i64>)
    requires
        !positive(w) || !positive(h),
    ensures
        transition(ProbePhase::ReadingDimensions, audio, url, t, InputView::Dimensions(w, h))
            == (ProbePhase::CheckingDeadline, audio, ActionView::CheckDeadline),
{
}

/// Setting up: each step that fails ends the probe, undecoded, with an error that names the
/// step and ends with mpv's own message; each that goes through leads to the next (the
/// probe options in their order, then initialization, then `loadfile` of the clip, then
/// the clock).
pub proof fn lemma_setup_steps(url: Seq<char>, t: u64, audio: bool, e: Seq<char>, i: usize)
    requires
        i < 4,
    ensures
        transition(ProbePhase::Creating, audio, url, t, InputView::Done(Err(e))) == (ProbePhase::Finished, audio,
            ActionView::Finish(ResultView { decoded: false, width: 0, height: 0, audio: false, error: Some("mpv create: "@ + e) })),
        transition(ProbePhase::SettingOption(i), audio, url, t, InputView::Done(Err(e))) == (ProbePhase::Finished, audio,
            ActionView::Finish(ResultView { decoded: false, width: 0, height: 0, audio: false,
                error: Some("set "@ + probe_option_list()[i as int].0 + ": "@ + e) })),
        transition(ProbePhase::Initializing, audio, url, t, InputView::Done(Err(e))) == (ProbePhase::Finished, audio,
            ActionView::Finish(ResultView { decoded: false, width: 0, height: 0, audio: false, error: Some("init: "@ + e) })),
        transition(ProbePhase::Loading, audio, url, t, InputView::Done(Err(e))) == (ProbePhase::Finished, audio,
            ActionView::Finish(ResultView { decoded: false, width: 0, height: 0, audio: false, error: Some("loadfile: "@ + e) })),
        transition(ProbePhase::Creating, audio, url, t, InputView::Done(Ok(())))
            == (ProbePhase::SettingOption(0), audio, ActionView::SetOption("vo"@, "null"@)),
        i < 3 ==> transition(ProbePhase::SettingOption(i), audio, url, t, InputView::Done(Ok(())))
            == (ProbePhase::SettingOption((i + 1) as usize), audio,
                ActionView::SetOption(probe_option_list()[i + 1].0, probe_option_list()[i + 1].1)),
        transition(ProbePhase::SettingOption(3), audio, url, t, InputView::Done(Ok(())))
            == (ProbePhase::Initializing, audio, ActionView::Initialize),
        transition(ProbePhase::Initializing, audio, url, t, InputView::Done(Ok(())))
            == (ProbePhase::Loading, audio, ActionView::LoadFile(seq!["loadfile"@, url])),
        transition(ProbePhase::Loading, audio, url, t, InputView::Done(Ok(())))
            == (ProbePhase::CheckingDeadline, audio, ActionView::CheckDeadline),
{
}

/// An end of file with a negative error ends the probe, undecoded, naming the code; any other
/// event but a loaded file goes straight to reading the frame size.
pub proof fn lemma_events_while_waiting(url: Seq<char>, t: u64, audio: bool, id: i32, err: i32)
    ensures
        err < 0 ==> transition(ProbePhase::Waiting, audio, url, t, InputView::Event(7, err)) == (ProbePhase::Finished, audio,
            ActionView::Finish(ResultView { decoded: false, width: 0, height: 0, audio: false,
                error: Some("end-file error "@ + decimal_text(err as int)) })),
        ((id != 7 || err >= 0) && id != 8) ==> transition(ProbePhase::Waiting, audio, url, t, InputView::Event(id, err))
            == (ProbePhase::ReadingDimensions, audio, ActionView::ReadDimensions),
{
}

} // verus!
