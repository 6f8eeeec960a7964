//! Decisions of the player's event loop: which properties it observes, where each mpv
//! event is routed, which UI event it raises, and when the machine must be kept awake.
//! The loop itself (waiting on mpv, reading properties, emitting) runs outside.
use vstd::prelude::*;

use crate::mpv::{
    MpvFormat, MPV_EVENT_END_FILE, MPV_EVENT_FILE_LOADED, MPV_EVENT_PROPERTY_CHANGE,
    MPV_EVENT_SHUTDOWN,
};

verus! {

/// A property that the event loop observes; its observer id is what mpv hands back
/// as `reply_userdata` when it changes.
#[derive(Clone, Copy, Debug, PartialEq, Eq, Structural)]
pub enum ObservedProperty {
    TimePos,
    Pause,
    Duration,
    CoreIdle,
    EofReached,
    IdleActive,
}

pub open spec fn property_id(p: ObservedProperty) -> u64 {
    match p {
        ObservedProperty::TimePos => 1,
        ObservedProperty::Pause => 2,
        ObservedProperty::Duration => 3,
        ObservedProperty::CoreIdle => 4,
        ObservedProperty::EofReached => 5,
        ObservedProperty::IdleActive => 6,
    }
}

pub open spec fn property_name(p: ObservedProperty) -> Seq<char> {
    match p {
        ObservedProperty::TimePos => "time-pos"@,
        ObservedProperty::Pause => "pause"@,
        ObservedProperty::Duration => "duration"@,
        ObservedProperty::CoreIdle => "core-idle"@,
        ObservedProperty::EofReached => "eof-reached"@,
        ObservedProperty::IdleActive => "idle-active"@,
    }
}

pub open spec fn property_format(p: ObservedProperty) -> MpvFormat {
    match p {
        ObservedProperty::TimePos => MpvFormat::Double,
        ObservedProperty::Duration => MpvFormat::Double,
        _ => MpvFormat::Flag,
    }
}

/// The property observed under an id, if any.
pub open spec fn property_with_id(id: u64) -> Option<ObservedProperty> {
    if id == 1 { Some(ObservedProperty::TimePos) }
    else if id == 2 { Some(ObservedProperty::Pause) }
    else if id == 3 { Some(ObservedProperty::Duration) }
    else if id == 4 { Some(ObservedProperty::CoreIdle) }
    else if id == 5 { Some(ObservedProperty::EofReached) }
    else if id == 6 { Some(ObservedProperty::IdleActive) }
    else { None }
}

impl ObservedProperty {
    /// The observer id of the property.
    pub fn id(&self) -> (r: u64)
        ensures
            r == property_id(*self),
    {
        match self {
            ObservedProperty::TimePos => 1,
            ObservedProperty::Pause => 2,
            ObservedProperty::Duration => 3,
            ObservedProperty::CoreIdle => 4,
            ObservedProperty::EofReached => 5,
            ObservedProperty::IdleActive => 6,
        }
    }

    /// The mpv name of the property.
    pub fn name(&self) -> (r: String)
        ensures
            r@ == property_name(*self),
    {
        match self {
            ObservedProperty::TimePos => String::from_str("time-pos"),
            ObservedProperty::Pause => String::from_str("pause"),
            ObservedProperty::Duration => String::from_str("duration"),
            ObservedProperty::CoreIdle => String::from_str("core-idle"),
            ObservedProperty::EofReached => String::from_str("eof-reached"),
            ObservedProperty::IdleActive => String::from_str("idle-active"),
        }
    }

    /// The format in which the property is observed and read.
    pub fn format(&self) -> (r: MpvFormat)
        ensures
            r == property_format(*self),
    {
        match self {
            ObservedProperty::TimePos => MpvFormat::Double,
            ObservedProperty::Duration => MpvFormat::Double,
            _ => MpvFormat::Flag,
        }
    }
}

/// The properties in the order the loop registers them (ids 1 to 6).
pub open spec fn observed_list() -> Seq<ObservedProperty> {
    seq![
        ObservedProperty::TimePos,
        ObservedProperty::Pause,
        ObservedProperty::Duration,
        ObservedProperty::CoreIdle,
        ObservedProperty::EofReached,
        ObservedProperty::IdleActive,
    ]
}

/// The properties that the event loop registers with mpv, in order.
pub fn observed_properties() -> (r: Vec<ObservedProperty>)
    ensures
        r@ == observed_list(),
{
    let mut v: Vec<ObservedProperty> = Vec::new();
    v.push(ObservedProperty::TimePos);
    v.push(ObservedProperty::Pause);
    v.push(ObservedProperty::Duration);
    v.push(ObservedProperty::CoreIdle);
    v.push(ObservedProperty::EofReached);
    v.push(ObservedProperty::IdleActive);
    assert(v@ =~= observed_list());
    v
}

/// Ids and properties correspond one to one.
pub proof fn lemma_observer_ids_distinct(p: ObservedProperty, q: ObservedProperty)
    ensures
        property_with_id(property_id(p)) == Some(p),
        property_id(p) == property_id(q) ==> p == q,
{
}

/// How long the loop waits for the next event at most, in milliseconds (one second).
pub const POLL_WAIT_MS: u64 = 1000;

/// What the loop does with one event that mpv delivered.
#[derive(Clone, Copy, Debug, PartialEq, Eq, Structural)]
pub enum LoopStep {
    /// mpv shut down: leave the loop.
    Stop,
    /// An observed property changed: read it.
    Read(ObservedProperty),
    /// A file was loaded: report its dimensions and duration.
    FileLoaded,
    /// Playback of a file ended.
    FileEnded,
    /// Nothing to do.
    Ignore,
}

/// The step for an event id and its `reply_userdata`; a property change is routed by the
/// observer id alone, never by the event's payload.
pub open spec fn step_for(id: i32, reply: u64) -> LoopStep {
    if id == MPV_EVENT_SHUTDOWN {
        LoopStep::Stop
    } else if id == MPV_EVENT_PROPERTY_CHANGE {
        match property_with_id(reply) {
            Some(p) => LoopStep::Read(p),
            None => LoopStep::Ignore,
        }
    } else if id == MPV_EVENT_FILE_LOADED {
        LoopStep::FileLoaded
    } else if id == MPV_EVENT_END_FILE {
        LoopStep::FileEnded
    } else {
        LoopStep::Ignore
    }
}

/// Routes one event `(id, reply_userdata)` of the loop.
pub fn route_event(id: i32, reply: u64) -> (r: LoopStep)
    ensures
        r == step_for(id, reply),
{
    if id == MPV_EVENT_SHUTDOWN {
        LoopStep::Stop
    } else if id == MPV_EVENT_PROPERTY_CHANGE {
        if reply == 1 {
            LoopStep::Read(ObservedProperty::TimePos)
        } else if reply == 2 {
            LoopStep::Read(ObservedProperty::Pause)
        } else if reply == 3 {
            LoopStep::Read(ObservedProperty::Duration)
        } else if reply == 4 {
            LoopStep::Read(ObservedProperty::CoreIdle)
        } else if reply == 5 {
            LoopStep::Read(ObservedProperty::EofReached)
        } else if reply == 6 {
            LoopStep::Read(ObservedProperty::IdleActive)
        } else {
            LoopStep::Ignore
        }
    } else if id == MPV_EVENT_FILE_LOADED {
        LoopStep::FileLoaded
    } else if id == MPV_EVENT_END_FILE {
        LoopStep::FileEnded
    } else {
        LoopStep::Ignore
    }
}

/// The loop ends on shutdown, and only there.
pub proof fn lemma_stop_only_on_shutdown(id: i32, reply: u64)
    ensures
        (step_for(id, reply) == LoopStep::Stop) == (id == MPV_EVENT_SHUTDOWN),
{
}

/// An event raised to the user interface.
#[derive(Clone, Copy, Debug, PartialEq, Eq, Structural)]
pub enum PlayerEvent {
    TimePos,
    Pause,
    Duration,
    Idle,
    Eof,
    Loaded,
    End,
}

pub open spec fn event_name(e: PlayerEvent) -> Seq<char> {
    match e {
        PlayerEvent::TimePos => "mpv:time-pos"@,
        PlayerEvent::Pause => "mpv:pause"@,
        PlayerEvent::Duration => "mpv:duration"@,
        PlayerEvent::Idle => "mpv:idle"@,
        PlayerEvent::Eof => "mpv:eof"@,
        PlayerEvent::Loaded => "mpv:loaded"@,
        PlayerEvent::End => "mpv:end"@,
    }
}

impl PlayerEvent {
    /// The name under which the event is emitted.
    pub fn name(&self) -> (r: String)
        ensures
            r@ == event_name(*self),
    {
        match self {
            PlayerEvent::TimePos => String::from_str("mpv:time-pos"),
            PlayerEvent::Pause => String::from_str("mpv:pause"),
            PlayerEvent::Duration => String::from_str("mpv:duration"),
            PlayerEvent::Idle => String::from_str("mpv:idle"),
            PlayerEvent::Eof => String::from_str("mpv:eof"),
            PlayerEvent::Loaded => String::from_str("mpv:loaded"),
            PlayerEvent::End => String::from_str("mpv:end"),
        }
    }
}

/// The event that carries a number property's value, for the properties read as numbers.
pub open spec fn number_event_of(p: ObservedProperty) -> Option<PlayerEvent> {
    match p {
        ObservedProperty::TimePos => Some(PlayerEvent::TimePos),
        ObservedProperty::Duration => Some(PlayerEvent::Duration),
        _ => None,
    }
}

/// The event under which a number property's new value goes to the interface.
pub fn number_event(p: ObservedProperty) -> (r: Option<PlayerEvent>)
    ensures
        r == number_event_of(p),
{
    match p {
        ObservedProperty::TimePos => Some(PlayerEvent::TimePos),
        ObservedProperty::Duration => Some(PlayerEvent::Duration),
        _ => None,
    }
}

/// What the loop has learnt of playback, for the wake lock: whether the user paused, and
/// whether the playback core is idle (nothing loaded). A fresh player is idle and unpaused.
#[derive(Clone, Copy, Debug, PartialEq, Eq, Structural)]
pub struct WakeState {
    pub paused: bool,
    pub idle_active: bool,
}

/// The machine is kept awake while a file is loaded and not paused by the user
/// (buffering counts as playing).
pub open spec fn keeps_awake(s: WakeState) -> bool {
    !s.paused && !s.idle_active
}

/// The state after a flag report: `pause` and `idle-active` values update it, nothing else does.
pub open spec fn after_flag(s: WakeState, p: ObservedProperty, value: Option<bool>) -> WakeState {
    match value {
        Some(v) => match p {
            ObservedProperty::Pause => WakeState { paused: v, ..s },
            ObservedProperty::IdleActive => WakeState { idle_active: v, ..s },
            _ => s,
        },
        None => s,
    }
}

/// What the loop does with a flag property it read: the event it raises, if any, with its
/// payload (the flag, or nothing), and the wake-lock state to request, if it changed hands.
#[derive(Debug)]
pub struct FlagReaction {
    pub emit: Option<PlayerEvent>,
    pub payload: Option<bool>,
    pub wake: Option<bool>,
}

/// The payload of the event a flag report raises: the flag itself for `pause` and
/// `core-idle`; nothing for end of file (or when no event is raised).
pub open spec fn flag_payload(p: ObservedProperty, value: Option<bool>) -> Option<bool> {
    match value {
        Some(v) => match p {
            ObservedProperty::Pause => Some(v),
            ObservedProperty::CoreIdle => Some(v),
            _ => None,
        },
        None => None,
    }
}

/// The size reported when a file is loaded: `dwidth` and `dheight`, 0 for one that could
/// not be read.
pub fn loaded_dimensions(width: Option<i64>, height: Option<i64>) -> (r: (i64, i64))
    ensures
        r.0 == (match width { Some(w) => w, None => 0 }),
        r.1 == (match height { Some(h) => h, None => 0 }),
{
    let w = match width {
        Some(w) => w,
        None => 0,
    };
    let h = match height {
        Some(h) => h,
        None => 0,
    };
    (w, h)
}

pub open spec fn flag_emission(p: ObservedProperty, value: Option<bool>) -> Option<PlayerEvent> {
    match value {
        Some(v) => match p {
            ObservedProperty::Pause => Some(PlayerEvent::Pause),
            ObservedProperty::CoreIdle => Some(PlayerEvent::Idle),
            ObservedProperty::EofReached => if v { Some(PlayerEvent::Eof) } else { None },
            _ => None,
        },
        None => None,
    }
}

/// Whether a report makes the loop update the wake lock.
pub open spec fn updates_wake(p: ObservedProperty, value: Option<bool>) -> bool {
    value is Some && (p == ObservedProperty::Pause || p == ObservedProperty::IdleActive)
}

impl WakeState {
    /// The state of a player that was just created: idle, not paused.
    pub fn new() -> (r: WakeState)
        ensures
            r == (WakeState { paused: false, idle_active: true }),
            !keeps_awake(r),
    {
        WakeState { paused: false, idle_active: true }
    }

    /// Whether the machine must be kept awake now.
    pub fn wants_awake(&self) -> (r: bool)
        ensures
            r == keeps_awake(*self),
    {
        !self.paused && !self.idle_active
    }

    /// The wake-lock request when the loop ends on shutdown: release, whatever was learnt.
    pub fn on_shutdown(&self) -> (r: bool)
        ensures
            !r,
    {
        false
    }

    /// Takes in the value read for a flag property (`None` when it could not be read).
    pub fn on_flag(&mut self, p: ObservedProperty, value: Option<bool>) -> (r: FlagReaction)
        ensures
            *final(self) == after_flag(*old(self), p, value),
            r.emit == flag_emission(p, value),
            r.payload == flag_payload(p, value),
            updates_wake(p, value) ==> r.wake == Some(keeps_awake(*final(self))),
            !updates_wake(p, value) ==> r.wake is None,
    {
        match value {
            None => FlagReaction { emit: None, payload: None, wake: None },
            Some(v) => match p {
                ObservedProperty::Pause => {
                    self.paused = v;
                    FlagReaction { emit: Some(PlayerEvent::Pause), payload: Some(v), wake: Some(self.wants_awake()) }
                },
                ObservedProperty::CoreIdle => FlagReaction { emit: Some(PlayerEvent::Idle), payload: Some(v), wake: None },
                ObservedProperty::EofReached => {
                    if v {
                        FlagReaction { emit: Some(PlayerEvent::Eof), payload: None, wake: None }
                    } else {
                        FlagReaction { emit: None, payload: None, wake: None }
                    }
                },
                ObservedProperty::IdleActive => {
                    self.idle_active = v;
                    FlagReaction { emit: None, payload: None, wake: Some(self.wants_awake()) }
                },
                _ => FlagReaction { emit: None, payload: None, wake: None },
            },
        }
    }
}

/// The state after a whole run of flag reports, in order.
pub open spec fn after_flags(s: WakeState, reports: Seq<(ObservedProperty, Option<bool>)>) -> WakeState
    decreases reports.len(),
{
    if reports.len() == 0 {
        s
    } else {
        let last = reports.last();
        after_flag(after_flags(s, reports.drop_last()), last.0, last.1)
    }
}

/// The most recent value reported for a property, or `default` when none was.
pub open spec fn latest(reports: Seq<(ObservedProperty, Option<bool>)>, p: ObservedProperty, default: bool) -> bool
    decreases reports.len(),
{
    if reports.len() == 0 {
        default
    } else {
        let last = reports.last();
        if last.0 == p && last.1 is Some {
            last.1->0
        } else {
            latest(reports.drop_last(), p, default)
        }
    }
}

/// The wake lock depends on nothing but the most recent `pause` and `idle-active` values:
/// after any run of reports from a fresh player, the machine is kept awake exactly when the
/// last `pause` seen was false (or none was seen) and the last `idle-active` seen was false.
pub proof fn lemma_wake_follows_latest(reports: Seq<(ObservedProperty, Option<bool>)>)
    ensures
        after_flags(WakeState { paused: false, idle_active: true }, reports)
            == (WakeState {
                paused: latest(reports, ObservedProperty::Pause, false),
                idle_active: latest(reports, ObservedProperty::IdleActive, true),
            }),
        keeps_awake(after_flags(WakeState { paused: false, idle_active: true }, reports))
            == (!latest(reports, ObservedProperty::Pause, false)
                && !latest(reports, ObservedProperty::IdleActive, true)),
    decreases reports.len(),
{
    if reports.len() > 0 {
        lemma_wake_follows_latest(reports.drop_last());
    }
}

/// The observer ids: `time-pos` 1, `pause` 2, `duration` 3, `core-idle` 4, `eof-reached` 5,
/// `idle-active` 6; a property change carrying one of them reads that property (by its mpv
/// name, in its format), and a property change with any other id is ignored.
pub proof fn lemma_property_changes_read_their_property(reply: u64)
    ensures
        step_for(22, 1) == LoopStep::Read(ObservedProperty::TimePos),
        step_for(22, 2) == LoopStep::Read(ObservedProperty::Pause),
        step_for(22, 3) == LoopStep::Read(ObservedProperty::Duration),
        step_for(22, 4) == LoopStep::Read(ObservedProperty::CoreIdle),
        step_for(22, 5) == LoopStep::Read(ObservedProperty::EofReached),
        step_for(22, 6) == LoopStep::Read(ObservedProperty::IdleActive),
        (reply < 1 || reply > 6) ==> step_for(22, reply) == LoopStep::Ignore,
        property_name(ObservedProperty::TimePos) == "time-pos"@,
        property_name(ObservedProperty::Pause) == "pause"@,
        property_name(ObservedProperty::Duration) == "duration"@,
        property_name(ObservedProperty::CoreIdle) == "core-idle"@,
        property_name(ObservedProperty::EofReached) == "eof-reached"@,
        property_name(ObservedProperty::IdleActive) == "idle-active"@,
        property_format(ObservedProperty::TimePos) == MpvFormat::Double,
        property_format(ObservedProperty::Duration) == MpvFormat::Double,
        property_format(ObservedProperty::Pause) == MpvFormat::Flag,
        property_format(ObservedProperty::CoreIdle) == MpvFormat::Flag,
        property_format(ObservedProperty::EofReached) == MpvFormat::Flag,
        property_format(ObservedProperty::IdleActive) == MpvFormat::Flag,
{
}

/// For every observed property, a change event carrying its observer id reads it.
pub proof fn lemma_observed_ids_route_to_reads(p: ObservedProperty)
    ensures
        step_for(MPV_EVENT_PROPERTY_CHANGE, property_id(p)) == LoopStep::Read(p),
        1 <= property_id(p) <= 6,
{
}

/// What the interface hears of flag reports: every readable `pause` and `core-idle` value is
/// forwarded (as `mpv:pause` and `mpv:idle`) with the value itself, true or false;
/// `eof-reached` raises `mpv:eof`, with nothing, exactly when it reads true; `idle-active`
/// raises nothing; an unreadable flag raises nothing. Only `pause` and `idle-active` move the
/// wake state, and each to the value read.
pub proof fn lemma_flag_reports(s: WakeState, v: bool, p: ObservedProperty)
    ensures
        flag_emission(ObservedProperty::Pause, Some(v)) == Some(PlayerEvent::Pause),
        flag_payload(ObservedProperty::Pause, Some(v)) == Some(v),
        flag_emission(ObservedProperty::CoreIdle, Some(v)) == Some(PlayerEvent::Idle),
        flag_payload(ObservedProperty::CoreIdle, Some(v)) == Some(v),
        flag_emission(ObservedProperty::EofReached, Some(v)) == (if v { Some(PlayerEvent::Eof) } else { None }),
        flag_payload(ObservedProperty::EofReached, Some(v)) == None::<bool>,
        flag_emission(ObservedProperty::IdleActive, Some(v)) == None::<PlayerEvent>,
        flag_emission(p, None) == None::<PlayerEvent>,
        flag_payload(p, None) == None::<bool>,
        after_flag(s, p, None) == s,
        after_flag(s, ObservedProperty::Pause, Some(v)) == (WakeState { paused: v, idle_active: s.idle_active }),
        after_flag(s, ObservedProperty::IdleActive, Some(v)) == (WakeState { paused: s.paused, idle_active: v }),
        after_flag(s, ObservedProperty::CoreIdle, Some(v)) == s,
        after_flag(s, ObservedProperty::EofReached, Some(v)) == s,
        event_name(PlayerEvent::Pause) == "mpv:pause"@,
        event_name(PlayerEvent::Idle) == "mpv:idle"@,
        event_name(PlayerEvent::Eof) == "mpv:eof"@,
{
}

/// Shutdown stops the loop whatever its `reply_userdata`; a loaded file and an ended file are
/// reported whatever theirs; nothing else is acted on. `time-pos` and `duration` go out as
/// `mpv:time-pos` and `mpv:duration`, and no flag property goes out as a number.
pub proof fn lemma_other_events(reply: u64, id: i32)
    ensures
        step_for(1, reply) == LoopStep::Stop,
        step_for(8, reply) == LoopStep::FileLoaded,
        step_for(7, reply) == LoopStep::FileEnded,
        (id != 1 && id != 7 && id != 8 && id != 22) ==> step_for(id, reply) == LoopStep::Ignore,
        number_event_of(ObservedProperty::TimePos) == Some(PlayerEvent::TimePos),
        number_event_of(ObservedProperty::Duration) == Some(PlayerEvent::Duration),
        number_event_of(ObservedProperty::Pause) == None::<PlayerEvent>,
        number_event_of(ObservedProperty::CoreIdle) == None::<PlayerEvent>,
        number_event_of(ObservedProperty::EofReached) == None::<PlayerEvent>,
        number_event_of(ObservedProperty::IdleActive) == None::<PlayerEvent>,
        event_name(PlayerEvent::TimePos) == "mpv:time-pos"@,
        event_name(PlayerEvent::Duration) == "mpv:duration"@,
        event_name(PlayerEvent::Loaded) == "mpv:loaded"@,
        event_name(PlayerEvent::End) == "mpv:end"@,
{
}

} // verus!
