//! The libmpv client-call protocol: which calls the player makes, when a call is refused
//! before it reaches mpv (a NUL byte in a C string), and how mpv's status code becomes the
//! `Result` that the player hands to its callers.
use vstd::prelude::*;

use crate::text::{decimal_string, decimal_text};

verus! {

/// No event arrived before the timeout.
pub const MPV_EVENT_NONE: i32 = 0;
/// The player is shutting down; the event loop ends.
pub const MPV_EVENT_SHUTDOWN: i32 = 1;
/// Playback of a file ended (on error, `error` is negative).
pub const MPV_EVENT_END_FILE: i32 = 7;
/// A file was opened and its streams are known.
pub const MPV_EVENT_FILE_LOADED: i32 = 8;
/// An observed property changed; `reply_userdata` holds the observer id.
pub const MPV_EVENT_PROPERTY_CHANGE: i32 = 22;

/// The value formats of the libmpv client API that the player uses.
#[derive(Clone, Copy, Debug, PartialEq, Eq, Structural)]
pub enum MpvFormat {
    Flag,
    Int64,
    Double,
}

/// The `mpv_format` number of a format.
pub open spec fn format_code(format: MpvFormat) -> int {
    match format {
        MpvFormat::Flag => 3,
        MpvFormat::Int64 => 4,
        MpvFormat::Double => 5,
    }
}

impl MpvFormat {
    /// The `mpv_format` number that the C API expects.
    pub fn code(&self) -> (r: i32)
        ensures
            r == format_code(*self),
    {
        match self {
            MpvFormat::Flag => 3,
            MpvFormat::Int64 => 4,
            MpvFormat::Double => 5,
        }
    }
}

/// Whether a text holds a NUL character, which no C string can carry.
pub open spec fn has_nul(s: Seq<char>) -> bool {
    s.contains('\0')
}

/// True when `s` can be passed to mpv as a C string (it holds no NUL character).
pub fn c_string_ok(s: &str) -> (r: bool)
    ensures
        r == !has_nul(s@),
{
    let n = s.unicode_len();
    let mut i: usize = 0;
    while i < n
        invariant
            n == s@.len(),
            i <= n,
            forall|j: int| 0 <= j < i ==> s@[j] != '\0',
        decreases n - i,
    {
        if s.get_char(i) == '\0' {
            assert(s@[i as int] == '\0');
            return false;
        }
        i = i + 1;
    }
    assert forall|c: char| s@.contains(c) implies c != '\0' by {
        let j = choose|j: int| 0 <= j < s@.len() && s@[j] == c;
        assert(s@[j] != '\0');
    }
    true
}

/// One call of the libmpv client API that sets, runs or observes something. A double
/// property carries only its name here: its value is handed to mpv as it stands.
#[derive(Debug)]
pub enum MpvCall {
    SetOptionString { name: String, value: String },
    SetOptionI64 { name: String, number: i64 },
    Initialize,
    Command { args: Vec<String> },
    SetPropertyFlag { name: String, flag: bool },
    SetPropertyI64 { name: String, number: i64 },
    SetPropertyDouble { name: String },
    SetPropertyString { name: String, value: String },
    ObserveProperty { id: u64, name: String, format: MpvFormat },
}

/// The text that `{:?}` writes for a list of strings: `["a", "b"]`, each item quoted
/// and escaped as `str`'s `Debug` does.
pub uninterp spec fn debug_list_text(items: Seq<Seq<char>>) -> Seq<char>;

/// Renders a list of strings with `format!("{:?}", ..)` (std's `Debug` for `Vec<String>`).
/// Claimed: the text depends on the strings alone; what it is, is left to its name.
#[verifier::external_body]
fn debug_list(items: &Vec<String>) -> (r: String)
    ensures
        r@ == debug_list_text(items.deep_view()),
{
    format!("{:?}", items)
}

/// The C function that a call goes through.
pub open spec fn call_label(call: MpvCall) -> Seq<char> {
    match call {
        MpvCall::SetOptionString { .. } => "mpv_set_option_string"@,
        MpvCall::SetOptionI64 { .. } => "mpv_set_option"@,
        MpvCall::Initialize => "mpv_initialize"@,
        MpvCall::Command { .. } => "mpv_command"@,
        MpvCall::SetPropertyFlag { .. } => "mpv_set_property"@,
        MpvCall::SetPropertyI64 { .. } => "mpv_set_property"@,
        MpvCall::SetPropertyDouble { .. } => "mpv_set_property"@,
        MpvCall::SetPropertyString { .. } => "mpv_set_property_string"@,
        MpvCall::ObserveProperty { .. } => "mpv_observe_property"@,
    }
}

/// What a failure message names between the brackets.
pub open spec fn call_detail(call: MpvCall) -> Seq<char> {
    match call {
        MpvCall::SetOptionString { name, value } => name@ + "="@ + value@,
        MpvCall::SetOptionI64 { name, .. } => name@ + "=i64"@,
        MpvCall::Initialize => Seq::empty(),
        MpvCall::Command { args } => debug_list_text(args.deep_view()),
        MpvCall::SetPropertyFlag { name, .. } => name@ + "=flag"@,
        MpvCall::SetPropertyI64 { name, .. } => name@ + "=i64"@,
        MpvCall::SetPropertyDouble { name } => name@ + "=double"@,
        MpvCall::SetPropertyString { name, value } => name@ + "="@ + value@,
        MpvCall::ObserveProperty { name, .. } => name@,
    }
}

/// The message of a call that mpv answered with the negative status `rc`.
pub open spec fn failure_text(call: MpvCall, rc: int) -> Seq<char> {
    call_label(call) + "("@ + call_detail(call) + ") failed: "@ + decimal_text(rc)
}

/// Why a call is refused before it reaches mpv, if it is: the first C string of it
/// (name, then value) that holds a NUL character.
pub open spec fn refusal(call: MpvCall) -> Option<Seq<char>> {
    match call {
        MpvCall::SetOptionString { name, value } =>
            if has_nul(name@) { Some("option name has null byte"@) }
            else if has_nul(value@) { Some("option value has null byte"@) }
            else { None },
        MpvCall::SetOptionI64 { name, .. } =>
            if has_nul(name@) { Some("option name has null byte"@) } else { None },
        MpvCall::Initialize => None,
        MpvCall::Command { .. } => None,
        MpvCall::SetPropertyFlag { name, .. } =>
            if has_nul(name@) { Some("property name has null byte"@) } else { None },
        MpvCall::SetPropertyI64 { name, .. } =>
            if has_nul(name@) { Some("property name has null byte"@) } else { None },
        MpvCall::SetPropertyDouble { name } =>
            if has_nul(name@) { Some("property name has null byte"@) } else { None },
        MpvCall::SetPropertyString { name, value } =>
            if has_nul(name@) { Some("property name has null byte"@) }
            else if has_nul(value@) { Some("property value has null byte"@) }
            else { None },
        MpvCall::ObserveProperty { name, .. } =>
            if has_nul(name@) { Some("property name has null byte"@) } else { None },
    }
}

fn name_refusal(name: &String, what: &str) -> (r: Result<(), String>)
    ensures
        has_nul(name@) ==> (r matches Err(e) && e@ == what@),
        !has_nul(name@) ==> r is Ok,
{
    if c_string_ok(name.as_str()) {
        Ok(())
    } else {
        Err(String::from_str(what))
    }
}

/// Checks a call before it is made: `Err` with the refusal message exactly when one of its
/// C strings holds a NUL character.
pub fn check_call(call: &MpvCall) -> (r: Result<(), String>)
    ensures
        match refusal(*call) {
            Some(msg) => r matches Err(e) && e@ == msg,
            None => r is Ok,
        },
{
    match call {
        MpvCall::SetOptionString { name, value } => {
            name_refusal(name, "option name has null byte")?;
            name_refusal(value, "option value has null byte")
        },
        MpvCall::SetOptionI64 { name, .. } => name_refusal(name, "option name has null byte"),
        MpvCall::Initialize => Ok(()),
        MpvCall::Command { .. } => Ok(()),
        MpvCall::SetPropertyFlag { name, .. } => name_refusal(name, "property name has null byte"),
        MpvCall::SetPropertyI64 { name, .. } => name_refusal(name, "property name has null byte"),
        MpvCall::SetPropertyDouble { name } => name_refusal(name, "property name has null byte"),
        MpvCall::SetPropertyString { name, value } => {
            name_refusal(name, "property name has null byte")?;
            name_refusal(value, "property value has null byte")
        },
        MpvCall::ObserveProperty { name, .. } => name_refusal(name, "property name has null byte"),
    }
}

fn call_label_string(call: &MpvCall) -> (r: String)
    ensures
        r@ == call_label(*call),
{
    match call {
        MpvCall::SetOptionString { .. } => String::from_str("mpv_set_option_string"),
        MpvCall::SetOptionI64 { .. } => String::from_str("mpv_set_option"),
        MpvCall::Initialize => String::from_str("mpv_initialize"),
        MpvCall::Command { .. } => String::from_str("mpv_command"),
        MpvCall::SetPropertyFlag { .. } => String::from_str("mpv_set_property"),
        MpvCall::SetPropertyI64 { .. } => String::from_str("mpv_set_property"),
        MpvCall::SetPropertyDouble { .. } => String::from_str("mpv_set_property"),
        MpvCall::SetPropertyString { .. } => String::from_str("mpv_set_property_string"),
        MpvCall::ObserveProperty { .. } => String::from_str("mpv_observe_property"),
    }
}

fn joined(a: &String, sep: &str, b: &str) -> (r: String)
    ensures
        r@ == a@ + sep@ + b@,
{
    let mut r = a.clone();
    r.append(sep);
    r.append(b);
    r
}

fn suffixed(a: &String, b: &str) -> (r: String)
    ensures
        r@ == a@ + b@,
{
    let mut r = a.clone();
    r.append(b);
    r
}

fn call_detail_string(call: &MpvCall) -> (r: String)
    ensures
        r@ == call_detail(*call),
{
    match call {
        MpvCall::SetOptionString { name, value } => joined(name, "=", value.as_str()),
        MpvCall::SetOptionI64 { name, .. } => suffixed(name, "=i64"),
        MpvCall::Initialize => String::new(),
        MpvCall::Command { args } => debug_list(args),
        MpvCall::SetPropertyFlag { name, .. } => suffixed(name, "=flag"),
        MpvCall::SetPropertyI64 { name, .. } => suffixed(name, "=i64"),
        MpvCall::SetPropertyDouble { name } => suffixed(name, "=double"),
        MpvCall::SetPropertyString { name, value } => joined(name, "=", value.as_str()),
        MpvCall::ObserveProperty { name, .. } => name.clone(),
    }
}

/// Turns mpv's status code for a call into the call's result: `Ok` for a status of zero
/// or more, else `Err` with the message that names the C function, what was set and the code.
pub fn call_outcome(call: &MpvCall, rc: i32) -> (r: Result<(), String>)
    ensures
        rc >= 0 ==> r is Ok,
        rc < 0 ==> (r matches Err(e) && e@ == failure_text(*call, rc as int)),
{
    if rc < 0 {
        let mut msg = call_label_string(call);
        msg.append("(");
        let detail = call_detail_string(call);
        msg.append(detail.as_str());
        msg.append(") failed: ");
        let code = decimal_string(rc as i64);
        msg.append(code.as_str());
        Err(msg)
    } else {
        Ok(())
    }
}

/// The value of a property read: `None` when mpv answered with a negative status
/// (the property is unset or not yet available), else the value that mpv wrote.
pub fn read_outcome<T>(rc: i32, value: T) -> (r: Option<T>)
    ensures
        rc < 0 ==> r is None,
        rc >= 0 ==> r == Some(value),
{
    if rc < 0 {
        None
    } else {
        Some(value)
    }
}

/// A flag property read back from mpv is true exactly when its C `int` is not zero.
pub fn flag_value(raw: i32) -> (r: bool)
    ensures
        r == (raw != 0),
{
    raw != 0
}

/// The C `int` that mpv expects for a flag: 1 for true, 0 for false.
pub fn flag_code(value: bool) -> (r: i32)
    ensures
        r == (if value { 1i32 } else { 0i32 }),
{
    if value { 1 } else { 0 }
}

/// A call is refused only because one of its C strings holds a NUL character, the name
/// before the value; its numbers, flags, ids and formats never matter, and a call without C
/// strings (initialize, a command) is never refused here.
pub proof fn lemma_refused_only_for_nul(
    name: String,
    value: String,
    number: i64,
    flag: bool,
    id: u64,
    format: MpvFormat,
    args: Vec<String>,
)
    ensures
        refusal(MpvCall::SetOptionString { name, value }) == (if has_nul(name@) {
            Some("option name has null byte"@)
        } else if has_nul(value@) {
            Some("option value has null byte"@)
        } else {
            None
        }),
        refusal(MpvCall::SetOptionI64 { name, number })
            == (if has_nul(name@) { Some("option name has null byte"@) } else { None }),
        refusal(MpvCall::Initialize) is None,
        refusal(MpvCall::Command { args }) is None,
        refusal(MpvCall::SetPropertyFlag { name, flag })
            == (if has_nul(name@) { Some("property name has null byte"@) } else { None }),
        refusal(MpvCall::SetPropertyI64 { name, number })
            == (if has_nul(name@) { Some("property name has null byte"@) } else { None }),
        refusal(MpvCall::SetPropertyDouble { name })
            == (if has_nul(name@) { Some("property name has null byte"@) } else { None }),
        refusal(MpvCall::SetPropertyString { name, value }) == (if has_nul(name@) {
            Some("property name has null byte"@)
        } else if has_nul(value@) {
            Some("property value has null byte"@)
        } else {
            None
        }),
        refusal(MpvCall::ObserveProperty { id, name, format })
            == (if has_nul(name@) { Some("property name has null byte"@) } else { None }),
{
}

/// A NUL-free text is a valid C string whatever else it holds; one NUL anywhere makes it invalid.
pub proof fn lemma_nul_anywhere(s: Seq<char>, i: int)
    requires
        0 <= i < s.len(),
    ensures
        s[i] == '\0' ==> has_nul(s),
        (forall|j: int| 0 <= j < s.len() ==> s[j] != '\0') ==> !has_nul(s),
{
    if s[i] == '\0' {
        assert(s.contains(s[i]));
    }
}

/// The failure messages, call by call: the C function, what was set, and the status code.
pub proof fn lemma_failure_messages(name: String, value: String, number: i64, flag: bool, id: u64, format: MpvFormat, args: Vec<String>, rc: int)
    ensures
        failure_text(MpvCall::SetOptionString { name, value }, rc)
            == "mpv_set_option_string"@ + "("@ + (name@ + "="@ + value@) + ") failed: "@ + decimal_text(rc),
        failure_text(MpvCall::SetOptionI64 { name, number }, rc)
            == "mpv_set_option"@ + "("@ + (name@ + "=i64"@) + ") failed: "@ + decimal_text(rc),
        failure_text(MpvCall::Initialize, rc) == "mpv_initialize"@ + "("@ + Seq::<char>::empty() + ") failed: "@ + decimal_text(rc),
        failure_text(MpvCall::Command { args }, rc)
            == "mpv_command"@ + "("@ + debug_list_text(args.deep_view()) + ") failed: "@ + decimal_text(rc),
        failure_text(MpvCall::SetPropertyFlag { name, flag }, rc)
            == "mpv_set_property"@ + "("@ + (name@ + "=flag"@) + ") failed: "@ + decimal_text(rc),
        failure_text(MpvCall::SetPropertyI64 { name, number }, rc)
            == "mpv_set_property"@ + "("@ + (name@ + "=i64"@) + ") failed: "@ + decimal_text(rc),
        failure_text(MpvCall::SetPropertyDouble { name }, rc)
            == "mpv_set_property"@ + "("@ + (name@ + "=double"@) + ") failed: "@ + decimal_text(rc),
        failure_text(MpvCall::SetPropertyString { name, value }, rc)
            == "mpv_set_property_string"@ + "("@ + (name@ + "="@ + value@) + ") failed: "@ + decimal_text(rc),
        failure_text(MpvCall::ObserveProperty { id, name, format }, rc)
            == "mpv_observe_property"@ + "("@ + name@ + ") failed: "@ + decimal_text(rc),
{
}

} // verus!
