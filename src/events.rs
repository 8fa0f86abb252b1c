use vstd::prelude::*;
use crate::keys::{format_key, key_name_of};

verus! {

/// A point in time as whole seconds and nanoseconds since the Unix epoch.
#[derive(Clone, Copy, Debug, PartialEq, Eq)]
pub struct Timestamp {
    pub secs_since_epoch: u64,
    pub nanos_since_epoch: u32,
}

/// A mouse button as the input hook reports it.
#[derive(Clone, Copy, Debug, PartialEq, Eq)]
pub enum MouseButton {
    Left,
    Right,
    Middle,
    Unknown(u8),
}

/// What happened in a raw input event.  Keys are given by their identifier;
/// pointer coordinates are floating-point and arrive as their JSON number
/// text.
#[derive(Clone, Debug, PartialEq, Eq)]
pub enum RawEventKind {
    KeyPress(String),
    KeyRelease(String),
    MouseMove { x: String, y: String },
    ButtonPress(MouseButton),
    ButtonRelease(MouseButton),
    Wheel { delta_x: i64, delta_y: i64 },
}

/// A raw input event as delivered by the global hook.
#[derive(Clone, Debug, PartialEq, Eq)]
pub struct RawEvent {
    pub kind: RawEventKind,
    pub name: Option<String>,
    pub time: Timestamp,
}

/// The tag of a normalized event.
#[derive(Clone, Copy, Debug, PartialEq, Eq)]
pub enum EventKind {
    KeyPress,
    KeyRelease,
    MouseMove,
    ButtonPress,
    ButtonRelease,
    Wheel,
}

/// A platform-independent event; `data` is a JSON object in text form whose
/// shape depends on the tag.
#[derive(Clone, Debug, PartialEq, Eq)]
pub struct NormalizedEvent {
    pub event_type: EventKind,
    pub name: Option<String>,
    pub time: Timestamp,
    pub data: String,
}

pub open spec fn kind_name(k: EventKind) -> Seq<char> {
    match k {
        EventKind::KeyPress => "KeyPress"@,
        EventKind::KeyRelease => "KeyRelease"@,
        EventKind::MouseMove => "MouseMove"@,
        EventKind::ButtonPress => "ButtonPress"@,
        EventKind::ButtonRelease => "ButtonRelease"@,
        EventKind::Wheel => "Wheel"@,
    }
}

impl EventKind {
    /// The tag's wire name.
    pub fn name(&self) -> (r: String)
        ensures
            r@ == kind_name(*self),
    {
        match self {
            EventKind::KeyPress => String::from_str("KeyPress"),
            EventKind::KeyRelease => String::from_str("KeyRelease"),
            EventKind::MouseMove => String::from_str("MouseMove"),
            EventKind::ButtonPress => String::from_str("ButtonPress"),
            EventKind::ButtonRelease => String::from_str("ButtonRelease"),
            EventKind::Wheel => String::from_str("Wheel"),
        }
    }
}

pub open spec fn digit_chars() -> Seq<char> {
    seq!['0', '1', '2', '3', '4', '5', '6', '7', '8', '9']
}

/// The decimal digits of `n`, most significant first, without leading zeros.
pub open spec fn decimal(n: nat) -> Seq<char>
    decreases n,
{
    if n < 10 {
        seq![digit_chars()[n as int]]
    } else {
        decimal(n / 10) + seq![digit_chars()[(n % 10) as int]]
    }
}

/// Decimal text of a signed integer, with a leading minus when negative.
pub open spec fn signed_decimal(n: int) -> Seq<char> {
    if n < 0 {
        seq!['-'] + decimal((-n) as nat)
    } else {
        decimal(n as nat)
    }
}

/// Writes `n` in decimal.
pub fn decimal_text(n: u64) -> (r: String)
    ensures
        r@ == decimal(n as nat),
{
    let digits = "0123456789";
    proof {
        reveal_strlit("0123456789");
        assert(digits@ =~= digit_chars());
    }
    let d = (n % 10) as usize;
    let mut r = String::from_str(digits.substring_char(d, d + 1));
    assert(r@ =~= seq![digit_chars()[d as int]]);
    let mut m: u64 = n / 10;
    while m > 0
        invariant
            digits@ == digit_chars(),
            m == 0 ==> r@ == decimal(n as nat),
            m > 0 ==> decimal(n as nat) == decimal(m as nat) + r@,
        decreases m,
    {
        let d = (m % 10) as usize;
        let head = String::from_str(digits.substring_char(d, d + 1));
        assert(head@ =~= seq![digit_chars()[d as int]]);
        r = head.concat(r.as_str());
        m = m / 10;
        proof {
            if m > 0 {
                assert(decimal(n as nat) =~= decimal(m as nat) + r@);
            } else {
                assert(decimal(n as nat) =~= r@);
            }
        }
    }
    r
}

/// Writes `n` in decimal, with a leading minus when negative.
pub fn signed_decimal_text(n: i64) -> (r: String)
    ensures
        r@ == signed_decimal(n as int),
{
    if n < 0 {
        let magnitude = (0i128 - (n as i128)) as u64;
        let digits = decimal_text(magnitude);
        let r = String::from_str("-").concat(digits.as_str());
        proof {
            reveal_strlit("-");
            assert(r@ =~= signed_decimal(n as int));
        }
        r
    } else {
        decimal_text(n as u64)
    }
}

pub open spec fn button_name(b: MouseButton) -> Seq<char> {
    match b {
        MouseButton::Left => "Left"@,
        MouseButton::Right => "Right"@,
        MouseButton::Middle => "Middle"@,
        MouseButton::Unknown(code) => "Unknown("@ + decimal(code as nat) + ")"@,
    }
}

/// The button's identifier, as the hook spells it.
pub fn format_button(b: MouseButton) -> (r: String)
    ensures
        r@ == button_name(b),
{
    match b {
        MouseButton::Left => String::from_str("Left"),
        MouseButton::Right => String::from_str("Right"),
        MouseButton::Middle => String::from_str("Middle"),
        MouseButton::Unknown(code) => {
            let digits = decimal_text(code as u64);
            String::from_str("Unknown(").concat(digits.as_str()).concat(")")
        },
    }
}

/// The JSON string literal that serde_json writes for a text.
pub uninterp spec fn json_quoted(s: Seq<char>) -> Seq<char>;

/// Relies on serde_json::to_string applied to a `str`: the text written as a
/// JSON string literal.  Writing into memory cannot fail.
#[verifier::external_body]
fn json_string(s: &str) -> (r: String)
    ensures
        r@ == json_quoted(s@),
{
    serde_json::to_string(s).unwrap_or_default()
}

/// `{"key":<quoted name>}`
pub open spec fn key_data(name: Seq<char>) -> Seq<char> {
    "{\"key\":"@ + json_quoted(name) + "}"@
}

pub open spec fn event_kind_of(k: RawEventKind) -> EventKind {
    match k {
        RawEventKind::KeyPress(_) => EventKind::KeyPress,
        RawEventKind::KeyRelease(_) => EventKind::KeyRelease,
        RawEventKind::MouseMove { .. } => EventKind::MouseMove,
        RawEventKind::ButtonPress(_) => EventKind::ButtonPress,
        RawEventKind::ButtonRelease(_) => EventKind::ButtonRelease,
        RawEventKind::Wheel { .. } => EventKind::Wheel,
    }
}

/// The JSON payload of an event: the key or button name for key and button
/// events, the coordinates or deltas verbatim for pointer events.
pub open spec fn event_data(k: RawEventKind, fn_probe: Result<bool, ()>) -> Seq<char> {
    match k {
        RawEventKind::KeyPress(key) => key_data(key_name_of(key@, fn_probe)),
        RawEventKind::KeyRelease(key) => key_data(key_name_of(key@, fn_probe)),
        RawEventKind::MouseMove { x, y } => "{\"x\":"@ + x@ + ",\"y\":"@ + y@ + "}"@,
        RawEventKind::ButtonPress(b) => key_data(button_name(b)),
        RawEventKind::ButtonRelease(b) => key_data(button_name(b)),
        RawEventKind::Wheel { delta_x, delta_y } => "{\"delta_x\":"@ + signed_decimal(
            delta_x as int,
        ) + ",\"delta_y\":"@ + signed_decimal(delta_y as int) + "}"@,
    }
}

fn key_payload(name: &str) -> (r: String)
    ensures
        r@ == key_data(name@),
{
    let quoted = json_string(name);
    String::from_str("{\"key\":").concat(quoted.as_str()).concat("}")
}

/// Turns a raw hook event into its tagged, platform-independent form.  The
/// name and time are carried over; `fn_probe` is the function-key probe's
/// answer, consulted for the left Control key only.
pub fn normalize_event(event: RawEvent, fn_probe: Result<bool, ()>) -> (r: NormalizedEvent)
    ensures
        r.event_type == event_kind_of(event.kind),
        r.name == event.name,
        r.time == event.time,
        r.data@ == event_data(event.kind, fn_probe),
{
    let ghost kind = event.kind;
    let (event_type, data) = match event.kind {
        RawEventKind::KeyPress(key) => {
            let name = format_key(key.as_str(), fn_probe);
            (EventKind::KeyPress, key_payload(name.as_str()))
        },
        RawEventKind::KeyRelease(key) => {
            let name = format_key(key.as_str(), fn_probe);
            (EventKind::KeyRelease, key_payload(name.as_str()))
        },
        RawEventKind::MouseMove { x, y } => {
            let data = String::from_str("{\"x\":").concat(x.as_str()).concat(",\"y\":").concat(
                y.as_str(),
            ).concat("}");
            (EventKind::MouseMove, data)
        },
        RawEventKind::ButtonPress(b) => {
            let name = format_button(b);
            (EventKind::ButtonPress, key_payload(name.as_str()))
        },
        RawEventKind::ButtonRelease(b) => {
            let name = format_button(b);
            (EventKind::ButtonRelease, key_payload(name.as_str()))
        },
        RawEventKind::Wheel { delta_x, delta_y } => {
            let dx = signed_decimal_text(delta_x);
            let dy = signed_decimal_text(delta_y);
            let data = String::from_str("{\"delta_x\":").concat(dx.as_str()).concat(
                ",\"delta_y\":",
            ).concat(dy.as_str()).concat("}");
            (EventKind::Wheel, data)
        },
    };
    NormalizedEvent { event_type, name: event.name, time: event.time, data }
}

} // verus!
