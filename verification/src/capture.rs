//! The decoding and description of raw input events for the diagnostic tool's event
//! capture and button identification.

use vstd::prelude::*;
use crate::event::{Axis, ButtonCode, ButtonEvent, MouseEvent, MouseEventKind, ScrollAxis};
use crate::text::{append_dec, append_str, dec, hex_pad, hex_pad_string, owned};

verus! {

/// Input event type: synchronisation.
pub const EV_SYN: u16 = 0x00;
/// Input event type: keys and buttons.
pub const EV_KEY: u16 = 0x01;
/// Input event type: relative axes.
pub const EV_REL: u16 = 0x02;
/// Input event type: absolute axes.
pub const EV_ABS: u16 = 0x03;
/// Input event type: miscellaneous.
pub const EV_MSC: u16 = 0x04;

/// What a raw event is: a button (pressed for any non-zero value), a movement on
/// `REL_X`/`REL_Y`, a scroll on `REL_WHEEL`/`REL_HWHEEL`, a sync, or unknown.
pub open spec fn spec_kind(ev_type: u16, code: u16, value: i32) -> MouseEventKind {
    if ev_type == EV_KEY {
        MouseEventKind::Button(ButtonEvent { button: ButtonCode::spec_from_raw(code), pressed: value != 0 })
    } else if ev_type == EV_REL {
        if code == 0 {
            MouseEventKind::Movement { axis: Axis::X, delta: value }
        } else if code == 1 {
            MouseEventKind::Movement { axis: Axis::Y, delta: value }
        } else if code == 8 {
            MouseEventKind::Scroll { axis: ScrollAxis::Vertical, delta: value }
        } else if code == 6 {
            MouseEventKind::Scroll { axis: ScrollAxis::Horizontal, delta: value }
        } else {
            MouseEventKind::Unknown
        }
    } else if ev_type == EV_SYN {
        MouseEventKind::Sync
    } else {
        MouseEventKind::Unknown
    }
}

/// Decodes a raw event, keeping its raw type, code and value.
pub fn decode_event(ts_us: u64, ev_type: u16, code: u16, value: i32) -> (e: MouseEvent)
    ensures
        e.timestamp_us == ts_us,
        e.kind == spec_kind(ev_type, code, value),
        e.raw_type == ev_type,
        e.raw_code == code,
        e.raw_value == value,
{
    let kind = if ev_type == EV_KEY {
        MouseEventKind::Button(ButtonEvent { button: ButtonCode::from_raw(code), pressed: value != 0 })
    } else if ev_type == EV_REL {
        if code == 0 {
            MouseEventKind::Movement { axis: Axis::X, delta: value }
        } else if code == 1 {
            MouseEventKind::Movement { axis: Axis::Y, delta: value }
        } else if code == 8 {
            MouseEventKind::Scroll { axis: ScrollAxis::Vertical, delta: value }
        } else if code == 6 {
            MouseEventKind::Scroll { axis: ScrollAxis::Horizontal, delta: value }
        } else {
            MouseEventKind::Unknown
        }
    } else if ev_type == EV_SYN {
        MouseEventKind::Sync
    } else {
        MouseEventKind::Unknown
    };
    MouseEvent { timestamp_us: ts_us, kind, raw_type: ev_type, raw_code: code, raw_value: value }
}

/// A signed integer in decimal, with a leading `-` when negative.
pub open spec fn signed_dec(v: int) -> Seq<char> {
    if v < 0 { "-"@ + dec((-v) as nat) } else { dec(v as nat) }
}

/// Appends a signed integer in decimal.
pub fn append_signed(s: &mut String, v: i32)
    ensures
        final(s)@ == old(s)@ + signed_dec(v as int),
{
    if v < 0 {
        append_str(s, "-");
        let m: u64 = (-(v as i64)) as u64;
        append_dec(s, m);
    } else {
        append_dec(s, v as u64);
    }
}

/// The name and detail shown for a decoded event.
pub open spec fn spec_describe(e: MouseEvent) -> (Seq<char>, Seq<char>) {
    match e.kind {
        MouseEventKind::Button(b) => (
            "Button: "@ + b.button.spec_name(),
            (if b.pressed { "PRESS"@ } else { "release"@ }) + " (code=0x"@ + hex_pad(e.raw_code as nat, 4, true) + ")"@,
        ),
        MouseEventKind::Movement { axis, delta } => (
            "Move "@ + (match axis { Axis::X => "X"@, Axis::Y => "Y"@ }),
            "delta="@ + signed_dec(delta as int),
        ),
        MouseEventKind::Scroll { axis, delta } => (
            match axis {
                ScrollAxis::Vertical => "Scroll Vertical "@ + (if delta > 0 { "↓"@ } else { "↑"@ }),
                ScrollAxis::Horizontal => "Scroll Horizontal "@ + (if delta > 0 { "→"@ } else { "←"@ }),
            },
            "delta="@ + signed_dec(delta as int),
        ),
        MouseEventKind::Sync => ("SYNC"@, Seq::empty()),
        MouseEventKind::Unknown => (
            "Unknown"@,
            "type="@ + dec(e.raw_type as nat) + " code="@ + dec(e.raw_code as nat) + " value="@ + signed_dec(e.raw_value as int),
        ),
    }
}

/// The name and detail shown for a decoded event.
pub fn describe_event(event: &MouseEvent) -> (r: (String, String))
    ensures
        (r.0@, r.1@) == spec_describe(*event),
{
    match &event.kind {
        MouseEventKind::Button(btn) => {
            let mut name = owned("Button: ");
            append_str(&mut name, btn.button.name());
            let mut detail = if btn.pressed { owned("PRESS") } else { owned("release") };
            append_str(&mut detail, " (code=0x");
            let h = hex_pad_string(event.raw_code as u64, 4, true);
            append_str(&mut detail, h.as_str());
            append_str(&mut detail, ")");
            (name, detail)
        },
        MouseEventKind::Movement { axis, delta } => {
            let name = match axis {
                Axis::X => owned("Move X"),
                Axis::Y => owned("Move Y"),
            };
            proof { reveal_strlit("Move X"); reveal_strlit("Move Y"); reveal_strlit("Move "); reveal_strlit("X"); reveal_strlit("Y"); }
            let mut detail = owned("delta=");
            append_signed(&mut detail, *delta);
            (name, detail)
        },
        MouseEventKind::Scroll { axis, delta } => {
            let mut name = match axis {
                ScrollAxis::Vertical => owned("Scroll Vertical "),
                ScrollAxis::Horizontal => owned("Scroll Horizontal "),
            };
            match axis {
                ScrollAxis::Vertical => append_str(&mut name, if *delta > 0 { "↓" } else { "↑" }),
                ScrollAxis::Horizontal => append_str(&mut name, if *delta > 0 { "→" } else { "←" }),
            }
            let mut detail = owned("delta=");
            append_signed(&mut detail, *delta);
            (name, detail)
        },
        MouseEventKind::Sync => (owned("SYNC"), String::new()),
        MouseEventKind::Unknown => {
            let mut detail = owned("type=");
            append_dec(&mut detail, event.raw_type as u64);
            append_str(&mut detail, " code=");
            append_dec(&mut detail, event.raw_code as u64);
            append_str(&mut detail, " value=");
            append_signed(&mut detail, event.raw_value);
            (owned("Unknown"), detail)
        },
    }
}

/// The name of an event type.
pub open spec fn spec_event_type_name(t: u16) -> Seq<char> {
    if t == EV_SYN {
        "EV_SYN"@
    } else if t == EV_KEY {
        "EV_KEY"@
    } else if t == EV_REL {
        "EV_REL"@
    } else if t == EV_ABS {
        "EV_ABS"@
    } else if t == EV_MSC {
        "EV_MSC"@
    } else {
        "EV_???"@
    }
}

/// The name of an event type.
pub fn event_type_name(t: u16) -> (r: &'static str)
    ensures
        r@ == spec_event_type_name(t),
{
    if t == EV_SYN {
        "EV_SYN"
    } else if t == EV_KEY {
        "EV_KEY"
    } else if t == EV_REL {
        "EV_REL"
    } else if t == EV_ABS {
        "EV_ABS"
    } else if t == EV_MSC {
        "EV_MSC"
    } else {
        "EV_???"
    }
}

/// The name of a relative axis.
pub open spec fn spec_rel_axis_name(code: u16) -> Seq<char> {
    if code == 0 {
        "Movimento X"@
    } else if code == 1 {
        "Movimento Y"@
    } else if code == 6 {
        "Scroll Horizontal (REL_HWHEEL)"@
    } else if code == 8 {
        "Scroll Vertical (REL_WHEEL)"@
    } else if code == 11 {
        "Scroll Vertical Discreto (REL_WHEEL_HI_RES)"@
    } else if code == 12 {
        "Scroll Horizontal Discreto (REL_HWHEEL_HI_RES)"@
    } else {
        "Eixo relativo desconhecido"@
    }
}

/// The name of a relative axis.
pub fn rel_axis_name(code: u16) -> (r: &'static str)
    ensures
        r@ == spec_rel_axis_name(code),
{
    if code == 0 {
        "Movimento X"
    } else if code == 1 {
        "Movimento Y"
    } else if code == 6 {
        "Scroll Horizontal (REL_HWHEEL)"
    } else if code == 8 {
        "Scroll Vertical (REL_WHEEL)"
    } else if code == 11 {
        "Scroll Vertical Discreto (REL_WHEEL_HI_RES)"
    } else if code == 12 {
        "Scroll Horizontal Discreto (REL_HWHEEL_HI_RES)"
    } else {
        "Eixo relativo desconhecido"
    }
}

/// An input the identification tool records: its key (`KEY:<code>` or `REL:<code>`)
/// and the name shown for it.
#[derive(Debug, Clone, PartialEq, Eq)]
pub struct IdentifiedInput {
    pub map_key: String,
    pub name: String,
}

/// What the identification tool records for an event: a button press (value 1) under
/// its name, or "unknown button" with its code; a relative axis other than X and Y under
/// the axis name; nothing for anything else.
pub open spec fn spec_identify(ev_type: u16, code: u16, value: i32) -> Option<(Seq<char>, Seq<char>)> {
    if ev_type == EV_KEY && value == 1 {
        Some(("KEY:"@ + dec(code as nat), match ButtonCode::spec_from_raw(code) {
            ButtonCode::Other(_) => "Botão desconhecido (0x"@ + hex_pad(code as nat, 4, true) + ")"@,
            b => b.spec_name(),
        }))
    } else if ev_type == EV_REL && code > 1 {
        Some(("REL:"@ + dec(code as nat), spec_rel_axis_name(code)))
    } else {
        None
    }
}

/// What the identification tool records for an event, if anything.
pub fn identify_event(ev_type: u16, code: u16, value: i32) -> (r: Option<IdentifiedInput>)
    ensures
        match r {
            Some(i) => spec_identify(ev_type, code, value) == Some((i.map_key@, i.name@)),
            None => spec_identify(ev_type, code, value) is None,
        },
{
    if ev_type == EV_KEY && value == 1 {
        let mut key = owned("KEY:");
        append_dec(&mut key, code as u64);
        let button = ButtonCode::from_raw(code);
        let name = match button {
            ButtonCode::Other(_) => {
                let mut n = owned("Botão desconhecido (0x");
                let h = hex_pad_string(code as u64, 4, true);
                append_str(&mut n, h.as_str());
                append_str(&mut n, ")");
                n
            },
            b => owned(b.name()),
        };
        Some(IdentifiedInput { map_key: key, name })
    } else if ev_type == EV_REL && code > 1 {
        let mut key = owned("REL:");
        append_dec(&mut key, code as u64);
        Some(IdentifiedInput { map_key: key, name: owned(rel_axis_name(code)) })
    } else {
        None
    }
}

} // verus!
