//! What the remapper does with input events: which mapping of the active profile an
//! event hits, and which output an action produces on the virtual device.

use vstd::prelude::*;
use crate::config::{copy_strings, mapped_at, texts, ButtonAction, MouseButton, Profile};
use crate::device::{DeviceType, RapooDevice};
use crate::battery::types::string_views;
use crate::text::{
    append_dec, append_str, chars_eq, chars_of, dec, has_sub, hex_pad, hex_pad_string, is_text,
    lowercase, owned, parse_number, parse_unsigned, starts_with, str_contains, to_lowercase,
    to_uppercase, uppercase,
};

verus! {

/// Input event type of keys and buttons.
pub const EV_KEY: u16 = 0x01;
/// Input event type of relative axes (motion, wheels).
pub const EV_REL: u16 = 0x02;

// Linux input key codes (input-event-codes.h) used by the actions.
pub const KEY_ESC: u16 = 1;
pub const KEY_1: u16 = 2;
pub const KEY_2: u16 = 3;
pub const KEY_3: u16 = 4;
pub const KEY_4: u16 = 5;
pub const KEY_0: u16 = 11;
pub const KEY_TAB: u16 = 15;
pub const KEY_ENTER: u16 = 28;
pub const KEY_LEFTCTRL: u16 = 29;
pub const KEY_A: u16 = 30;
pub const KEY_LEFTSHIFT: u16 = 42;
pub const KEY_Z: u16 = 44;
pub const KEY_X: u16 = 45;
pub const KEY_C: u16 = 46;
pub const KEY_V: u16 = 47;
pub const KEY_B: u16 = 48;
pub const KEY_LEFTALT: u16 = 56;
pub const KEY_SPACE: u16 = 57;
pub const KEY_F4: u16 = 62;
pub const KEY_MUTE: u16 = 113;
pub const KEY_LEFTMETA: u16 = 125;
pub const KEY_NEXTSONG: u16 = 163;
pub const KEY_PLAYPAUSE: u16 = 164;
pub const KEY_PREVIOUSSONG: u16 = 165;
pub const BTN_LEFT: u16 = 0x110;
pub const BTN_RIGHT: u16 = 0x111;
pub const BTN_MIDDLE: u16 = 0x112;
pub const BTN_SIDE: u16 = 0x113;
pub const BTN_EXTRA: u16 = 0x114;
pub const BTN_FORWARD: u16 = 0x115;
pub const BTN_BACK: u16 = 0x116;

/// The action a profile maps `code` to: the first mapping with that code, if any.
pub open spec fn lookup(m: Seq<(String, ButtonAction)>, code: Seq<char>) -> Option<ButtonAction> {
    if exists|i: int| mapped_at(m, code, i) {
        Some(m[choose|i: int| mapped_at(m, code, i)].1)
    } else {
        None
    }
}

proof fn lemma_mapped_at_unique(m: Seq<(String, ButtonAction)>, code: Seq<char>, i: int, j: int)
    requires
        mapped_at(m, code, i),
        mapped_at(m, code, j),
    ensures
        i == j,
{
    if i < j {
        assert(m[i].0@ == code);
    } else if j < i {
        assert(m[j].0@ == code);
    }
}

/// The action mapped to a code, as the profile's own lookup finds it.
pub fn mapped_action<'a>(profile: &'a Profile, code: &str) -> (r: Option<&'a ButtonAction>)
    ensures
        match r {
            Some(a) => lookup(profile.mappings@, code@) == Some(*a),
            None => lookup(profile.mappings@, code@) is None,
        },
{
    let r = profile.get_action(code);
    proof {
        match r {
            Some(a) => {
                let i = choose|i: int| mapped_at(profile.mappings@, code@, i) && *a == profile.mappings@[i].1;
                let k = choose|k: int| mapped_at(profile.mappings@, code@, k);
                lemma_mapped_at_unique(profile.mappings@, code@, i, k);
            },
            None => {
                if exists|i: int| mapped_at(profile.mappings@, code@, i) {
                    let i = choose|i: int| mapped_at(profile.mappings@, code@, i);
                    assert(profile.mappings@[i].0@ == code@);
                }
            },
        }
    }
    r
}

/// The three names a key code can be mapped under: `0x` and three lowercase hex
/// digits, `0x` and three uppercase hex digits, and decimal.
pub open spec fn code_names(code: u16) -> (Seq<char>, Seq<char>, Seq<char>) {
    ("0x"@ + hex_pad(code as nat, 3, false), "0x"@ + hex_pad(code as nat, 3, true), dec(code as nat))
}

/// The three names a key code can be mapped under.
pub fn event_code_names(code: u16) -> (r: (String, String, String))
    ensures
        (r.0@, r.1@, r.2@) == code_names(code),
{
    let mut lower = owned("0x");
    let lh = hex_pad_string(code as u64, 3, false);
    append_str(&mut lower, lh.as_str());
    let mut upper = owned("0x");
    let uh = hex_pad_string(code as u64, 3, true);
    append_str(&mut upper, uh.as_str());
    let mut decimal = String::new();
    append_dec(&mut decimal, code as u64);
    (lower, upper, decimal)
}

/// The action for a key code: under its lowercase hex name, else its uppercase hex
/// name, else its decimal name.
pub open spec fn key_action(m: Seq<(String, ButtonAction)>, code: u16) -> Option<ButtonAction> {
    let (l, u, d) = code_names(code);
    if lookup(m, l) is Some {
        lookup(m, l)
    } else if lookup(m, u) is Some {
        lookup(m, u)
    } else {
        lookup(m, d)
    }
}

/// The wheel direction a relative event names: the thumb wheel (`REL_HWHEEL` 0x06,
/// `REL_HWHEEL_HI_RES` 0x0c) left or right, the main wheel (`REL_WHEEL` 0x08,
/// `REL_WHEEL_HI_RES` 0x0b) up or down; none for a zero value or another axis.
pub open spec fn spec_wheel_key(code: u16, value: i32) -> Option<Seq<char>> {
    if code == 0x06 || code == 0x0c {
        if value < 0 { Some("SCROLL_LEFT"@) } else if value > 0 { Some("SCROLL_RIGHT"@) } else { None }
    } else if code == 0x08 || code == 0x0b {
        if value > 0 { Some("SCROLL_UP"@) } else if value < 0 { Some("SCROLL_DOWN"@) } else { None }
    } else {
        None
    }
}

/// The wheel direction a relative event names, if any.
pub fn wheel_key(code: u16, value: i32) -> (r: Option<&'static str>)
    ensures
        match r {
            Some(k) => spec_wheel_key(code, value) == Some(k@),
            None => spec_wheel_key(code, value) is None,
        },
{
    if code == 0x06 || code == 0x0c {
        if value < 0 { Some("SCROLL_LEFT") } else if value > 0 { Some("SCROLL_RIGHT") } else { None }
    } else if code == 0x08 || code == 0x0b {
        if value > 0 { Some("SCROLL_UP") } else if value < 0 { Some("SCROLL_DOWN") } else { None }
    } else {
        None
    }
}

/// What becomes of one input event.
#[derive(Debug, Clone, PartialEq)]
pub enum EventRoute {
    /// Run the mapped action.
    Execute(ButtonAction),
    /// Forward the event unchanged to the virtual device.
    Forward,
    /// Swallow the event.
    Drop,
}

/// The route of an event under a profile's mappings. A mapped key runs its action
/// when pressed (value 1), is forwarded on release (value 0) when the action is
/// `PassThrough`, and is swallowed otherwise; a mapped wheel direction runs its action;
/// every other event is forwarded.
pub open spec fn route_of(m: Seq<(String, ButtonAction)>, ev_type: u16, code: u16, value: i32) -> (Option<ButtonAction>, bool) {
    if ev_type == EV_KEY && key_action(m, code) is Some {
        let a = key_action(m, code).unwrap();
        if value == 1 {
            (Some(a), false)
        } else if value == 0 && a is PassThrough {
            (None, true)
        } else {
            (None, false)
        }
    } else if ev_type == EV_REL && spec_wheel_key(code, value) is Some
        && lookup(m, spec_wheel_key(code, value).unwrap()) is Some {
        (lookup(m, spec_wheel_key(code, value).unwrap()), false)
    } else {
        (None, true)
    }
}

/// Whether a route is the one `route_of` describes.
pub open spec fn route_is(r: EventRoute, want: (Option<ButtonAction>, bool)) -> bool {
    match r {
        EventRoute::Execute(a) => want.0 matches Some(b) && a.same(b),
        EventRoute::Forward => want.0 is None && want.1,
        EventRoute::Drop => want.0 is None && !want.1,
    }
}

/// Decides what becomes of an input event under the active profile.
pub fn route_event(profile: &Profile, ev_type: u16, code: u16, value: i32) -> (r: EventRoute)
    ensures
        route_is(r, route_of(profile.mappings@, ev_type, code, value)),
{
    let ghost m = profile.mappings@;
    if ev_type == EV_KEY {
        let (l, u, d) = event_code_names(code);
        let found = match mapped_action(profile, l.as_str()) {
            Some(a) => Some(a),
            None => match mapped_action(profile, u.as_str()) {
                Some(a) => Some(a),
                None => mapped_action(profile, d.as_str()),
            },
        };
        match found {
            Some(a) => {
                assert(key_action(m, code) == Some(*a));
                if value == 1 {
                    return EventRoute::Execute(a.duplicate());
                } else if value == 0 && matches!(a, ButtonAction::PassThrough) {
                    return EventRoute::Forward;
                } else {
                    return EventRoute::Drop;
                }
            },
            None => {
                assert(key_action(m, code) is None);
            },
        }
    }
    if ev_type == EV_REL {
        match wheel_key(code, value) {
            Some(k) => {
                match mapped_action(profile, k) {
                    Some(a) => {
                        return EventRoute::Execute(a.duplicate());
                    },
                    None => {},
                }
            },
            None => {},
        }
    }
    EventRoute::Forward
}

/// The key code of a key name, given in uppercase: a letter among A, B, C, V, X, Z,
/// a modifier, Enter, Escape, Tab, Space, F4 or a digit from 1 to 4.
pub open spec fn spec_key_by_name(u: Seq<char>) -> Option<u16> {
    if u == "KEY_A"@ || u == "A"@ {
        Some(KEY_A)
    } else if u == "KEY_B"@ || u == "B"@ {
        Some(KEY_B)
    } else if u == "KEY_C"@ || u == "C"@ {
        Some(KEY_C)
    } else if u == "KEY_V"@ || u == "V"@ {
        Some(KEY_V)
    } else if u == "KEY_X"@ || u == "X"@ {
        Some(KEY_X)
    } else if u == "KEY_Z"@ || u == "Z"@ {
        Some(KEY_Z)
    } else if u == "KEY_LEFTCTRL"@ || u == "CTRL"@ {
        Some(KEY_LEFTCTRL)
    } else if u == "KEY_LEFTSHIFT"@ || u == "SHIFT"@ {
        Some(KEY_LEFTSHIFT)
    } else if u == "KEY_LEFTALT"@ || u == "ALT"@ {
        Some(KEY_LEFTALT)
    } else if u == "KEY_LEFTMETA"@ || u == "SUPER"@ || u == "META"@ {
        Some(KEY_LEFTMETA)
    } else if u == "KEY_ENTER"@ || u == "ENTER"@ {
        Some(KEY_ENTER)
    } else if u == "KEY_ESC"@ || u == "ESC"@ {
        Some(KEY_ESC)
    } else if u == "KEY_TAB"@ || u == "TAB"@ {
        Some(KEY_TAB)
    } else if u == "KEY_SPACE"@ || u == "SPACE"@ {
        Some(KEY_SPACE)
    } else if u == "KEY_F4"@ {
        Some(KEY_F4)
    } else if u == "KEY_1"@ {
        Some(KEY_1)
    } else if u == "KEY_2"@ {
        Some(KEY_2)
    } else if u == "KEY_3"@ {
        Some(KEY_3)
    } else if u == "KEY_4"@ {
        Some(KEY_4)
    } else {
        None
    }
}

/// The key code of an uppercase key name.
pub fn key_by_name(upper: &str) -> (r: Option<u16>)
    ensures
        r == spec_key_by_name(upper@),
{
    let u = chars_of(upper);
    let s = u.as_slice();
    if is_text(s, "KEY_A") || is_text(s, "A") {
        Some(KEY_A)
    } else if is_text(s, "KEY_B") || is_text(s, "B") {
        Some(KEY_B)
    } else if is_text(s, "KEY_C") || is_text(s, "C") {
        Some(KEY_C)
    } else if is_text(s, "KEY_V") || is_text(s, "V") {
        Some(KEY_V)
    } else if is_text(s, "KEY_X") || is_text(s, "X") {
        Some(KEY_X)
    } else if is_text(s, "KEY_Z") || is_text(s, "Z") {
        Some(KEY_Z)
    } else if is_text(s, "KEY_LEFTCTRL") || is_text(s, "CTRL") {
        Some(KEY_LEFTCTRL)
    } else if is_text(s, "KEY_LEFTSHIFT") || is_text(s, "SHIFT") {
        Some(KEY_LEFTSHIFT)
    } else if is_text(s, "KEY_LEFTALT") || is_text(s, "ALT") {
        Some(KEY_LEFTALT)
    } else if is_text(s, "KEY_LEFTMETA") || is_text(s, "SUPER") || is_text(s, "META") {
        Some(KEY_LEFTMETA)
    } else if is_text(s, "KEY_ENTER") || is_text(s, "ENTER") {
        Some(KEY_ENTER)
    } else if is_text(s, "KEY_ESC") || is_text(s, "ESC") {
        Some(KEY_ESC)
    } else if is_text(s, "KEY_TAB") || is_text(s, "TAB") {
        Some(KEY_TAB)
    } else if is_text(s, "KEY_SPACE") || is_text(s, "SPACE") {
        Some(KEY_SPACE)
    } else if is_text(s, "KEY_F4") {
        Some(KEY_F4)
    } else if is_text(s, "KEY_1") {
        Some(KEY_1)
    } else if is_text(s, "KEY_2") {
        Some(KEY_2)
    } else if is_text(s, "KEY_3") {
        Some(KEY_3)
    } else if is_text(s, "KEY_4") {
        Some(KEY_4)
    } else {
        None
    }
}

/// A parsed number as a key code.
pub open spec fn as_code(v: Option<nat>) -> Option<u16> {
    match v {
        Some(n) => Some(n as u16),
        None => None,
    }
}

/// The key code a name gives: after `0x` or `0X` a hexadecimal code; else a decimal
/// code; else a known key name, compared in uppercase (`up` is the name in uppercase).
pub open spec fn spec_parse_key(name: Seq<char>, up: Seq<char>) -> Option<u16> {
    if starts_with(name, "0x"@) || starts_with(name, "0X"@) {
        as_code(parse_unsigned(name.skip(2), 16, 0xFFFF))
    } else if parse_unsigned(name, 10, 0xFFFF) is Some {
        as_code(parse_unsigned(name, 10, 0xFFFF))
    } else {
        spec_key_by_name(up)
    }
}

/// The key code for a key name or a hexadecimal or decimal code.
pub fn parse_key_str(name: &str) -> (r: Option<u16>)
    ensures
        r == spec_parse_key(name@, uppercase(name@)),
{
    proof { reveal_strlit("0x"); reveal_strlit("0X"); }
    let c = chars_of(name);
    if c.len() >= 2 && c[0] == '0' && (c[1] == 'x' || c[1] == 'X') {
        proof {
            if c[1] == 'x' {
                assert(name@.subrange(0, 2) =~= "0x"@);
            } else {
                assert(name@.subrange(0, 2) =~= "0X"@);
            }
        }
        let rest = crate::text::skip_chars(c.as_slice(), 2);
        return match parse_number(rest.as_slice(), 16, 0xFFFF) {
            Some(v) => Some(v as u16),
            None => None,
        };
    }
    proof {
        if starts_with(name@, "0x"@) {
            assert(name@.subrange(0, 2)[0] == '0' && name@.subrange(0, 2)[1] == 'x');
        }
        if starts_with(name@, "0X"@) {
            assert(name@.subrange(0, 2)[0] == '0' && name@.subrange(0, 2)[1] == 'X');
        }
    }
    match parse_number(c.as_slice(), 10, 0xFFFF) {
        Some(v) => {
            return Some(v as u16);
        },
        None => {},
    }
    let up = to_uppercase(name);
    key_by_name(up.as_str())
}

/// The key code of the `i`-th letter of the alphabet (0 for `a`), as the Linux input
/// codes number the keys of a QWERTY keyboard: `a` 30, `b` 48, `c` 46, `d` 32, `e` 18,
/// `f` 33, `g` 34, `h` 35, `i` 23, `j` 36, `k` 37, `l` 38, `m` 50, `n` 49, `o` 24, `p` 25,
/// `q` 16, `r` 19, `s` 31, `t` 20, `u` 22, `v` 47, `w` 17, `x` 45, `y` 21, `z` 44.
pub open spec fn spec_letter_key(i: int) -> u16 {
    if i == 0 {
        30
    } else if i == 1 {
        48
    } else if i == 2 {
        46
    } else if i == 3 {
        32
    } else if i == 4 {
        18
    } else if i == 5 {
        33
    } else if i == 6 {
        34
    } else if i == 7 {
        35
    } else if i == 8 {
        23
    } else if i == 9 {
        36
    } else if i == 10 {
        37
    } else if i == 11 {
        38
    } else if i == 12 {
        50
    } else if i == 13 {
        49
    } else if i == 14 {
        24
    } else if i == 15 {
        25
    } else if i == 16 {
        16
    } else if i == 17 {
        19
    } else if i == 18 {
        31
    } else if i == 19 {
        20
    } else if i == 20 {
        22
    } else if i == 21 {
        47
    } else if i == 22 {
        17
    } else if i == 23 {
        45
    } else if i == 24 {
        21
    } else {
        44
    }
}

/// The key code typed for a character: for a letter of either case the code of its key
/// (`spec_letter_key`), digits 1 to 9 from `KEY_1` on, 0, space and newline; none for
/// others.
pub open spec fn spec_char_key(c: char) -> Option<u16> {
    if 'a' <= c && c <= 'z' {
        Some(spec_letter_key(c as int - 'a' as int))
    } else if 'A' <= c && c <= 'Z' {
        Some(spec_letter_key(c as int - 'A' as int))
    } else if '1' <= c && c <= '9' {
        Some((KEY_1 + (c as int - '1' as int)) as u16)
    } else if c == '0' {
        Some(KEY_0)
    } else if c == ' ' {
        Some(KEY_SPACE)
    } else if c == '\n' {
        Some(KEY_ENTER)
    } else {
        None
    }
}

/// The key code of the `i`-th letter of the alphabet.
fn letter_key(i: u32) -> (r: u16)
    requires
        i < 26,
    ensures
        r == spec_letter_key(i as int),
{
    match i {
        0 => 30,
        1 => 48,
        2 => 46,
        3 => 32,
        4 => 18,
        5 => 33,
        6 => 34,
        7 => 35,
        8 => 23,
        9 => 36,
        10 => 37,
        11 => 38,
        12 => 50,
        13 => 49,
        14 => 24,
        15 => 25,
        16 => 16,
        17 => 19,
        18 => 31,
        19 => 20,
        20 => 22,
        21 => 47,
        22 => 17,
        23 => 45,
        24 => 21,
        _ => 44,
    }
}

/// The key code typed for a character, if it has one.
pub fn char_to_key_code(c: char) -> (r: Option<u16>)
    ensures
        r == spec_char_key(c),
{
    if 'a' <= c && c <= 'z' {
        Some(letter_key(c as u32 - 'a' as u32))
    } else if 'A' <= c && c <= 'Z' {
        Some(letter_key(c as u32 - 'A' as u32))
    } else if '1' <= c && c <= '9' {
        Some(KEY_1 + (c as u32 - '1' as u32) as u16)
    } else if c == '0' {
        Some(KEY_0)
    } else if c == ' ' {
        Some(KEY_SPACE)
    } else if c == '\n' {
        Some(KEY_ENTER)
    } else {
        None
    }
}

/// One output on the virtual device.
#[derive(Debug, Clone, Copy, PartialEq, Eq, Structural)]
pub enum EmitStep {
    /// Press and release a key.
    Click(u16),
    /// Press a key.
    Down(u16),
    /// Release a key.
    Up(u16),
    /// Wait briefly (15 ms) with the keys held.
    Pause,
    /// Forward the original event unchanged.
    Forward,
}

/// What running an action does.
#[derive(Debug, Clone, PartialEq)]
pub enum ActionPlan {
    /// Emit these steps on the virtual device, in order.
    Emit(Vec<EmitStep>),
    /// Start a terminal emulator.
    OpenTerminal,
    /// Start the program of this argument list, without a shell.
    Run(Vec<String>),
    /// Nothing (a dry run, or a command with no program).
    Nothing,
}

/// The key code a mouse button action sends.
pub open spec fn button_code(b: MouseButton) -> u16 {
    match b {
        MouseButton::Left => BTN_LEFT,
        MouseButton::Right => BTN_RIGHT,
        MouseButton::Middle => BTN_MIDDLE,
        MouseButton::Back => BTN_SIDE,
        MouseButton::Forward => BTN_EXTRA,
        MouseButton::Button6 => BTN_FORWARD,
        MouseButton::Button7 => BTN_BACK,
    }
}

/// The codes of the key names that parse, in order.
pub open spec fn key_codes(keys: Seq<Seq<char>>) -> Seq<u16>
    decreases keys.len(),
{
    if keys.len() == 0 {
        Seq::empty()
    } else {
        let prev = key_codes(keys.drop_last());
        match spec_parse_key(keys.last(), uppercase(keys.last())) {
            Some(c) => prev.push(c),
            None => prev,
        }
    }
}

/// A key combination: every key pressed in order, a pause, every key released in
/// reverse order.
pub open spec fn combo_steps(codes: Seq<u16>) -> Seq<EmitStep> {
    codes.map_values(|c: u16| EmitStep::Down(c)) + seq![EmitStep::Pause]
        + codes.reverse().map_values(|c: u16| EmitStep::Up(c))
}

/// A click for each character of a text that has a key code.
pub open spec fn typed_steps(text: Seq<char>) -> Seq<EmitStep>
    decreases text.len(),
{
    if text.len() == 0 {
        Seq::empty()
    } else {
        let prev = typed_steps(text.drop_last());
        match spec_char_key(text.last()) {
            Some(c) => prev.push(EmitStep::Click(c)),
            None => prev,
        }
    }
}

/// The keys of "switch to workspace `n`": the Super key, and the digit key when `n` is
/// one of the digits with a known key name (1 to 4).
pub open spec fn workspace_codes(n: u32) -> Seq<u16> {
    if 1 <= n && n <= 4 {
        seq![KEY_LEFTMETA, (KEY_1 + (n - 1)) as u16]
    } else {
        seq![KEY_LEFTMETA]
    }
}

/// What an action emits on the virtual device; none for the actions that start a
/// program.
pub open spec fn spec_emits(a: ButtonAction) -> Option<Seq<EmitStep>> {
    match a {
        ButtonAction::PassThrough => Some(seq![EmitStep::Forward]),
        ButtonAction::Disabled => Some(Seq::empty()),
        ButtonAction::MouseButton { button } => Some(seq![EmitStep::Click(button_code(button))]),
        ButtonAction::Key { key } => match spec_parse_key(key@, uppercase(key@)) {
            Some(c) => Some(seq![EmitStep::Click(c)]),
            None => Some(Seq::empty()),
        },
        ButtonAction::KeyCombo { keys } => Some(combo_steps(key_codes(texts(keys@)))),
        ButtonAction::Copy => Some(combo_steps(seq![KEY_LEFTCTRL, KEY_C])),
        ButtonAction::Paste => Some(combo_steps(seq![KEY_LEFTCTRL, KEY_V])),
        ButtonAction::CloseWindow => Some(combo_steps(seq![KEY_LEFTALT, KEY_F4])),
        ButtonAction::MediaPlayPause => Some(seq![EmitStep::Click(KEY_PLAYPAUSE)]),
        ButtonAction::MediaNext => Some(seq![EmitStep::Click(KEY_NEXTSONG)]),
        ButtonAction::MediaPrev => Some(seq![EmitStep::Click(KEY_PREVIOUSSONG)]),
        ButtonAction::MediaMute => Some(seq![EmitStep::Click(KEY_MUTE)]),
        ButtonAction::TypeText { text } => Some(typed_steps(text@)),
        ButtonAction::SwitchWorkspace { number } => Some(combo_steps(workspace_codes(number))),
        ButtonAction::Macro { .. } => Some(Seq::empty()),
        ButtonAction::OpenTerminal => None,
        ButtonAction::RunCommand { .. } => None,
    }
}

/// The plan of an action: nothing in a dry run; a terminal for `OpenTerminal`; the
/// argument list of a command with a program, nothing for one without; otherwise the
/// steps `spec_emits` gives.
pub open spec fn plan_ok(a: ButtonAction, dry_run: bool, r: ActionPlan) -> bool {
    if dry_run {
        r is Nothing
    } else {
        match a {
            ButtonAction::OpenTerminal => r is OpenTerminal,
            ButtonAction::RunCommand { argv } => if argv@.len() == 0 {
                r is Nothing
            } else {
                r matches ActionPlan::Run(v) && texts(v@) == texts(argv@)
            },
            _ => r matches ActionPlan::Emit(steps) && spec_emits(a) == Some(steps@),
        }
    }
}

/// Each media action emits one click of its own key, by the Linux key codes: play/pause
/// 164, next track 163, previous track 165, mute 113; outside a dry run the plan is
/// exactly that click.
pub proof fn lemma_media_keys(dry_run: bool, r: ActionPlan)
    ensures
        spec_emits(ButtonAction::MediaPlayPause) == Some(seq![EmitStep::Click(164)]),
        spec_emits(ButtonAction::MediaNext) == Some(seq![EmitStep::Click(163)]),
        spec_emits(ButtonAction::MediaPrev) == Some(seq![EmitStep::Click(165)]),
        spec_emits(ButtonAction::MediaMute) == Some(seq![EmitStep::Click(113)]),
        spec_emits(ButtonAction::MediaPrev) != spec_emits(ButtonAction::MediaNext),
        !dry_run && plan_ok(ButtonAction::MediaPrev, dry_run, r)
            ==> (r matches ActionPlan::Emit(v) && v@ == seq![EmitStep::Click(165)]),
        !dry_run && plan_ok(ButtonAction::MediaNext, dry_run, r)
            ==> (r matches ActionPlan::Emit(v) && v@ == seq![EmitStep::Click(163)]),
{
    assert(seq![EmitStep::Click(165)] != seq![EmitStep::Click(163)]) by {
        assert(seq![EmitStep::Click(165)][0] != seq![EmitStep::Click(163)][0]);
    }
}

fn combo(codes: &Vec<u16>) -> (r: Vec<EmitStep>)
    ensures
        r@ == combo_steps(codes@),
{
    let mut r: Vec<EmitStep> = Vec::new();
    let mut i: usize = 0;
    while i < codes.len()
        invariant
            i <= codes@.len(),
            r@ == codes@.take(i as int).map_values(|c: u16| EmitStep::Down(c)),
        decreases codes.len() - i,
    {
        r.push(EmitStep::Down(codes[i]));
        assert(r@ =~= codes@.take(i + 1).map_values(|c: u16| EmitStep::Down(c)));
        i = i + 1;
    }
    assert(codes@.take(codes@.len() as int) =~= codes@);
    r.push(EmitStep::Pause);
    let ghost base = r@;
    let mut k: usize = codes.len();
    while k > 0
        invariant
            k <= codes@.len(),
            base == codes@.map_values(|c: u16| EmitStep::Down(c)) + seq![EmitStep::Pause],
            r@ == base + codes@.reverse().take((codes@.len() - k) as int).map_values(|c: u16| EmitStep::Up(c)),
        decreases k,
    {
        k = k - 1;
        r.push(EmitStep::Up(codes[k]));
        assert(codes@.reverse().take((codes@.len() - k) as int)
            =~= codes@.reverse().take((codes@.len() - k - 1) as int).push(codes@[k as int]));
        assert(r@ =~= base + codes@.reverse().take((codes@.len() - k) as int).map_values(|c: u16| EmitStep::Up(c)));
    }
    assert(codes@.reverse().take(codes@.len() as int) =~= codes@.reverse());
    r
}

fn parsed_codes(keys: &Vec<String>) -> (r: Vec<u16>)
    ensures
        r@ == key_codes(texts(keys@)),
{
    let ghost t = texts(keys@);
    let mut r: Vec<u16> = Vec::new();
    let mut i: usize = 0;
    while i < keys.len()
        invariant
            i <= keys@.len(),
            t == texts(keys@),
            r@ == key_codes(t.take(i as int)),
        decreases keys.len() - i,
    {
        assert(t.take(i + 1).drop_last() =~= t.take(i as int));
        assert(t.take(i + 1).last() == keys@[i as int]@);
        match parse_key_str(keys[i].as_str()) {
            Some(c) => {
                r.push(c);
            },
            None => {},
        }
        i = i + 1;
    }
    assert(t.take(keys@.len() as int) =~= t);
    r
}

fn typed(text: &str) -> (r: Vec<EmitStep>)
    ensures
        r@ == typed_steps(text@),
{
    let cs = chars_of(text);
    let mut r: Vec<EmitStep> = Vec::new();
    let mut i: usize = 0;
    while i < cs.len()
        invariant
            i <= cs@.len(),
            cs@ == text@,
            r@ == typed_steps(cs@.take(i as int)),
        decreases cs.len() - i,
    {
        assert(cs@.take(i + 1).drop_last() =~= cs@.take(i as int));
        match char_to_key_code(cs[i]) {
            Some(c) => {
                r.push(EmitStep::Click(c));
            },
            None => {},
        }
        i = i + 1;
    }
    assert(cs@.take(cs@.len() as int) =~= cs@);
    r
}

fn click(code: u16) -> (r: ActionPlan)
    ensures
        r matches ActionPlan::Emit(s) && s@ == seq![EmitStep::Click(code)],
{
    let mut v: Vec<EmitStep> = Vec::new();
    v.push(EmitStep::Click(code));
    ActionPlan::Emit(v)
}

fn fixed_combo(a: u16, b: u16) -> (r: ActionPlan)
    ensures
        r matches ActionPlan::Emit(s) && s@ == combo_steps(seq![a, b]),
{
    let mut codes: Vec<u16> = Vec::new();
    codes.push(a);
    codes.push(b);
    assert(codes@ =~= seq![a, b]);
    ActionPlan::Emit(combo(&codes))
}

/// What running `action` does on a button press.
pub fn plan_action(action: &ButtonAction, dry_run: bool) -> (r: ActionPlan)
    ensures
        plan_ok(*action, dry_run, r),
{
    if dry_run {
        return ActionPlan::Nothing;
    }
    match action {
        ButtonAction::PassThrough => {
            let mut v: Vec<EmitStep> = Vec::new();
            v.push(EmitStep::Forward);
            ActionPlan::Emit(v)
        },
        ButtonAction::Disabled => ActionPlan::Emit(Vec::new()),
        ButtonAction::MouseButton { button } => {
            let code = match button {
                MouseButton::Left => BTN_LEFT,
                MouseButton::Right => BTN_RIGHT,
                MouseButton::Middle => BTN_MIDDLE,
                MouseButton::Back => BTN_SIDE,
                MouseButton::Forward => BTN_EXTRA,
                MouseButton::Button6 => BTN_FORWARD,
                MouseButton::Button7 => BTN_BACK,
            };
            click(code)
        },
        ButtonAction::Key { key } => match parse_key_str(key.as_str()) {
            Some(c) => click(c),
            None => ActionPlan::Emit(Vec::new()),
        },
        ButtonAction::KeyCombo { keys } => {
            let codes = parsed_codes(keys);
            ActionPlan::Emit(combo(&codes))
        },
        ButtonAction::Copy => fixed_combo(KEY_LEFTCTRL, KEY_C),
        ButtonAction::Paste => fixed_combo(KEY_LEFTCTRL, KEY_V),
        ButtonAction::CloseWindow => fixed_combo(KEY_LEFTALT, KEY_F4),
        ButtonAction::MediaPlayPause => click(KEY_PLAYPAUSE),
        ButtonAction::MediaNext => click(KEY_NEXTSONG),
        ButtonAction::MediaPrev => click(KEY_PREVIOUSSONG),
        ButtonAction::MediaMute => click(KEY_MUTE),
        ButtonAction::OpenTerminal => ActionPlan::OpenTerminal,
        ButtonAction::RunCommand { argv } => {
            if argv.len() == 0 {
                ActionPlan::Nothing
            } else {
                ActionPlan::Run(copy_strings(argv))
            }
        },
        ButtonAction::TypeText { text } => ActionPlan::Emit(typed(text.as_str())),
        ButtonAction::SwitchWorkspace { number } => {
            let mut codes: Vec<u16> = Vec::new();
            codes.push(KEY_LEFTMETA);
            if *number >= 1 && *number <= 4 {
                codes.push(KEY_1 + (*number - 1) as u16);
            }
            assert(codes@ =~= workspace_codes(*number));
            ActionPlan::Emit(combo(&codes))
        },
        ButtonAction::Macro { .. } => ActionPlan::Emit(Vec::new()),
    }
}

/// An input node is a keyboard's (left ungrabbed, so the keyboard keeps typing) when
/// its name, lowercased, mentions "keyboard", "teclado", "e9050" or "kbd".
pub open spec fn keyboard_node(name: Seq<char>) -> bool {
    let l = lowercase(name);
    has_sub(l, "keyboard"@) || has_sub(l, "teclado"@) || has_sub(l, "e9050"@) || has_sub(l, "kbd"@)
}

/// Whether an input node with this name belongs to a keyboard.
pub fn is_keyboard_node(name: &str) -> (r: bool)
    ensures
        r == keyboard_node(name@),
{
    let l = to_lowercase(name);
    str_contains(l.as_str(), "keyboard") || str_contains(l.as_str(), "teclado")
        || str_contains(l.as_str(), "e9050") || str_contains(l.as_str(), "kbd")
}

/// The event nodes of the detected mice, in order, each once.
pub open spec fn mouse_paths(ds: Seq<RapooDevice>) -> Seq<Seq<char>>
    decreases ds.len(),
{
    if ds.len() == 0 {
        Seq::empty()
    } else {
        let prev = mouse_paths(ds.drop_last());
        let d = ds.last();
        if d.device_type == DeviceType::Mouse && d.evdev_path is Some && !prev.contains(d.evdev_path.unwrap()@) {
            prev.push(d.evdev_path.unwrap()@)
        } else {
            prev
        }
    }
}

fn has_path(paths: &Vec<String>, p: &str) -> (r: bool)
    ensures
        r == string_views(paths@).contains(p@),
{
    let target = chars_of(p);
    let mut i: usize = 0;
    while i < paths.len()
        invariant
            i <= paths@.len(),
            target@ == p@,
            forall|j: int| 0 <= j < i ==> paths@[j]@ != p@,
        decreases paths.len() - i,
    {
        let c = chars_of(paths[i].as_str());
        if chars_eq(c.as_slice(), target.as_slice()) {
            assert(string_views(paths@)[i as int] == p@);
            return true;
        }
        i = i + 1;
    }
    proof {
        if string_views(paths@).contains(p@) {
            let j = choose|j: int| 0 <= j < string_views(paths@).len() && string_views(paths@)[j] == p@;
            assert(paths@[j]@ == p@);
        }
    }
    false
}

/// The event nodes the remapper grabs: those of the detected mice, each once, in the
/// order of detection (other devices are left alone).
pub fn mouse_event_paths(detected: &Vec<RapooDevice>) -> (r: Vec<String>)
    ensures
        string_views(r@) == mouse_paths(detected@),
{
    let mut paths: Vec<String> = Vec::new();
    let mut i: usize = 0;
    while i < detected.len()
        invariant
            i <= detected@.len(),
            string_views(paths@) == mouse_paths(detected@.take(i as int)),
        decreases detected.len() - i,
    {
        assert(detected@.take(i + 1).drop_last() =~= detected@.take(i as int));
        let d = &detected[i];
        if d.device_type == DeviceType::Mouse {
            match &d.evdev_path {
                Some(p) => {
                    if !has_path(&paths, p.as_str()) {
                        paths.push(p.clone());
                        assert(string_views(paths@) =~= mouse_paths(detected@.take(i + 1)));
                    }
                },
                None => {},
            }
        }
        i = i + 1;
    }
    assert(detected@.take(detected@.len() as int) =~= detected@);
    paths
}

/// What the remapper service is started with.
pub struct RemapperConfig {
    /// An event node to use instead of detecting the mouse.
    pub device_path: Option<String>,
    /// The profile file the service was pointed at.
    pub config_path: Option<String>,
    /// Inspect events without grabbing the mouse or creating the virtual device.
    pub dry_run: bool,
}

/// What the remapper does with an event node it opened.
#[derive(Clone, Copy, Debug, PartialEq, Eq, Structural)]
pub enum NodeHandling {
    /// A keyboard node of the receiver: left to the system, so typing keeps working.
    LeaveUngrabbed,
    /// A mouse node: grabbed exclusively, its events only reach the system remapped.
    Grab,
    /// A mouse node in a dry run: read without a grab.
    InspectOnly,
}

/// How a node of this name is handled: keyboards are never grabbed, mice are grabbed
/// unless the run is dry.
pub fn node_handling(name: &str, dry_run: bool) -> (r: NodeHandling)
    ensures
        r == (if keyboard_node(name@) {
            NodeHandling::LeaveUngrabbed
        } else if dry_run {
            NodeHandling::InspectOnly
        } else {
            NodeHandling::Grab
        }),
{
    if is_keyboard_node(name) {
        NodeHandling::LeaveUngrabbed
    } else if dry_run {
        NodeHandling::InspectOnly
    } else {
        NodeHandling::Grab
    }
}

/// Whether the service creates the virtual output device: only outside a dry run.
pub fn creates_virtual_device(config: &RemapperConfig) -> (r: bool)
    ensures
        r == !config.dry_run,
{
    !config.dry_run
}

/// The event nodes the service opens: the configured node alone where one is given,
/// else the nodes of the detected mice (`mouse_event_paths`).
pub fn resolve_device_paths(config: &RemapperConfig, detected: &Vec<RapooDevice>) -> (r: Vec<String>)
    ensures
        string_views(r@) == (match config.device_path {
            Some(p) => seq![p@],
            None => mouse_paths(detected@),
        }),
{
    match &config.device_path {
        Some(p) => {
            let mut v: Vec<String> = Vec::new();
            v.push(p.clone());
            assert(string_views(v@) =~= seq![p@]);
            v
        },
        None => mouse_event_paths(detected),
    }
}

/// How many steps press key `c`.
pub open spec fn downs(steps: Seq<EmitStep>, c: u16) -> nat
    decreases steps.len(),
{
    if steps.len() == 0 {
        0
    } else {
        downs(steps.drop_last(), c) + if steps.last() == EmitStep::Down(c) { 1nat } else { 0nat }
    }
}

/// How many steps release key `c`.
pub open spec fn ups(steps: Seq<EmitStep>, c: u16) -> nat
    decreases steps.len(),
{
    if steps.len() == 0 {
        0
    } else {
        ups(steps.drop_last(), c) + if steps.last() == EmitStep::Up(c) { 1nat } else { 0nat }
    }
}

/// How often `c` occurs in `s`.
pub open spec fn occurrences(s: Seq<u16>, c: u16) -> nat
    decreases s.len(),
{
    if s.len() == 0 {
        0
    } else {
        occurrences(s.drop_last(), c) + if s.last() == c { 1nat } else { 0nat }
    }
}

proof fn lemma_downs_concat(a: Seq<EmitStep>, b: Seq<EmitStep>, c: u16)
    ensures
        downs(a + b, c) == downs(a, c) + downs(b, c),
        ups(a + b, c) == ups(a, c) + ups(b, c),
    decreases b.len(),
{
    if b.len() > 0 {
        lemma_downs_concat(a, b.drop_last(), c);
        assert((a + b).drop_last() =~= a + b.drop_last());
    } else {
        assert(a + b =~= a);
    }
}

proof fn lemma_counts_of_map(s: Seq<u16>, c: u16)
    ensures
        downs(s.map_values(|k: u16| EmitStep::Down(k)), c) == occurrences(s, c),
        ups(s.map_values(|k: u16| EmitStep::Down(k)), c) == 0,
        ups(s.map_values(|k: u16| EmitStep::Up(k)), c) == occurrences(s, c),
        downs(s.map_values(|k: u16| EmitStep::Up(k)), c) == 0,
    decreases s.len(),
{
    if s.len() > 0 {
        lemma_counts_of_map(s.drop_last(), c);
        assert(s.map_values(|k: u16| EmitStep::Down(k)).drop_last() =~= s.drop_last().map_values(|k: u16| EmitStep::Down(k)));
        assert(s.map_values(|k: u16| EmitStep::Up(k)).drop_last() =~= s.drop_last().map_values(|k: u16| EmitStep::Up(k)));
    }
}

proof fn lemma_occurrences_push_front(x: u16, s: Seq<u16>, c: u16)
    ensures
        occurrences(seq![x] + s, c) == occurrences(s, c) + if x == c { 1nat } else { 0nat },
    decreases s.len(),
{
    if s.len() > 0 {
        lemma_occurrences_push_front(x, s.drop_last(), c);
        assert((seq![x] + s).drop_last() =~= seq![x] + s.drop_last());
        assert((seq![x] + s).last() == s.last());
    } else {
        assert(seq![x] + s =~= seq![x]);
        assert(seq![x].drop_last() =~= Seq::<u16>::empty());
        assert(occurrences(Seq::<u16>::empty(), c) == 0);
        assert(occurrences(s, c) == 0);
    }
}

proof fn lemma_occurrences_reverse(s: Seq<u16>, c: u16)
    ensures
        occurrences(s.reverse(), c) == occurrences(s, c),
    decreases s.len(),
{
    if s.len() > 0 {
        lemma_occurrences_reverse(s.drop_last(), c);
        assert(s.reverse() =~= seq![s.last()] + s.drop_last().reverse());
        lemma_occurrences_push_front(s.last(), s.drop_last().reverse(), c);
    }
}

/// A key combination releases every key it presses, as often as it presses it.
pub proof fn lemma_combo_releases_keys(codes: Seq<u16>, c: u16)
    ensures
        downs(combo_steps(codes), c) == ups(combo_steps(codes), c),
        downs(combo_steps(codes), c) == occurrences(codes, c),
{
    let d = codes.map_values(|k: u16| EmitStep::Down(k));
    let u = codes.reverse().map_values(|k: u16| EmitStep::Up(k));
    let p = seq![EmitStep::Pause];
    assert(combo_steps(codes) =~= (d + p) + u);
    lemma_downs_concat(d + p, u, c);
    lemma_downs_concat(d, p, c);
    assert(p.drop_last() =~= Seq::<EmitStep>::empty());
    assert(downs(Seq::<EmitStep>::empty(), c) == 0);
    assert(ups(Seq::<EmitStep>::empty(), c) == 0);
    assert(downs(p, c) == 0);
    assert(ups(p, c) == 0);
    lemma_counts_of_map(codes, c);
    lemma_counts_of_map(codes.reverse(), c);
    lemma_occurrences_reverse(codes, c);
}

proof fn lemma_no_presses(steps: Seq<EmitStep>, c: u16)
    requires
        forall|k: int| 0 <= k < steps.len() ==> steps[k] is Click || steps[k] is Forward,
    ensures
        downs(steps, c) == 0,
        ups(steps, c) == 0,
    decreases steps.len(),
{
    if steps.len() > 0 {
        lemma_no_presses(steps.drop_last(), c);
    }
}

proof fn lemma_typed_clicks(text: Seq<char>)
    ensures
        forall|k: int| 0 <= k < typed_steps(text).len() ==> #[trigger] typed_steps(text)[k] is Click,
    decreases text.len(),
{
    if text.len() > 0 {
        lemma_typed_clicks(text.drop_last());
    }
}

/// Whatever action runs, it leaves no key held: every key it presses it releases as
/// often as it pressed it.
pub proof fn lemma_action_leaves_no_key_held(a: ButtonAction, c: u16)
    ensures
        spec_emits(a) matches Some(steps) ==> downs(steps, c) == ups(steps, c),
{
    match a {
        ButtonAction::KeyCombo { keys } => lemma_combo_releases_keys(key_codes(texts(keys@)), c),
        ButtonAction::Copy => lemma_combo_releases_keys(seq![KEY_LEFTCTRL, KEY_C], c),
        ButtonAction::Paste => lemma_combo_releases_keys(seq![KEY_LEFTCTRL, KEY_V], c),
        ButtonAction::CloseWindow => lemma_combo_releases_keys(seq![KEY_LEFTALT, KEY_F4], c),
        ButtonAction::SwitchWorkspace { number } => lemma_combo_releases_keys(workspace_codes(number), c),
        ButtonAction::TypeText { text } => {
            lemma_typed_clicks(text@);
            lemma_no_presses(typed_steps(text@), c);
        },
        _ => {
            if let Some(steps) = spec_emits(a) {
                assert(forall|k: int| 0 <= k < steps.len() ==> steps[k] is Click || steps[k] is Forward);
                lemma_no_presses(steps, c);
            }
        },
    }
}

} // verus!
