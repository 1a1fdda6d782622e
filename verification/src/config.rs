//! Profiles, button mappings and the profile store.
//!
//! Profile ids are UUIDs held as their 128-bit value (`Uuid::as_u128`).

use vstd::prelude::*;
use crate::error::OpenRapooError;
use crate::text::{append_dec, append_str, chars_of, dec, owned, trim, trim_str, string_of};

verus! {

/// The DPI values the MT760 Pro lists explicitly.
pub open spec fn listed_dpi(dpi: u32) -> bool {
    dpi == 800 || dpi == 1000 || dpi == 1200 || dpi == 1600 || dpi == 2400 || dpi == 3200 || dpi == 4000
}

/// A DPI the hardware accepts: a listed value, or a multiple of 50 from 50 to 26000.
pub open spec fn spec_valid_dpi(dpi: u32) -> bool {
    listed_dpi(dpi) || (50 <= dpi <= 26000 && dpi % 50 == 0)
}

/// Checks a DPI value against what the MT760 Pro supports.
pub fn validate_dpi(dpi: u32) -> (r: Result<(), OpenRapooError>)
    ensures
        r is Ok <==> spec_valid_dpi(dpi),
        r matches Err(OpenRapooError::Config(m)) && m@ == "DPI "@ + dec(dpi as nat)
            + " is invalid. Must be between 50 and 26000 in steps of 50."@ || r is Ok,
{
    let listed = dpi == 800 || dpi == 1000 || dpi == 1200 || dpi == 1600 || dpi == 2400 || dpi == 3200 || dpi == 4000;
    if listed || (dpi >= 50 && dpi <= 26000 && dpi % 50 == 0) {
        Ok(())
    } else {
        let mut m = owned("DPI ");
        append_dec(&mut m, dpi as u64);
        append_str(&mut m, " is invalid. Must be between 50 and 26000 in steps of 50.");
        Err(OpenRapooError::Config(m))
    }
}

/// A polling rate (Hz) the hardware accepts.
pub open spec fn spec_valid_polling_rate(rate: u32) -> bool {
    rate == 125 || rate == 250 || rate == 500 || rate == 1000
}

/// Checks a polling rate (Hz) against what the MT760 Pro supports.
pub fn validate_polling_rate(rate_hz: u32) -> (r: Result<(), OpenRapooError>)
    ensures
        r is Ok <==> spec_valid_polling_rate(rate_hz),
        r matches Err(OpenRapooError::Config(m)) && m@ == "Polling rate "@ + dec(rate_hz as nat)
            + "Hz is unsupported. Supported values: 125, 250, 500, 1000 Hz."@ || r is Ok,
{
    if rate_hz == 125 || rate_hz == 250 || rate_hz == 500 || rate_hz == 1000 {
        Ok(())
    } else {
        let mut m = owned("Polling rate ");
        append_dec(&mut m, rate_hz as u64);
        append_str(&mut m, "Hz is unsupported. Supported values: 125, 250, 500, 1000 Hz.");
        Err(OpenRapooError::Config(m))
    }
}

/// Calls `uuid::Uuid::new_v4` and returns the id's 128-bit value. The id is random;
/// the crate sets the version and variant bits (`0x4000_8000_0000_0000_0000`), so it
/// is never the nil id 0.
#[verifier::external_body]
pub(crate) fn new_uuid() -> (r: u128)
    ensures
        r != 0,
{
    uuid::Uuid::new_v4().as_u128()
}

/// Calls `uuid::Uuid::nil` and returns its 128-bit value, which is 0 (all bytes zero).
#[verifier::external_body]
pub(crate) fn nil_uuid() -> (r: u128)
    ensures
        r == 0,
{
    uuid::Uuid::nil().as_u128()
}

/// A mouse button an action can send.
#[derive(Debug, Clone, Copy, PartialEq, Eq, Structural)]
pub enum MouseButton {
    Left,
    Right,
    Middle,
    Back,
    Forward,
    Button6,
    Button7,
}

/// What pressing a button does.
#[derive(Debug, Clone, PartialEq)]
pub enum ButtonAction {
    /// Send a mouse button event
    MouseButton { button: MouseButton },
    /// Send a single keyboard key (e.g. "KEY_A", "KEY_ENTER", "a", "Ctrl")
    Key { key: String },
    /// Send a key combination (e.g. ["KEY_LEFTCTRL", "KEY_C"])
    KeyCombo { keys: Vec<String> },
    /// Paste from clipboard (Ctrl+V)
    Paste,
    /// Copy selection to clipboard (Ctrl+C)
    Copy,
    /// Open a terminal emulator
    OpenTerminal,
    /// Close the active window (Alt+F4)
    CloseWindow,
    MediaPlayPause,
    MediaNext,
    MediaPrev,
    MediaMute,
    /// Switch to a specific workspace / virtual desktop
    SwitchWorkspace { number: u32 },
    /// Execute a command given as its argument list (no shell)
    RunCommand { argv: Vec<String> },
    /// Type a predefined text
    TypeText { text: String },
    /// Execute a recorded macro
    Macro { macro_id: u128 },
    /// Disable this button (absorb events)
    Disabled,
    /// Keep the default behaviour
    PassThrough,
}

impl ButtonAction {
    /// A command action must name a program.
    pub fn validate(&self) -> (r: Result<(), OpenRapooError>)
        ensures
            r is Err <==> (self matches ButtonAction::RunCommand { argv } && argv@.len() == 0),
            r matches Err(e) ==> (e matches OpenRapooError::Config(m) && m@ == "RunCommand argv cannot be empty"@),
    {
        if let ButtonAction::RunCommand { argv } = self {
            if argv.len() == 0 {
                return Err(OpenRapooError::Config(owned("RunCommand argv cannot be empty")));
            }
        }
        Ok(())
    }
}

/// The texts of a list of strings.
pub open spec fn texts(v: Seq<String>) -> Seq<Seq<char>> {
    v.map_values(|s: String| s@)
}

pub(crate) fn copy_strings(v: &Vec<String>) -> (r: Vec<String>)
    ensures
        texts(r@) == texts(v@),
{
    let mut r: Vec<String> = Vec::new();
    let mut i: usize = 0;
    while i < v.len()
        invariant
            i <= v@.len(),
            texts(r@) == texts(v@.take(i as int)),
        decreases v.len() - i,
    {
        r.push(v[i].clone());
        assert(texts(v@.take(i + 1)) =~= texts(v@.take(i as int)).push(v@[i as int]@));
        assert(texts(r@) =~= texts(v@.take(i as int)).push(v@[i as int]@));
        i = i + 1;
    }
    assert(v@.take(v.len() as int) =~= v@);
    r
}

impl ButtonAction {
    /// Two actions do the same thing.
    pub open spec fn same(self, o: ButtonAction) -> bool {
        match (self, o) {
            (ButtonAction::Key { key: a }, ButtonAction::Key { key: b }) => a@ == b@,
            (ButtonAction::KeyCombo { keys: a }, ButtonAction::KeyCombo { keys: b }) => texts(a@) == texts(b@),
            (ButtonAction::RunCommand { argv: a }, ButtonAction::RunCommand { argv: b }) => texts(a@) == texts(b@),
            (ButtonAction::TypeText { text: a }, ButtonAction::TypeText { text: b }) => a@ == b@,
            (ButtonAction::Key { .. }, _) | (ButtonAction::KeyCombo { .. }, _) | (ButtonAction::RunCommand { .. }, _)
                | (ButtonAction::TypeText { .. }, _) => false,
            _ => self == o,
        }
    }

    /// A copy doing the same thing.
    pub fn duplicate(&self) -> (r: ButtonAction)
        ensures
            r.same(*self),
    {
        match self {
            ButtonAction::MouseButton { button } => ButtonAction::MouseButton { button: *button },
            ButtonAction::Key { key } => ButtonAction::Key { key: key.clone() },
            ButtonAction::KeyCombo { keys } => ButtonAction::KeyCombo { keys: copy_strings(keys) },
            ButtonAction::Paste => ButtonAction::Paste,
            ButtonAction::Copy => ButtonAction::Copy,
            ButtonAction::OpenTerminal => ButtonAction::OpenTerminal,
            ButtonAction::CloseWindow => ButtonAction::CloseWindow,
            ButtonAction::MediaPlayPause => ButtonAction::MediaPlayPause,
            ButtonAction::MediaNext => ButtonAction::MediaNext,
            ButtonAction::MediaPrev => ButtonAction::MediaPrev,
            ButtonAction::MediaMute => ButtonAction::MediaMute,
            ButtonAction::SwitchWorkspace { number } => ButtonAction::SwitchWorkspace { number: *number },
            ButtonAction::RunCommand { argv } => ButtonAction::RunCommand { argv: copy_strings(argv) },
            ButtonAction::TypeText { text } => ButtonAction::TypeText { text: text.clone() },
            ButtonAction::Macro { macro_id } => ButtonAction::Macro { macro_id: *macro_id },
            ButtonAction::Disabled => ButtonAction::Disabled,
            ButtonAction::PassThrough => ButtonAction::PassThrough,
        }
    }
}

/// Two mapping lists map the same codes to the same actions, in the same order.
pub open spec fn mappings_same(a: Seq<(String, ButtonAction)>, b: Seq<(String, ButtonAction)>) -> bool {
    a.len() == b.len() && forall|i: int| 0 <= i < a.len() ==> (#[trigger] a[i]).0@ == b[i].0@ && a[i].1.same(b[i].1)
}

fn copy_mappings(m: &Vec<(String, ButtonAction)>) -> (r: Vec<(String, ButtonAction)>)
    ensures
        mappings_same(r@, m@),
{
    let mut r: Vec<(String, ButtonAction)> = Vec::new();
    let mut i: usize = 0;
    while i < m.len()
        invariant
            i <= m@.len(),
            r@.len() == i,
            forall|j: int| 0 <= j < i ==> (#[trigger] r@[j]).0@ == m@[j].0@ && r@[j].1.same(m@[j].1),
        decreases m.len() - i,
    {
        let code = m[i].0.clone();
        let act = m[i].1.duplicate();
        r.push((code, act));
        i = i + 1;
    }
    r
}

/// One step of a macro.
#[derive(Debug, Clone, PartialEq)]
pub struct MacroEvent {
    pub key: String,
    pub is_press: bool,
    pub delay_ms: u64,
}

/// A recorded key/button macro.
#[derive(Debug, Clone, PartialEq)]
pub struct MacroDefinition {
    pub id: u128,
    pub name: String,
    pub events: Vec<MacroEvent>,
    pub repeat_count: u32,
}

impl MacroDefinition {
    /// An empty macro with a fresh id, played once.
    pub fn new(name: &str) -> (r: Self)
        ensures
            r.id != 0,
            r.name@ == name@,
            r.events@.len() == 0,
            r.repeat_count == 1,
    {
        MacroDefinition { id: new_uuid(), name: owned(name), events: Vec::new(), repeat_count: 1 }
    }
}

/// A configuration profile.
#[derive(Debug, Clone, PartialEq)]
pub struct Profile {
    /// Unique identifier (UUID value)
    pub id: u128,
    /// Human-readable name
    pub name: String,
    /// Button code (e.g. "0x114") and its action; each code at most once
    pub mappings: Vec<(String, ButtonAction)>,
    /// Target DPI
    pub dpi: u32,
    /// Target USB polling rate in Hz
    pub polling_rate: u32,
    /// Whether this is the default (fallback) profile
    pub is_default: bool,
    /// Application this profile is associated with (e.g. "firefox")
    pub app_association: Option<String>,
}

/// No button code is mapped twice.
pub open spec fn codes_unique(m: Seq<(String, ButtonAction)>) -> bool {
    forall|a: int, b: int| 0 <= a < b < m.len() ==> (#[trigger] m[a]).0@ != (#[trigger] m[b]).0@
}

/// The code `code` is mapped at position `i`, and nowhere before.
pub open spec fn mapped_at(m: Seq<(String, ButtonAction)>, code: Seq<char>, i: int) -> bool {
    0 <= i < m.len() && m[i].0@ == code && forall|j: int| 0 <= j < i ==> (#[trigger] m[j]).0@ != code
}

impl Profile {
    /// The profile's mappings name each button once.
    pub open spec fn wf(&self) -> bool {
        codes_unique(self.mappings@)
    }

    /// An empty profile with a fresh id, 1200 DPI and 1000 Hz.
    pub fn new(name: &str) -> (p: Self)
        ensures
            p.wf(),
            p.id != 0,
            p.name@ == name@,
            p.mappings@.len() == 0,
            p.dpi == 1200,
            p.polling_rate == 1000,
            !p.is_default,
            p.app_association is None,
    {
        Profile {
            id: new_uuid(),
            name: owned(name),
            mappings: Vec::new(),
            dpi: 1200,
            polling_rate: 1000,
            is_default: false,
            app_association: None,
        }
    }

    /// The default profile: the five standard buttons (`0x110` to `0x114`) pass through.
    pub fn default_profile() -> (p: Self)
        ensures
            p.wf(),
            p.id == 0,
            p.name@ == "Padrão (Passthrough)"@,
            p.mappings@.len() == 5,
            p.mappings@[0].0@ == "0x110"@ && p.mappings@[1].0@ == "0x111"@ && p.mappings@[2].0@ == "0x112"@
                && p.mappings@[3].0@ == "0x113"@ && p.mappings@[4].0@ == "0x114"@,
            forall|i: int| 0 <= i < 5 ==> (#[trigger] p.mappings@[i]).1 == ButtonAction::PassThrough,
            p.dpi == 1200,
            p.polling_rate == 1000,
            p.is_default,
            p.app_association is None,
    {
        let mut mappings: Vec<(String, ButtonAction)> = Vec::new();
        mappings.push((owned("0x110"), ButtonAction::PassThrough));
        mappings.push((owned("0x111"), ButtonAction::PassThrough));
        mappings.push((owned("0x112"), ButtonAction::PassThrough));
        mappings.push((owned("0x113"), ButtonAction::PassThrough));
        mappings.push((owned("0x114"), ButtonAction::PassThrough));
        proof {
            reveal_strlit("0x110");
            reveal_strlit("0x111");
            reveal_strlit("0x112");
            reveal_strlit("0x113");
            reveal_strlit("0x114");
            assert forall|a: int, b: int| 0 <= a < b < mappings@.len() implies
                (#[trigger] mappings@[a]).0@ != (#[trigger] mappings@[b]).0@ by {
                assert(mappings@[a].0@[4] != mappings@[b].0@[4]);
            }
        }
        Profile {
            id: nil_uuid(),
            name: owned("Padrão (Passthrough)"),
            mappings,
            dpi: 1200,
            polling_rate: 1000,
            is_default: true,
            app_association: None,
        }
    }

    /// The action mapped to a button code (e.g. "0x114"), if any.
    pub fn get_action(&self, button_code: &str) -> (r: Option<&ButtonAction>)
        ensures
            match r {
                Some(a) => exists|i: int| mapped_at(self.mappings@, button_code@, i) && *a == self.mappings@[i].1,
                None => forall|i: int| 0 <= i < self.mappings@.len() ==> (#[trigger] self.mappings@[i]).0@ != button_code@,
            },
    {
        let code = chars_of(button_code);
        let mut i: usize = 0;
        while i < self.mappings.len()
            invariant
                i <= self.mappings@.len(),
                code@ == button_code@,
                forall|j: int| 0 <= j < i ==> (#[trigger] self.mappings@[j]).0@ != button_code@,
            decreases self.mappings.len() - i,
        {
            let k = chars_of(self.mappings[i].0.as_str());
            if crate::text::chars_eq(k.as_slice(), code.as_slice()) {
                assert(mapped_at(self.mappings@, button_code@, i as int));
                return Some(&self.mappings[i].1);
            }
            i = i + 1;
        }
        None
    }
}

impl Profile {
    /// Two profiles carry the same settings.
    pub open spec fn same(self, o: Profile) -> bool {
        &&& self.id == o.id
        &&& self.name@ == o.name@
        &&& mappings_same(self.mappings@, o.mappings@)
        &&& self.dpi == o.dpi
        &&& self.polling_rate == o.polling_rate
        &&& self.is_default == o.is_default
        &&& crate::text::text_of(self.app_association) == crate::text::text_of(o.app_association)
    }

    /// A copy carrying the same settings.
    pub fn duplicate(&self) -> (r: Profile)
        ensures
            r.same(*self),
    {
        Profile {
            id: self.id,
            name: self.name.clone(),
            mappings: copy_mappings(&self.mappings),
            dpi: self.dpi,
            polling_rate: self.polling_rate,
            is_default: self.is_default,
            app_association: match &self.app_association {
                Some(a) => Some(a.clone()),
                None => None,
            },
        }
    }
}

/// ASCII lowercase of a character's code.
pub open spec fn ascii_lower(c: char) -> int {
    let v = c as u32;
    if 65 <= v <= 90 { v + 32 } else { v as int }
}

/// `a` and `b` are equal ignoring ASCII case (`str::eq_ignore_ascii_case`).
pub open spec fn eq_ignore_ascii_case(a: Seq<char>, b: Seq<char>) -> bool {
    a.len() == b.len() && forall|i: int| 0 <= i < a.len() ==> ascii_lower(#[trigger] a[i]) == ascii_lower(b[i])
}

/// Whether two strings are equal ignoring ASCII case.
pub fn str_eq_ignore_ascii_case(a: &str, b: &str) -> (r: bool)
    ensures
        r == eq_ignore_ascii_case(a@, b@),
{
    let x = chars_of(a);
    let y = chars_of(b);
    if x.len() != y.len() {
        return false;
    }
    let mut i: usize = 0;
    while i < x.len()
        invariant
            x@ == a@,
            y@ == b@,
            x@.len() == y@.len(),
            i <= x@.len(),
            forall|j: int| 0 <= j < i ==> ascii_lower(#[trigger] x@[j]) == ascii_lower(y@[j]),
        decreases x.len() - i,
    {
        let p = x[i] as u32;
        let q = y[i] as u32;
        let lp = if 65 <= p && p <= 90 { p + 32 } else { p };
        let lq = if 65 <= q && q <= 90 { q + 32 } else { q };
        if lp != lq {
            assert(ascii_lower(x@[i as int]) != ascii_lower(y@[i as int]));
            return false;
        }
        i = i + 1;
    }
    true
}

/// All profiles and the id of the active one.
#[derive(Debug, Clone)]
pub struct ProfileStore {
    pub profiles: Vec<Profile>,
    pub active_profile_id: u128,
}

/// The position of the first profile with id `id`.
pub open spec fn first_with_id(ps: Seq<Profile>, id: u128, i: int) -> bool {
    0 <= i < ps.len() && ps[i].id == id && forall|j: int| 0 <= j < i ==> (#[trigger] ps[j]).id != id
}

/// Some profile has id `id`.
pub open spec fn has_id(ps: Seq<Profile>, id: u128) -> bool {
    exists|i: int| 0 <= i < ps.len() && (#[trigger] ps[i]).id == id
}

/// The position of the first default profile.
pub open spec fn first_default(ps: Seq<Profile>, i: int) -> bool {
    0 <= i < ps.len() && ps[i].is_default && forall|j: int| 0 <= j < i ==> !(#[trigger] ps[j]).is_default
}

/// The position of the active profile: the one with the active id, else the first
/// default one, else the first one.
pub open spec fn active_index(s: ProfileStore, i: int) -> bool {
    let ps = s.profiles@;
    if has_id(ps, s.active_profile_id) {
        first_with_id(ps, s.active_profile_id, i)
    } else if exists|j: int| 0 <= j < ps.len() && (#[trigger] ps[j]).is_default {
        first_default(ps, i)
    } else {
        i == 0
    }
}

fn find_id(ps: &Vec<Profile>, id: u128) -> (r: Option<usize>)
    ensures
        match r {
            Some(i) => first_with_id(ps@, id, i as int),
            None => !has_id(ps@, id),
        },
{
    let mut i: usize = 0;
    while i < ps.len()
        invariant
            i <= ps@.len(),
            forall|j: int| 0 <= j < i ==> (#[trigger] ps@[j]).id != id,
        decreases ps.len() - i,
    {
        if ps[i].id == id {
            return Some(i);
        }
        i = i + 1;
    }
    None
}

impl Default for ProfileStore {
    /// A store holding only the default profile, which is active.
    fn default() -> (s: Self)
        ensures
            s.profiles@.len() == 1,
            s.profiles@[0].is_default,
            s.profiles@[0].id == 0,
            s.profiles@[0].wf(),
            s.profiles@[0].name@ == "Padrão (Passthrough)"@,
            s.active_profile_id == 0,
    {
        let p = Profile::default_profile();
        let id = p.id;
        let mut profiles: Vec<Profile> = Vec::new();
        profiles.push(p);
        ProfileStore { profiles, active_profile_id: id }
    }
}

impl ProfileStore {
    /// The position of the active profile.
    pub fn active_profile_index(&self) -> (r: usize)
        requires
            self.profiles@.len() > 0,
        ensures
            active_index(*self, r as int),
            r < self.profiles@.len(),
    {
        match find_id(&self.profiles, self.active_profile_id) {
            Some(i) => i,
            None => {
                let mut i: usize = 0;
                while i < self.profiles.len()
                    invariant
                        i <= self.profiles@.len(),
                        !has_id(self.profiles@, self.active_profile_id),
                        forall|j: int| 0 <= j < i ==> !(#[trigger] self.profiles@[j]).is_default,
                    decreases self.profiles.len() - i,
                {
                    if self.profiles[i].is_default {
                        return i;
                    }
                    i = i + 1;
                }
                0
            },
        }
    }

    /// The active profile.
    pub fn active_profile(&self) -> (r: &Profile)
        requires
            self.profiles@.len() > 0,
        ensures
            exists|i: int| active_index(*self, i) && *r == self.profiles@[i],
    {
        let i = self.active_profile_index();
        &self.profiles[i]
    }

    /// The active profile, to change it in place.
    pub fn active_profile_mut(&mut self) -> (r: &mut Profile)
        requires
            old(self).profiles@.len() > 0,
        ensures
            exists|i: int| active_index(*old(self), i) && *r == old(self).profiles@[i]
                && final(self).profiles@ == old(self).profiles@.update(i, *final(r)),
            final(self).active_profile_id == old(self).active_profile_id,
    {
        let i = self.active_profile_index();
        &mut self.profiles[i]
    }

    /// Makes the profile with id `id` active; false (and nothing changes) when no
    /// profile has that id.
    pub fn set_active(&mut self, id: u128) -> (r: bool)
        ensures
            r == has_id(old(self).profiles@, id),
            final(self).profiles@ == old(self).profiles@,
            final(self).active_profile_id == if r { id } else { old(self).active_profile_id },
    {
        match find_id(&self.profiles, id) {
            Some(_) => {
                self.active_profile_id = id;
                true
            },
            None => false,
        }
    }

    /// The first profile associated with the application (compared ignoring ASCII case).
    pub fn find_by_app(&self, app_name: &str) -> (r: Option<&Profile>)
        ensures
            match r {
                Some(p) => exists|i: int| 0 <= i < self.profiles@.len() && *p == self.profiles@[i]
                    && app_matches(self.profiles@[i], app_name@)
                    && forall|j: int| 0 <= j < i ==> !app_matches(#[trigger] self.profiles@[j], app_name@),
                None => forall|j: int| 0 <= j < self.profiles@.len() ==> !app_matches(#[trigger] self.profiles@[j], app_name@),
            },
    {
        let mut i: usize = 0;
        while i < self.profiles.len()
            invariant
                i <= self.profiles@.len(),
                forall|j: int| 0 <= j < i ==> !app_matches(#[trigger] self.profiles@[j], app_name@),
            decreases self.profiles.len() - i,
        {
            if let Some(a) = &self.profiles[i].app_association {
                if str_eq_ignore_ascii_case(a.as_str(), app_name) {
                    return Some(&self.profiles[i]);
                }
            }
            i = i + 1;
        }
        None
    }

    /// Adds a profile under a fresh id (never the default one) and returns the id.
    pub fn add_profile(&mut self, profile: Profile) -> (id: u128)
        ensures
            id != 0,
            final(self).profiles@ == old(self).profiles@.push(Profile { id, is_default: false, ..profile }),
            final(self).active_profile_id == old(self).active_profile_id,
    {
        let mut profile = profile;
        let id = new_uuid();
        profile.id = id;
        profile.is_default = false;
        self.profiles.push(profile);
        id
    }

    /// Copies the profile with id `id` under a fresh id and a new name (never default),
    /// adds the copy and returns it; none when no profile has that id.
    pub fn duplicate_profile(&mut self, id: u128, new_name: &str) -> (r: Option<Profile>)
        ensures
            r is Some <==> has_id(old(self).profiles@, id),
            final(self).active_profile_id == old(self).active_profile_id,
            match r {
                Some(dup) => exists|i: int| first_with_id(old(self).profiles@, id, i)
                    && dup.id != 0 && dup.name@ == new_name@ && !dup.is_default
                    && dup.same(Profile { id: dup.id, name: dup.name, is_default: false, ..old(self).profiles@[i] })
                    && final(self).profiles@.len() == old(self).profiles@.len() + 1
                    && final(self).profiles@.take(old(self).profiles@.len() as int) == old(self).profiles@
                    && final(self).profiles@.last().same(dup),
                None => final(self).profiles@ == old(self).profiles@,
            },
    {
        match find_id(&self.profiles, id) {
            Some(i) => {
                let mut dup = self.profiles[i].duplicate();
                dup.id = new_uuid();
                dup.name = owned(new_name);
                dup.is_default = false;
                let copy = dup.duplicate();
                let ghost before = self.profiles@;
                self.profiles.push(copy);
                assert(self.profiles@.take(before.len() as int) =~= before);
                Some(dup)
            },
            None => None,
        }
    }
}

/// The profile is associated with the application.
pub open spec fn app_matches(p: Profile, app: Seq<char>) -> bool {
    p.app_association matches Some(a) && eq_ignore_ascii_case(a@, app)
}

impl ProfileStore {
    /// Renames the profile with id `id` (the first such); false when there is none.
    pub fn rename_profile(&mut self, id: u128, new_name: &str) -> (r: bool)
        ensures
            r == has_id(old(self).profiles@, id),
            final(self).active_profile_id == old(self).active_profile_id,
            r ==> exists|i: int| first_with_id(old(self).profiles@, id, i)
                && final(self).profiles@ == old(self).profiles@.update(i, Profile { name: final(self).profiles@[i].name, ..old(self).profiles@[i] })
                && final(self).profiles@[i].name@ == new_name@,
            !r ==> final(self).profiles@ == old(self).profiles@,
    {
        match find_id(&self.profiles, id) {
            Some(i) => {
                let ghost before = self.profiles@;
                let mut p = self.profiles.remove(i);
                p.name = owned(new_name);
                self.profiles.insert(i, p);
                assert(self.profiles@ =~= before.update(i as int, Profile { name: self.profiles@[i as int].name, ..before[i as int] }));
                true
            },
            None => false,
        }
    }

    /// Deletes the first non-default profile with id `id`, unless it is the only
    /// profile; when the active profile goes, the first remaining one becomes active.
    pub fn delete_profile(&mut self, id: u128) -> (r: bool)
        ensures
            r == (old(self).profiles@.len() > 1 && exists|i: int| 0 <= i < old(self).profiles@.len()
                && (#[trigger] old(self).profiles@[i]).id == id && !old(self).profiles@[i].is_default),
            r ==> exists|i: int| {
                &&& 0 <= i < old(self).profiles@.len()
                &&& old(self).profiles@[i].id == id && !old(self).profiles@[i].is_default
                &&& forall|j: int| 0 <= j < i ==> !((#[trigger] old(self).profiles@[j]).id == id && !old(self).profiles@[j].is_default)
                &&& final(self).profiles@ == old(self).profiles@.remove(i)
            },
            r ==> final(self).active_profile_id == if old(self).active_profile_id == id {
                final(self).profiles@[0].id
            } else {
                old(self).active_profile_id
            },
            !r ==> *final(self) == *old(self),
    {
        if self.profiles.len() <= 1 {
            return false;
        }
        let mut i: usize = 0;
        while i < self.profiles.len()
            invariant
                i <= self.profiles@.len(),
                self.profiles@ == old(self).profiles@,
                *self == *old(self),
                old(self).profiles@.len() > 1,
                forall|j: int| 0 <= j < i ==> !((#[trigger] self.profiles@[j]).id == id && !self.profiles@[j].is_default),
            decreases self.profiles.len() - i,
        {
            if self.profiles[i].id == id && !self.profiles[i].is_default {
                let _removed = self.profiles.remove(i);
                if self.active_profile_id == id {
                    self.active_profile_id = self.profiles[0].id;
                }
                return true;
            }
            i = i + 1;
        }
        false
    }

    /// A copy of the profile with id `id` (the first such), for export.
    pub fn export_profile(&self, id: u128) -> (r: Option<Profile>)
        ensures
            r is Some <==> has_id(self.profiles@, id),
            r matches Some(p) ==> exists|i: int| first_with_id(self.profiles@, id, i) && p.same(self.profiles@[i]),
    {
        match find_id(&self.profiles, id) {
            Some(i) => Some(self.profiles[i].duplicate()),
            None => None,
        }
    }

    /// Adds an imported profile under a fresh id, never as the default one.
    pub fn import_profile(&mut self, profile: Profile) -> (id: u128)
        ensures
            id != 0,
            final(self).profiles@ == old(self).profiles@.push(Profile { id, is_default: false, ..profile }),
            final(self).active_profile_id == old(self).active_profile_id,
    {
        let mut prof = profile;
        prof.id = new_uuid();
        prof.is_default = false;
        let id = prof.id;
        self.profiles.push(prof);
        id
    }
}

/// After a successful `set_active(id)`, the active profile is one with that id.
pub proof fn lemma_set_active_selects(before: ProfileStore, after: ProfileStore, id: u128, i: int)
    requires
        has_id(before.profiles@, id),
        after.profiles@ == before.profiles@,
        after.active_profile_id == id,
        active_index(after, i),
    ensures
        after.profiles@[i].id == id,
{
}

/// A deletion never removes the last profile nor a default one: a store that had a
/// profile still has one, and the default profiles all stay.
pub proof fn lemma_delete_keeps_default(before: ProfileStore, after: ProfileStore, id: u128, k: int)
    requires
        before.profiles@.len() >= 1,
        exists|i: int| {
            &&& 0 <= i < before.profiles@.len()
            &&& before.profiles@[i].id == id && !before.profiles@[i].is_default
            &&& after.profiles@ == before.profiles@.remove(i)
        } || after.profiles@ == before.profiles@,
        0 <= k < before.profiles@.len(),
        before.profiles@[k].is_default,
    ensures
        after.profiles@.len() >= 1 || before.profiles@.len() == 1,
        exists|j: int| 0 <= j < after.profiles@.len() && after.profiles@[j] == before.profiles@[k],
{
    if after.profiles@ == before.profiles@ {
        assert(after.profiles@[k] == before.profiles@[k]);
    } else {
        let i = choose|i: int| {
            &&& 0 <= i < before.profiles@.len()
            &&& before.profiles@[i].id == id && !before.profiles@[i].is_default
            &&& after.profiles@ == before.profiles@.remove(i)
        };
        if k < i {
            assert(after.profiles@[k] == before.profiles@[k]);
        } else {
            assert(after.profiles@[k - 1] == before.profiles@[k]);
        }
    }
}

/// `a` joined with `b` as `Path::join` does: an absolute `b` replaces `a`; otherwise a
/// `/` separates them unless `a` is empty or already ends with one.
pub open spec fn path_join(a: Seq<char>, b: Seq<char>) -> Seq<char> {
    if b.len() > 0 && b[0] == '/' {
        b
    } else if a.len() == 0 || a.last() == '/' {
        a + b
    } else {
        a + "/"@ + b
    }
}

/// Joins two paths as `Path::join` does.
pub fn join_path(a: &str, b: &str) -> (r: String)
    ensures
        r@ == path_join(a@, b@),
{
    let av = chars_of(a);
    let bv = chars_of(b);
    if bv.len() > 0 && bv[0] == '/' {
        return owned(b);
    }
    let mut r = owned(a);
    if !(av.len() == 0 || av[av.len() - 1] == '/') {
        append_str(&mut r, "/");
    }
    append_str(&mut r, b);
    r
}

/// `<dir>/openrapoo/profiles.json`.
pub open spec fn profiles_file_in(dir: Seq<char>) -> Seq<char> {
    path_join(path_join(dir, "openrapoo"@), "profiles.json"@)
}

fn profiles_file_in_exec(dir: &str) -> (r: String)
    ensures
        r@ == profiles_file_in(dir@),
{
    let a = join_path(dir, "openrapoo");
    join_path(a.as_str(), "profiles.json")
}

/// The configuration file, given the environment: under `sudo`, the invoking user's
/// home when it exists (`home_exists`); else `XDG_CONFIG_HOME`; else `HOME/.config`;
/// else the platform's configuration directory (`config_dir`, or `~/.config`).
pub open spec fn config_path_from(sudo_user: Option<Seq<char>>, xdg: Option<Seq<char>>, home: Option<Seq<char>>,
    home_exists: bool, config_dir: Option<Seq<char>>) -> Seq<char>
{
    let su = match sudo_user { Some(u) => trim(u), None => Seq::<char>::empty() };
    let x = match xdg { Some(v) => trim(v), None => Seq::<char>::empty() };
    let h = match home { Some(v) => trim(v), None => Seq::<char>::empty() };
    if sudo_user is Some && su.len() > 0 && su != "root"@ && home_exists {
        profiles_file_in(path_join(path_join("/home"@, su), ".config"@))
    } else if xdg is Some && x.len() > 0 {
        profiles_file_in(x)
    } else if home is Some && h.len() > 0 {
        profiles_file_in(path_join(h, ".config"@))
    } else {
        profiles_file_in(match config_dir { Some(d) => d, None => "~/.config"@ })
    }
}

/// Calls `dirs::config_dir` and returns the directory as text (lossily). The answer
/// depends on the environment, so nothing is promised of it.
#[verifier::external_body]
fn platform_config_dir() -> (r: Option<String>) {
    dirs::config_dir().map(|p| p.to_string_lossy().to_string())
}

impl ProfileStore {
    /// The configuration file for the given `SUDO_USER`, `XDG_CONFIG_HOME` and `HOME`
    /// (never root's home for a user who ran `sudo`).
    pub fn resolve_config_path_internal(sudo_user: Option<&str>, xdg_config: Option<&str>, home: Option<&str>) -> (r: String)
        ensures
            exists|home_exists: bool, dir: Option<Seq<char>>|
                r@ == config_path_from(crate::text::str_opt(sudo_user), crate::text::str_opt(xdg_config),
                    crate::text::str_opt(home), home_exists, dir),
    {
        proof { reveal_strlit("root"); }
        if let Some(user) = sudo_user {
            let ut = string_of(trim_str(user).as_slice());
            if !ut.as_str().is_empty() && !crate::text::is_text(chars_of(ut.as_str()).as_slice(), "root") {
                let user_home = join_path("/home", ut.as_str());
                if crate::device::path_exists(user_home.as_str()) {
                    let cfg = join_path(user_home.as_str(), ".config");
                    let r = profiles_file_in_exec(cfg.as_str());
                    assert(r@ == config_path_from(crate::text::str_opt(sudo_user), crate::text::str_opt(xdg_config),
                        crate::text::str_opt(home), true, None));
                    return r;
                }
            }
        }
        if let Some(x) = xdg_config {
            let xt = string_of(trim_str(x).as_slice());
            if !xt.as_str().is_empty() {
                let r = profiles_file_in_exec(xt.as_str());
                assert(r@ == config_path_from(crate::text::str_opt(sudo_user), crate::text::str_opt(xdg_config),
                    crate::text::str_opt(home), false, None));
                return r;
            }
        }
        if let Some(h) = home {
            let ht = string_of(trim_str(h).as_slice());
            if !ht.as_str().is_empty() {
                let cfg = join_path(ht.as_str(), ".config");
                let r = profiles_file_in_exec(cfg.as_str());
                assert(r@ == config_path_from(crate::text::str_opt(sudo_user), crate::text::str_opt(xdg_config),
                    crate::text::str_opt(home), false, None));
                return r;
            }
        }
        let dir = match platform_config_dir() {
            Some(d) => d,
            None => owned("~/.config"),
        };
        let r = profiles_file_in_exec(dir.as_str());
        assert(r@ == config_path_from(crate::text::str_opt(sudo_user), crate::text::str_opt(xdg_config),
            crate::text::str_opt(home), false, Some(dir@)));
        r
    }
}

} // verus!
