//! Finding Rapoo devices in `/proc/bus/input/devices`: parsing its blocks, grouping
//! the several input nodes of one physical device, and keeping the primary one.

use vstd::prelude::*;
use crate::text::{
    append_chars, append_str, chars_of, has, has_sub, hex_pad, hex_pad_string, lines, lines_of,
    lower_chars, lowercase, owned, parse_number, parse_unsigned, split_char,
    split_on, split_once, split_once_at, split_words, starts_with, strip_prefix, string_of, trim,
    trim_chars, trim_char, trim_matching, trim_start_pat, trim_start_pattern, views, words,
};
use crate::RAPOO_VENDOR_ID;
use crate::battery::aggregator::{aggregation_outcome, provider_outcome, AggregatedResult, BatteryAggregator};
use crate::battery::provider::{BatteryProvider, DeviceIdentity};
use crate::battery::types::{status_of_reading, BatteryStatus};
use crate::battery::query_battery_for_identity;
use crate::device::{
    path_exists, ConnectionType, DeviceCapabilities, DeviceConnectionState, DeviceType, KnownDevice,
    RapooDevice, ReceiverState,
};
use crate::known_pids::{E9050L_24G, E9050L_BT, MT760_PRO_BT, MT760_PRO_NEARLINK, MT760_PRO_WIRED};

verus! {

/// One block of `/proc/bus/input/devices`, as far as it has been read.
#[derive(Debug, Clone)]
pub struct ProcInputEntry {
    pub bus_type: u16,
    pub vendor_id: u16,
    pub product_id: u16,
    pub name: String,
    pub phys: Option<String>,
    pub sysfs: Option<String>,
    pub uniq: Option<String>,
    pub handlers_str: String,
    pub event_node: Option<String>,
}

/// The information of a `/proc/bus/input/devices` block.
pub struct EntryView {
    pub bus_type: u16,
    pub vendor_id: u16,
    pub product_id: u16,
    pub name: Seq<char>,
    pub phys: Option<Seq<char>>,
    pub sysfs: Option<Seq<char>>,
    pub uniq: Option<Seq<char>>,
    pub handlers: Seq<char>,
    pub event_node: Option<Seq<char>>,
}

impl View for ProcInputEntry {
    type V = EntryView;

    open spec fn view(&self) -> EntryView {
        EntryView {
            bus_type: self.bus_type,
            vendor_id: self.vendor_id,
            product_id: self.product_id,
            name: self.name@,
            phys: crate::text::text_of(self.phys),
            sysfs: crate::text::text_of(self.sysfs),
            uniq: crate::text::text_of(self.uniq),
            handlers: self.handlers_str@,
            event_node: crate::text::text_of(self.event_node),
        }
    }
}

// ---------------------------------------------------------------------------
// The `I:` line
// ---------------------------------------------------------------------------

/// A hexadecimal 16-bit field (0 when it does not parse).
pub open spec fn hex16(s: Seq<char>) -> u16 {
    match parse_unsigned(s, 16, 0xFFFF) {
        Some(v) => v as u16,
        None => 0,
    }
}

fn hex16_of(s: &[char]) -> (r: u16)
    ensures
        r == hex16(s@),
{
    match parse_number(s, 16, 0xFFFF) {
        Some(v) => v as u16,
        None => 0,
    }
}

/// Bus, vendor and product read from the words of an `I:` line; a later word overrides.
pub open spec fn info_fields(ws: Seq<Seq<char>>) -> (u16, u16, u16)
    decreases ws.len(),
{
    if ws.len() == 0 {
        (0, 0, 0)
    } else {
        let prev = info_fields(ws.drop_last());
        let w = ws.last();
        if starts_with(w, "Bus="@) {
            (hex16(w.skip(4)), prev.1, prev.2)
        } else if starts_with(w, "Vendor="@) {
            (prev.0, hex16(w.skip(7)), prev.2)
        } else if starts_with(w, "Product="@) {
            (prev.0, prev.1, hex16(w.skip(8)))
        } else {
            prev
        }
    }
}

/// A fresh block started by an `I:` line with the given bus, vendor and product.
pub open spec fn fresh_entry(f: (u16, u16, u16)) -> EntryView {
    EntryView {
        bus_type: f.0,
        vendor_id: f.1,
        product_id: f.2,
        name: Seq::empty(),
        phys: None,
        sysfs: None,
        uniq: None,
        handlers: Seq::empty(),
        event_node: None,
    }
}

impl ProcInputEntry {
    /// The block started by an `I:` line such as `Bus=0003 Vendor=24ae Product=2018 Version=0111`.
    pub fn from_info_line(line: &str) -> (e: ProcInputEntry)
        ensures
            e@ == fresh_entry(info_fields(words(line@))),
    {
        let c = chars_of(line);
        let ws = split_words(c.as_slice());
        let bus_p = chars_of("Bus=");
        let ven_p = chars_of("Vendor=");
        let pro_p = chars_of("Product=");
        let mut bus: u16 = 0;
        let mut vid: u16 = 0;
        let mut pid: u16 = 0;
        let mut i: usize = 0;
        while i < ws.len()
            invariant
                i <= ws@.len(),
                views(ws@) == words(line@),
                bus_p@ == "Bus="@,
                ven_p@ == "Vendor="@,
                pro_p@ == "Product="@,
                (bus, vid, pid) == info_fields(views(ws@).take(i as int)),
            decreases ws.len() - i,
        {
            proof {
                reveal_strlit("Bus=");
                reveal_strlit("Vendor=");
                reveal_strlit("Product=");
            }
            let ghost t = views(ws@).take(i + 1);
            assert(t.drop_last() =~= views(ws@).take(i as int));
            assert(t.last() == ws@[i as int]@);
            if let Some(rest) = strip_prefix(ws[i].as_slice(), bus_p.as_slice()) {
                bus = hex16_of(rest.as_slice());
            } else if let Some(rest) = strip_prefix(ws[i].as_slice(), ven_p.as_slice()) {
                vid = hex16_of(rest.as_slice());
            } else if let Some(rest) = strip_prefix(ws[i].as_slice(), pro_p.as_slice()) {
                pid = hex16_of(rest.as_slice());
            }
            i = i + 1;
        }
        assert(views(ws@).take(ws@.len() as int) =~= views(ws@));
        ProcInputEntry {
            bus_type: bus,
            vendor_id: vid,
            product_id: pid,
            name: String::new(),
            phys: None,
            sysfs: None,
            uniq: None,
            handlers_str: String::new(),
            event_node: None,
        }
    }
}

// ---------------------------------------------------------------------------
// The blocks of `/proc/bus/input/devices`
// ---------------------------------------------------------------------------

/// The event node named by the handler words, starting from `cur`: the last word
/// `event<N>` with a number `N` gives `/dev/input/event<N>`.
pub open spec fn event_of(ws: Seq<Seq<char>>, cur: Option<Seq<char>>) -> Option<Seq<char>>
    decreases ws.len(),
{
    if ws.len() == 0 {
        cur
    } else {
        let prev = event_of(ws.drop_last(), cur);
        let w = ws.last();
        if starts_with(w, "event"@) && parse_unsigned(w.skip(5), 10, 0xFFFF_FFFF) is Some {
            Some("/dev/input/event"@ + w.skip(5))
        } else {
            prev
        }
    }
}

/// The block after reading one tagged line (`N:`, `P:`, `S:`, `U:` or `H:`) into it.
pub open spec fn apply_field(e: EntryView, tag: Seq<char>, val: Seq<char>) -> EntryView {
    if tag == "N"@ {
        EntryView { name: trim_char(trim_start_pat(val, "Name="@), '"'), ..e }
    } else if tag == "P"@ {
        EntryView { phys: Some(trim_start_pat(val, "Phys="@)), ..e }
    } else if tag == "S"@ {
        EntryView { sysfs: Some(trim_start_pat(val, "Sysfs="@)), ..e }
    } else if tag == "U"@ {
        let u = trim(trim_start_pat(val, "Uniq="@));
        if u.len() > 0 { EntryView { uniq: Some(u), ..e } } else { e }
    } else if tag == "H"@ {
        let h = trim_start_pat(val, "Handlers="@);
        EntryView { handlers: h, event_node: event_of(words(h), e.event_node), ..e }
    } else {
        e
    }
}

/// The Rapoo blocks finished so far and the block being read, after one more line:
/// a blank line ends a block (kept when its vendor is Rapoo's), an `I:` line starts
/// one, another tagged line fills the current one.
pub open spec fn proc_step(done: Seq<EntryView>, cur: Option<EntryView>, line: Seq<char>) -> (Seq<EntryView>, Option<EntryView>) {
    if line.len() == 0 {
        match cur {
            Some(e) => if e.vendor_id == RAPOO_VENDOR_ID { (done.push(e), None) } else { (done, None) },
            None => (done, None),
        }
    } else {
        match split_once(line, ": "@) {
            Some((tag, val)) => if tag == "I"@ {
                (done, Some(fresh_entry(info_fields(words(val)))))
            } else {
                match cur {
                    Some(e) => (done, Some(apply_field(e, tag, val))),
                    None => (done, None),
                }
            },
            None => (done, cur),
        }
    }
}

/// The state after reading the lines `ls`.
pub open spec fn proc_fold(ls: Seq<Seq<char>>) -> (Seq<EntryView>, Option<EntryView>)
    decreases ls.len(),
{
    if ls.len() == 0 {
        (Seq::empty(), None)
    } else {
        let prev = proc_fold(ls.drop_last());
        proc_step(prev.0, prev.1, ls.last())
    }
}

/// The Rapoo blocks of a `/proc/bus/input/devices` text, in order (the last block
/// counts even without a blank line after it).
pub open spec fn proc_entries(content: Seq<char>) -> Seq<EntryView> {
    let st = proc_fold(lines(content));
    match st.1 {
        Some(e) => if e.vendor_id == RAPOO_VENDOR_ID { st.0.push(e) } else { st.0 },
        None => st.0,
    }
}

/// The views of a list of entries.
pub open spec fn entry_views(v: Seq<ProcInputEntry>) -> Seq<EntryView> {
    v.map_values(|e: ProcInputEntry| e@)
}

fn event_node_of(words_v: &Vec<Vec<char>>, cur: Option<String>) -> (r: Option<String>)
    ensures
        crate::text::text_of(r) == event_of(views(words_v@), crate::text::text_of(cur)),
{
    let p = chars_of("event");
    let mut r = cur;
    let mut i: usize = 0;
    while i < words_v.len()
        invariant
            i <= words_v@.len(),
            p@ == "event"@,
            crate::text::text_of(r) == event_of(views(words_v@).take(i as int), crate::text::text_of(cur)),
        decreases words_v.len() - i,
    {
        proof { reveal_strlit("event"); }
        let ghost t = views(words_v@).take(i + 1);
        assert(t.drop_last() =~= views(words_v@).take(i as int));
        assert(t.last() == words_v@[i as int]@);
        if let Some(num) = strip_prefix(words_v[i].as_slice(), p.as_slice()) {
            if parse_number(num.as_slice(), 10, 0xFFFF_FFFF).is_some() {
                let mut node = owned("/dev/input/event");
                append_chars(&mut node, num.as_slice());
                r = Some(node);
            }
        }
        i = i + 1;
    }
    assert(views(words_v@).take(words_v@.len() as int) =~= views(words_v@));
    r
}

fn apply_field_exec(e: ProcInputEntry, tag: &Vec<char>, val: &Vec<char>) -> (r: ProcInputEntry)
    ensures
        r@ == apply_field(e@, tag@, val@),
{
    proof {
        reveal_strlit("N");
        reveal_strlit("P");
        reveal_strlit("S");
        reveal_strlit("U");
        reveal_strlit("H");
    }
    let mut e = e;
    if crate::text::is_text(tag.as_slice(), "N") {
        let p = chars_of("Name=");
        let t = trim_start_pattern(val.as_slice(), p.as_slice());
        let n = trim_matching(t.as_slice(), '"');
        e.name = string_of(n.as_slice());
    } else if crate::text::is_text(tag.as_slice(), "P") {
        let p = chars_of("Phys=");
        let t = trim_start_pattern(val.as_slice(), p.as_slice());
        e.phys = Some(string_of(t.as_slice()));
    } else if crate::text::is_text(tag.as_slice(), "S") {
        let p = chars_of("Sysfs=");
        let t = trim_start_pattern(val.as_slice(), p.as_slice());
        e.sysfs = Some(string_of(t.as_slice()));
    } else if crate::text::is_text(tag.as_slice(), "U") {
        let p = chars_of("Uniq=");
        let t = trim_start_pattern(val.as_slice(), p.as_slice());
        let u = trim_chars(t.as_slice());
        if u.len() > 0 {
            e.uniq = Some(string_of(u.as_slice()));
        }
    } else if crate::text::is_text(tag.as_slice(), "H") {
        let p = chars_of("Handlers=");
        let h = trim_start_pattern(val.as_slice(), p.as_slice());
        let ws = split_words(h.as_slice());
        let old_node = e.event_node;
        e.event_node = event_node_of(&ws, old_node);
        e.handlers_str = string_of(h.as_slice());
    }
    e
}

/// The Rapoo blocks of a `/proc/bus/input/devices` text.
pub fn parse_proc_input_devices(content: &str) -> (r: Vec<ProcInputEntry>)
    ensures
        entry_views(r@) == proc_entries(content@),
{
    let c = chars_of(content);
    let ls = lines_of(c.as_slice());
    let sep = chars_of(": ");
    let mut done: Vec<ProcInputEntry> = Vec::new();
    let mut cur: Option<ProcInputEntry> = None;
    let mut i: usize = 0;
    while i < ls.len()
        invariant
            i <= ls@.len(),
            views(ls@) == lines(content@),
            sep@ == ": "@,
            (entry_views(done@), match cur { Some(e) => Some(e@), None => None::<EntryView> })
                == proc_fold(views(ls@).take(i as int)),
        decreases ls.len() - i,
    {
        proof { reveal_strlit("I"); }
        let ghost t = views(ls@).take(i + 1);
        assert(t.drop_last() =~= views(ls@).take(i as int));
        assert(t.last() == ls@[i as int]@);
        let ghost done0 = done@;
        let line = &ls[i];
        if line.len() == 0 {
            let taken = cur;
            cur = None;
            match taken {
                Some(e) => {
                    if e.vendor_id == RAPOO_VENDOR_ID {
                        done.push(e);
                        assert(entry_views(done@) =~= entry_views(done0).push(e@));
                    }
                },
                None => {},
            }
        } else {
            match split_once_at(line.as_slice(), sep.as_slice()) {
                Some((tag, val)) => {
                    if crate::text::is_text(tag.as_slice(), "I") {
                        let v = string_of(val.as_slice());
                        cur = Some(ProcInputEntry::from_info_line(v.as_str()));
                    } else {
                        let taken = cur;
                        cur = match taken {
                            Some(e) => Some(apply_field_exec(e, &tag, &val)),
                            None => None,
                        };
                    }
                },
                None => {},
            }
        }
        i = i + 1;
    }
    assert(views(ls@).take(ls@.len() as int) =~= views(ls@));
    let ghost done1 = done@;
    match cur {
        Some(e) => {
            if e.vendor_id == RAPOO_VENDOR_ID {
                done.push(e);
                assert(entry_views(done@) =~= entry_views(done1).push(e@));
            }
        },
        None => {},
    }
    done
}

// ---------------------------------------------------------------------------
// One key per physical device
// ---------------------------------------------------------------------------

/// `{:04x}` of a 16-bit id.
pub open spec fn hex4(n: u16) -> Seq<char> {
    hex_pad(n as nat, 4, false)
}

/// The start of a key: its kind, then vendor and product in hexadecimal.
pub open spec fn key_head(kind: Seq<char>, e: EntryView) -> Seq<char> {
    kind + ":"@ + hex4(e.vendor_id) + ":"@ + hex4(e.product_id) + ":"@
}

/// The pieces joined with `sep` between them.
pub open spec fn join_with(parts: Seq<Seq<char>>, sep: Seq<char>) -> Seq<char>
    decreases parts.len(),
{
    if parts.len() == 0 {
        Seq::empty()
    } else if parts.len() == 1 {
        parts[0]
    } else {
        join_with(parts.drop_last(), sep) + sep + parts.last()
    }
}

/// The sysfs path component that names the HID device (`0003:…`).
pub open spec fn is_hid_component(p: Seq<char>) -> bool {
    has_sub(p, ":"@) && starts_with(p, "0003:"@)
}

/// `k` is the first component of `parts` that names the HID device.
pub open spec fn first_hid_component(parts: Seq<Seq<char>>, k: int) -> bool {
    0 <= k < parts.len() && is_hid_component(parts[k])
        && forall|j: int| 0 <= j < k ==> !is_hid_component(#[trigger] parts[j])
}

#[verifier::opaque]
/// The key grouping the input nodes of one physical device: its unique id; else the
/// first segment of its physical path; else its sysfs path up to the HID device; else
/// its name.
pub open spec fn device_key(e: EntryView) -> Seq<char> {
    if e.uniq is Some && e.uniq.unwrap().len() > 0 {
        key_head("uniq"@, e) + e.uniq.unwrap()
    } else if e.phys is Some && split_char(e.phys.unwrap(), '/')[0].len() > 0 {
        key_head("phys"@, e) + split_char(e.phys.unwrap(), '/')[0]
    } else if e.sysfs is Some && exists|k: int| first_hid_component(split_char(e.sysfs.unwrap(), '/'), k) {
        let parts = split_char(e.sysfs.unwrap(), '/');
        let k = choose|k: int| first_hid_component(parts, k);
        key_head("sysfs"@, e) + join_with(parts.take(k), "/"@)
    } else {
        key_head("fallback"@, e) + e.name
    }
}

fn key_head_string(kind: &str, e: &ProcInputEntry) -> (r: String)
    ensures
        r@ == key_head(kind@, e@),
{
    let mut r = owned(kind);
    append_str(&mut r, ":");
    append_str(&mut r, hex_pad_string(e.vendor_id as u64, 4, false).as_str());
    append_str(&mut r, ":");
    append_str(&mut r, hex_pad_string(e.product_id as u64, 4, false).as_str());
    append_str(&mut r, ":");
    r
}

proof fn lemma_first_hid_unique(parts: Seq<Seq<char>>, a: int, b: int)
    requires
        first_hid_component(parts, a),
        first_hid_component(parts, b),
    ensures
        a == b,
{
    if a < b {
        assert(!is_hid_component(parts[a]));
    } else if b < a {
        assert(!is_hid_component(parts[b]));
    }
}

/// The key grouping the input nodes of one physical device.
pub fn extract_device_key(entry: &ProcInputEntry) -> (r: String)
    ensures
        r@ == device_key(entry@),
{
    reveal(device_key);
    if let Some(u) = &entry.uniq {
        if !u.as_str().is_empty() {
            let mut r = key_head_string("uniq", entry);
            append_str(&mut r, u.as_str());
            return r;
        }
    }
    if let Some(p) = &entry.phys {
        let pc = chars_of(p.as_str());
        let parts = split_on(pc.as_slice(), '/');
        if parts[0].len() > 0 {
            let mut r = key_head_string("phys", entry);
            append_chars(&mut r, parts[0].as_slice());
            return r;
        }
    }
    if let Some(sf) = &entry.sysfs {
        let sc = chars_of(sf.as_str());
        let parts = split_on(sc.as_slice(), '/');
        let colon = chars_of(":");
        let hid = chars_of("0003:");
        let mut k: usize = 0;
        while k < parts.len()
            invariant
                k <= parts@.len(),
                views(parts@) == split_char(sf@, '/'),
                colon@ == ":"@,
                hid@ == "0003:"@,
                entry@.sysfs == Some(sf@),
                !(entry@.uniq is Some && entry@.uniq.unwrap().len() > 0),
                !(entry@.phys is Some && split_char(entry@.phys.unwrap(), '/')[0].len() > 0),
                forall|j: int| 0 <= j < k ==> !is_hid_component(#[trigger] views(parts@)[j]),
            decreases parts.len() - k,
        {
            if crate::text::contains(parts[k].as_slice(), colon.as_slice())
                && crate::text::has_prefix(parts[k].as_slice(), hid.as_slice()) {
                let ghost ps = views(parts@);
                assert(first_hid_component(ps, k as int));
                let mut joined = String::new();
                let mut j: usize = 0;
                while j < k
                    invariant
                        j <= k < parts@.len(),
                        ps == views(parts@),
                        ps == split_char(sf@, '/'),
                        first_hid_component(ps, k as int),
                        entry@.sysfs == Some(sf@),
                        !(entry@.uniq is Some && entry@.uniq.unwrap().len() > 0),
                        !(entry@.phys is Some && split_char(entry@.phys.unwrap(), '/')[0].len() > 0),
                        joined@ == join_with(ps.take(j as int), "/"@),
                    decreases k - j,
                {
                    if j > 0 {
                        append_str(&mut joined, "/");
                    }
                    append_chars(&mut joined, parts[j].as_slice());
                    proof {
                        let t = ps.take(j + 1);
                        assert(t.drop_last() =~= ps.take(j as int));
                        if j == 0 {
                            assert(joined@ =~= join_with(t, "/"@));
                        }
                    }
                    j = j + 1;
                }
                proof {
                    let c = choose|c: int| first_hid_component(ps, c);
                    lemma_first_hid_unique(ps, k as int, c);
                }
                reveal(device_key);
                assert(joined@ == join_with(ps.take(k as int), "/"@));
                assert(entry@.sysfs.unwrap() == sf@);
                assert(split_char(entry@.sysfs.unwrap(), '/') == ps);
                assert(exists|c: int| first_hid_component(split_char(entry@.sysfs.unwrap(), '/'), c));
                assert(device_key(entry@) == key_head("sysfs"@, entry@) + join_with(ps.take(k as int), "/"@));
                let mut r = key_head_string("sysfs", entry);
                append_str(&mut r, joined.as_str());
                return r;
            }
            k = k + 1;
        }
    }
    let mut r = key_head_string("fallback", entry);
    append_str(&mut r, entry.name.as_str());
    r
}

/// Some handler word names a mouse interface (`mouse…`).
pub open spec fn has_mouse_handler(h: Seq<char>) -> bool {
    exists|i: int| 0 <= i < words(h).len() && starts_with(#[trigger] words(h)[i], "mouse"@)
}

#[verifier::opaque]
/// How likely a node is to be the primary one of its device: a mouse interface first,
/// then a name that fits the model, then having an event node.
pub open spec fn spec_score(e: EntryView) -> int {
    let lname = lowercase(e.name);
    (if has_mouse_handler(e.handlers) { 100int } else { 0int })
    + (if spec_classify_pid(e.product_id) == crate::device::KnownDevice::RapooMt760Pro || has_sub(lname, "mouse"@) {
        if has_sub(lname, "keyboard"@) || has_sub(lname, "kbd"@) { -50int } else { 50int }
    } else if has_sub(lname, "keyboard"@) || has_sub(lname, "teclado"@) {
        50int
    } else {
        0int
    })
    + (if e.event_node is Some { 10int } else { 0int })
}

/// The model of a product id.
pub open spec fn spec_classify_pid(pid: u16) -> crate::device::KnownDevice {
    if pid == crate::known_pids::MT760_PRO_NEARLINK || pid == crate::known_pids::MT760_PRO_BT
        || pid == crate::known_pids::MT760_PRO_WIRED {
        crate::device::KnownDevice::RapooMt760Pro
    } else if pid == crate::known_pids::E9050L_24G || pid == crate::known_pids::E9050L_BT {
        crate::device::KnownDevice::RapooE9050L
    } else {
        crate::device::KnownDevice::UnknownRapoo
    }
}

/// The model of a product id.
pub fn classify_pid(pid: u16) -> (r: crate::device::KnownDevice)
    ensures
        r == spec_classify_pid(pid),
{
    if pid == crate::known_pids::MT760_PRO_NEARLINK || pid == crate::known_pids::MT760_PRO_BT
        || pid == crate::known_pids::MT760_PRO_WIRED {
        crate::device::KnownDevice::RapooMt760Pro
    } else if pid == crate::known_pids::E9050L_24G || pid == crate::known_pids::E9050L_BT {
        crate::device::KnownDevice::RapooE9050L
    } else {
        crate::device::KnownDevice::UnknownRapoo
    }
}

/// How likely a node is to be the primary one of its device.
pub fn score_entry(entry: &ProcInputEntry) -> (r: i32)
    ensures
        r as int == spec_score(entry@),
{
    reveal(spec_score);
    let hc = chars_of(entry.handlers_str.as_str());
    let ws = split_words(hc.as_slice());
    let mut has_mouse = false;
    let mut i: usize = 0;
    while i < ws.len()
        invariant
            i <= ws@.len(),
            views(ws@) == words(entry.handlers_str@),
            has_mouse <==> exists|j: int| 0 <= j < i && starts_with(#[trigger] views(ws@)[j], "mouse"@),
        decreases ws.len() - i,
    {
        if crate::text::begins(ws[i].as_slice(), "mouse") {
            has_mouse = true;
            assert(starts_with(views(ws@)[i as int], "mouse"@));
        }
        i = i + 1;
    }
    let mut score: i32 = if has_mouse { 100 } else { 0 };
    let lname = lower_chars(entry.name.as_str());
    let model = classify_pid(entry.product_id);
    if model == crate::device::KnownDevice::RapooMt760Pro || has(lname.as_slice(), "mouse") {
        if has(lname.as_slice(), "keyboard") || has(lname.as_slice(), "kbd") {
            score = score - 50;
        } else {
            score = score + 50;
        }
    } else if has(lname.as_slice(), "keyboard") || has(lname.as_slice(), "teclado") {
        score = score + 50;
    }
    if entry.event_node.is_some() {
        score = score + 10;
    }
    score
}

// ---------------------------------------------------------------------------
// Keeping one node per device
// ---------------------------------------------------------------------------

/// `a` comes before `b` in the order of `String` (character by character).
pub open spec fn lex_lt(a: Seq<char>, b: Seq<char>) -> bool
    decreases a.len(),
{
    if a.len() == 0 {
        b.len() > 0
    } else if b.len() == 0 {
        false
    } else if a[0] < b[0] {
        true
    } else if a[0] > b[0] {
        false
    } else {
        lex_lt(a.drop_first(), b.drop_first())
    }
}

proof fn lemma_lex_irreflexive(a: Seq<char>)
    ensures
        !lex_lt(a, a),
    decreases a.len(),
{
    if a.len() > 0 {
        lemma_lex_irreflexive(a.drop_first());
    }
}

proof fn lemma_lex_total(a: Seq<char>, b: Seq<char>)
    ensures
        a == b || lex_lt(a, b) || lex_lt(b, a),
        !(lex_lt(a, b) && lex_lt(b, a)),
    decreases a.len(),
{
    if a.len() > 0 && b.len() > 0 {
        lemma_lex_total(a.drop_first(), b.drop_first());
        if a[0] == b[0] && a.drop_first() == b.drop_first() {
            assert(a.len() == b.len());
            assert forall|k: int| 0 <= k < a.len() implies a[k] == b[k] by {
                if k > 0 {
                    assert(a[k] == a.drop_first()[k - 1]);
                    assert(b[k] == b.drop_first()[k - 1]);
                }
            }
            assert(a =~= b);
        }
    } else if a.len() == 0 && b.len() == 0 {
        assert(a =~= b);
    }
}

proof fn lemma_lex_transitive(a: Seq<char>, b: Seq<char>, c: Seq<char>)
    requires
        lex_lt(a, b),
        lex_lt(b, c),
    ensures
        lex_lt(a, c),
    decreases a.len(),
{
    if a.len() > 0 && b.len() > 0 && c.len() > 0 {
        if a[0] == b[0] && b[0] == c[0] {
            lemma_lex_transitive(a.drop_first(), b.drop_first(), c.drop_first());
        }
    }
}

/// Whether `a` comes before `b`.
pub fn lex_less(a: &[char], b: &[char]) -> (r: bool)
    ensures
        r == lex_lt(a@, b@),
{
    assert(a@.skip(0) =~= a@);
    assert(b@.skip(0) =~= b@);
    let mut i: usize = 0;
    while i < a.len() && i < b.len()
        invariant
            i <= a@.len(),
            i <= b@.len(),
            lex_lt(a@, b@) == lex_lt(a@.skip(i as int), b@.skip(i as int)),
        decreases a.len() - i,
    {
        let x = a[i];
        let y = b[i];
        assert(a@.skip(i as int)[0] == a@[i as int]);
        assert(b@.skip(i as int)[0] == b@[i as int]);
        if x < y {
            return true;
        }
        if x > y {
            return false;
        }
        assert(a@.skip(i as int).drop_first() =~= a@.skip(i + 1));
        assert(b@.skip(i as int).drop_first() =~= b@.skip(i + 1));
        i = i + 1;
    }
    i < b.len()
}

/// Entry `i` is the one kept for its key among the first `n`: no entry with the same
/// key scores higher, and no later one scores as high (the last of the best is kept).
pub open spec fn best_upto(es: Seq<EntryView>, i: int, n: int) -> bool {
    forall|j: int| 0 <= j < n && device_key(#[trigger] es[j]) == device_key(es[i]) ==>
        spec_score(es[j]) <= spec_score(es[i]) && (j > i ==> spec_score(es[j]) < spec_score(es[i]))
}

/// Entry `i` is the one kept for its key.
pub open spec fn is_best(es: Seq<EntryView>, i: int) -> bool {
    best_upto(es, i, es.len() as int)
}

/// `out` keeps one entry of `es` per key: the best one, in increasing order of keys,
/// and every key of `es` is represented.
pub open spec fn dedup_ok(es: Seq<EntryView>, out: Seq<EntryView>) -> bool {
    &&& keys_increasing(out)
    &&& each_best(es, out)
    &&& keys_covered(es, out)
}

/// The keys of `out` increase strictly.
pub open spec fn keys_increasing(out: Seq<EntryView>) -> bool {
    forall|a: int, b: int| 0 <= a < b < out.len() ==> lex_lt(device_key(#[trigger] out[a]), device_key(#[trigger] out[b]))
}

/// Each entry of `out` is the best entry of its key in `es`.
pub open spec fn each_best(es: Seq<EntryView>, out: Seq<EntryView>) -> bool {
    forall|k: int| 0 <= k < out.len() ==> #[trigger] best_in(es, out[k])
}

/// `e` is an entry of `es` that is the best of its key.
pub open spec fn best_in(es: Seq<EntryView>, e: EntryView) -> bool {
    exists|i: int| 0 <= i < es.len() && is_best(es, i) && e == #[trigger] es[i]
}

/// Every key of `es` is the key of an entry of `out`.
pub open spec fn keys_covered(es: Seq<EntryView>, out: Seq<EntryView>) -> bool {
    forall|i: int| 0 <= i < es.len() ==> #[trigger] key_in(out, device_key(es[i]))
}

/// Some entry of `out` has the key `key`.
pub open spec fn key_in(out: Seq<EntryView>, key: Seq<char>) -> bool {
    exists|k: int| 0 <= k < out.len() && #[trigger] device_key(out[k]) == key
}

/// The key of entry `order[a]`.
pub open spec fn okey(es: Seq<EntryView>, order: Seq<usize>, a: int) -> Seq<char> {
    device_key(es[order[a] as int])
}

/// `order` lists, in increasing order of key, one position per key among the first `n`
/// entries: the best one of that key.
pub open spec fn order_inv(es: Seq<EntryView>, order: Seq<usize>, n: int) -> bool {
    &&& forall|a: int| 0 <= a < order.len() ==> (#[trigger] order[a]) < n
    &&& forall|a: int, b: int| 0 <= a < b < order.len() ==> lex_lt(#[trigger] okey(es, order, a), #[trigger] okey(es, order, b))
    &&& forall|a: int| 0 <= a < order.len() ==> best_upto(es, (#[trigger] order[a]) as int, n)
    &&& forall|j: int| #![trigger es[j]] 0 <= j < n ==> exists|a: int| 0 <= a < order.len() && #[trigger] okey(es, order, a) == device_key(es[j])
}

proof fn lemma_sorted_distinct(es: Seq<EntryView>, order: Seq<usize>, n: int, a: int, b: int)
    requires
        order_inv(es, order, n),
        0 <= a < order.len(),
        0 <= b < order.len(),
        a != b,
    ensures
        okey(es, order, a) != okey(es, order, b),
{
    if a < b {
        assert(lex_lt(okey(es, order, a), okey(es, order, b)));
    } else {
        assert(lex_lt(okey(es, order, b), okey(es, order, a)));
    }
    lemma_lex_irreflexive(okey(es, order, a));
}

proof fn lemma_replace_keeps(es: Seq<EntryView>, old_order: Seq<usize>, i: usize, p: int, replace: bool, order: Seq<usize>)
    requires
        order_inv(es, old_order, i as int),
        i < es.len(),
        0 <= p < old_order.len(),
        okey(es, old_order, p) == device_key(es[i as int]),
        replace <==> spec_score(es[i as int]) >= spec_score(es[old_order[p] as int]),
        order == if replace { old_order.update(p, i) } else { old_order },
    ensures
        order_inv(es, order, i + 1),
{
    let ki = device_key(es[i as int]);
    assert forall|a: int| 0 <= a < order.len() implies okey(es, order, a) == okey(es, old_order, a) by {
        if a == p && replace {
            assert(order[a] == i);
        }
    }
    assert forall|a: int| 0 <= a < order.len() implies best_upto(es, (#[trigger] order[a]) as int, i + 1) by {
        if a == p {
            assert(best_upto(es, old_order[p] as int, i as int));
            assert forall|j: int| 0 <= j < i + 1 && device_key(#[trigger] es[j]) == device_key(es[order[a] as int]) implies
                spec_score(es[j]) <= spec_score(es[order[a] as int])
                && (j > order[a] ==> spec_score(es[j]) < spec_score(es[order[a] as int])) by {
                assert(best_upto(es, old_order[p] as int, i as int));
                assert(old_order[p] < i);
            }
        } else {
            lemma_sorted_distinct(es, old_order, i as int, a, p);
            assert(best_upto(es, old_order[a] as int, i as int));
        }
    }
    assert forall|j: int| #![trigger es[j]] 0 <= j < i + 1 implies exists|a: int| 0 <= a < order.len() && #[trigger] okey(es, order, a) == device_key(es[j]) by {
        if j == i {
            assert(okey(es, order, p) == device_key(es[j]));
        } else {
            let a0 = choose|a: int| 0 <= a < old_order.len() && #[trigger] okey(es, old_order, a) == device_key(es[j]);
            assert(okey(es, order, a0) == device_key(es[j]));
        }
    }
}

#[verifier::rlimit(40)]
proof fn lemma_insert_keeps(es: Seq<EntryView>, old_order: Seq<usize>, i: usize, p: int, order: Seq<usize>)
    requires
        order_inv(es, old_order, i as int),
        i < es.len(),
        0 <= p <= old_order.len(),
        forall|a: int| 0 <= a < p ==> lex_lt(#[trigger] okey(es, old_order, a), device_key(es[i as int])),
        p < old_order.len() ==> okey(es, old_order, p) != device_key(es[i as int]) && !lex_lt(okey(es, old_order, p), device_key(es[i as int])),
        order == old_order.insert(p, i),
    ensures
        order_inv(es, order, i + 1),
{
    let ki = device_key(es[i as int]);
    assert(order[p] == i);
    if p < old_order.len() {
        lemma_lex_total(okey(es, old_order, p), ki);
    }
    // every old key after position p is above the new key
    assert forall|a: int| p <= a < old_order.len() implies lex_lt(ki, #[trigger] okey(es, old_order, a)) by {
        if a > p {
            lemma_lex_transitive(ki, okey(es, old_order, p), okey(es, old_order, a));
        }
    }
    assert forall|a: int| 0 <= a < order.len() implies #[trigger] okey(es, order, a) ==
        if a < p { okey(es, old_order, a) } else if a == p { ki } else { okey(es, old_order, a - 1) } by {}
    // no old key equals the new one
    assert forall|a: int| 0 <= a < old_order.len() implies #[trigger] okey(es, old_order, a) != ki by {
        if a < p {
            lemma_lex_irreflexive(ki);
        } else {
            lemma_lex_irreflexive(ki);
        }
    }
    assert forall|a: int, b: int| 0 <= a < b < order.len() implies lex_lt(#[trigger] okey(es, order, a), #[trigger] okey(es, order, b)) by {
        if b < p {
        } else if a < p && b == p {
        } else if a < p && b > p {
            assert(lex_lt(ki, okey(es, old_order, b - 1)));
            lemma_lex_transitive(okey(es, old_order, a), ki, okey(es, old_order, b - 1));
        } else if a == p {
        } else {
        }
    }
    assert forall|a: int| 0 <= a < order.len() implies best_upto(es, (#[trigger] order[a]) as int, i + 1) by {
        if a == p {
            assert forall|j: int| 0 <= j < i + 1 && device_key(#[trigger] es[j]) == device_key(es[order[a] as int]) implies
                spec_score(es[j]) <= spec_score(es[order[a] as int])
                && (j > order[a] ==> spec_score(es[j]) < spec_score(es[order[a] as int])) by {
                if j < i {
                    let a0 = choose|x: int| 0 <= x < old_order.len() && #[trigger] okey(es, old_order, x) == device_key(es[j]);
                    assert(okey(es, old_order, a0) != ki);
                }
            }
        } else {
            let oa = if a < p { a } else { a - 1 };
            assert(order[a] == old_order[oa]);
            assert(best_upto(es, old_order[oa] as int, i as int));
            assert(okey(es, old_order, oa) != ki);
        }
    }
    assert forall|j: int| #![trigger es[j]] 0 <= j < i + 1 implies exists|a: int| 0 <= a < order.len() && #[trigger] okey(es, order, a) == device_key(es[j]) by {
        if j == i {
            assert(okey(es, order, p) == device_key(es[j]));
        } else {
            let a0 = choose|a: int| 0 <= a < old_order.len() && #[trigger] okey(es, old_order, a) == device_key(es[j]);
            if a0 < p {
                assert(okey(es, order, a0) == device_key(es[j]));
            } else {
                assert(okey(es, order, a0 + 1) == device_key(es[j]));
            }
        }
    }
}

proof fn lemma_dedup_final(es: Seq<EntryView>, order: Seq<usize>, ov: Seq<EntryView>)
    requires
        order_inv(es, order, es.len() as int),
        ov.len() == order.len(),
        forall|x: int| 0 <= x < ov.len() ==> #[trigger] ov[x] == es[order[x] as int],
    ensures
        dedup_ok(es, ov),
{
    assert(keys_increasing(ov)) by {
        assert forall|x: int, y: int| 0 <= x < y < ov.len() implies lex_lt(device_key(#[trigger] ov[x]), device_key(#[trigger] ov[y])) by {
            assert(lex_lt(okey(es, order, x), okey(es, order, y)));
        }
    }
    assert forall|x: int| 0 <= x < ov.len() implies #[trigger] best_in(es, ov[x]) by {
        let i = order[x] as int;
        assert(best_upto(es, i, es.len() as int));
        assert(0 <= i < es.len() && is_best(es, i) && ov[x] == es[i]);
    }
    assert forall|j: int| 0 <= j < es.len() implies #[trigger] key_in(ov, device_key(es[j])) by {
        let x = choose|x: int| 0 <= x < order.len() && #[trigger] okey(es, order, x) == device_key(es[j]);
        assert(0 <= x < ov.len() && device_key(ov[x]) == device_key(es[j]));
    }
}

/// Adds entry `i` to the sorted list of best positions.
fn place_entry(order: &mut Vec<usize>, keys: &Vec<Vec<char>>, scores: &Vec<i32>, i: usize, Ghost(es): Ghost<Seq<EntryView>>)
    requires
        order_inv(es, old(order)@, i as int),
        i < es.len(),
        keys@.len() == es.len(),
        scores@.len() == es.len(),
        forall|j: int| 0 <= j < es.len() ==> (#[trigger] keys@[j])@ == device_key(es[j]),
        forall|j: int| 0 <= j < es.len() ==> (#[trigger] scores@[j]) as int == spec_score(es[j]),
    ensures
        order_inv(es, final(order)@, i + 1),
{
    let ghost ki = device_key(es[i as int]);
    let ghost old_order = order@;
    let mut p: usize = 0;
    while p < order.len() && lex_less(keys[order[p]].as_slice(), keys[i].as_slice())
        invariant
            order@ == old_order,
            order_inv(es, old_order, i as int),
            p <= order@.len(),
            i < es.len(),
            keys@.len() == es.len(),
            forall|j: int| 0 <= j < es.len() ==> (#[trigger] keys@[j])@ == device_key(es[j]),
            forall|a: int| 0 <= a < p ==> lex_lt(#[trigger] okey(es, old_order, a), ki),
            ki == device_key(es[i as int]),
        decreases order.len() - p,
    {
        assert(okey(es, old_order, p as int) == keys@[order@[p as int] as int]@);
        p = p + 1;
    }
    if p < order.len() {
        assert(okey(es, old_order, p as int) == keys@[order@[p as int] as int]@);
    }
    if p < order.len() && crate::text::chars_eq(keys[order[p]].as_slice(), keys[i].as_slice()) {
        let best = order[p];
        let replace = scores[i] >= scores[best];
        if replace {
            order.set(p, i);
        }
        proof {
            lemma_replace_keeps(es, old_order, i, p as int, replace, order@);
        }
    } else {
        order.insert(p, i);
        proof {
            lemma_insert_keeps(es, old_order, i, p as int, order@);
        }
    }
}

/// Keeps one input node per physical device: grouped by `extract_device_key`, the
/// best-scoring node of each group (the last of equals), in the order of the keys.
pub fn deduplicate_entries(entries: Vec<ProcInputEntry>) -> (r: Vec<ProcInputEntry>)
    ensures
        dedup_ok(entry_views(entries@), entry_views(r@)),
{
    let ghost es = entry_views(entries@);
    let n = entries.len();
    let mut keys: Vec<Vec<char>> = Vec::new();
    let mut scores: Vec<i32> = Vec::new();
    let mut i: usize = 0;
    while i < n
        invariant
            n == entries@.len(),
            es == entry_views(entries@),
            i <= n,
            keys@.len() == i,
            scores@.len() == i,
            forall|j: int| 0 <= j < i ==> (#[trigger] keys@[j])@ == device_key(es[j]),
            forall|j: int| 0 <= j < i ==> (#[trigger] scores@[j]) as int == spec_score(es[j]),
        decreases n - i,
    {
        let k = extract_device_key(&entries[i]);
        keys.push(chars_of(k.as_str()));
        scores.push(score_entry(&entries[i]));
        i = i + 1;
    }
    let mut order: Vec<usize> = Vec::new();
    let mut i: usize = 0;
    while i < n
        invariant
            es.len() == n,
            i <= n,
            keys@.len() == n,
            scores@.len() == n,
            forall|j: int| 0 <= j < n ==> (#[trigger] keys@[j])@ == device_key(es[j]),
            forall|j: int| 0 <= j < n ==> (#[trigger] scores@[j]) as int == spec_score(es[j]),
            order_inv(es, order@, i as int),
        decreases n - i,
    {
        place_entry(&mut order, &keys, &scores, i, Ghost(es));
        i = i + 1;
    }
    // Move the chosen entries out in key order.
    let mut slots: Vec<Option<ProcInputEntry>> = Vec::new();
    let mut entries = entries;
    let ghost orig = entries@;
    let mut k: usize = 0;
    while k < n
        invariant
            n == orig.len(),
            k <= n,
            entries@ == orig.subrange(k as int, n as int),
            slots@.len() == k,
            forall|j: int| 0 <= j < k ==> slots@[j] == Some(orig[j]),
        decreases n - k,
    {
        let e = entries.remove(0);
        slots.push(Some(e));
        assert(orig.subrange(k + 1, n as int) =~= orig.subrange(k as int, n as int).remove(0));
        k = k + 1;
    }
    let mut out: Vec<ProcInputEntry> = Vec::new();
    let mut a: usize = 0;
    while a < order.len()
        invariant
            n == orig.len(),
            es == entry_views(orig),
            slots@.len() == n,
            a <= order@.len(),
            order_inv(es, order@, n as int),
            out@.len() == a,
            forall|b: int| 0 <= b < a ==> (#[trigger] out@[b]) == orig[order@[b] as int],
            forall|b: int| a <= b < order@.len() ==> slots@[(#[trigger] order@[b]) as int] == Some(orig[order@[b] as int]),
        decreases order.len() - a,
    {
        let j = order[a];
        let taken = slots[j].take();
        proof {
            assert forall|b: int| a + 1 <= b < order@.len() implies slots@[(#[trigger] order@[b]) as int] == Some(orig[order@[b] as int]) by {
                lemma_sorted_distinct(es, order@, n as int, a as int, b);
            }
        }
        match taken {
            Some(e) => {
                out.push(e);
            },
            None => {},
        }
        a = a + 1;
    }
    proof {
        let ov = entry_views(out@);
        assert forall|x: int| 0 <= x < ov.len() implies #[trigger] ov[x] == es[order@[x] as int] by {}
        lemma_dedup_final(es, order@, ov);
    }
    out
}

// ---------------------------------------------------------------------------
// From an input node to a device
// ---------------------------------------------------------------------------

/// A keyboard by product id or by name; a mouse otherwise.
pub open spec fn spec_classify_device_type(name: Seq<char>, pid: u16) -> DeviceType {
    let l = lowercase(name);
    if pid == E9050L_24G || pid == E9050L_BT {
        DeviceType::Keyboard
    } else if has_sub(l, "keyboard"@) || has_sub(l, "teclado"@) || has_sub(l, "e9050"@) || has_sub(l, "kbd"@) {
        DeviceType::Keyboard
    } else {
        DeviceType::Mouse
    }
}

/// Whether a node is a keyboard or a mouse.
pub fn classify_device_type(name: &str, pid: u16) -> (r: DeviceType)
    ensures
        r == spec_classify_device_type(name@, pid),
{
    if pid == E9050L_24G || pid == E9050L_BT {
        return DeviceType::Keyboard;
    }
    let l = lower_chars(name);
    if has(l.as_slice(), "keyboard") || has(l.as_slice(), "teclado") || has(l.as_slice(), "e9050") || has(l.as_slice(), "kbd") {
        DeviceType::Keyboard
    } else {
        DeviceType::Mouse
    }
}

/// The connection of a node: on the USB bus (or a `usb` physical path) a cable,
/// unless the product id is a wireless receiver's; on the Bluetooth bus (or a
/// Bluetooth physical path or name) Bluetooth; otherwise unknown.
pub open spec fn spec_guess_connection(name: Seq<char>, pid: u16, phys: Option<Seq<char>>, bus: u16) -> ConnectionType {
    let l = lowercase(name);
    let p = lowercase(match phys { Some(x) => x, None => Seq::<char>::empty() });
    if bus == 0x0003 || has_sub(p, "usb-"@) || starts_with(p, "usb"@) {
        if has_sub(l, "composite device"@) || pid == MT760_PRO_WIRED {
            ConnectionType::UsbCable
        } else if pid == MT760_PRO_NEARLINK || pid == E9050L_24G {
            ConnectionType::TwoPointFourGhz
        } else {
            ConnectionType::UsbCable
        }
    } else if bus == 0x0005 || has_sub(p, "bluetooth"@) || has_sub(p, "hci"@) || has_sub(l, "bt mouse"@) {
        ConnectionType::Bluetooth
    } else {
        ConnectionType::Unknown
    }
}

/// The connection type of a node, from its name, product id, physical path and bus.
pub fn guess_connection_type(entry_name: &str, product_id: u16, phys: &Option<String>, bus_type: u16) -> (r: ConnectionType)
    ensures
        r == spec_guess_connection(entry_name@, product_id, crate::text::text_of(*phys), bus_type),
{
    let l = lower_chars(entry_name);
    let p = crate::text::lower_opt(phys);
    if bus_type == 0x0003 || has(p.as_slice(), "usb-") || crate::text::begins(p.as_slice(), "usb") {
        if has(l.as_slice(), "composite device") || product_id == MT760_PRO_WIRED
            || (product_id == MT760_PRO_BT && has(l.as_slice(), "composite device")) {
            return ConnectionType::UsbCable;
        }
        if product_id == MT760_PRO_NEARLINK || product_id == E9050L_24G {
            return ConnectionType::TwoPointFourGhz;
        }
        return ConnectionType::UsbCable;
    }
    if bus_type == 0x0005 || has(p.as_slice(), "bluetooth") || has(p.as_slice(), "hci") || has(l.as_slice(), "bt mouse") {
        return ConnectionType::Bluetooth;
    }
    ConnectionType::Unknown
}

/// On the USB bus, a node of a 2.4 GHz receiver (product 0x186A of the MT760 Pro's
/// NearLink dongle, or 0x1008 of the E9050L's dongle) whose name does not call it a
/// composite device is a 2.4 GHz connection; any other node there whose name does, or
/// whose product is the MT760 Pro's wired one (0x186C), is a USB cable.
pub proof fn lemma_usb_receivers_are_wireless(name: Seq<char>, pid: u16, phys: Option<Seq<char>>)
    ensures
        (pid == 0x186A || pid == 0x1008) && !has_sub(lowercase(name), "composite device"@)
            ==> spec_guess_connection(name, pid, phys, 0x0003) == ConnectionType::TwoPointFourGhz,
        (has_sub(lowercase(name), "composite device"@) || pid == 0x186C)
            ==> spec_guess_connection(name, pid, phys, 0x0003) == ConnectionType::UsbCable,
        pid != 0x186A && pid != 0x1008
            ==> spec_guess_connection(name, pid, phys, 0x0003) == ConnectionType::UsbCable,
{
}

/// What a device of this type and model on this connection can do.
pub open spec fn caps_ok(c: DeviceCapabilities, t: DeviceType, model: KnownDevice, conn: ConnectionType) -> bool {
    match t {
        DeviceType::Mouse => {
            &&& c.has_buttons_remapping && c.has_pointer_settings && c.has_battery_reader
            &&& c.can_read_dpi && c.can_read_polling_rate
            &&& if model == KnownDevice::RapooMt760Pro {
                &&& c.can_set_dpi == (conn == ConnectionType::UsbWired)
                &&& c.can_set_polling_rate == (conn == ConnectionType::UsbWired)
                &&& c.svg_asset_name matches Some(a) && a@ == "openrapoo-mt760-pro.svg"@
            } else {
                !c.can_set_dpi && !c.can_set_polling_rate && c.svg_asset_name is None
            }
        },
        DeviceType::Keyboard => {
            &&& !c.has_buttons_remapping && !c.has_pointer_settings && c.has_battery_reader
            &&& !c.can_read_dpi && !c.can_set_dpi && !c.can_read_polling_rate && !c.can_set_polling_rate
            &&& c.svg_asset_name matches Some(a) && a@ == "E9050L.png"@
        },
        DeviceType::Other => {
            &&& !c.has_buttons_remapping && !c.has_pointer_settings && !c.has_battery_reader
            &&& !c.can_read_dpi && !c.can_set_dpi && !c.can_read_polling_rate && !c.can_set_polling_rate
            &&& c.svg_asset_name is None
        },
    }
}

/// The capabilities of a device of this type and model on this connection.
pub fn capabilities_for(t: DeviceType, model: KnownDevice, conn: ConnectionType) -> (c: DeviceCapabilities)
    ensures
        caps_ok(c, t, model, conn),
{
    match t {
        DeviceType::Mouse => {
            if model == KnownDevice::RapooMt760Pro {
                DeviceCapabilities {
                    has_buttons_remapping: true,
                    has_pointer_settings: true,
                    has_battery_reader: true,
                    can_read_dpi: true,
                    can_set_dpi: conn == ConnectionType::UsbWired,
                    can_read_polling_rate: true,
                    can_set_polling_rate: conn == ConnectionType::UsbWired,
                    svg_asset_name: Some(owned("openrapoo-mt760-pro.svg")),
                }
            } else {
                DeviceCapabilities {
                    has_buttons_remapping: true,
                    has_pointer_settings: true,
                    has_battery_reader: true,
                    can_read_dpi: true,
                    can_set_dpi: false,
                    can_read_polling_rate: true,
                    can_set_polling_rate: false,
                    svg_asset_name: None,
                }
            }
        },
        DeviceType::Keyboard => DeviceCapabilities {
            has_buttons_remapping: false,
            has_pointer_settings: false,
            has_battery_reader: true,
            can_read_dpi: false,
            can_set_dpi: false,
            can_read_polling_rate: false,
            can_set_polling_rate: false,
            svg_asset_name: Some(owned("E9050L.png")),
        },
        DeviceType::Other => DeviceCapabilities {
            has_buttons_remapping: false,
            has_pointer_settings: false,
            has_battery_reader: false,
            can_read_dpi: false,
            can_set_dpi: false,
            can_read_polling_rate: false,
            can_set_polling_rate: false,
            svg_asset_name: None,
        },
    }
}

/// The model of a node: a keyboard is an E9050L; otherwise by product id.
pub open spec fn entry_model(e: EntryView) -> KnownDevice {
    if spec_classify_device_type(e.name, e.product_id) == DeviceType::Keyboard {
        KnownDevice::RapooE9050L
    } else {
        spec_classify_pid(e.product_id)
    }
}

/// The connection of a node.
pub open spec fn entry_connection(e: EntryView) -> ConnectionType {
    spec_guess_connection(e.name, e.product_id, e.phys, e.bus_type)
}

/// The name shown for a node.
pub open spec fn entry_display_name(e: EntryView) -> Seq<char> {
    match entry_model(e) {
        KnownDevice::RapooMt760Pro => if entry_connection(e) == ConnectionType::Bluetooth {
            "Rapoo MT760 Pro (Bluetooth)"@
        } else {
            "Rapoo MT760 Pro"@
        },
        KnownDevice::RapooE9050L => "Rapoo E9050L"@,
        KnownDevice::UnknownRapoo => if e.name.len() == 0 {
            "Rapoo Device "@ + hex_pad(e.product_id as nat, 4, true)
        } else {
            e.name
        },
    }
}

/// The type of the device a node belongs to.
pub open spec fn entry_device_type(e: EntryView) -> DeviceType {
    match entry_model(e) {
        KnownDevice::RapooMt760Pro => DeviceType::Mouse,
        KnownDevice::RapooE9050L => DeviceType::Keyboard,
        KnownDevice::UnknownRapoo => spec_classify_device_type(e.name, e.product_id),
    }
}

/// The Bluetooth address a node's unique id gives (when it looks like one).
pub open spec fn entry_bt_address(e: EntryView) -> Option<Seq<char>> {
    match e.uniq {
        Some(u) => if has_sub(u, ":"@) || has_sub(u, "-"@) { Some(u) } else { None },
        None => None,
    }
}

/// The identity under which a node's battery is asked for.
pub open spec fn entry_identity_ok(id: DeviceIdentity, e: EntryView) -> bool {
    &&& id.name@ == entry_display_name(e)
    &&& id.device_type == entry_device_type(e)
    &&& id.transport == entry_connection(e)
    &&& id.vendor_id == e.vendor_id
    &&& id.product_id == e.product_id
    &&& crate::text::text_of(id.phys) == e.phys
    &&& crate::text::text_of(id.bluetooth_address) == entry_bt_address(e)
    &&& id.hidraw_path is None
    &&& crate::text::text_of(id.hid_uniq) == e.uniq
    &&& id.upower_path is None
    &&& id.bluez_path is None
    &&& crate::text::text_of(id.serial) == entry_bt_address(e)
}

/// `d` is the device built from node `e`, before its receiver state is known.
pub open spec fn built_from(e: EntryView, d: RapooDevice) -> bool {
    &&& d.vendor_id == e.vendor_id
    &&& d.product_id == e.product_id
    &&& d.name@ == entry_display_name(e)
    &&& d.device_type == entry_device_type(e)
    &&& d.connection_state == DeviceConnectionState::Connected
    &&& d.connection == entry_connection(e)
    &&& d.model == entry_model(e)
    &&& caps_ok(d.capabilities, entry_device_type(e), entry_model(e), entry_connection(e))
    &&& crate::text::text_of(d.evdev_path) == e.event_node
    &&& d.hidraw_path is None
    &&& crate::text::text_of(d.phys) == e.phys
    &&& crate::text::text_of(d.bluetooth_address) == entry_bt_address(e)
    &&& crate::text::text_of(d.uniq) == e.uniq
    &&& exists|id: DeviceIdentity, r: AggregatedResult| entry_identity_ok(id, e)
        && aggregation_outcome(id, r) && status_of_reading(r.chosen, d.battery_status)
}

fn clone_opt(s: &Option<String>) -> (r: Option<String>)
    ensures
        crate::text::text_of(r) == crate::text::text_of(*s),
{
    match s {
        Some(x) => Some(x.clone()),
        None => None,
    }
}

/// The device a node stands for, its battery asked of `aggregator`.
pub fn build_rapoo_device<P: BatteryProvider>(aggregator: &BatteryAggregator<P>, entry: ProcInputEntry) -> (r: Option<RapooDevice>)
    ensures
        r matches Some(d) && built_from(entry@, d) && d.receiver_state == ReceiverState::Unknown,
{
    let ghost ev = entry@;
    let initial_type = classify_device_type(entry.name.as_str(), entry.product_id);
    let model = match initial_type {
        DeviceType::Keyboard => KnownDevice::RapooE9050L,
        _ => classify_pid(entry.product_id),
    };
    let connection = guess_connection_type(entry.name.as_str(), entry.product_id, &entry.phys, entry.bus_type);
    let (dev_name, device_type) = match model {
        KnownDevice::RapooMt760Pro => (
            if connection == ConnectionType::Bluetooth {
                owned("Rapoo MT760 Pro (Bluetooth)")
            } else {
                owned("Rapoo MT760 Pro")
            },
            DeviceType::Mouse,
        ),
        KnownDevice::RapooE9050L => (owned("Rapoo E9050L"), DeviceType::Keyboard),
        KnownDevice::UnknownRapoo => (
            if entry.name.as_str().is_empty() {
                let mut n = owned("Rapoo Device ");
                append_str(&mut n, hex_pad_string(entry.product_id as u64, 4, true).as_str());
                n
            } else {
                entry.name.clone()
            },
            initial_type,
        ),
    };
    let bt_address = match &entry.uniq {
        Some(u) => {
            let uc = chars_of(u.as_str());
            if has(uc.as_slice(), ":") || has(uc.as_slice(), "-") { Some(u.clone()) } else { None }
        },
        None => None,
    };
    let identity = DeviceIdentity {
        name: dev_name.clone(),
        device_type,
        transport: connection,
        vendor_id: entry.vendor_id,
        product_id: entry.product_id,
        phys: clone_opt(&entry.phys),
        bluetooth_address: clone_opt(&bt_address),
        hidraw_path: None,
        hid_uniq: clone_opt(&entry.uniq),
        upower_path: None,
        bluez_path: None,
        serial: clone_opt(&bt_address),
    };
    assert(entry_identity_ok(identity, ev));
    let battery_status = query_battery_for_identity(aggregator, &identity);
    let capabilities = capabilities_for(device_type, model, connection);
    let d = RapooDevice {
        vendor_id: entry.vendor_id,
        product_id: entry.product_id,
        name: dev_name,
        device_type,
        connection_state: DeviceConnectionState::Connected,
        connection,
        receiver_state: ReceiverState::Unknown,
        battery_status,
        capabilities,
        model,
        evdev_path: entry.event_node,
        hidraw_path: None,
        phys: entry.phys,
        bluetooth_address: bt_address,
        uniq: entry.uniq,
    };
    Some(d)
}

// ---------------------------------------------------------------------------
// Receiver state
// ---------------------------------------------------------------------------

/// A device whose receiver may carry an active mouse: keyboards and wired devices
/// always, others when they have an evdev or hidraw node that may exist.
pub open spec fn may_be_active(d: RapooDevice) -> bool {
    d.device_type == DeviceType::Keyboard || d.connection == ConnectionType::UsbWired
        || d.evdev_path is Some || d.hidraw_path is Some
}

/// Whether a 2.4 GHz mouse answers through the receiver: keyboards and wired devices
/// always count as active; otherwise when the device's evdev or hidraw node exists.
pub fn check_receiver_mouse_active(dev: &RapooDevice) -> (r: bool)
    ensures
        (dev.device_type == DeviceType::Keyboard || dev.connection == ConnectionType::UsbWired) ==> r,
        r ==> may_be_active(*dev),
{
    if dev.device_type == DeviceType::Keyboard || dev.connection == ConnectionType::UsbWired {
        return true;
    }
    if let Some(p) = &dev.evdev_path {
        if path_exists(p.as_str()) {
            return true;
        }
    }
    if let Some(p) = &dev.hidraw_path {
        if path_exists(p.as_str()) {
            return true;
        }
    }
    false
}

/// The receiver state of a device, `active` telling whether its mouse answers.
pub open spec fn receiver_rule(d: RapooDevice, bt_mouse_connected: bool, active: bool) -> ReceiverState {
    if d.connection == ConnectionType::Bluetooth {
        ReceiverState::BluetoothConnected
    } else if d.device_type == DeviceType::Keyboard || d.connection == ConnectionType::UsbWired {
        ReceiverState::ReceiverActive
    } else if bt_mouse_connected {
        ReceiverState::ReceiverPresent
    } else if active {
        ReceiverState::ReceiverActive
    } else {
        ReceiverState::ReceiverPresent
    }
}

/// The receiver state of a device by the rule, given whether its mouse answers.
pub fn receiver_state_for(dev: &RapooDevice, bt_mouse_connected: bool, active: bool) -> (r: ReceiverState)
    ensures
        r == receiver_rule(*dev, bt_mouse_connected, active),
{
    if dev.connection == ConnectionType::Bluetooth {
        ReceiverState::BluetoothConnected
    } else if dev.device_type == DeviceType::Keyboard || dev.connection == ConnectionType::UsbWired {
        ReceiverState::ReceiverActive
    } else if bt_mouse_connected {
        ReceiverState::ReceiverPresent
    } else if active {
        ReceiverState::ReceiverActive
    } else {
        ReceiverState::ReceiverPresent
    }
}

/// The receiver state of a device: Bluetooth devices are connected over Bluetooth;
/// keyboards and wired devices are active; a 2.4 GHz receiver is idle while a
/// Bluetooth mouse is connected, otherwise active when its mouse answers.
pub fn decide_receiver_state(dev: &RapooDevice, bt_mouse_connected: bool) -> (r: ReceiverState)
    ensures
        exists|active: bool| (active ==> may_be_active(*dev)) && r == receiver_rule(*dev, bt_mouse_connected, active),
{
    if dev.connection == ConnectionType::Bluetooth {
        assert(ReceiverState::BluetoothConnected == receiver_rule(*dev, bt_mouse_connected, false));
        ReceiverState::BluetoothConnected
    } else if dev.device_type == DeviceType::Keyboard || dev.connection == ConnectionType::UsbWired {
        assert(ReceiverState::ReceiverActive == receiver_rule(*dev, bt_mouse_connected, true));
        ReceiverState::ReceiverActive
    } else if bt_mouse_connected {
        assert(ReceiverState::ReceiverPresent == receiver_rule(*dev, bt_mouse_connected, false));
        ReceiverState::ReceiverPresent
    } else {
        let active = check_receiver_mouse_active(dev);
        receiver_state_for(dev, bt_mouse_connected, active)
    }
}

/// The receiver state of `d` follows the rule, its mouse answering only if it may.
pub open spec fn receiver_ok(d: RapooDevice, bt_mouse_connected: bool) -> bool {
    d.receiver_state == receiver_rule(d, bt_mouse_connected, false)
        || (may_be_active(d) && d.receiver_state == receiver_rule(d, bt_mouse_connected, true))
}

/// `d` is the device built from node `e`, with its receiver state decided.
pub open spec fn decided_from(e: EntryView, d: RapooDevice, bt_mouse_connected: bool) -> bool {
    built_from(e, d) && receiver_ok(d, bt_mouse_connected)
}

/// The shown devices among the decided ones: positions `pos` of `es` (increasing)
/// give the devices `out`, none of them an idle receiver; every other node was an idle
/// receiver.
pub open spec fn shown_devices(es: Seq<EntryView>, out: Seq<RapooDevice>, bt_mouse_connected: bool, pos: Seq<int>) -> bool {
    &&& pos.len() == out.len()
    &&& forall|a: int, b: int| 0 <= a < b < pos.len() ==> #[trigger] pos[a] < #[trigger] pos[b]
    &&& forall|a: int| 0 <= a < pos.len() ==> 0 <= #[trigger] pos[a] < es.len()
    &&& forall|a: int| 0 <= a < out.len() ==> #[trigger] decided_from(es[pos[a]], out[a], bt_mouse_connected)
    &&& forall|a: int| 0 <= a < out.len() ==> (#[trigger] out[a]).receiver_state != ReceiverState::ReceiverPresent
    &&& forall|i: int| 0 <= i < es.len() && !pos.contains(i) ==> #[trigger] hidden_node(es[i], bt_mouse_connected)
}

/// A node whose device is an idle receiver.
pub open spec fn hidden_node(e: EntryView, bt_mouse_connected: bool) -> bool {
    exists|d0: RapooDevice| built_from(e, d0) && receiver_rule(d0, bt_mouse_connected, false) == ReceiverState::ReceiverPresent
}

/// Builds a device for each node, decides its receiver state, and keeps the devices
/// that are not idle receivers.
pub fn select_active_devices<P: BatteryProvider>(
    aggregator: &BatteryAggregator<P>,
    entries: Vec<ProcInputEntry>,
    bt_mouse_connected: bool,
) -> (r: Vec<RapooDevice>)
    ensures
        exists|pos: Seq<int>| shown_devices(entry_views(entries@), r@, bt_mouse_connected, pos),
{
    let ghost es = entry_views(entries@);
    let n = entries.len();
    let mut entries = entries;
    let ghost orig = entries@;
    let mut out: Vec<RapooDevice> = Vec::new();
    let ghost mut pos: Seq<int> = Seq::empty();
    let mut k: usize = 0;
    while k < n
        invariant
            n == orig.len(),
            es == entry_views(orig),
            k <= n,
            entries@ == orig.subrange(k as int, n as int),
            pos.len() == out@.len(),
            forall|a: int, b: int| 0 <= a < b < pos.len() ==> #[trigger] pos[a] < #[trigger] pos[b],
            forall|a: int| 0 <= a < pos.len() ==> 0 <= #[trigger] pos[a] < k,
            forall|a: int| 0 <= a < out@.len() ==> #[trigger] decided_from(es[pos[a]], out@[a], bt_mouse_connected),
            forall|a: int| 0 <= a < out@.len() ==> (#[trigger] out@[a]).receiver_state != ReceiverState::ReceiverPresent,
            forall|i: int| 0 <= i < k && !pos.contains(i) ==> #[trigger] hidden_node(es[i], bt_mouse_connected),
        decreases n - k,
    {
        let e = entries.remove(0);
        assert(orig.subrange(k + 1, n as int) =~= orig.subrange(k as int, n as int).remove(0));
        assert(e == orig[k as int]);
        let ghost ek = e@;
        assert(es[k as int] == ek);
        let built = build_rapoo_device(aggregator, e);
        let ghost pos0 = pos;
        let ghost out0 = out@;
        match built {
            Some(mut dev) => {
                let st = decide_receiver_state(&dev, bt_mouse_connected);
                dev.receiver_state = st;
                assert(receiver_ok(dev, bt_mouse_connected));
                if st != ReceiverState::ReceiverPresent {
                    let ghost dv = dev;
                    out.push(dev);
                    proof { pos = pos.push(k as int); }
                    assert forall|a: int| 0 <= a < out@.len() implies #[trigger] decided_from(es[pos[a]], out@[a], bt_mouse_connected) by {
                        if a < out0.len() {
                            assert(out@[a] == out0[a]);
                            assert(pos[a] == pos0[a]);
                        } else {
                            assert(pos[a] == k as int);
                            assert(out@[a] == dv);
                        }
                    }
                    assert forall|a: int| 0 <= a < out@.len() implies (#[trigger] out@[a]).receiver_state != ReceiverState::ReceiverPresent by {
                        if a < out0.len() {
                            assert(out@[a] == out0[a]);
                        }
                    }
                    assert forall|i: int| 0 <= i < k + 1 && !pos.contains(i) implies #[trigger] hidden_node(es[i], bt_mouse_connected) by {
                        if pos0.contains(i) {
                            let w = choose|w: int| 0 <= w < pos0.len() && pos0[w] == i;
                            assert(pos[w] == i);
                        }
                        if i == k {
                            assert(pos[pos.len() - 1] == i);
                        }
                    }
                } else {
                    assert(built_from(ek, dev));
                    assert(receiver_rule(dev, bt_mouse_connected, false) == ReceiverState::ReceiverPresent);
                    assert(hidden_node(ek, bt_mouse_connected));
                }
            },
            None => {},
        }
        k = k + 1;
    }
    assert(shown_devices(es, out@, bt_mouse_connected, pos));
    out
}

// ---------------------------------------------------------------------------
// Devices seen only by UPower / BlueZ
// ---------------------------------------------------------------------------

/// A line of `upower -e` worth asking about: a Bluetooth device, keyboard or mouse.
pub open spec fn spec_upower_listing_relevant(path: Seq<char>) -> bool {
    let l = lowercase(trim(path));
    has_sub(l, "dev_"@) || has_sub(l, "keyboard"@) || has_sub(l, "mouse"@)
}

/// Whether a line of `upower -e` is worth asking about.
pub fn upower_listing_relevant(line: &str) -> (r: bool)
    ensures
        r == spec_upower_listing_relevant(line@),
{
    let t = string_of(crate::text::trim_str(line).as_slice());
    let l = lower_chars(t.as_str());
    has(l.as_slice(), "dev_") || has(l.as_slice(), "keyboard") || has(l.as_slice(), "mouse")
}

/// The `model`, `native-path` and `serial` fields of `upower -i` output (each line
/// `key: value`, keys compared lowercased; a later line overrides).
pub open spec fn upower_info_fields(ls: Seq<Seq<char>>) -> (Seq<char>, Seq<char>, Seq<char>)
    decreases ls.len(),
{
    if ls.len() == 0 {
        (Seq::empty(), Seq::empty(), Seq::empty())
    } else {
        let prev = upower_info_fields(ls.drop_last());
        match split_once(trim(ls.last()), ":"@) {
            Some((k, v)) => {
                let key = lowercase(trim(k));
                if key == "model"@ {
                    (trim(v), prev.1, prev.2)
                } else if key == "native-path"@ {
                    (prev.0, trim(v), prev.2)
                } else if key == "serial"@ {
                    (prev.0, prev.1, trim(v))
                } else {
                    prev
                }
            },
            None => prev,
        }
    }
}

/// The model, native path and serial of `upower -i` output.
pub fn parse_upower_info(info: &str) -> (r: (String, String, String))
    ensures
        (r.0@, r.1@, r.2@) == upower_info_fields(lines(info@)),
{
    let c = chars_of(info);
    let ls = lines_of(c.as_slice());
    let colon = chars_of(":");
    let mut model: Vec<char> = Vec::new();
    let mut native: Vec<char> = Vec::new();
    let mut serial: Vec<char> = Vec::new();
    let mut i: usize = 0;
    while i < ls.len()
        invariant
            i <= ls@.len(),
            views(ls@) == lines(info@),
            colon@ == ":"@,
            (model@, native@, serial@) == upower_info_fields(views(ls@).take(i as int)),
        decreases ls.len() - i,
    {
        let ghost t = views(ls@).take(i + 1);
        assert(t.drop_last() =~= views(ls@).take(i as int));
        assert(t.last() == ls@[i as int]@);
        let line = trim_chars(ls[i].as_slice());
        if let Some((k, v)) = split_once_at(line.as_slice(), colon.as_slice()) {
            let kt = string_of(trim_chars(k.as_slice()).as_slice());
            let key = lower_chars(kt.as_str());
            if crate::text::is_text(key.as_slice(), "model") {
                model = trim_chars(v.as_slice());
            } else if crate::text::is_text(key.as_slice(), "native-path") {
                native = trim_chars(v.as_slice());
            } else if crate::text::is_text(key.as_slice(), "serial") {
                serial = trim_chars(v.as_slice());
            }
        }
        i = i + 1;
    }
    assert(views(ls@).take(ls@.len() as int) =~= views(ls@));
    (string_of(model.as_slice()), string_of(native.as_slice()), string_of(serial.as_slice()))
}

/// `s` with every `from` replaced by `to`.
pub open spec fn replace_char(s: Seq<char>, from: char, to: char) -> Seq<char> {
    s.map_values(|c: char| if c == from { to } else { c })
}

/// The physical path given to a device seen by UPower: from its serial (its address,
/// `:` turned into `_`), else from the address part of its native path, else the native
/// path itself.
pub open spec fn bt_phys(serial: Seq<char>, native: Seq<char>) -> Option<Seq<char>> {
    if serial.len() > 0 {
        Some("bluetooth/hci0/dev_"@ + replace_char(serial, ':', '_'))
    } else if native.len() > 0 {
        let mac = match split_once(native, "/dev_"@) {
            Some((_, rest)) => match split_once(rest, "/dev_"@) {
                Some((m, _)) => m,
                None => rest,
            },
            None => Seq::<char>::empty(),
        };
        if mac.len() > 0 { Some("bluetooth/hci0/dev_"@ + mac) } else { Some(native) }
    } else {
        None
    }
}

fn replace_char_exec(s: &[char], from: char, to: char) -> (r: Vec<char>)
    ensures
        r@ == replace_char(s@, from, to),
{
    let mut r: Vec<char> = Vec::new();
    let mut i: usize = 0;
    while i < s.len()
        invariant
            i <= s.len(),
            r@ == replace_char(s@.take(i as int), from, to),
        decreases s.len() - i,
    {
        r.push(if s[i] == from { to } else { s[i] });
        assert(replace_char(s@.take(i + 1), from, to) =~= replace_char(s@.take(i as int), from, to).push(if s@[i as int] == from { to } else { s@[i as int] }));
        i = i + 1;
    }
    assert(s@.take(s.len() as int) =~= s@);
    r
}

fn bt_phys_exec(serial: &str, native: &str) -> (r: Option<String>)
    ensures
        crate::text::text_of(r) == bt_phys(serial@, native@),
{
    if !serial.is_empty() {
        let sc = chars_of(serial);
        let rep = replace_char_exec(sc.as_slice(), ':', '_');
        let mut p = owned("bluetooth/hci0/dev_");
        append_chars(&mut p, rep.as_slice());
        return Some(p);
    }
    if !native.is_empty() {
        let nc = chars_of(native);
        let sep = chars_of("/dev_");
        let mac: Vec<char> = match split_once_at(nc.as_slice(), sep.as_slice()) {
            Some((_a, rest)) => match split_once_at(rest.as_slice(), sep.as_slice()) {
                Some((m, _b)) => m,
                None => rest,
            },
            None => Vec::new(),
        };
        if mac.len() > 0 {
            let mut p = owned("bluetooth/hci0/dev_");
            append_chars(&mut p, mac.as_slice());
            return Some(p);
        }
        return Some(owned(native));
    }
    None
}

/// The device a UPower entry stands for: only Rapoo models; keyboards (by model or
/// path) are E9050L keyboards, mice MT760 Pro mice; others are not taken.
pub open spec fn upower_device_ok(path: Seq<char>, model: Seq<char>, native: Seq<char>, serial: Seq<char>, r: Option<RapooDevice>) -> bool {
    let ml = lowercase(model);
    let pl = lowercase(trim(path));
    let is_keyboard = has_sub(ml, "keyboard"@) || has_sub(ml, "kbd"@) || has_sub(ml, "e9050"@)
        || starts_with(pl, "/org/freedesktop/upower/devices/keyboard"@);
    let is_mouse = has_sub(ml, "mouse"@) || has_sub(ml, "mt760"@) || starts_with(pl, "/org/freedesktop/upower/devices/mouse"@);
    if !has_sub(ml, "rapoo"@) || (!is_keyboard && !is_mouse) {
        r is None
    } else {
        r matches Some(d) && {
            let t = if is_keyboard { DeviceType::Keyboard } else { DeviceType::Mouse };
            &&& d.vendor_id == RAPOO_VENDOR_ID
            &&& d.product_id == 0
            &&& d.name@ == if is_keyboard { "Rapoo E9050L"@ } else { "Rapoo MT760 Pro (Bluetooth)"@ }
            &&& d.device_type == t
            &&& d.connection_state == DeviceConnectionState::Connected
            &&& d.connection == ConnectionType::Bluetooth
            &&& d.receiver_state == ReceiverState::BluetoothConnected
            &&& d.battery_status is Unknown
            &&& d.model == if is_keyboard { KnownDevice::RapooE9050L } else { KnownDevice::RapooMt760Pro }
            &&& caps_ok(d.capabilities, t, d.model, ConnectionType::Bluetooth)
            &&& d.evdev_path is None
            &&& d.hidraw_path is None
            &&& crate::text::text_of(d.phys) == bt_phys(serial, native)
            &&& crate::text::text_of(d.bluetooth_address) == if has_sub(serial, ":"@) || has_sub(serial, "-"@) { Some(serial) } else { None }
            &&& crate::text::text_of(d.uniq) == Some(serial)
        }
    }
}

/// The device a UPower entry (`upower -i` output for `dev_path`) stands for.
pub fn bluetooth_device_from_upower(dev_path: &str, info: &str) -> (r: Option<RapooDevice>)
    ensures
        upower_device_ok(dev_path@, upower_info_fields(lines(info@)).0, upower_info_fields(lines(info@)).1,
            upower_info_fields(lines(info@)).2, r),
{
    let (model, native, serial) = parse_upower_info(info);
    let ml = lower_chars(model.as_str());
    let pt = string_of(crate::text::trim_str(dev_path).as_slice());
    let pl = lower_chars(pt.as_str());
    if !(has(ml.as_slice(), "rapoo")) {
        return None;
    }
    let is_keyboard = has(ml.as_slice(), "keyboard") || has(ml.as_slice(), "kbd") || has(ml.as_slice(), "e9050")
        || crate::text::begins(pl.as_slice(), "/org/freedesktop/upower/devices/keyboard");
    let is_mouse = has(ml.as_slice(), "mouse") || has(ml.as_slice(), "mt760")
        || crate::text::begins(pl.as_slice(), "/org/freedesktop/upower/devices/mouse");
    if !is_keyboard && !is_mouse {
        return None;
    }
    let (name, device_type, model_kind) = if is_keyboard {
        (owned("Rapoo E9050L"), DeviceType::Keyboard, KnownDevice::RapooE9050L)
    } else {
        (owned("Rapoo MT760 Pro (Bluetooth)"), DeviceType::Mouse, KnownDevice::RapooMt760Pro)
    };
    let capabilities = capabilities_for(device_type, model_kind, ConnectionType::Bluetooth);
    let sc = chars_of(serial.as_str());
    let bt_address = if has(sc.as_slice(), ":") || has(sc.as_slice(), "-") { Some(serial.clone()) } else { None };
    let phys = bt_phys_exec(serial.as_str(), native.as_str());
    Some(RapooDevice {
        vendor_id: RAPOO_VENDOR_ID,
        product_id: 0,
        name,
        device_type,
        connection_state: DeviceConnectionState::Connected,
        connection: ConnectionType::Bluetooth,
        receiver_state: ReceiverState::BluetoothConnected,
        battery_status: BatteryStatus::Unknown,
        capabilities,
        model: model_kind,
        evdev_path: None,
        hidraw_path: None,
        phys,
        bluetooth_address: bt_address,
        uniq: Some(serial),
    })
}

// ---------------------------------------------------------------------------
// Merging and enriching the device list
// ---------------------------------------------------------------------------

/// A physical path as compared: lowercased, `:` and `-` removed.
pub open spec fn phys_key(s: Seq<char>) -> Seq<char> {
    crate::text::without(lowercase(s), seq![':', '-'])
}

fn phys_key_chars(s: &str) -> (r: Vec<char>)
    ensures
        r@ == phys_key(s@),
{
    let l = lower_chars(s);
    let seps = [':', '-'];
    let r = crate::text::remove_chars(l.as_slice(), &seps);
    assert(seps@ =~= seq![':', '-']);
    r
}

/// `d` already stands for the Bluetooth device `b`: same non-empty physical path, or
/// same model.
pub open spec fn same_device(d: RapooDevice, b: RapooDevice) -> bool {
    (d.phys is Some && b.phys is Some && phys_key(d.phys.unwrap()@).len() > 0
        && phys_key(d.phys.unwrap()@) == phys_key(b.phys.unwrap()@))
        || d.model == b.model
}

fn is_same_device(d: &RapooDevice, b: &RapooDevice) -> (r: bool)
    ensures
        r == same_device(*d, *b),
{
    if let (Some(e), Some(nw)) = (&d.phys, &b.phys) {
        let ek = phys_key_chars(e.as_str());
        let nk = phys_key_chars(nw.as_str());
        if ek.len() > 0 && crate::text::chars_eq(ek.as_slice(), nk.as_slice()) {
            return true;
        }
    }
    d.model == b.model
}

/// Some device of `ds` is a mouse on a USB cable.
pub open spec fn has_cable_mouse(ds: Seq<RapooDevice>) -> bool {
    exists|i: int| 0 <= i < ds.len() && (#[trigger] ds[i]).connection == ConnectionType::UsbCable
        && ds[i].device_type == DeviceType::Mouse
}

/// Some device of `ds` stands for `b`.
pub open spec fn known_in(ds: Seq<RapooDevice>, b: RapooDevice) -> bool {
    exists|i: int| 0 <= i < ds.len() && #[trigger] same_device(ds[i], b)
}

/// The list after offering the Bluetooth devices `bt` in order: a Bluetooth mouse is
/// left out while a mouse is on a cable (among the devices first given); a device
/// already known (by path or model, among those listed so far) is left out.
pub open spec fn merged(ds: Seq<RapooDevice>, bt: Seq<RapooDevice>, cable_mouse: bool) -> Seq<RapooDevice>
    decreases bt.len(),
{
    if bt.len() == 0 {
        ds
    } else {
        let prev = merged(ds, bt.drop_last(), cable_mouse);
        let b = bt.last();
        if (b.device_type == DeviceType::Mouse && cable_mouse) || known_in(prev, b) {
            prev
        } else {
            prev.push(b)
        }
    }
}

/// Adds the devices seen over Bluetooth to the detected ones, avoiding duplicates.
pub fn merge_bluetooth_devices(devices: Vec<RapooDevice>, bt_devices: Vec<RapooDevice>) -> (r: Vec<RapooDevice>)
    ensures
        r@ == merged(devices@, bt_devices@, has_cable_mouse(devices@)),
{
    let ghost cable_spec = has_cable_mouse(devices@);
    let mut cable = false;
    let mut i: usize = 0;
    while i < devices.len()
        invariant
            i <= devices@.len(),
            cable <==> exists|j: int| 0 <= j < i && (#[trigger] devices@[j]).connection == ConnectionType::UsbCable
                && devices@[j].device_type == DeviceType::Mouse,
        decreases devices.len() - i,
    {
        if devices[i].connection == ConnectionType::UsbCable && devices[i].device_type == DeviceType::Mouse {
            cable = true;
        }
        i = i + 1;
    }
    assert(cable == cable_spec);
    let ghost ds0 = devices@;
    let ghost bt0 = bt_devices@;
    let mut out = devices;
    let mut bt = bt_devices;
    let n = bt.len();
    let mut k: usize = 0;
    while k < n
        invariant
            n == bt0.len(),
            k <= n,
            bt@ == bt0.subrange(k as int, n as int),
            cable == cable_spec,
            out@ == merged(ds0, bt0.take(k as int), cable),
        decreases n - k,
    {
        let b = bt.remove(0);
        assert(bt0.subrange(k + 1, n as int) =~= bt0.subrange(k as int, n as int).remove(0));
        assert(b == bt0[k as int]);
        assert(bt0.take(k + 1).drop_last() =~= bt0.take(k as int));
        let skip_mouse = b.device_type == DeviceType::Mouse && cable;
        if !skip_mouse {
            let mut known = false;
            let mut j: usize = 0;
            while j < out.len()
                invariant
                    j <= out@.len(),
                    known <==> exists|x: int| 0 <= x < j && #[trigger] same_device(out@[x], b),
                decreases out.len() - j,
            {
                if is_same_device(&out[j], &b) {
                    known = true;
                }
                j = j + 1;
            }
            if !known {
                out.push(b);
            }
        }
        k = k + 1;
    }
    assert(bt0.take(n as int) =~= bt0);
    out
}

/// The product id of a Rapoo HID device directory (`BUS:VENDOR:PRODUCT.INDEX`), or none
/// for other vendors or other names.
pub open spec fn spec_hid_dir_product(name: Seq<char>) -> Option<u16> {
    let parts = split_char(name, ':');
    if parts.len() < 3 || hex16(parts[1]) != RAPOO_VENDOR_ID {
        None
    } else {
        Some(hex16(split_char(parts[2], '.')[0]))
    }
}

/// The product id of a Rapoo HID device directory.
pub fn hid_dir_product(name: &str) -> (r: Option<u16>)
    ensures
        r == spec_hid_dir_product(name@),
{
    let c = chars_of(name);
    let parts = split_on(c.as_slice(), ':');
    if parts.len() < 3 {
        return None;
    }
    let vendor = hex16_of(parts[1].as_slice());
    if vendor != RAPOO_VENDOR_ID {
        return None;
    }
    let sub = split_on(parts[2].as_slice(), '.');
    Some(hex16_of(sub[0].as_slice()))
}

/// The device node of a `hidraw<N>` directory entry (digits only after `hidraw`).
pub open spec fn spec_hidraw_child(name: Seq<char>) -> Option<Seq<char>> {
    if starts_with(name, "hidraw"@) && name.len() > 6
        && forall|i: int| 6 <= i < name.len() ==> '0' <= #[trigger] name[i] <= '9' {
        Some("/dev/hidraw"@ + name.skip(6))
    } else {
        None
    }
}

/// The device node of a `hidraw<N>` directory entry.
pub fn hidraw_child_node(name: &str) -> (r: Option<String>)
    ensures
        crate::text::text_of(r) == spec_hidraw_child(name@),
{
    proof { reveal_strlit("hidraw"); }
    let c = chars_of(name);
    if !crate::text::begins(c.as_slice(), "hidraw") || c.len() <= 6 {
        return None;
    }
    let mut i: usize = 6;
    while i < c.len()
        invariant
            6 <= i <= c@.len(),
            c@ == name@,
            forall|j: int| 6 <= j < i ==> '0' <= #[trigger] c@[j] <= '9',
        decreases c.len() - i,
    {
        if !('0' <= c[i] && c[i] <= '9') {
            assert(!('0' <= name@[i as int] <= '9'));
            return None;
        }
        i = i + 1;
    }
    let mut r = owned("/dev/hidraw");
    let rest = crate::text::skip_chars(c.as_slice(), 6);
    append_chars(&mut r, rest.as_slice());
    Some(r)
}

/// Gives the hidraw node to the first device with that product id that has none yet.
pub fn assign_hidraw(devices: &mut Vec<RapooDevice>, product: u16, hidraw: String)
    ensures
        final(devices)@.len() == old(devices)@.len(),
        (exists|i: int| 0 <= i < old(devices)@.len() && (#[trigger] old(devices)@[i]).product_id == product
            && old(devices)@[i].hidraw_path is None) ==> exists|i: int| {
            &&& 0 <= i < old(devices)@.len()
            &&& (#[trigger] old(devices)@[i]).product_id == product && old(devices)@[i].hidraw_path is None
            &&& forall|j: int| 0 <= j < i ==> !(old(devices)@[j].product_id == product && old(devices)@[j].hidraw_path is None)
            &&& final(devices)@ == old(devices)@.update(i, RapooDevice { hidraw_path: Some(hidraw), ..old(devices)@[i] })
        },
        !(exists|i: int| 0 <= i < old(devices)@.len() && (#[trigger] old(devices)@[i]).product_id == product
            && old(devices)@[i].hidraw_path is None) ==> final(devices)@ == old(devices)@,
{
    let mut i: usize = 0;
    while i < devices.len()
        invariant
            devices@ == old(devices)@,
            i <= devices@.len(),
            forall|j: int| 0 <= j < i ==> !(devices@[j].product_id == product && devices@[j].hidraw_path is None),
        decreases devices.len() - i,
    {
        if devices[i].product_id == product && devices[i].hidraw_path.is_none() {
            let ghost before = devices@;
            let mut d = devices.remove(i);
            d.hidraw_path = Some(hidraw);
            devices.insert(i, d);
            assert(devices@ =~= before.update(i as int, RapooDevice { hidraw_path: devices@[i as int].hidraw_path, ..before[i as int] }));
            return;
        }
        i = i + 1;
    }
}

/// Asks `aggregator` again for the battery of every device.
pub fn refresh_battery_status<P: BatteryProvider>(aggregator: &BatteryAggregator<P>, devices: &mut Vec<RapooDevice>)
    ensures
        final(devices)@.len() == old(devices)@.len(),
        forall|i: int| 0 <= i < final(devices)@.len() ==> {
            let d = #[trigger] final(devices)@[i];
            let o = old(devices)@[i];
            &&& d == (RapooDevice { battery_status: d.battery_status, ..o })
            &&& exists|id: DeviceIdentity, r: AggregatedResult| device_identity_of(id, o)
                && aggregation_outcome(id, r) && provider_outcome(aggregator.provider_seq(), id, r) && status_of_reading(r.chosen, d.battery_status)
        },
{
    let n = devices.len();
    let mut i: usize = 0;
    while i < n
        invariant
            n == old(devices)@.len(),
            devices@.len() == n,
            i <= n,
            forall|j: int| i <= j < n ==> devices@[j] == old(devices)@[j],
            forall|j: int| 0 <= j < i ==> {
                let d = #[trigger] devices@[j];
                let o = old(devices)@[j];
                &&& d == (RapooDevice { battery_status: d.battery_status, ..o })
                &&& exists|id: DeviceIdentity, r: AggregatedResult| device_identity_of(id, o)
                    && aggregation_outcome(id, r) && provider_outcome(aggregator.provider_seq(), id, r) && status_of_reading(r.chosen, d.battery_status)
            },
        decreases n - i,
    {
        let id = devices[i].to_device_identity();
        assert(device_identity_of(id, devices@[i as int]));
        let st = query_battery_for_identity(aggregator, &id);
        let ghost before = devices@;
        let mut d = devices.remove(i);
        d.battery_status = st;
        devices.insert(i, d);
        assert forall|j: int| 0 <= j < n && j != i implies devices@[j] == before[j] by {}
        i = i + 1;
    }
}

/// The identity under which a device's battery is asked for.
pub open spec fn device_identity_of(id: DeviceIdentity, d: RapooDevice) -> bool {
    &&& id.name@ == d.name@
    &&& id.device_type == d.device_type
    &&& id.transport == d.connection
    &&& id.vendor_id == d.vendor_id
    &&& id.product_id == d.product_id
    &&& crate::text::text_of(id.phys) == crate::text::text_of(d.phys)
    &&& crate::text::text_of(id.bluetooth_address) == crate::text::text_of(d.bluetooth_address)
    &&& crate::text::text_of(id.hidraw_path) == crate::text::text_of(d.hidraw_path)
    &&& crate::text::text_of(id.hid_uniq) == crate::text::text_of(d.uniq)
    &&& id.upower_path is None
    &&& id.bluez_path is None
    &&& crate::text::text_of(id.serial) == crate::text::text_of(d.bluetooth_address)
}

} // verus!
