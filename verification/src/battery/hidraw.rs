//! HID report descriptors and the choice of Rapoo's vendor hidraw interface.

use vstd::prelude::*;
use crate::text::{
    str_opt, chars_eq, chars_of, lines, lines_of, lower_chars, lowercase, owned, parse_number, parse_unsigned,
    remove_chars, split_char, split_on, starts_with, strip_prefix, string_of, trim_char,
    trim_matching, trim_start_char, trim_start_matching, views, without,
};

verus! {

/// A hidraw interface as found under `/sys/class/hidraw`.
#[derive(Debug)]
pub struct HidrawCandidate {
    pub hidraw_path: String,
    pub vendor_id: u16,
    pub product_id: u16,
    pub name: String,
    pub hid_uniq: String,
    pub parent_usb_path: String,
    pub is_vendor_interface: bool,
    pub vendor_usage_pages: Vec<u16>,
    pub report_ids: Vec<u8>,
}

impl HidrawCandidate {
    /// Two candidates carry the same information.
    pub open spec fn equiv(self, o: HidrawCandidate) -> bool {
        &&& self.hidraw_path@ == o.hidraw_path@
        &&& self.vendor_id == o.vendor_id
        &&& self.product_id == o.product_id
        &&& self.name@ == o.name@
        &&& self.hid_uniq@ == o.hid_uniq@
        &&& self.parent_usb_path@ == o.parent_usb_path@
        &&& self.is_vendor_interface == o.is_vendor_interface
        &&& self.vendor_usage_pages@ == o.vendor_usage_pages@
        &&& self.report_ids@ == o.report_ids@
    }

    /// A copy carrying the same information.
    pub fn duplicate(&self) -> (r: HidrawCandidate)
        ensures
            r.equiv(*self),
    {
        HidrawCandidate {
            hidraw_path: self.hidraw_path.clone(),
            vendor_id: self.vendor_id,
            product_id: self.product_id,
            name: self.name.clone(),
            hid_uniq: self.hid_uniq.clone(),
            parent_usb_path: self.parent_usb_path.clone(),
            is_vendor_interface: self.is_vendor_interface,
            vendor_usage_pages: copy_u16s(&self.vendor_usage_pages),
            report_ids: copy_u8s(&self.report_ids),
        }
    }
}

fn copy_u16s(v: &Vec<u16>) -> (r: Vec<u16>)
    ensures
        r@ == v@,
{
    let mut r: Vec<u16> = Vec::new();
    let mut i: usize = 0;
    while i < v.len()
        invariant
            i <= v.len(),
            r@ == v@.take(i as int),
        decreases v.len() - i,
    {
        r.push(v[i]);
        assert(v@.take(i + 1) =~= v@.take(i as int).push(v@[i as int]));
        i = i + 1;
    }
    assert(v@.take(v.len() as int) =~= v@);
    r
}

fn copy_u8s(v: &Vec<u8>) -> (r: Vec<u8>)
    ensures
        r@ == v@,
{
    let mut r: Vec<u8> = Vec::new();
    let mut i: usize = 0;
    while i < v.len()
        invariant
            i <= v.len(),
            r@ == v@.take(i as int),
        decreases v.len() - i,
    {
        r.push(v[i]);
        assert(v@.take(i + 1) =~= v@.take(i as int).push(v@[i as int]));
        i = i + 1;
    }
    assert(v@.take(v.len() as int) =~= v@);
    r
}

// ---------------------------------------------------------------------------
// Report descriptors
// ---------------------------------------------------------------------------

/// `s` with `x` appended unless it is already there.
pub open spec fn add_unique<T>(s: Seq<T>, x: T) -> Seq<T> {
    if s.contains(x) { s } else { s.push(x) }
}

/// The number of data bytes of a short item, from the two low bits of its header.
pub open spec fn item_data_len(header: u8) -> int {
    let size = header % 4;
    if size == 3 { 4 } else { size as int }
}

/// The usage page carried by the data bytes at `i` (little-endian, at most 16 bits).
pub open spec fn page_at(d: Seq<u8>, i: int, len: int) -> u16 {
    if len == 1 { d[i] as u16 } else { (d[i] + 256 * d[i + 1]) as u16 }
}

/// The usage pages and report ids met while walking the descriptor `d` from `i`,
/// added to `pages` and `ids`: short items are read one by one (a `Usage Page` global
/// item gives a page, a `Report ID` global item gives an id, each listed once, in
/// order of first appearance); a long item (header `0xFE`) is skipped; the walk stops
/// at an item whose data runs past the end.
pub open spec fn descriptor_scan(d: Seq<u8>, i: int, pages: Seq<u16>, ids: Seq<u8>) -> (Seq<u16>, Seq<u8>)
    decreases d.len() - i,
{
    if i < 0 || i >= d.len() {
        (pages, ids)
    } else {
        let h = d[i];
        let j = i + 1;
        if h == 0xFE {
            if j + 1 < d.len() {
                if j + 2 + d[j] >= d.len() {
                    (pages, ids)
                } else {
                    descriptor_scan(d, j + 2 + d[j], pages, ids)
                }
            } else {
                descriptor_scan(d, j, pages, ids)
            }
        } else {
            let len = item_data_len(h);
            let typ = (h / 4) % 4;
            let tag = h / 16;
            if j + len > d.len() {
                (pages, ids)
            } else {
                let pages2 = if typ == 1 && tag == 0 && len > 0 { add_unique(pages, page_at(d, j, len)) } else { pages };
                let ids2 = if typ == 1 && tag == 8 && len > 0 { add_unique(ids, d[j]) } else { ids };
                descriptor_scan(d, j + len, pages2, ids2)
            }
        }
    }
}

fn contains_u16(v: &Vec<u16>, x: u16) -> (r: bool)
    ensures
        r == v@.contains(x),
{
    let mut i: usize = 0;
    while i < v.len()
        invariant
            i <= v.len(),
            forall|j: int| 0 <= j < i ==> v@[j] != x,
        decreases v.len() - i,
    {
        if v[i] == x {
            assert(v@[i as int] == x);
            return true;
        }
        i = i + 1;
    }
    false
}

fn contains_u8(v: &Vec<u8>, x: u8) -> (r: bool)
    ensures
        r == v@.contains(x),
{
    let mut i: usize = 0;
    while i < v.len()
        invariant
            i <= v.len(),
            forall|j: int| 0 <= j < i ==> v@[j] != x,
        decreases v.len() - i,
    {
        if v[i] == x {
            assert(v@[i as int] == x);
            return true;
        }
        i = i + 1;
    }
    false
}

/// The usage pages and report ids declared by a HID report descriptor.
pub fn parse_report_descriptor(descriptor: &[u8]) -> (r: (Vec<u16>, Vec<u8>))
    ensures
        (r.0@, r.1@) == descriptor_scan(descriptor@, 0, Seq::empty(), Seq::empty()),
{
    let mut usage_pages: Vec<u16> = Vec::new();
    let mut report_ids: Vec<u8> = Vec::new();
    let n = descriptor.len();
    let mut i: usize = 0;
    while i < n
        invariant
            n == descriptor@.len(),
            descriptor_scan(descriptor@, i as int, usage_pages@, report_ids@)
                == descriptor_scan(descriptor@, 0, Seq::empty(), Seq::empty()),
        decreases n - i,
    {
        let header = descriptor[i];
        let j = i + 1;
        if header == 0xFE {
            if n - j > 1 {
                let data_size = descriptor[j] as usize;
                if data_size >= n - j - 2 {
                    return (usage_pages, report_ids);
                }
                i = j + 2 + data_size;
            } else {
                i = j;
            }
            continue;
        }
        let size_code = header % 4;
        let item_type = (header / 4) % 4;
        let item_tag = header / 16;
        let data_len: usize = if size_code == 3 { 4 } else { size_code as usize };
        if data_len > n - j {
            return (usage_pages, report_ids);
        }
        if item_type == 1 && item_tag == 0 && data_len > 0 {
            let page: u16 = if data_len == 1 {
                descriptor[j] as u16
            } else {
                (descriptor[j] as u16) + (descriptor[j + 1] as u16) * 256
            };
            if !contains_u16(&usage_pages, page) {
                usage_pages.push(page);
            }
        }
        if item_type == 1 && item_tag == 8 && data_len > 0 {
            let id = descriptor[j];
            if !contains_u8(&report_ids, id) {
                report_ids.push(id);
            }
        }
        i = j + data_len;
    }
    (usage_pages, report_ids)
}

/// No element occurs twice.
pub open spec fn no_dups<T>(s: Seq<T>) -> bool {
    forall|a: int, b: int| 0 <= a < b < s.len() ==> s[a] != s[b]
}

/// A descriptor walk lists each usage page and each report id at most once.
pub proof fn lemma_descriptor_scan_no_dups(d: Seq<u8>, i: int, pages: Seq<u16>, ids: Seq<u8>)
    requires
        no_dups(pages),
        no_dups(ids),
    ensures
        no_dups(descriptor_scan(d, i, pages, ids).0),
        no_dups(descriptor_scan(d, i, pages, ids).1),
    decreases d.len() - i,
{
    if i < 0 || i >= d.len() {
    } else {
        let h = d[i];
        let j = i + 1;
        if h == 0xFE {
            if j + 1 < d.len() {
                if j + 2 + d[j] < d.len() {
                    lemma_descriptor_scan_no_dups(d, j + 2 + d[j], pages, ids);
                }
            } else {
                lemma_descriptor_scan_no_dups(d, j, pages, ids);
            }
        } else {
            let len = item_data_len(h);
            let typ = (h / 4) % 4;
            let tag = h / 16;
            if j + len <= d.len() {
                let pages2 = if typ == 1 && tag == 0 && len > 0 { add_unique(pages, page_at(d, j, len)) } else { pages };
                let ids2 = if typ == 1 && tag == 8 && len > 0 { add_unique(ids, d[j]) } else { ids };
                assert(no_dups(pages2)) by {
                    if typ == 1 && tag == 0 && len > 0 && !pages.contains(page_at(d, j, len)) {
                        assert forall|a: int, b: int| 0 <= a < b < pages2.len() implies pages2[a] != pages2[b] by {
                            if b == pages.len() {
                                assert(pages[a] == pages2[a]);
                            }
                        }
                    }
                }
                assert(no_dups(ids2)) by {
                    if typ == 1 && tag == 8 && len > 0 && !ids.contains(d[j]) {
                        assert forall|a: int, b: int| 0 <= a < b < ids2.len() implies ids2[a] != ids2[b] by {
                            if b == ids.len() {
                                assert(ids[a] == ids2[a]);
                            }
                        }
                    }
                }
                lemma_descriptor_scan_no_dups(d, j + len, pages2, ids2);
            }
        }
    }
}

// ---------------------------------------------------------------------------
// Interfaces
// ---------------------------------------------------------------------------

/// The usage pages in the vendor-defined range `0xFF00..=0xFFFF`, in order.
pub open spec fn vendor_pages(pages: Seq<u16>) -> Seq<u16>
    decreases pages.len(),
{
    if pages.len() == 0 {
        pages
    } else {
        let p = vendor_pages(pages.drop_last());
        if pages.last() >= 0xFF00 { p.push(pages.last()) } else { p }
    }
}

/// Keeps the usage pages in the vendor-defined range.
pub fn filter_vendor_pages(pages: &Vec<u16>) -> (r: Vec<u16>)
    ensures
        r@ == vendor_pages(pages@),
{
    let mut r: Vec<u16> = Vec::new();
    let mut i: usize = 0;
    while i < pages.len()
        invariant
            i <= pages.len(),
            r@ == vendor_pages(pages@.take(i as int)),
        decreases pages.len() - i,
    {
        assert(pages@.take(i + 1).drop_last() =~= pages@.take(i as int));
        if pages[i] >= 0xFF00 {
            r.push(pages[i]);
        }
        i = i + 1;
    }
    assert(pages@.take(pages.len() as int) =~= pages@);
    r
}

/// An interface is Rapoo's vendor channel when it declares a vendor-defined usage page
/// or one of the report ids `0x07` and `0xA0`.
pub open spec fn spec_is_vendor_interface(vendor_pages: Seq<u16>, ids: Seq<u8>) -> bool {
    vendor_pages.len() > 0 || ids.contains(0x07u8) || ids.contains(0xA0u8)
}

/// Whether an interface is Rapoo's vendor channel.
pub fn is_vendor_interface(vendor_pages: &Vec<u16>, report_ids: &Vec<u8>) -> (r: bool)
    ensures
        r == spec_is_vendor_interface(vendor_pages@, report_ids@),
{
    vendor_pages.len() > 0 || contains_u8(report_ids, 0x07) || contains_u8(report_ids, 0xA0)
}

/// The device node of a hidraw class entry: `/dev/hidraw` followed by what comes after
/// `hidraw` in the entry's name (`0` when the name does not start so).
pub open spec fn spec_hidraw_node(entry: Seq<char>) -> Seq<char> {
    "/dev/hidraw"@ + if starts_with(entry, "hidraw"@) { entry.skip(6) } else { "0"@ }
}

/// The device node of a hidraw class entry.
pub fn hidraw_node_path(entry_name: &str) -> (r: String)
    ensures
        r@ == spec_hidraw_node(entry_name@),
{
    let e = chars_of(entry_name);
    let p = chars_of("hidraw");
    proof { reveal_strlit("hidraw"); }
    let mut r = owned("/dev/hidraw");
    match strip_prefix(e.as_slice(), p.as_slice()) {
        Some(rest) => {
            crate::text::append_chars(&mut r, rest.as_slice());
        },
        None => {
            crate::text::append_str(&mut r, "0");
        },
    }
    r
}

/// The fields of a hidraw device's `uevent`: vendor id, product id, name and unique id.
pub struct HidUevent {
    pub vendor_id: u16,
    pub product_id: u16,
    pub name: String,
    pub uniq: String,
}

/// A hexadecimal id field of `HID_ID`, leading zeros dropped (0 when it does not parse).
pub open spec fn hex_id(s: Seq<char>) -> u16 {
    match parse_unsigned(trim_start_char(s, '0'), 16, 0xFFFF) {
        Some(v) => v as u16,
        None => 0,
    }
}

/// The `uevent` fields after reading `ls` in order; a later line overrides an earlier one.
pub open spec fn uevent_fields(ls: Seq<Seq<char>>) -> (u16, u16, Seq<char>, Seq<char>)
    decreases ls.len(),
{
    if ls.len() == 0 {
        (0, 0, Seq::empty(), Seq::empty())
    } else {
        let prev = uevent_fields(ls.drop_last());
        let l = ls.last();
        if starts_with(l, "HID_ID="@) {
            let parts = split_char(l.skip(7), ':');
            if parts.len() >= 3 {
                (hex_id(parts[1]), hex_id(parts[2]), prev.2, prev.3)
            } else {
                prev
            }
        } else if starts_with(l, "HID_NAME="@) {
            (prev.0, prev.1, trim_char(l.skip(9), '"'), prev.3)
        } else if starts_with(l, "HID_UNIQ="@) {
            (prev.0, prev.1, prev.2, trim_char(l.skip(9), '"'))
        } else {
            prev
        }
    }
}

fn hex_id_of(s: &[char]) -> (r: u16)
    ensures
        r == hex_id(s@),
{
    let t = trim_start_matching(s, '0');
    match parse_number(t.as_slice(), 16, 0xFFFF) {
        Some(v) => v as u16,
        None => 0,
    }
}

/// Reads the `HID_ID`, `HID_NAME` and `HID_UNIQ` lines of a hidraw device's `uevent`.
pub fn parse_hid_uevent(content: &str) -> (r: HidUevent)
    ensures
        (r.vendor_id, r.product_id, r.name@, r.uniq@) == uevent_fields(lines(content@)),
{
    let c = chars_of(content);
    let ls = lines_of(c.as_slice());
    let id_p = chars_of("HID_ID=");
    let name_p = chars_of("HID_NAME=");
    let uniq_p = chars_of("HID_UNIQ=");
    proof {
        reveal_strlit("HID_ID=");
        reveal_strlit("HID_NAME=");
        reveal_strlit("HID_UNIQ=");
    }
    let mut vid: u16 = 0;
    let mut pid: u16 = 0;
    let mut name: Vec<char> = Vec::new();
    let mut uniq: Vec<char> = Vec::new();
    let mut i: usize = 0;
    while i < ls.len()
        invariant
            i <= ls@.len(),
            views(ls@) == lines(content@),
            c@ == content@,
            id_p@ == "HID_ID="@,
            name_p@ == "HID_NAME="@,
            uniq_p@ == "HID_UNIQ="@,
            (vid, pid, name@, uniq@) == uevent_fields(views(ls@).take(i as int)),
        decreases ls.len() - i,
    {
        proof {
            reveal_strlit("HID_ID=");
            reveal_strlit("HID_NAME=");
            reveal_strlit("HID_UNIQ=");
        }
        let ghost t = views(ls@).take(i + 1);
        assert(t.drop_last() =~= views(ls@).take(i as int));
        assert(t.last() == ls@[i as int]@);
        let line = &ls[i];
        if let Some(rest) = strip_prefix(line.as_slice(), id_p.as_slice()) {
            let parts = split_on(rest.as_slice(), ':');
            if parts.len() >= 3 {
                vid = hex_id_of(parts[1].as_slice());
                pid = hex_id_of(parts[2].as_slice());
            }
        } else if let Some(rest) = strip_prefix(line.as_slice(), name_p.as_slice()) {
            name = trim_matching(rest.as_slice(), '"');
        } else if let Some(rest) = strip_prefix(line.as_slice(), uniq_p.as_slice()) {
            uniq = trim_matching(rest.as_slice(), '"');
        }
        i = i + 1;
    }
    assert(views(ls@).take(ls@.len() as int) =~= views(ls@));
    HidUevent {
        vendor_id: vid,
        product_id: pid,
        name: string_of(name.as_slice()),
        uniq: string_of(uniq.as_slice()),
    }
}

// ---------------------------------------------------------------------------
// Choosing an interface
// ---------------------------------------------------------------------------

/// A unique id as compared: `:` and `-` removed, then lowercased.
pub open spec fn uniq_key(s: Seq<char>) -> Seq<char> {
    lowercase(without(s, seq![':', '-']))
}

fn uniq_key_chars(s: &str) -> (r: Vec<char>)
    ensures
        r@ == uniq_key(s@),
{
    let c = chars_of(s);
    let seps = [':', '-'];
    let kept = remove_chars(c.as_slice(), &seps);
    assert(seps@ =~= seq![':', '-']);
    let t = string_of(kept.as_slice());
    lower_chars(t.as_str())
}

/// The first rule's test: a vendor interface of the vendor whose unique id matches.
pub open spec fn uniq_rule(c: HidrawCandidate, vid: u16, key: Seq<char>) -> bool {
    c.vendor_id == vid && c.is_vendor_interface && c.hid_uniq@.len() > 0 && uniq_key(c.hid_uniq@) == key
}

/// The second rule's test: a vendor interface of the vendor and product.
pub open spec fn product_rule(c: HidrawCandidate, vid: u16, pid: u16) -> bool {
    c.vendor_id == vid && (c.product_id == pid || pid == 0) && c.is_vendor_interface
}

/// The first rule applies to `c`: a unique id is given and matches.
pub open spec fn uniq_pass(c: HidrawCandidate, vid: u16, uniq: Option<Seq<char>>) -> bool {
    uniq matches Some(u) && u.len() > 0 && uniq_rule(c, vid, uniq_key(u))
}

/// The position chosen among `cs`: a vendor interface of the vendor that matches the
/// unique id when one is given, else one that matches the product (any product when
/// `pid` is 0); the first that passes each rule, and none when neither rule holds of
/// any candidate.
pub open spec fn chosen_candidate(cs: Seq<HidrawCandidate>, vid: u16, pid: u16, uniq: Option<Seq<char>>, r: Option<usize>) -> bool {
    let no_uniq = forall|j: int| 0 <= j < cs.len() ==> !uniq_pass(#[trigger] cs[j], vid, uniq);
    let no_product = forall|j: int| 0 <= j < cs.len() ==> !product_rule(#[trigger] cs[j], vid, pid);
    match r {
        Some(k) => 0 <= k < cs.len() && (
            (uniq_pass(cs[k as int], vid, uniq)
                && forall|j: int| 0 <= j < k ==> !uniq_pass(#[trigger] cs[j], vid, uniq))
            || (no_uniq && product_rule(cs[k as int], vid, pid)
                && forall|j: int| 0 <= j < k ==> !product_rule(#[trigger] cs[j], vid, pid))),
        None => no_uniq && no_product,
    }
}

/// The position of the vendor interface to talk to, among the scanned candidates.
pub fn select_vendor_hidraw_candidate(candidates: &Vec<HidrawCandidate>, vid: u16, pid: u16, uniq: Option<&str>) -> (r: Option<usize>)
    ensures
        chosen_candidate(candidates@, vid, pid, str_opt(uniq), r),
{
    let ghost u_spec = str_opt(uniq);
    let mut usable = false;
    let mut key: Vec<char> = Vec::new();
    if let Some(u) = uniq {
        if !u.is_empty() {
            usable = true;
            key = uniq_key_chars(u);
        }
    }
    let mut i: usize = 0;
    while i < candidates.len()
        invariant
            i <= candidates@.len(),
            u_spec == str_opt(uniq),
            usable <==> (u_spec matches Some(u) && u.len() > 0),
            usable ==> key@ == uniq_key(u_spec.unwrap()),
            forall|j: int| 0 <= j < i ==> !uniq_pass(#[trigger] candidates@[j], vid, u_spec),
        decreases candidates.len() - i,
    {
        if usable {
            let c = &candidates[i];
            if c.vendor_id == vid && c.is_vendor_interface && !c.hid_uniq.as_str().is_empty() {
                let k = uniq_key_chars(c.hid_uniq.as_str());
                if chars_eq(k.as_slice(), key.as_slice()) {
                    return Some(i);
                }
            }
        }
        i = i + 1;
    }
    let mut i: usize = 0;
    while i < candidates.len()
        invariant
            i <= candidates@.len(),
            u_spec == str_opt(uniq),
            forall|j: int| 0 <= j < candidates@.len() ==> !uniq_pass(#[trigger] candidates@[j], vid, u_spec),
            forall|j: int| 0 <= j < i ==> !product_rule(#[trigger] candidates@[j], vid, pid),
        decreases candidates.len() - i,
    {
        let c = &candidates[i];
        if c.vendor_id == vid && (c.product_id == pid || pid == 0) && c.is_vendor_interface {
            return Some(i);
        }
        i = i + 1;
    }
    None
}

/// The vendor interface to talk to, among the scanned candidates (a copy of it).
pub fn find_vendor_hidraw_candidate(candidates: &Vec<HidrawCandidate>, vid: u16, pid: u16, uniq: Option<&str>) -> (r: Option<HidrawCandidate>)
    ensures
        exists|k: Option<usize>| #[trigger] chosen_candidate(candidates@, vid, pid, str_opt(uniq), k)
            && match (k, r) {
                (Some(i), Some(c)) => c.equiv(candidates@[i as int]),
                (None, None) => true,
                _ => false,
            },
{
    let k = select_vendor_hidraw_candidate(candidates, vid, pid, uniq);
    match k {
        Some(i) => Some(candidates[i].duplicate()),
        None => None,
    }
}

} // verus!
