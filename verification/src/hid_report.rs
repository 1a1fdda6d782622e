//! A walk over a HID report descriptor that lists its collections and the size of its
//! input, output and feature reports, for the diagnostic tool.

use vstd::prelude::*;
use crate::text::{append_dec, append_str, dec, hex_pad, hex_pad_string, owned, push_char};
use crate::battery::types::string_views;

verus! {

/// A collection of the descriptor, with the usage page and usage in force.
#[derive(Debug, Clone, PartialEq, Eq)]
pub struct HidCollection {
    pub usage_page: u16,
    pub usage: u16,
    pub description: String,
}

/// A report: its id and its size in bits (report size times report count).
#[derive(Debug, Clone, Copy, PartialEq, Eq, Structural)]
pub struct HidReportEntry {
    pub report_id: u8,
    pub size_bits: u32,
}

/// What the walk found in a descriptor.
#[derive(Debug, Clone)]
pub struct HidReportInfo {
    pub hidraw_path: String,
    pub descriptor_bytes: usize,
    pub descriptor_hex: String,
    pub collections: Vec<HidCollection>,
    pub input_reports: Vec<HidReportEntry>,
    pub output_reports: Vec<HidReportEntry>,
    pub feature_reports: Vec<HidReportEntry>,
}

/// The globals and locals in force during the walk: usage page, usage, report id,
/// report size and report count.
#[derive(Debug, Clone, Copy)]
pub struct WalkState {
    pub page: u16,
    pub usage: u16,
    pub report_id: u8,
    pub size: u32,
    pub count: u32,
}

/// The lists the walk builds: collections (page, usage), inputs, outputs, features.
pub type WalkLists = (Seq<(u16, u16)>, Seq<HidReportEntry>, Seq<HidReportEntry>, Seq<HidReportEntry>);

/// The number of data bytes of an item with header `h` (size code 3 means 4 bytes).
pub open spec fn data_size(h: u8) -> int {
    if h % 4 == 3 { 4 } else { (h % 4) as int }
}

/// The little-endian value of `n` bytes at `at`.
pub open spec fn item_value(d: Seq<u8>, at: int, n: int) -> u32 {
    if n == 1 {
        d[at] as u32
    } else if n == 2 {
        (d[at] + d[at + 1] * 256) as u32
    } else if n == 4 {
        (d[at] + d[at + 1] * 256 + d[at + 2] * 65536 + d[at + 3] * 16777216) as u32
    } else {
        0
    }
}

/// Report size times report count, in 32 bits (wrapping).
pub open spec fn bits_of(st: WalkState) -> u32 {
    ((st.size * st.count) % 0x1_0000_0000) as u32
}

/// The state after an item of type `typ` and tag `tag` with value `v`.
pub open spec fn next_state(st: WalkState, typ: u8, tag: u8, v: u32) -> WalkState {
    if typ == 1 && tag == 0 {
        WalkState { page: (v % 65536) as u16, ..st }
    } else if typ == 1 && tag == 7 {
        WalkState { size: v, ..st }
    } else if typ == 1 && tag == 8 {
        WalkState { report_id: (v % 256) as u8, ..st }
    } else if typ == 1 && tag == 9 {
        WalkState { count: v, ..st }
    } else if typ == 2 && tag == 0 {
        WalkState { usage: (v % 65536) as u16, ..st }
    } else {
        st
    }
}

/// The lists after an item: a main item Collection (tag 10) adds the page and usage in
/// force, Input (8), Output (9) and Feature (11) add a report of the current id and size.
pub open spec fn next_lists(l: WalkLists, st: WalkState, typ: u8, tag: u8) -> WalkLists {
    let e = HidReportEntry { report_id: st.report_id, size_bits: bits_of(st) };
    if typ == 0 && tag == 10 {
        (l.0.push((st.page, st.usage)), l.1, l.2, l.3)
    } else if typ == 0 && tag == 8 {
        (l.0, l.1.push(e), l.2, l.3)
    } else if typ == 0 && tag == 9 {
        (l.0, l.1, l.2.push(e), l.3)
    } else if typ == 0 && tag == 11 {
        (l.0, l.1, l.2, l.3.push(e))
    } else {
        l
    }
}

/// The walk from position `i`: each item's header gives its type (bits 2-3), tag (bits
/// 4-7) and data size; the walk stops at the end or at an item whose data runs past it.
pub open spec fn walk(d: Seq<u8>, i: int, st: WalkState, l: WalkLists) -> WalkLists
    decreases d.len() - i,
{
    if i < 0 || i >= d.len() {
        l
    } else {
        let h = d[i];
        let n = data_size(h);
        if i + 1 + n > d.len() {
            l
        } else {
            let typ = ((h / 4) % 4) as u8;
            let tag = ((h / 16) % 16) as u8;
            let v = item_value(d, i + 1, n);
            walk(d, i + 1 + n, next_state(st, typ, tag, v), next_lists(l, st, typ, tag))
        }
    }
}

/// The walk's start: everything zero, every list empty.
pub open spec fn initial_state() -> WalkState {
    WalkState { page: 0, usage: 0, report_id: 0, size: 0, count: 0 }
}

/// What a collection is called: Mouse or Keyboard in the Generic Desktop page, other
/// Generic Desktop usages, vendor-defined pages (0xFF00 and up), or unknown.
pub open spec fn spec_collection_name(page: u16, usage: u16) -> Seq<char> {
    if page == 0x01 {
        if usage == 0x02 { "Mouse"@ } else if usage == 0x06 { "Keyboard"@ } else { "Generic Desktop"@ }
    } else if page >= 0xFF00 {
        "Vendor Defined"@
    } else {
        "Unknown"@
    }
}

/// What a collection is called.
pub fn collection_name(page: u16, usage: u16) -> (r: &'static str)
    ensures
        r@ == spec_collection_name(page, usage),
{
    if page == 0x01 {
        if usage == 0x02 { "Mouse" } else if usage == 0x06 { "Keyboard" } else { "Generic Desktop" }
    } else if page >= 0xFF00 {
        "Vendor Defined"
    } else {
        "Unknown"
    }
}

/// The bytes as two uppercase hex digits each, separated by single spaces.
pub open spec fn hex_bytes(d: Seq<u8>) -> Seq<char>
    decreases d.len(),
{
    if d.len() == 0 {
        Seq::empty()
    } else if d.len() == 1 {
        hex_pad(d[0] as nat, 2, true)
    } else {
        hex_bytes(d.drop_last()) + " "@ + hex_pad(d.last() as nat, 2, true)
    }
}

/// The bytes as two uppercase hex digits each, separated by single spaces.
pub fn hex_byte_list(d: &[u8]) -> (r: String)
    ensures
        r@ == hex_bytes(d@),
{
    let mut r = String::new();
    let mut i: usize = 0;
    while i < d.len()
        invariant
            i <= d@.len(),
            r@ == hex_bytes(d@.take(i as int)),
        decreases d.len() - i,
    {
        assert(d@.take(i + 1).drop_last() =~= d@.take(i as int));
        if i > 0 {
            append_str(&mut r, " ");
        }
        let h = hex_pad_string(d[i] as u64, 2, true);
        append_str(&mut r, h.as_str());
        i = i + 1;
    }
    assert(d@.take(d@.len() as int) =~= d@);
    r
}

/// The page and usage of each collection.
pub open spec fn collection_keys(cs: Seq<HidCollection>) -> Seq<(u16, u16)> {
    cs.map_values(|c: HidCollection| (c.usage_page, c.usage))
}

/// Every collection carries the name of its page and usage.
pub open spec fn collections_named(cs: Seq<HidCollection>) -> bool {
    forall|k: int| 0 <= k < cs.len() ==> (#[trigger] cs[k]).description@ == spec_collection_name(cs[k].usage_page, cs[k].usage)
}

fn value_at(d: &[u8], at: usize, n: usize) -> (v: u32)
    requires
        n == 0 || n == 1 || n == 2 || n == 4,
        at + n <= d@.len(),
    ensures
        v == item_value(d@, at as int, n as int),
{
    if n == 1 {
        d[at] as u32
    } else if n == 2 {
        d[at] as u32 + (d[at + 1] as u32) * 256
    } else if n == 4 {
        d[at] as u32 + (d[at + 1] as u32) * 256 + (d[at + 2] as u32) * 65536 + (d[at + 3] as u32) * 16777216
    } else {
        0
    }
}

/// Lists the collections and reports of a HID report descriptor.
#[verifier::rlimit(50)]
pub fn parse_hid_descriptor(hidraw_path: &str, descriptor: &[u8]) -> (r: HidReportInfo)
    ensures
        r.hidraw_path@ == hidraw_path@,
        r.descriptor_bytes == descriptor@.len(),
        r.descriptor_hex@ == hex_bytes(descriptor@),
        (collection_keys(r.collections@), r.input_reports@, r.output_reports@, r.feature_reports@)
            == walk(descriptor@, 0, initial_state(), (Seq::empty(), Seq::empty(), Seq::empty(), Seq::empty())),
        collections_named(r.collections@),
{
    let ghost goal = walk(descriptor@, 0, initial_state(), (Seq::empty(), Seq::empty(), Seq::empty(), Seq::empty()));
    let mut collections: Vec<HidCollection> = Vec::new();
    let mut inputs: Vec<HidReportEntry> = Vec::new();
    let mut outputs: Vec<HidReportEntry> = Vec::new();
    let mut features: Vec<HidReportEntry> = Vec::new();
    let mut st = WalkState { page: 0, usage: 0, report_id: 0, size: 0, count: 0 };
    let n = descriptor.len();
    assert(collection_keys(collections@) =~= Seq::<(u16, u16)>::empty());
    let mut i: usize = 0;
    while i < n
        invariant
            n == descriptor@.len(),
            i <= n,
            collections_named(collections@),
            walk(descriptor@, i as int, st, (collection_keys(collections@), inputs@, outputs@, features@)) == goal,
        decreases n - i,
    {
        let h = descriptor[i];
        let size: usize = if h % 4 == 3 { 4 } else { (h % 4) as usize };
        if size > n - i - 1 {
            i = n;
            continue;
        }
        let typ: u8 = (h / 4) % 4;
        let tag: u8 = (h / 16) % 16;
        let v = value_at(descriptor, i + 1, size);
        let ghost l = (collection_keys(collections@), inputs@, outputs@, features@);
        assert((st.size as int) * (st.count as int) <= 0xFFFF_FFFE_0000_0001) by (nonlinear_arith)
            requires
                st.size <= 0xFFFF_FFFF,
                st.count <= 0xFFFF_FFFF;
        let bits: u32 = ((st.size as u64 * st.count as u64) % 0x1_0000_0000) as u32;
        let e = HidReportEntry { report_id: st.report_id, size_bits: bits };
        if typ == 0 && tag == 10 {
            collections.push(HidCollection {
                usage_page: st.page,
                usage: st.usage,
                description: owned(collection_name(st.page, st.usage)),
            });
            assert(collection_keys(collections@) =~= l.0.push((st.page, st.usage)));
        } else if typ == 0 && tag == 8 {
            inputs.push(e);
        } else if typ == 0 && tag == 9 {
            outputs.push(e);
        } else if typ == 0 && tag == 11 {
            features.push(e);
        }
        assert((collection_keys(collections@), inputs@, outputs@, features@) == next_lists(l, st, typ, tag));
        if typ == 1 && tag == 0 {
            st.page = (v % 65536) as u16;
        } else if typ == 1 && tag == 7 {
            st.size = v;
        } else if typ == 1 && tag == 8 {
            st.report_id = (v % 256) as u8;
        } else if typ == 1 && tag == 9 {
            st.count = v;
        } else if typ == 2 && tag == 0 {
            st.usage = (v % 65536) as u16;
        }
        i = i + 1 + size;
    }
    HidReportInfo {
        hidraw_path: owned(hidraw_path),
        descriptor_bytes: n,
        descriptor_hex: hex_byte_list(descriptor),
        collections,
        input_reports: inputs,
        output_reports: outputs,
        feature_reports: features,
    }
}

/// `n` spaces.
pub open spec fn spaces(n: int) -> Seq<char> {
    Seq::new(if n > 0 { n as nat } else { 0 }, |k: int| ' ')
}

/// Each byte as two uppercase hex digits followed by a space.
pub open spec fn chunk_hex(c: Seq<u8>) -> Seq<char>
    decreases c.len(),
{
    if c.len() == 0 {
        Seq::empty()
    } else {
        chunk_hex(c.drop_last()) + hex_pad(c.last() as nat, 2, true) + " "@
    }
}

/// A printable ASCII byte (`u8::is_ascii_graphic`) as its character, any other as `.`.
pub open spec fn shown_char(b: u8) -> char {
    if 0x21 <= b && b <= 0x7E { b as char } else { '.' }
}

/// The bytes of the `k`-th 16-byte chunk.
pub open spec fn chunk(d: Seq<u8>, k: int) -> Seq<u8> {
    d.subrange(16 * k, if 16 * k + 16 < d.len() { 16 * k + 16 } else { d.len() as int })
}

/// One line of a hex dump: indent, offset in four hex digits, the bytes in hex padded
/// to 48 columns, and the printable characters between bars.
pub open spec fn dump_line(d: Seq<u8>, k: int, indent: nat) -> Seq<char> {
    let c = chunk(d, k);
    spaces(indent as int) + hex_pad((16 * k) as nat, 4, true) + "  "@ + chunk_hex(c) + spaces(48 - chunk_hex(c).len())
        + "  |"@ + c.map_values(|b: u8| shown_char(b)) + "|"@
}

/// The number of 16-byte chunks of `n` bytes.
pub open spec fn chunk_count(n: int) -> int {
    (n + 15) / 16
}

proof fn lemma_hex2_len(b: nat)
    requires
        b < 256,
    ensures
        hex_pad(b, 2, true).len() == 2,
{
    if b < 16 {
        assert(crate::text::hex(b, true).len() == 1);
    } else {
        assert(crate::text::hex(b / 16, true).len() == 1);
        assert(crate::text::hex(b, true).len() == 2);
    }
}

proof fn lemma_chunk_hex_len(c: Seq<u8>)
    ensures
        chunk_hex(c).len() == 3 * c.len(),
    decreases c.len(),
{
    reveal_strlit(" ");
    if c.len() > 0 {
        lemma_chunk_hex_len(c.drop_last());
        lemma_hex2_len(c.last() as nat);
    }
}

/// The lines of a hex dump of `data`, 16 bytes per line.
#[verifier::rlimit(50)]
pub fn hex_dump_lines(data: &[u8], indent: usize) -> (r: Vec<String>)
    requires
        data@.len() <= 0x7FFF_FFFF,
    ensures
        r@.len() == chunk_count(data@.len() as int),
        forall|k: int| 0 <= k < r@.len() ==> (#[trigger] r@[k])@ == dump_line(data@, k, indent as nat),
{
    let mut out: Vec<String> = Vec::new();
    let n = data.len();
    let mut k: usize = 0;
    while k * 16 < n
        invariant
            n == data@.len(),
            n <= 0x7FFF_FFFF,
            out@.len() == k,
            k * 16 <= n + 15,
            forall|j: int| 0 <= j < k ==> (#[trigger] out@[j])@ == dump_line(data@, j, indent as nat),
        decreases n + 16 - k * 16,
    {
        let start = k * 16;
        let end = if start + 16 < n { start + 16 } else { n };
        let ghost c = chunk(data@, k as int);
        let mut line = String::new();
        let mut s: usize = 0;
        while s < indent
            invariant
                s <= indent,
                line@ == spaces(s as int),
            decreases indent - s,
        {
            push_char(&mut line, ' ');
            assert(line@ =~= spaces(s + 1));
            s = s + 1;
        }
        let off = hex_pad_string(start as u64, 4, true);
        append_str(&mut line, off.as_str());
        append_str(&mut line, "  ");
        let ghost pre = line@;
        let mut hex = String::new();
        let mut ascii = String::new();
        let mut b: usize = start;
        while b < end
            invariant
                start <= b <= end,
                end <= n,
                n == data@.len(),
                start == 16 * k,
                end as int == (if 16 * k + 16 < n { 16 * k + 16 } else { n as int }),
                hex@ == chunk_hex(data@.subrange(start as int, b as int)),
                ascii@ == data@.subrange(start as int, b as int).map_values(|x: u8| shown_char(x)),
            decreases end - b,
        {
            assert(data@.subrange(start as int, b + 1).drop_last() =~= data@.subrange(start as int, b as int));
            let h = hex_pad_string(data[b] as u64, 2, true);
            append_str(&mut hex, h.as_str());
            append_str(&mut hex, " ");
            let x = data[b];
            let ch: char = if 0x21 <= x && x <= 0x7E { x as char } else { '.' };
            push_char(&mut ascii, ch);
            assert(ascii@ =~= data@.subrange(start as int, b + 1).map_values(|y: u8| shown_char(y)));
            b = b + 1;
        }
        assert(data@.subrange(start as int, end as int) =~= c);
        proof { lemma_chunk_hex_len(c); }
        append_str(&mut line, hex.as_str());
        let mut w: usize = (end - start) * 3;
        let ghost mid = line@;
        while w < 48
            invariant
                (end - start) * 3 <= w <= 48 || (w == (end - start) * 3 && w >= 48),
                line@ == mid + spaces(w - (end - start) * 3),
            decreases 48 - w,
        {
            push_char(&mut line, ' ');
            assert(line@ =~= mid + spaces(w + 1 - (end - start) * 3));
            w = w + 1;
        }
        append_str(&mut line, "  |");
        append_str(&mut line, ascii.as_str());
        append_str(&mut line, "|");
        assert(line@ =~= dump_line(data@, k as int, indent as nat));
        out.push(line);
        k = k + 1;
    }
    out
}

/// The line of one collection.
pub open spec fn collection_line(c: HidCollection) -> Seq<char> {
    "    Usage Page: 0x"@ + hex_pad(c.usage_page as nat, 4, true) + "  Usage: 0x"@ + hex_pad(c.usage as nat, 4, true)
        + "  → "@ + c.description@
}

/// The line of one input report, with its size in bits and whole bytes.
pub open spec fn input_line(e: HidReportEntry) -> Seq<char> {
    "    ID=0x"@ + hex_pad(e.report_id as nat, 2, true) + "  "@ + dec(e.size_bits as nat) + " bits ("@
        + dec((e.size_bits / 8) as nat) + " bytes)"@
}

/// The line of one output or feature report, with its size in bits.
pub open spec fn report_line(e: HidReportEntry) -> Seq<char> {
    "    ID=0x"@ + hex_pad(e.report_id as nat, 2, true) + "  "@ + dec(e.size_bits as nat) + " bits"@
}

/// Some collection has a vendor-defined usage page (0xFF00 and up).
pub open spec fn has_vendor_collection(cs: Seq<HidCollection>) -> bool {
    exists|k: int| 0 <= k < cs.len() && (#[trigger] cs[k]).usage_page >= 0xFF00
}

/// The lines describing what the walk found: collections, input reports, output and
/// feature reports when there are any, and a note when a collection is vendor-defined.
pub open spec fn spec_info_lines(info: HidReportInfo) -> Seq<Seq<char>> {
    seq!["  Coleções HID detectadas: "@ + dec(info.collections@.len())]
        + info.collections@.map_values(|c: HidCollection| collection_line(c))
        + seq![Seq::<char>::empty(), "  Input reports: "@ + dec(info.input_reports@.len())]
        + info.input_reports@.map_values(|e: HidReportEntry| input_line(e))
        + (if info.output_reports@.len() > 0 {
            seq!["  Output reports: "@ + dec(info.output_reports@.len())]
                + info.output_reports@.map_values(|e: HidReportEntry| report_line(e))
        } else {
            Seq::empty()
        })
        + (if info.feature_reports@.len() > 0 {
            seq!["  Feature reports: "@ + dec(info.feature_reports@.len())]
                + info.feature_reports@.map_values(|e: HidReportEntry| report_line(e))
        } else {
            Seq::empty()
        })
        + (if has_vendor_collection(info.collections@) {
            seq![
                Seq::<char>::empty(),
                "  ⚠  Coleção 'Vendor Defined' detectada (usage_page >= 0xFF00)."@,
                "     Isso indica que o dispositivo possui relatórios HID proprietários."@,
                "     Esses relatórios controlam funcionalidades como DPI, LED, etc."@,
                "     O protocolo exato precisa de engenharia reversa (Fase 8)."@,
            ]
        } else {
            Seq::empty()
        })
}

#[verifier::rlimit(50)]
fn entry_lines(out: &mut Vec<String>, es: &Vec<HidReportEntry>, with_bytes: bool)
    ensures
        string_views(final(out)@) == string_views(old(out)@) + if with_bytes {
            es@.map_values(|e: HidReportEntry| input_line(e))
        } else {
            es@.map_values(|e: HidReportEntry| report_line(e))
        },
{
    let ghost base = string_views(out@);
    let ghost want = if with_bytes {
        es@.map_values(|e: HidReportEntry| input_line(e))
    } else {
        es@.map_values(|e: HidReportEntry| report_line(e))
    };
    let mut i: usize = 0;
    while i < es.len()
        invariant
            i <= es@.len(),
            want.len() == es@.len(),
            want == if with_bytes {
                es@.map_values(|e: HidReportEntry| input_line(e))
            } else {
                es@.map_values(|e: HidReportEntry| report_line(e))
            },
            string_views(out@) == base + want.take(i as int),
        decreases es.len() - i,
    {
        let e = es[i];
        let mut l = owned("    ID=0x");
        let h = hex_pad_string(e.report_id as u64, 2, true);
        append_str(&mut l, h.as_str());
        append_str(&mut l, "  ");
        append_dec(&mut l, e.size_bits as u64);
        append_str(&mut l, " bits");
        if with_bytes {
            append_str(&mut l, " (");
            append_dec(&mut l, (e.size_bits / 8) as u64);
            append_str(&mut l, " bytes)");
        }
        proof {
            if with_bytes {
                reveal_strlit(" bits (");
                reveal_strlit(" bits");
                reveal_strlit(" (");
                assert(want[i as int] == input_line(es@[i as int]));
                assert(l@ =~= input_line(e));
            } else {
                assert(want[i as int] == report_line(es@[i as int]));
                assert(l@ =~= report_line(e));
            }
        }
        let ghost before = out@;
        out.push(l);
        assert(string_views(out@) =~= string_views(before).push(want[i as int]));
        assert(want.take(i + 1) =~= want.take(i as int).push(want[i as int]));
        i = i + 1;
    }
    assert(want.take(es@.len() as int) =~= want);
}

fn push_line(out: &mut Vec<String>, l: String)
    ensures
        string_views(final(out)@) == string_views(old(out)@).push(l@),
{
    out.push(l);
    assert(string_views(out@) =~= string_views(old(out)@).push(l@));
}

fn count_line(label: &str, n: usize) -> (r: String)
    ensures
        r@ == label@ + dec(n as nat),
{
    let mut l = owned(label);
    append_dec(&mut l, n as u64);
    l
}

/// The lines describing what the walk over a descriptor found.
#[verifier::rlimit(50)]
pub fn hid_info_lines(info: &HidReportInfo) -> (r: Vec<String>)
    ensures
        string_views(r@) == spec_info_lines(*info),
{
    let mut out: Vec<String> = Vec::new();
    push_line(&mut out, count_line("  Coleções HID detectadas: ", info.collections.len()));
    let ghost cl = info.collections@.map_values(|c: HidCollection| collection_line(c));
    let ghost b0 = string_views(out@);
    let mut i: usize = 0;
    while i < info.collections.len()
        invariant
            i <= info.collections@.len(),
            cl == info.collections@.map_values(|c: HidCollection| collection_line(c)),
            string_views(out@) == b0 + cl.take(i as int),
        decreases info.collections.len() - i,
    {
        let c = &info.collections[i];
        let mut l = owned("    Usage Page: 0x");
        let p = hex_pad_string(c.usage_page as u64, 4, true);
        append_str(&mut l, p.as_str());
        append_str(&mut l, "  Usage: 0x");
        let u = hex_pad_string(c.usage as u64, 4, true);
        append_str(&mut l, u.as_str());
        append_str(&mut l, "  → ");
        append_str(&mut l, c.description.as_str());
        push_line(&mut out, l);
        assert(cl.take(i + 1) =~= cl.take(i as int).push(cl[i as int]));
        i = i + 1;
    }
    assert(cl.take(info.collections@.len() as int) =~= cl);
    push_line(&mut out, String::new());
    push_line(&mut out, count_line("  Input reports: ", info.input_reports.len()));
    entry_lines(&mut out, &info.input_reports, true);
    let ghost b1 = string_views(out@);
    if info.output_reports.len() > 0 {
        push_line(&mut out, count_line("  Output reports: ", info.output_reports.len()));
        entry_lines(&mut out, &info.output_reports, false);
    }
    let ghost b2 = string_views(out@);
    if info.feature_reports.len() > 0 {
        push_line(&mut out, count_line("  Feature reports: ", info.feature_reports.len()));
        entry_lines(&mut out, &info.feature_reports, false);
    }
    let ghost b3 = string_views(out@);
    let mut vendor = false;
    let mut k: usize = 0;
    while k < info.collections.len()
        invariant
            k <= info.collections@.len(),
            vendor <==> exists|j: int| 0 <= j < k && (#[trigger] info.collections@[j]).usage_page >= 0xFF00,
        decreases info.collections.len() - k,
    {
        if info.collections[k].usage_page >= 0xFF00 {
            vendor = true;
        }
        k = k + 1;
    }
    if vendor {
        push_line(&mut out, String::new());
        push_line(&mut out, owned("  ⚠  Coleção 'Vendor Defined' detectada (usage_page >= 0xFF00)."));
        push_line(&mut out, owned("     Isso indica que o dispositivo possui relatórios HID proprietários."));
        push_line(&mut out, owned("     Esses relatórios controlam funcionalidades como DPI, LED, etc."));
        push_line(&mut out, owned("     O protocolo exato precisa de engenharia reversa (Fase 8)."));
    }
    assert(string_views(out@) =~= spec_info_lines(*info));
    out
}

} // verus!
