//! The feature reports that set DPI and polling rate on the mouse, the decoding of the
//! state report it answers with, and the choice of hidraw nodes they are sent to.

use vstd::prelude::*;
use crate::battery::types::string_views;
use crate::config::{spec_valid_dpi, spec_valid_polling_rate, validate_dpi, validate_polling_rate};
use crate::error::OpenRapooError;
use crate::text::{append_dec, append_str, chars_eq, chars_of, dec, has_sub, lowercase, owned, str_contains, to_lowercase};

verus! {

/// XOR of all bytes.
pub open spec fn xor_all(s: Seq<u8>) -> u8
    decreases s.len(),
{
    if s.len() == 0 {
        0
    } else {
        xor_all(s.drop_last()) ^ s.last()
    }
}

/// The first 14 bytes of a report: report id `0x07`, the payload, then zeros.
pub open spec fn report_head(payload: Seq<u8>) -> Seq<u8> {
    Seq::new(14, |i: int| if i == 0 { 0x07u8 } else if i - 1 < payload.len() { payload[i - 1] } else { 0u8 })
}

/// A 64-byte report: the head, at byte 14 the XOR of bytes 1 to 13, then zeros.
pub open spec fn framed(payload: Seq<u8>) -> Seq<u8> {
    report_head(payload) + seq![xor_all(report_head(payload).subrange(1, 14))] + Seq::new(49, |i: int| 0u8)
}

/// Builds the 64-byte report that carries `payload` after the report id.
pub fn frame_report(payload: &[u8]) -> (r: Vec<u8>)
    requires
        payload@.len() <= 13,
    ensures
        r@ == framed(payload@),
{
    let ghost head = report_head(payload@);
    let mut r: Vec<u8> = Vec::new();
    r.push(0x07);
    assert(r@ =~= head.take(1));
    let mut i: usize = 1;
    while i < 14
        invariant
            1 <= i <= 14,
            payload@.len() <= 13,
            head == report_head(payload@),
            r@ == head.take(i as int),
        decreases 14 - i,
    {
        if i - 1 < payload.len() {
            r.push(payload[i - 1]);
        } else {
            r.push(0);
        }
        assert(r@ =~= head.take(i + 1));
        i = i + 1;
    }
    assert(r@ =~= head);
    let mut crc: u8 = 0;
    let mut j: usize = 1;
    while j < 14
        invariant
            1 <= j <= 14,
            head.len() == 14,
            r@ == head,
            crc == xor_all(head.subrange(1, j as int)),
        decreases 14 - j,
    {
        assert(head.subrange(1, j + 1).drop_last() =~= head.subrange(1, j as int));
        crc = crc ^ r[j];
        j = j + 1;
    }
    r.push(crc);
    while r.len() < 64
        invariant
            15 <= r@.len() <= 64,
            head == report_head(payload@),
            r@ == head + seq![crc] + Seq::new((r@.len() - 15) as nat, |k: int| 0u8),
            crc == xor_all(head.subrange(1, 14)),
        decreases 64 - r.len(),
    {
        let ghost n = r@.len();
        r.push(0);
        assert(r@ =~= head + seq![crc] + Seq::new((n + 1 - 15) as nat, |k: int| 0u8));
    }
    assert(r@ =~= framed(payload@));
    r
}

/// The DPI gear, kept between 1 and 7.
pub open spec fn clamp_gear(gear: u8) -> u8 {
    if gear < 1 { 1 } else if gear > 7 { 7 } else { gear }
}

/// Category 0x02, command 0x02: the gear, then the DPI as low and high byte, for X and Y.
pub open spec fn dpi_value_payload(dpi: u32, gear: u8) -> Seq<u8> {
    let lo = (dpi % 256) as u8;
    let hi = ((dpi / 256) % 256) as u8;
    seq![0x02u8, 0x02u8, clamp_gear(gear), lo, hi, lo, hi]
}

/// Category 0x02, command 0x01: make the gear the active one.
pub open spec fn gear_payload(gear: u8) -> Seq<u8> {
    seq![0x02u8, 0x01u8, clamp_gear(gear)]
}

/// The two reports that set `dpi` on `gear` and make that gear active; the DPI must be
/// one the mouse accepts, else the error that `validate_dpi` gives.
pub fn dpi_reports(dpi: u32, gear: u8) -> (r: Result<(Vec<u8>, Vec<u8>), OpenRapooError>)
    ensures
        r is Ok <==> spec_valid_dpi(dpi),
        r matches Ok((v, g)) ==> v@ == framed(dpi_value_payload(dpi, gear)) && g@ == framed(gear_payload(gear)),
        r matches Err(OpenRapooError::Config(m)) && m@ == "DPI "@ + dec(dpi as nat)
            + " is invalid. Must be between 50 and 26000 in steps of 50."@ || r is Ok,
{
    match validate_dpi(dpi) {
        Err(e) => Err(e),
        Ok(()) => {
            let g: u8 = if gear < 1 { 1 } else if gear > 7 { 7 } else { gear };
            let lo = (dpi % 256) as u8;
            let hi = ((dpi / 256) % 256) as u8;
            let value = frame_report(&[0x02u8, 0x02u8, g, lo, hi, lo, hi]);
            let active = frame_report(&[0x02u8, 0x01u8, g]);
            assert(seq![0x02u8, 0x02u8, g, lo, hi, lo, hi] =~= dpi_value_payload(dpi, gear));
            assert(seq![0x02u8, 0x01u8, g] =~= gear_payload(gear));
            Ok((value, active))
        },
    }
}

/// The code the mouse uses for a polling rate in Hz.
pub open spec fn spec_rate_code(hz: u32) -> Option<u8> {
    if hz == 125 {
        Some(0x01)
    } else if hz == 250 {
        Some(0x02)
    } else if hz == 500 {
        Some(0x04)
    } else if hz == 1000 {
        Some(0x08)
    } else {
        None
    }
}

/// The code the mouse uses for a polling rate in Hz, if it has one.
pub fn polling_rate_code(hz: u32) -> (r: Option<u8>)
    ensures
        r == spec_rate_code(hz),
{
    if hz == 125 {
        Some(0x01)
    } else if hz == 250 {
        Some(0x02)
    } else if hz == 500 {
        Some(0x04)
    } else if hz == 1000 {
        Some(0x08)
    } else {
        None
    }
}

/// The report that sets the polling rate (category 0x03, then the rate's code); the
/// rate must be one the mouse accepts, else the error that `validate_polling_rate` gives.
pub fn polling_rate_report(hz: u32) -> (r: Result<Vec<u8>, OpenRapooError>)
    ensures
        r is Ok <==> spec_valid_polling_rate(hz),
        r matches Ok(v) ==> v@ == framed(seq![0x03u8, spec_rate_code(hz).unwrap()]),
        r matches Err(OpenRapooError::Config(m)) && m@ == "Polling rate "@ + dec(hz as nat)
            + "Hz is unsupported. Supported values: 125, 250, 500, 1000 Hz."@ || r is Ok,
{
    match validate_polling_rate(hz) {
        Err(e) => Err(e),
        Ok(()) => {
            match polling_rate_code(hz) {
                Some(code) => {
                    let v = frame_report(&[0x03u8, code]);
                    assert(seq![0x03u8, code] =~= seq![0x03u8, spec_rate_code(hz).unwrap()]);
                    Ok(v)
                },
                None => {
                    let mut m = owned("Unsupported polling rate ");
                    append_dec(&mut m, hz as u64);
                    append_str(&mut m, " Hz");
                    Err(OpenRapooError::Config(m))
                },
            }
        },
    }
}

/// The report as sent under another report id: byte 0 replaced, the rest unchanged.
pub fn with_report_id(base: &[u8], report_id: u8) -> (r: Vec<u8>)
    requires
        base@.len() >= 1,
    ensures
        r@ == base@.update(0, report_id),
{
    let mut r: Vec<u8> = Vec::new();
    r.push(report_id);
    let mut i: usize = 1;
    while i < base.len()
        invariant
            1 <= i <= base@.len(),
            r@ == base@.update(0, report_id).take(i as int),
        decreases base.len() - i,
    {
        r.push(base[i]);
        assert(r@ =~= base@.update(0, report_id).take(i + 1));
        i = i + 1;
    }
    assert(r@ =~= base@.update(0, report_id));
    r
}

/// The DPI of each gear when the report carries no explicit value.
pub open spec fn gear_dpi(gear: u8) -> u32 {
    if gear == 1 {
        400
    } else if gear == 2 {
        800
    } else if gear == 3 {
        1200
    } else if gear == 4 {
        1600
    } else if gear == 5 {
        2400
    } else if gear == 6 {
        3200
    } else if gear == 7 {
        6400
    } else {
        1200
    }
}

/// The polling rate in Hz of a rate code; 1000 for an unknown code.
pub open spec fn rate_of_code(code: u8) -> u32 {
    if code == 0x01 {
        125
    } else if code == 0x02 {
        250
    } else if code == 0x04 {
        500
    } else {
        1000
    }
}

/// DPI and polling rate read from a state report: the DPI from bytes 4 (low) and 5
/// (high) when either is set, else from the gear in byte 3, else 1200; the rate from
/// the code in byte 2.
pub open spec fn spec_hardware_state(report: Seq<u8>) -> (u32, u32) {
    let dpi: u32 = if report[4] > 0 || report[5] > 0 {
        (report[4] + report[5] * 256) as u32
    } else if report[3] > 0 {
        gear_dpi(report[3])
    } else {
        1200
    };
    (dpi, rate_of_code(report[2]))
}

/// Decodes the DPI and polling rate from a 64-byte state report.
pub fn decode_hardware_state(report: &[u8]) -> (r: (u32, u32))
    requires
        report@.len() == 64,
    ensures
        r == spec_hardware_state(report@),
{
    let dpi: u32 = if report[4] > 0 || report[5] > 0 {
        report[4] as u32 + (report[5] as u32) * 256
    } else if report[3] > 0 {
        let g = report[3];
        if g == 1 {
            400
        } else if g == 2 {
            800
        } else if g == 3 {
            1200
        } else if g == 4 {
            1600
        } else if g == 5 {
            2400
        } else if g == 6 {
            3200
        } else if g == 7 {
            6400
        } else {
            1200
        }
    } else {
        1200
    };
    let code = report[2];
    let hz: u32 = if code == 0x01 {
        125
    } else if code == 0x02 {
        250
    } else if code == 0x04 {
        500
    } else {
        1000
    };
    (dpi, hz)
}

/// A hidraw node belongs to a Rapoo device when its uevent text, lowercased, mentions
/// the vendor id `24ae` or the name `rapoo`.
pub open spec fn rapoo_uevent(uevent: Seq<char>) -> bool {
    has_sub(lowercase(uevent), "24ae"@) || has_sub(lowercase(uevent), "rapoo"@)
}

/// The names and uevent texts of hidraw entries, as characters.
pub open spec fn entry_views(entries: Seq<(String, String)>) -> Seq<(Seq<char>, Seq<char>)> {
    entries.map_values(|e: (String, String)| (e.0@, e.1@))
}

/// `/dev/<name>` for each Rapoo entry, in order, after `start`, each node once.
pub open spec fn node_fold(start: Seq<Seq<char>>, entries: Seq<(Seq<char>, Seq<char>)>) -> Seq<Seq<char>>
    decreases entries.len(),
{
    if entries.len() == 0 {
        start
    } else {
        let prev = node_fold(start, entries.drop_last());
        let node = "/dev/"@ + entries.last().0;
        if rapoo_uevent(entries.last().1) && !prev.contains(node) {
            prev.push(node)
        } else {
            prev
        }
    }
}

/// The nodes a report goes to: the given node first (when it exists), then the Rapoo
/// entries; `/dev/hidraw0` when there is none.
pub open spec fn spec_hidraw_nodes(candidate: Option<Seq<char>>, entries: Seq<(Seq<char>, Seq<char>)>) -> Seq<Seq<char>> {
    let start = match candidate {
        Some(c) => seq![c],
        None => Seq::empty(),
    };
    let found = node_fold(start, entries);
    if found.len() == 0 {
        seq!["/dev/hidraw0"@]
    } else {
        found
    }
}

fn listed(nodes: &Vec<String>, node: &str) -> (r: bool)
    ensures
        r == string_views(nodes@).contains(node@),
{
    let target = chars_of(node);
    let mut i: usize = 0;
    while i < nodes.len()
        invariant
            i <= nodes@.len(),
            target@ == node@,
            forall|j: int| 0 <= j < i ==> nodes@[j]@ != node@,
        decreases nodes.len() - i,
    {
        let c = chars_of(nodes[i].as_str());
        if chars_eq(c.as_slice(), target.as_slice()) {
            assert(string_views(nodes@)[i as int] == node@);
            return true;
        }
        i = i + 1;
    }
    proof {
        if string_views(nodes@).contains(node@) {
            let j = choose|j: int| 0 <= j < string_views(nodes@).len() && string_views(nodes@)[j] == node@;
            assert(nodes@[j]@ == node@);
        }
    }
    false
}

/// The hidraw nodes of Rapoo devices, from the entries of `/sys/class/hidraw` (name and
/// uevent text) and the node the caller named, given only when it exists.
pub fn rapoo_hidraw_nodes(existing_candidate: Option<&str>, entries: &Vec<(String, String)>) -> (r: Vec<String>)
    ensures
        string_views(r@) == spec_hidraw_nodes(
            match existing_candidate { Some(c) => Some(c@), None => None },
            entry_views(entries@),
        ),
{
    let ghost start = match existing_candidate { Some(c) => seq![c@], None => Seq::<Seq<char>>::empty() };
    let ghost ev = entry_views(entries@);
    let mut nodes: Vec<String> = Vec::new();
    match existing_candidate {
        Some(c) => {
            nodes.push(owned(c));
        },
        None => {},
    }
    assert(string_views(nodes@) =~= start);
    assert(ev.take(0) =~= Seq::<(Seq<char>, Seq<char>)>::empty());
    let mut i: usize = 0;
    while i < entries.len()
        invariant
            i <= entries@.len(),
            ev == entry_views(entries@),
            string_views(nodes@) == node_fold(start, ev.take(i as int)),
        decreases entries.len() - i,
    {
        let (name, uevent) = (&entries[i].0, &entries[i].1);
        assert(ev.take(i + 1).drop_last() =~= ev.take(i as int));
        assert(ev.take(i + 1).last() == (name@, uevent@));
        let low = to_lowercase(uevent.as_str());
        let is_rapoo = str_contains(low.as_str(), "24ae") || str_contains(low.as_str(), "rapoo");
        if is_rapoo {
            let mut node = owned("/dev/");
            append_str(&mut node, name.as_str());
            if !listed(&nodes, node.as_str()) {
                nodes.push(node);
                assert(string_views(nodes@) =~= node_fold(start, ev.take(i + 1)));
            }
        }
        i = i + 1;
    }
    assert(ev.take(entries@.len() as int) =~= ev);
    if nodes.len() == 0 {
        nodes.push(owned("/dev/hidraw0"));
        assert(string_views(nodes@) =~= seq!["/dev/hidraw0"@]);
    }
    nodes
}

/// Every report built from a payload is 64 bytes long, and its checksum makes the XOR
/// of bytes 1 to 14 zero, which is what the mouse checks.
pub proof fn lemma_report_checksum(payload: Seq<u8>)
    requires
        payload.len() <= 13,
    ensures
        framed(payload).len() == 64,
        framed(payload)[0] == 0x07,
        xor_all(framed(payload).subrange(1, 15)) == 0,
{
    let head = report_head(payload);
    let x = xor_all(head.subrange(1, 14));
    let f = framed(payload);
    assert(f.subrange(1, 15) =~= head.subrange(1, 14).push(x));
    assert(f.subrange(1, 15).drop_last() =~= head.subrange(1, 14));
    assert(x ^ x == 0) by (bit_vector);
}

/// The DPI written by `dpi_reports` is the DPI read back from that report: a valid DPI
/// fits in the report's two bytes and is never zero.
pub proof fn lemma_dpi_read_back(dpi: u32, gear: u8)
    requires
        spec_valid_dpi(dpi),
    ensures
        spec_hardware_state(framed(dpi_value_payload(dpi, gear))).0 == dpi,
{
    let p = dpi_value_payload(dpi, gear);
    let f = framed(p);
    assert(f[4] == p[3]);
    assert(f[5] == p[4]);
    assert(p[3] == (dpi % 256) as u8);
    assert(p[4] == ((dpi / 256) % 256) as u8);
    assert(dpi < 65536);
    assert((dpi % 256) + ((dpi / 256) % 256) * 256 == dpi);
}

/// The rate written by `polling_rate_report` is the rate read back from that report.
pub proof fn lemma_polling_read_back(hz: u32)
    requires
        spec_valid_polling_rate(hz),
    ensures
        spec_hardware_state(framed(seq![0x03u8, spec_rate_code(hz).unwrap()])).1 == hz,
{
    let p = seq![0x03u8, spec_rate_code(hz).unwrap()];
    let f = framed(p);
    assert(f[2] == p[1]);
}

/// The rate codes are the mouse's, pair by pair: 125 Hz is 0x01, 250 Hz 0x02, 500 Hz
/// 0x04, 1000 Hz 0x08, and no other rate has a code; reading a state back, 0x01, 0x02
/// and 0x04 alone give 125, 250 and 500 Hz, and every other code 1000 Hz. The rate
/// report for a supported rate carries category 0x03 and that code.
pub proof fn lemma_rate_code_table(hz: u32, code: u8)
    ensures
        spec_rate_code(hz) is Some <==> (hz == 125 || hz == 250 || hz == 500 || hz == 1000),
        hz == 125 ==> spec_rate_code(hz) == Some(0x01u8),
        hz == 250 ==> spec_rate_code(hz) == Some(0x02u8),
        hz == 500 ==> spec_rate_code(hz) == Some(0x04u8),
        hz == 1000 ==> spec_rate_code(hz) == Some(0x08u8),
        rate_of_code(code) == 125 <==> code == 0x01,
        rate_of_code(code) == 250 <==> code == 0x02,
        rate_of_code(code) == 500 <==> code == 0x04,
        rate_of_code(code) == 1000 <==> (code != 0x01 && code != 0x02 && code != 0x04),
        hz == 250 ==> framed(seq![0x03u8, spec_rate_code(hz).unwrap()]).subrange(0, 3) == seq![0x07u8, 0x03u8, 0x02u8],
        spec_rate_code(hz) is Some ==> framed(seq![0x03u8, spec_rate_code(hz).unwrap()])[1] == 0x03
            && framed(seq![0x03u8, spec_rate_code(hz).unwrap()])[2] == spec_rate_code(hz).unwrap(),
{
    if spec_rate_code(hz) is Some {
        let f = framed(seq![0x03u8, spec_rate_code(hz).unwrap()]);
        assert(f[1] == 0x03 && f[2] == spec_rate_code(hz).unwrap());
        if hz == 250 {
            assert(f.subrange(0, 3) =~= seq![0x07u8, 0x03u8, 0x02u8]);
        }
    }
}

/// No two nodes in the list are the same.
pub open spec fn distinct(s: Seq<Seq<char>>) -> bool {
    forall|a: int, b: int| 0 <= a < b < s.len() ==> s[a] != s[b]
}

proof fn lemma_node_fold_distinct(start: Seq<Seq<char>>, entries: Seq<(Seq<char>, Seq<char>)>)
    requires
        distinct(start),
    ensures
        distinct(node_fold(start, entries)),
        node_fold(start, entries).len() >= start.len(),
    decreases entries.len(),
{
    if entries.len() > 0 {
        lemma_node_fold_distinct(start, entries.drop_last());
        let prev = node_fold(start, entries.drop_last());
        let node = "/dev/"@ + entries.last().0;
        if rapoo_uevent(entries.last().1) && !prev.contains(node) {
            let next = prev.push(node);
            assert forall|a: int, b: int| 0 <= a < b < next.len() implies next[a] != next[b] by {
                if b == prev.len() {
                    assert(prev[a] == next[a]);
                }
            }
        }
    }
}

/// The nodes a report goes to are never none, and none is listed twice.
pub proof fn lemma_hidraw_nodes_distinct(candidate: Option<Seq<char>>, entries: Seq<(Seq<char>, Seq<char>)>)
    ensures
        spec_hidraw_nodes(candidate, entries).len() > 0,
        distinct(spec_hidraw_nodes(candidate, entries)),
{
    let start = match candidate {
        Some(c) => seq![c],
        None => Seq::<Seq<char>>::empty(),
    };
    lemma_node_fold_distinct(start, entries);
}

} // verus!
