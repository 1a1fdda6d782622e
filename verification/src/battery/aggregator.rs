//! Choosing one battery reading among the answers of several providers.
//!
//! Each answer is checked (range, clock skew, age, validity) as it arrives; the
//! accepted ones are cross-checked and the first of them is chosen, otherwise a
//! clearly marked placeholder explains why no level can be shown.

use vstd::prelude::*;
use crate::battery::provider::{current_epoch_seconds, BatteryProvider, DeviceIdentity};
use crate::battery::types::{
    BatteryConfidence, BatteryReading, BatterySource, BatteryState, BatteryValidity, ConflictInfo, string_views,
};
use crate::device::ConnectionType;
use crate::text::{append_dec, append_str, dec, owned};

verus! {

/// The outcome of one aggregation pass.
pub struct AggregatedResult {
    pub chosen: BatteryReading,
    pub all_readings: Vec<BatteryReading>,
    pub discarded: Vec<(BatteryReading, String)>,
    pub conflict: Option<ConflictInfo>,
}

// ---------------------------------------------------------------------------
// Transport rules
// ---------------------------------------------------------------------------

/// How old, in seconds, a reading may be on each transport.
pub open spec fn spec_ttl(t: ConnectionType) -> u64 {
    match t {
        ConnectionType::Bluetooth => 60,
        ConnectionType::UsbCable | ConnectionType::UsbWired => 30,
        ConnectionType::TwoPointFourGhz => 30,
        ConnectionType::Dock => 30,
        _ => 60,
    }
}

/// The time-to-live, in seconds, of a reading on the given transport.
pub fn get_ttl_for_transport(transport: &ConnectionType) -> (r: u64)
    ensures
        r == spec_ttl(*transport),
{
    match transport {
        ConnectionType::Bluetooth => 60,
        ConnectionType::UsbCable | ConnectionType::UsbWired => 30,
        ConnectionType::TwoPointFourGhz => 30,
        ConnectionType::Dock => 30,
        _ => 60,
    }
}

/// Which telemetry sources can describe a device on which transport.
pub open spec fn spec_compatible(s: BatterySource, t: ConnectionType) -> bool {
    match t {
        ConnectionType::Bluetooth => s == BatterySource::BlueZ || s == BatterySource::BluezGatt
            || s == BatterySource::UPower || s == BatterySource::Sysfs,
        ConnectionType::UsbCable | ConnectionType::UsbWired => s == BatterySource::HidStandard
            || s == BatterySource::Sysfs || s == BatterySource::UPower
            || s == BatterySource::HidVendorSpecific,
        ConnectionType::TwoPointFourGhz => s == BatterySource::HidVendorSpecific
            || s == BatterySource::HidStandard || s == BatterySource::UPower,
        ConnectionType::Dock => s == BatterySource::Sysfs || s == BatterySource::HidStandard
            || s == BatterySource::UPower || s == BatterySource::HidVendorSpecific,
        ConnectionType::Unknown => true,
        _ => false,
    }
}

/// Whether a telemetry source is compatible with the active transport.
pub fn is_provider_compatible_with_transport(source: BatterySource, transport: &ConnectionType) -> (r: bool)
    ensures
        r == spec_compatible(source, *transport),
{
    match transport {
        ConnectionType::Bluetooth => match source {
            BatterySource::BlueZ | BatterySource::BluezGatt | BatterySource::UPower
            | BatterySource::Sysfs => true,
            _ => false,
        },
        ConnectionType::UsbCable | ConnectionType::UsbWired => match source {
            BatterySource::HidStandard | BatterySource::Sysfs | BatterySource::UPower
            | BatterySource::HidVendorSpecific => true,
            _ => false,
        },
        ConnectionType::TwoPointFourGhz => match source {
            BatterySource::HidVendorSpecific | BatterySource::HidStandard
            | BatterySource::UPower => true,
            _ => false,
        },
        ConnectionType::Dock => match source {
            BatterySource::Sysfs | BatterySource::HidStandard | BatterySource::UPower
            | BatterySource::HidVendorSpecific => true,
            _ => false,
        },
        ConnectionType::Unknown => true,
        _ => false,
    }
}

/// The sources asked on each transport, source by source: on Bluetooth BlueZ, BlueZ
/// GATT, UPower and sysfs; on a USB cable the standard and vendor HID readers, sysfs and
/// UPower; through a 2.4 GHz dongle the vendor and standard HID readers and UPower; on a
/// dock sysfs, both HID readers and UPower; on NearLink none; on an unknown transport
/// every source.
pub proof fn lemma_sources_by_transport(s: BatterySource, t: ConnectionType)
    ensures
        t == ConnectionType::Bluetooth ==> (spec_compatible(s, t) <==> (s == BatterySource::BlueZ
            || s == BatterySource::BluezGatt || s == BatterySource::UPower || s == BatterySource::Sysfs)),
        (t == ConnectionType::UsbCable || t == ConnectionType::UsbWired) ==> (spec_compatible(s, t) <==> (
            s == BatterySource::HidStandard || s == BatterySource::Sysfs || s == BatterySource::UPower
            || s == BatterySource::HidVendorSpecific)),
        t == ConnectionType::TwoPointFourGhz ==> (spec_compatible(s, t) <==> (s == BatterySource::HidVendorSpecific
            || s == BatterySource::HidStandard || s == BatterySource::UPower)),
        t == ConnectionType::Dock ==> (spec_compatible(s, t) <==> (s == BatterySource::Sysfs
            || s == BatterySource::HidStandard || s == BatterySource::UPower || s == BatterySource::HidVendorSpecific)),
        t == ConnectionType::NearLink ==> !spec_compatible(s, t),
        t == ConnectionType::Unknown ==> spec_compatible(s, t),
{
}

/// On a Bluetooth device, a sysfs provider that reports itself available is asked, and
/// whatever valid, fresh reading it gives is accepted; so is a UPower provider's.
pub proof fn lemma_sysfs_asked_on_bluetooth<P: BatteryProvider>(p: P, r: BatteryReading, now: u64)
    requires
        p.spec_source() == BatterySource::Sysfs || p.spec_source() == BatterySource::UPower,
        r.validity is Valid,
        r.percentage matches Some(x) && x <= 100,
        r.timestamp <= now,
        now - r.timestamp <= 60,
    ensures
        is_asked(p, ConnectionType::Bluetooth, true),
        acceptable(r, now, spec_ttl(ConnectionType::Bluetooth)),
{
}

// ---------------------------------------------------------------------------
// Checking one reading
// ---------------------------------------------------------------------------

/// The reading claims a percentage above 100.
pub open spec fn out_of_range(r: BatteryReading) -> bool {
    r.percentage matches Some(p) && p > 100
}

/// The reading is dated more than five seconds after `now`.
pub open spec fn from_future(r: BatteryReading, now: u64) -> bool {
    r.timestamp > now + 5
}

/// The reading is older than the time-to-live.
pub open spec fn expired(r: BatteryReading, now: u64, ttl: u64) -> bool {
    now > r.timestamp && now - r.timestamp > ttl
}

/// The reading passes every check and its provider marked it valid.
pub open spec fn acceptable(r: BatteryReading, now: u64, ttl: u64) -> bool {
    &&& !out_of_range(r)
    &&& !from_future(r, now)
    &&& !expired(r, now, ttl)
    &&& r.validity is Valid
}

/// The reason recorded for a reading that is not accepted.
pub open spec fn discard_reason(r: BatteryReading, now: u64, ttl: u64) -> Seq<char> {
    if out_of_range(r) {
        "Percentual fora da faixa válida: "@ + dec(r.percentage.unwrap() as nat) + "%"@
    } else if from_future(r, now) {
        "Timestamp no futuro rejeitado"@
    } else if expired(r, now, ttl) {
        "Leitura expirada (idade: "@ + dec((now - r.timestamp) as nat) + "s, max TTL: "@
            + dec(ttl as nat) + "s)"@
    } else {
        match r.invalidation_reason {
            Some(s) => s@,
            None => r.validity.spec_debug(),
        }
    }
}

/// The reading with its validity replaced.
pub open spec fn with_validity(r: BatteryReading, v: BatteryValidity) -> BatteryReading {
    BatteryReading { validity: v, ..r }
}

/// `d` is what is kept of the rejected reading `orig`, and `reason` says why.
pub open spec fn discard_entry(orig: BatteryReading, d: BatteryReading, reason: Seq<char>, now: u64, ttl: u64) -> bool {
    &&& reason == discard_reason(orig, now, ttl)
    &&& d == with_validity(orig, d.validity)
    &&& if out_of_range(orig) || from_future(orig, now) {
        d.validity matches BatteryValidity::Invalid { reason: s } && s@ == reason
    } else if expired(orig, now, ttl) {
        d.validity == (BatteryValidity::StaleReading { age_seconds: (now - orig.timestamp) as u64 })
    } else {
        d == orig
    }
}

/// What becomes of one reading.
pub enum ReadingVerdict {
    /// The reading is kept as it is.
    Accepted(BatteryReading),
    /// The reading is older than the time-to-live.
    Expired(BatteryReading, String),
    /// The reading is rejected for another reason.
    Discarded(BatteryReading, String),
}

/// Checks one reading against the range, the clock and the time-to-live.
pub fn classify_reading(reading: BatteryReading, now: u64, ttl: u64) -> (v: ReadingVerdict)
    ensures
        match v {
            ReadingVerdict::Accepted(r) => acceptable(reading, now, ttl) && r == reading,
            ReadingVerdict::Expired(d, s) => !acceptable(reading, now, ttl)
                && !out_of_range(reading) && !from_future(reading, now) && expired(reading, now, ttl)
                && discard_entry(reading, d, s@, now, ttl),
            ReadingVerdict::Discarded(d, s) => !acceptable(reading, now, ttl)
                && !(!out_of_range(reading) && !from_future(reading, now) && expired(reading, now, ttl))
                && discard_entry(reading, d, s@, now, ttl),
        },
{
    let mut reading = reading;
    if let Some(pct) = reading.percentage {
        if pct > 100 {
            let mut reason = owned("Percentual fora da faixa válida: ");
            append_dec(&mut reason, pct as u64);
            append_str(&mut reason, "%");
            reading.validity = BatteryValidity::Invalid { reason: reason.clone() };
            return ReadingVerdict::Discarded(reading, reason);
        }
    }
    if reading.timestamp > now && reading.timestamp - now > 5 {
        let reason = owned("Timestamp no futuro rejeitado");
        reading.validity = BatteryValidity::Invalid { reason: reason.clone() };
        return ReadingVerdict::Discarded(reading, reason);
    }
    if now > reading.timestamp && now - reading.timestamp > ttl {
        let age_seconds = now - reading.timestamp;
        let mut reason = owned("Leitura expirada (idade: ");
        append_dec(&mut reason, age_seconds);
        append_str(&mut reason, "s, max TTL: ");
        append_dec(&mut reason, ttl);
        append_str(&mut reason, "s)");
        reading.validity = BatteryValidity::StaleReading { age_seconds };
        return ReadingVerdict::Expired(reading, reason);
    }
    if matches!(reading.validity, BatteryValidity::Valid) {
        ReadingVerdict::Accepted(reading)
    } else {
        let reason = match &reading.invalidation_reason {
            Some(s) => s.clone(),
            None => reading.validity.debug_string(),
        };
        ReadingVerdict::Discarded(reading, reason)
    }
}

// ---------------------------------------------------------------------------
// Choosing among the checked readings
// ---------------------------------------------------------------------------

/// The readings of `cs` that are accepted, in order.
pub open spec fn accepted_of(cs: Seq<BatteryReading>, now: u64, ttl: u64) -> Seq<BatteryReading>
    decreases cs.len(),
{
    if cs.len() == 0 {
        Seq::<BatteryReading>::empty()
    } else {
        let prev = accepted_of(cs.drop_last(), now, ttl);
        if acceptable(cs.last(), now, ttl) { prev.push(cs.last()) } else { prev }
    }
}

/// The positions in `cs` of the readings that are not accepted, in order.
pub open spec fn discarded_positions(cs: Seq<BatteryReading>, now: u64, ttl: u64) -> Seq<int>
    decreases cs.len(),
{
    if cs.len() == 0 {
        Seq::<int>::empty()
    } else {
        let prev = discarded_positions(cs.drop_last(), now, ttl);
        if acceptable(cs.last(), now, ttl) { prev } else { prev.push(cs.len() - 1) }
    }
}

/// `dis` records, in order, each reading of `cs` that is not accepted, with its reason.
pub open spec fn discards_match(cs: Seq<BatteryReading>, dis: Seq<(BatteryReading, String)>, now: u64, ttl: u64) -> bool {
    let pos = discarded_positions(cs, now, ttl);
    &&& dis.len() == pos.len()
    &&& forall|k: int| 0 <= k < dis.len() ==> discard_entry(#[trigger] cs[pos[k]], dis[k].0, dis[k].1@, now, ttl)
}

/// The disagreement between the first two accepted readings, when they differ by more
/// than five points.
pub open spec fn conflict_of(acc: Seq<BatteryReading>) -> Option<ConflictInfo> {
    if acc.len() >= 2 && acc[0].percentage is Some && acc[1].percentage is Some {
        let p1 = acc[0].percentage.unwrap();
        let p2 = acc[1].percentage.unwrap();
        if p1 - p2 > 5 || p2 - p1 > 5 {
            Some(ConflictInfo { source_a: acc[0].source, value_a: p1, source_b: acc[1].source, value_b: p2 })
        } else {
            None
        }
    } else {
        None
    }
}

/// The first two accepted readings both carry a level and differ by at most five
/// points: two independent sources agree.
pub open spec fn sources_agree(acc: Seq<BatteryReading>) -> bool {
    &&& acc.len() >= 2
    &&& acc[0].percentage is Some
    &&& acc[1].percentage is Some
    &&& acc[0].percentage.unwrap() - acc[1].percentage.unwrap() <= 5
    &&& acc[1].percentage.unwrap() - acc[0].percentage.unwrap() <= 5
}

/// Why no level can be shown for a device on the given transport.
pub open spec fn fallback_reason(t: ConnectionType) -> Seq<char> {
    match t {
        ConnectionType::TwoPointFourGhz => "Bateria não exposta pelo dongle"@,
        ConnectionType::Dock => "Dock detectado, bateria não exposta"@,
        _ => "Bateria indisponível"@,
    }
}

/// `c` is the placeholder that stands for "no reading", with the given texts and time.
pub open spec fn is_placeholder(c: BatteryReading, name: Seq<char>, connection: Seq<char>, reason: Seq<char>, time: u64) -> bool {
    &&& c.percentage is None
    &&& c.state == BatteryState::Unavailable
    &&& !c.is_present
    &&& c.charging is None
    &&& c.source == BatterySource::Unavailable
    &&& c.timestamp == time
    &&& c.device_identifier@ == name
    &&& c.connection@ == connection
    &&& c.confidence == BatteryConfidence::NotAvailable
    &&& c.device_match_confidence == BatteryConfidence::NotAvailable
    &&& c.reading_confidence == BatteryConfidence::NotAvailable
    &&& !c.reading_valid
    &&& !c.is_stale
    &&& c.validity matches BatteryValidity::Invalid { reason: s } && s@ == reason
    &&& c.invalidation_reason matches Some(s) && s@ == reason
    &&& c.alternative_source is None
    &&& c.conflict_status is None
    &&& c.raw_data is None
}

/// Some recorded rejection kept its provider's "0% not confirmed" mark.
pub open spec fn has_zero_unconfirmed(dis: Seq<(BatteryReading, String)>) -> bool {
    exists|i: int| 0 <= i < dis.len() && (#[trigger] dis[i]).0.validity is ZeroUnconfirmed
}

/// The result of choosing among the accepted readings `acc` and the rejections `dis`
/// of a device named `name` on `transport` (as the device states it), `time` being
/// the clock when a placeholder is made.
pub open spec fn finished(
    name: Seq<char>,
    transport: ConnectionType,
    acc: Seq<BatteryReading>,
    dis: Seq<(BatteryReading, String)>,
    time: u64,
    r: AggregatedResult,
) -> bool {
    if acc.len() == 0 {
        &&& r.all_readings@.len() == 0
        &&& r.conflict is None
        &&& if has_zero_unconfirmed(dis) {
            &&& r.discarded@.len() == 0
            &&& exists|i: int| 0 <= i < dis.len() && (#[trigger] dis[i]).0.validity is ZeroUnconfirmed
                && (forall|j: int| 0 <= j < i ==> !(dis[j].0.validity is ZeroUnconfirmed))
                && r.chosen == dis[i].0
        } else {
            &&& r.discarded@ == dis
            &&& is_placeholder(r.chosen, name, transport.spec_variant_name(), fallback_reason(transport), time)
        }
    } else {
        &&& r.all_readings@ == acc
        &&& r.discarded@ == dis
        &&& r.conflict == conflict_of(acc)
        &&& r.chosen.equiv_core(acc[0])
        &&& match conflict_of(acc) {
            Some(ci) => {
                &&& r.chosen.validity matches BatteryValidity::ConflictingReadings { sources }
                    && sources@ == seq![ci.source_a, ci.source_b]
                &&& r.chosen.confidence == BatteryConfidence::Unconfirmed
                &&& r.chosen.conflict_status == Some(ci)
            },
            None => {
                &&& r.chosen.validity.equiv(acc[0].validity)
                &&& r.chosen.conflict_status == acc[0].conflict_status
                &&& r.chosen.confidence == if sources_agree(acc) {
                    BatteryConfidence::High
                } else {
                    acc[0].confidence
                }
            },
        }
    }
}

/// The difference between two levels.
pub open spec fn level_gap(p1: u8, p2: u8) -> u8 {
    if p1 >= p2 { (p1 - p2) as u8 } else { (p2 - p1) as u8 }
}

/// The line naming the chosen source, its level and its confidence.
pub open spec fn choice_text(name: Seq<char>, chosen: BatteryReading) -> Seq<char> {
    "Fonte escolhida para '"@ + name + "': "@ + chosen.source.spec_name() + " ("@
        + opt_pct_text(chosen.percentage) + ") com confiança "@ + chosen.confidence.spec_variant_name()
}

/// The lines written when choosing among the accepted readings `acc`: none found; or
/// the cross-check of the first two levels (when both have one) and the choice.
pub open spec fn selection_lines(name: Seq<char>, acc: Seq<BatteryReading>, chosen: BatteryReading) -> Seq<Seq<char>> {
    if acc.len() == 0 {
        seq!["Nenhuma leitura válida obtida de nenhum provedor."@]
    } else if acc.len() >= 2 && acc[0].percentage is Some && acc[1].percentage is Some {
        let p1 = acc[0].percentage.unwrap();
        let p2 = acc[1].percentage.unwrap();
        seq![
            cross_check_text(acc[0].source, p1, acc[1].source, p2, level_gap(p1, p2) > 5, level_gap(p1, p2)),
            choice_text(name, chosen),
        ]
    } else {
        seq![choice_text(name, chosen)]
    }
}

/// The log grows; its earlier lines stay.
pub open spec fn log_extended(before: Seq<String>, after: Seq<String>) -> bool {
    before.len() <= after.len() && after.subrange(0, before.len() as int) == before
}

/// The placeholder reading that stands for "no reading".
fn placeholder(name: &String, connection: String, reason: String, time: u64) -> (c: BatteryReading)
    ensures
        is_placeholder(c, name@, connection@, reason@, time),
{
    BatteryReading {
        percentage: None,
        state: BatteryState::Unavailable,
        is_present: false,
        charging: None,
        source: BatterySource::Unavailable,
        timestamp: time,
        device_identifier: name.clone(),
        connection,
        confidence: BatteryConfidence::NotAvailable,
        device_match_confidence: BatteryConfidence::NotAvailable,
        reading_confidence: BatteryConfidence::NotAvailable,
        reading_valid: false,
        is_stale: false,
        validity: BatteryValidity::Invalid { reason: reason.clone() },
        invalidation_reason: Some(reason),
        alternative_source: None,
        conflict_status: None,
        raw_data: None,
    }
}

fn fallback_reason_string(t: ConnectionType) -> (r: String)
    ensures
        r@ == fallback_reason(t),
{
    match t {
        ConnectionType::TwoPointFourGhz => owned("Bateria não exposta pelo dongle"),
        ConnectionType::Dock => owned("Dock detectado, bateria não exposta"),
        _ => owned("Bateria indisponível"),
    }
}

/// `{:?}` of an optional percentage: `Some(n)` or `None`.
pub open spec fn opt_pct_text(p: Option<u8>) -> Seq<char> {
    match p {
        Some(v) => "Some("@ + dec(v as nat) + ")"@,
        None => "None"@,
    }
}

/// `{:?}` of an optional percentage.
fn opt_pct_debug(p: Option<u8>) -> (r: String)
    ensures
        r@ == opt_pct_text(p),
{
    match p {
        Some(v) => {
            let mut r = owned("Some(");
            append_dec(&mut r, v as u64);
            append_str(&mut r, ")");
            r
        },
        None => owned("None"),
    }
}

/// The log line comparing the first two sources: their names and levels, then the
/// difference and the conflict, or the agreement.
pub open spec fn cross_check_text(a: BatterySource, pa: u8, b: BatterySource, pb: u8, conflict: bool, diff: u8) -> Seq<char> {
    let head = if conflict { "AVISO DE CONFLITO: Fonte '"@ } else { "Validação Cruzada: Fonte '"@ };
    let both = head + a.spec_name() + "' ("@ + dec(pa as nat) + "%) e '"@ + b.spec_name() + "' ("@
        + dec(pb as nat);
    if conflict {
        both + "%) divergem por "@ + dec(diff as nat) + "%. Marcando conflito."@
    } else {
        both + "%) concordam (diferença <= 5%). Confiança ALTA atribuída."@
    }
}

/// One log line comparing the first two sources.
fn cross_check_line(a: BatterySource, pa: u8, b: BatterySource, pb: u8, conflict: bool, diff: u8) -> (l: String)
    ensures
        l@ == cross_check_text(a, pa, b, pb, conflict, diff),
{
    let mut l = if conflict { owned("AVISO DE CONFLITO: Fonte '") } else { owned("Validação Cruzada: Fonte '") };
    let na = a.to_display_string();
    let nb = b.to_display_string();
    append_str(&mut l, na.as_str());
    append_str(&mut l, "' (");
    append_dec(&mut l, pa as u64);
    append_str(&mut l, "%) e '");
    append_str(&mut l, nb.as_str());
    append_str(&mut l, "' (");
    append_dec(&mut l, pb as u64);
    if conflict {
        append_str(&mut l, "%) divergem por ");
        append_dec(&mut l, diff as u64);
        append_str(&mut l, "%. Marcando conflito.");
    } else {
        append_str(&mut l, "%) concordam (diferença <= 5%). Confiança ALTA atribuída.");
    }
    l
}

/// Chooses the reading to show from the accepted readings and the rejections gathered
/// for a device, writing the decision to `log`.
pub fn finish_selection(
    device_name: &String,
    transport: ConnectionType,
    accepted: Vec<BatteryReading>,
    discarded: Vec<(BatteryReading, String)>,
    time: u64,
    log: &mut Vec<String>,
) -> (r: AggregatedResult)
    requires
        forall|k: int| 0 <= k < accepted@.len() ==> (#[trigger] accepted@[k]).validity is Valid,
    ensures
        finished(device_name@, transport, accepted@, discarded@, time, r),
        log_extended(old(log)@, final(log)@),
        string_views(final(log)@) == string_views(old(log)@) + selection_lines(device_name@, accepted@, r.chosen),
{
    let ghost dis0 = discarded@;
    if accepted.len() == 0 {
        log.push(owned("Nenhuma leitura válida obtida de nenhum provedor."));
        let mut rest = discarded;
        let ghost log1 = log@;
        assert(string_views(log1) =~= string_views(old(log)@) + seq!["Nenhuma leitura válida obtida de nenhum provedor."@]);
        assert(log_extended(old(log)@, log1)) by {
            assert(log1.subrange(0, old(log)@.len() as int) =~= old(log)@);
        }
        let mut i: usize = 0;
        while i < rest.len()
            invariant
                rest@ == dis0,
                dis0 == discarded@,
                accepted@.len() == 0,
                log@ == log1,
                log_extended(old(log)@, log1),
                string_views(log1) == string_views(old(log)@) + seq!["Nenhuma leitura válida obtida de nenhum provedor."@],
                i <= rest@.len(),
                forall|j: int| 0 <= j < i ==> !(rest@[j].0.validity is ZeroUnconfirmed),
            decreases rest.len() - i,
        {
            if matches!(rest[i].0.validity, BatteryValidity::ZeroUnconfirmed) {
                let (chosen, _reason) = rest.remove(i);
                let r = AggregatedResult {
                    chosen,
                    all_readings: Vec::new(),
                    discarded: Vec::new(),
                    conflict: None,
                };
                assert(has_zero_unconfirmed(dis0)) by {
                    assert(dis0[i as int].0.validity is ZeroUnconfirmed);
                }
                assert(r.chosen == dis0[i as int].0);
                assert(0 <= i < dis0.len() && dis0[i as int].0.validity is ZeroUnconfirmed
                    && (forall|j: int| 0 <= j < i ==> !(dis0[j].0.validity is ZeroUnconfirmed))
                    && r.chosen == dis0[i as int].0);
                assert(exists|w: int| 0 <= w < dis0.len() && (#[trigger] dis0[w]).0.validity is ZeroUnconfirmed
                    && (forall|j: int| 0 <= j < w ==> !(dis0[j].0.validity is ZeroUnconfirmed))
                    && r.chosen == dis0[w].0);
                assert(finished(device_name@, transport, accepted@, dis0, time, r));
                return r;
            }
            i = i + 1;
        }
        assert(!has_zero_unconfirmed(dis0));
        let reason = fallback_reason_string(transport);
        let chosen = placeholder(device_name, transport.variant_name(), reason, time);
        return AggregatedResult { chosen, all_readings: Vec::new(), discarded: rest, conflict: None };
    }
    let mut conflict: Option<ConflictInfo> = None;
    let ghost log0 = log@;
    let ghost mut cross: Seq<Seq<char>> = Seq::empty();
    if accepted.len() >= 2 {
        let r1 = &accepted[0];
        let r2 = &accepted[1];
        if let (Some(p1), Some(p2)) = (r1.percentage, r2.percentage) {
            let diff: u8 = if p1 >= p2 { p1 - p2 } else { p2 - p1 };
            assert(diff == level_gap(p1, p2));
            if diff <= 5 {
                let line = cross_check_line(r1.source, p1, r2.source, p2, false, diff);
                proof { cross = seq![line@]; }
                log.push(line);
            } else {
                let line = cross_check_line(r1.source, p1, r2.source, p2, true, diff);
                proof { cross = seq![line@]; }
                log.push(line);
                conflict = Some(ConflictInfo { source_a: r1.source, value_a: p1, source_b: r2.source, value_b: p2 });
            }
        }
    }
    assert(string_views(log@) =~= string_views(log0) + cross);
    assert(conflict == conflict_of(accepted@));
    let mut chosen = accepted[0].duplicate();
    if let Some(c) = conflict {
        let mut sources: Vec<BatterySource> = Vec::new();
        sources.push(c.source_a);
        sources.push(c.source_b);
        assert(sources@ =~= seq![c.source_a, c.source_b]);
        chosen.validity = BatteryValidity::ConflictingReadings { sources };
        chosen.confidence = BatteryConfidence::Unconfirmed;
        chosen.conflict_status = Some(c);
    } else if accepted.len() >= 2 && accepted[0].percentage.is_some() && accepted[1].percentage.is_some() {
        chosen.confidence = BatteryConfidence::High;
    }
    let mut line = owned("Fonte escolhida para '");
    append_str(&mut line, device_name.as_str());
    append_str(&mut line, "': ");
    let src = chosen.source.to_display_string();
    append_str(&mut line, src.as_str());
    append_str(&mut line, " (");
    let pct = opt_pct_debug(chosen.percentage);
    append_str(&mut line, pct.as_str());
    append_str(&mut line, ") com confiança ");
    let conf = chosen.confidence.variant_name();
    append_str(&mut line, conf.as_str());
    assert(line@ == choice_text(device_name@, chosen));
    assert(log@.subrange(0, old(log)@.len() as int) =~= old(log)@);
    let ghost log2 = log@;
    log.push(line);
    assert(log@.subrange(0, old(log)@.len() as int) =~= old(log)@);
    assert(string_views(log@) =~= string_views(log2).push(line@));
    assert(selection_lines(device_name@, accepted@, chosen) =~= cross.push(choice_text(device_name@, chosen)));
    AggregatedResult { chosen, all_readings: accepted, discarded, conflict }
}

// ---------------------------------------------------------------------------
// The aggregator
// ---------------------------------------------------------------------------

/// The positions `j < n` with `prios[j] == v`, in increasing order.
pub open spec fn positions_with(prios: Seq<u8>, v: int, n: int) -> Seq<int>
    decreases n,
{
    if n <= 0 {
        Seq::<int>::empty()
    } else {
        let prev = positions_with(prios, v, n - 1);
        if prios[n - 1] == v { prev.push(n - 1) } else { prev }
    }
}

/// The positions whose priority is below `v`: by priority, and in their first order
/// among equal priorities.
pub open spec fn positions_below(prios: Seq<u8>, v: int) -> Seq<int>
    decreases v,
{
    if v <= 0 {
        Seq::<int>::empty()
    } else {
        positions_below(prios, v - 1) + positions_with(prios, v - 1, prios.len() as int)
    }
}

/// The stable order of the positions of `prios` by increasing priority.
pub open spec fn priority_order(prios: Seq<u8>) -> Seq<int> {
    positions_below(prios, 256)
}

/// `ps` put in the stable order of their priorities `prios`.
pub open spec fn ordered_by<P>(ps: Seq<P>, prios: Seq<u8>) -> Seq<P> {
    priority_order(prios).map_values(|j: int| ps[j])
}

proof fn lemma_positions_with_bounds(prios: Seq<u8>, v: int, n: int)
    requires
        n <= prios.len(),
    ensures
        forall|k: int| 0 <= k < positions_with(prios, v, n).len() ==>
            0 <= #[trigger] positions_with(prios, v, n)[k] < n && prios[positions_with(prios, v, n)[k]] == v,
    decreases n,
{
    if n > 0 {
        lemma_positions_with_bounds(prios, v, n - 1);
        let prev = positions_with(prios, v, n - 1);
        let cur = positions_with(prios, v, n);
        assert forall|k: int| 0 <= k < cur.len() implies 0 <= #[trigger] cur[k] < n && prios[cur[k]] == v by {
            if k < prev.len() {
                assert(cur[k] == prev[k]);
            }
        }
    }
}

/// What one aggregation pass may give for a device: when its transport cannot be
/// resolved, the "unknown transport" placeholder; otherwise the choice among the
/// answers `cs` that some run of the providers gave, checked at clock `now`.
pub open spec fn aggregation_outcome(device: DeviceIdentity, r: AggregatedResult) -> bool {
    let t = device.spec_resolved_transport();
    if t == ConnectionType::Unknown {
        &&& is_placeholder(r.chosen, device.name@, "Unknown"@,
            "Transporte do dispositivo não pôde ser determinado"@, r.chosen.timestamp)
        &&& r.all_readings@.len() == 0
        &&& r.discarded@.len() == 0
        &&& r.conflict is None
    } else {
        exists|cs: Seq<BatteryReading>, dis: Seq<(BatteryReading, String)>, now: u64, time: u64|
            discards_match(cs, dis, now, spec_ttl(t))
            && #[trigger] finished(device.name@, device.transport, accepted_of(cs, now, spec_ttl(t)), dis, time, r)
    }
}

/// The positions of `positions_below(prios, v)` lie in `prios`, have a priority below
/// `v`, and come in order of priority.
proof fn lemma_positions_below_sorted(prios: Seq<u8>, v: int)
    ensures
        forall|k: int| 0 <= k < positions_below(prios, v).len() ==>
            0 <= #[trigger] positions_below(prios, v)[k] < prios.len()
            && prios[positions_below(prios, v)[k]] < v,
        forall|k: int, l: int| 0 <= k < l < positions_below(prios, v).len() ==>
            prios[#[trigger] positions_below(prios, v)[k]] <= prios[#[trigger] positions_below(prios, v)[l]],
    decreases v,
{
    if v > 0 {
        lemma_positions_below_sorted(prios, v - 1);
        lemma_positions_with_bounds(prios, v - 1, prios.len() as int);
        let a = positions_below(prios, v - 1);
        let b = positions_with(prios, v - 1, prios.len() as int);
        let c = positions_below(prios, v);
        assert(c == a + b);
        assert forall|k: int| 0 <= k < c.len() implies
            0 <= #[trigger] c[k] < prios.len() && prios[c[k]] < v by {
            if k < a.len() {
                assert(c[k] == a[k]);
            } else {
                assert(c[k] == b[k - a.len()]);
            }
        }
        assert forall|k: int, l: int| 0 <= k < l < c.len() implies
            prios[#[trigger] c[k]] <= prios[#[trigger] c[l]] by {
            if l < a.len() {
                assert(c[k] == a[k] && c[l] == a[l]);
            } else if k < a.len() {
                assert(c[k] == a[k] && c[l] == b[l - a.len()]);
            } else {
                assert(c[k] == b[k - a.len()] && c[l] == b[l - a.len()]);
            }
        }
    }
}

/// The providers come in order of priority.
pub open spec fn priorities_sorted<P: BatteryProvider>(provs: Seq<P>) -> bool {
    forall|i: int, j: int| 0 <= i < j < provs.len() ==>
        (#[trigger] provs[i]).spec_priority() <= (#[trigger] provs[j]).spec_priority()
}

/// Answers given by providers asked in the order of a priority-sorted list come in
/// order of priority: an earlier answer never comes from a provider of lower priority
/// (higher number) than a later one.
pub proof fn lemma_answers_in_priority_order<P: BatteryProvider>(provs: Seq<P>, t: ConnectionType, origin: Seq<int>)
    requires
        priorities_sorted(provs),
        answered_by(provs, t, origin),
    ensures
        forall|k: int, l: int| 0 <= k < l < origin.len() ==>
            provs[#[trigger] origin[k]].spec_priority() <= provs[#[trigger] origin[l]].spec_priority(),
{
    assert forall|k: int, l: int| 0 <= k < l < origin.len() implies
        provs[#[trigger] origin[k]].spec_priority() <= provs[#[trigger] origin[l]].spec_priority() by {
        assert(origin[k] < origin[l]);
        assert(0 <= origin[k] < provs.len() && 0 <= origin[l] < provs.len());
    }
}

/// `origin` gives, for each answer in order, the position among `provs` of the provider
/// that gave it: the providers are asked in their order, each at most once, and only
/// those whose source suits transport `t`.
pub open spec fn answered_by<P: BatteryProvider>(provs: Seq<P>, t: ConnectionType, origin: Seq<int>) -> bool {
    &&& forall|k: int| 0 <= k < origin.len() ==>
        0 <= #[trigger] origin[k] < provs.len() && spec_compatible(provs[origin[k]].spec_source(), t)
    &&& forall|k: int, l: int| 0 <= k < l < origin.len() ==> #[trigger] origin[k] < #[trigger] origin[l]
}

/// A provider is asked about the device: it reported itself available and its source
/// suits transport `t`.
pub open spec fn is_asked<P: BatteryProvider>(p: P, t: ConnectionType, available: bool) -> bool {
    available && spec_compatible(p.spec_source(), t)
}

/// The readings kept from one pass, in provider order: the answer of each provider that
/// was asked and gave one. `avail` holds what each provider reported of its
/// availability, `ans` what each asked provider answered.
pub open spec fn collected<P: BatteryProvider>(provs: Seq<P>, t: ConnectionType, avail: Seq<bool>, ans: Seq<Option<BatteryReading>>) -> Seq<BatteryReading>
    decreases avail.len(),
{
    if avail.len() == 0 {
        Seq::empty()
    } else {
        let j = avail.len() - 1;
        let prev = collected(provs, t, avail.drop_last(), ans.drop_last());
        if is_asked(provs[j], t, avail[j]) && ans[j] is Some { prev.push(ans[j].unwrap()) } else { prev }
    }
}

/// The positions of the providers whose answers `collected` keeps, in order.
pub open spec fn collected_positions<P: BatteryProvider>(provs: Seq<P>, t: ConnectionType, avail: Seq<bool>, ans: Seq<Option<BatteryReading>>) -> Seq<int>
    decreases avail.len(),
{
    if avail.len() == 0 {
        Seq::empty()
    } else {
        let j = avail.len() - 1;
        let prev = collected_positions(provs, t, avail.drop_last(), ans.drop_last());
        if is_asked(provs[j], t, avail[j]) && ans[j] is Some { prev.push(j) } else { prev }
    }
}

/// Each provider of `provs` was asked whether it is available and reported `avail`, and
/// each one that was asked about `device` answered `ans` (what it gave at the call).
pub open spec fn providers_answered<P: BatteryProvider>(provs: Seq<P>, device: DeviceIdentity, avail: Seq<bool>, ans: Seq<Option<BatteryReading>>) -> bool {
    let t = device.spec_resolved_transport();
    &&& avail.len() == provs.len()
    &&& ans.len() == provs.len()
    &&& forall|j: int| 0 <= j < provs.len() ==> #[trigger] provs[j].reports_available(avail[j])
    &&& forall|j: int| 0 <= j < provs.len() && is_asked(provs[j], t, avail[j]) ==> #[trigger] provs[j].answers(device, ans[j])
}

/// What one aggregation pass over the providers `provs` gives for a device: as in
/// `aggregation_outcome`; moreover every provider was asked whether it is available,
/// every available one whose source suits the resolved transport was asked about the
/// device, and the readings chosen among are exactly their answers, in provider order
/// (`origin` gives each one's provider).
pub open spec fn provider_outcome<P: BatteryProvider>(provs: Seq<P>, device: DeviceIdentity, r: AggregatedResult) -> bool {
    let t = device.spec_resolved_transport();
    if t == ConnectionType::Unknown {
        aggregation_outcome(device, r)
    } else {
        exists|avail: Seq<bool>, ans: Seq<Option<BatteryReading>>, origin: Seq<int>, dis: Seq<(BatteryReading, String)>, now: u64, time: u64|
            #![trigger providers_answered(provs, device, avail, ans), answered_by(provs, t, origin), finished(device.name@, device.transport, accepted_of(collected(provs, t, avail, ans), now, spec_ttl(t)), dis, time, r)]
            providers_answered(provs, device, avail, ans)
            && origin == collected_positions(provs, t, avail, ans)
            && answered_by(provs, t, origin)
            && discards_match(collected(provs, t, avail, ans), dis, now, spec_ttl(t))
            && finished(device.name@, device.transport, accepted_of(collected(provs, t, avail, ans), now, spec_ttl(t)), dis, time, r)
    }
}

/// The line written for a reading that a provider gave and that was not accepted.
pub open spec fn rejection_lines(name: Seq<char>, a: Option<BatteryReading>, now: u64, ttl: u64) -> Seq<Seq<char>> {
    match a {
        Some(x) => if acceptable(x, now, ttl) {
            Seq::empty()
        } else if !out_of_range(x) && !from_future(x, now) && expired(x, now, ttl) {
            seq!["Leitura do provedor '"@ + name + "' expirada: "@ + discard_reason(x, now, ttl)]
        } else {
            seq!["Leitura do provedor '"@ + name + "' descartada: "@ + discard_reason(x, now, ttl)]
        },
        None => Seq::empty(),
    }
}

/// The lines written for one provider: that it is unavailable; or that its source does
/// not suit the transport (named `tname`); or that it is asked, the lines `own` it
/// wrote itself, and the rejection of its reading, if any.
pub open spec fn step_lines<P: BatteryProvider>(
    p: P, t: ConnectionType, tname: Seq<char>, available: bool, a: Option<BatteryReading>,
    own: Seq<Seq<char>>, now: u64, ttl: u64,
) -> Seq<Seq<char>> {
    let name = p.spec_name()@;
    if !available {
        seq!["Provedor '"@ + name + "' não disponível no ambiente."@]
    } else if !spec_compatible(p.spec_source(), t) {
        seq!["Provedor '"@ + name + "' incompatível com transporte ativo ("@ + tname + "). Pulando."@]
    } else {
        seq!["Executando consulta via '"@ + name + "'..."@] + own + rejection_lines(name, a, now, ttl)
    }
}

/// The lines written for the providers in order.
pub open spec fn steps_lines<P: BatteryProvider>(
    provs: Seq<P>, t: ConnectionType, avail: Seq<bool>, ans: Seq<Option<BatteryReading>>,
    owns: Seq<Seq<Seq<char>>>, now: u64, ttl: u64,
) -> Seq<Seq<char>>
    decreases avail.len(),
{
    if avail.len() == 0 {
        Seq::empty()
    } else {
        let j = avail.len() - 1;
        steps_lines(provs, t, avail.drop_last(), ans.drop_last(), owns.drop_last(), now, ttl)
            + step_lines(provs[j], t, t.spec_variant_name(), avail[j], ans[j], owns[j], now, ttl)
    }
}

/// The lines one pass writes for a device (besides `opening_line`): for an unknown
/// transport the error line; otherwise one group of lines per provider (`step_lines`,
/// with what the providers reported and answered, and the lines they wrote) and the
/// lines of the choice (`selection_lines`).
pub open spec fn pass_lines<P: BatteryProvider>(provs: Seq<P>, device: DeviceIdentity, r: AggregatedResult, lines: Seq<Seq<char>>) -> bool {
    let t = device.spec_resolved_transport();
    if t == ConnectionType::Unknown {
        lines == seq![opening_line(device), "ERRO DE DIAGNÓSTICO: Transporte do dispositivo '"@ + device.name@
            + "' é 'Unknown'. Seleção automática de bateria interrompida."@]
    } else {
        exists|avail: Seq<bool>, ans: Seq<Option<BatteryReading>>, owns: Seq<Seq<Seq<char>>>, now: u64|
            #![trigger providers_answered(provs, device, avail, ans), steps_lines(provs, t, avail, ans, owns, now, spec_ttl(t))]
            providers_answered(provs, device, avail, ans) && owns.len() == provs.len()
            && lines == seq![opening_line(device)] + steps_lines(provs, t, avail, ans, owns, now, spec_ttl(t))
                + selection_lines(device.name@, accepted_of(collected(provs, t, avail, ans), now, spec_ttl(t)), r.chosen)
    }
}

/// The first line a pass writes: the device, the resolved transport and the TTL.
pub open spec fn opening_line(device: DeviceIdentity) -> Seq<char> {
    let t = device.spec_resolved_transport();
    "--- Iniciando Varredura Multi-Fonte de Bateria para '"@ + device.name@ + "' (Transporte Resolvido: "@
        + t.spec_variant_name() + ", TTL: "@ + dec(spec_ttl(t) as nat) + "s) ---"@
}

/// The lines a pass writes for a device start with `opening_line`.
pub open spec fn pass_log(device: DeviceIdentity, lines: Seq<String>) -> bool {
    lines.len() >= 1 && lines[0]@ == opening_line(device)
}

/// Queries every provider for a device and chooses one reading.
pub struct BatteryAggregator<P: BatteryProvider> {
    providers: Vec<P>,
}

impl<P: BatteryProvider> BatteryAggregator<P> {
    /// The providers in the order in which they are asked.
    pub closed spec fn provider_seq(&self) -> Seq<P> {
        self.providers@
    }

    /// An aggregator keeps its providers in order of priority.
    #[verifier::type_invariant]
    closed spec fn sorted_by_priority(self) -> bool {
        priorities_sorted(self.providers@)
    }

    /// An aggregator that asks the given providers in order of priority (lowest number
    /// first), keeping their given order among equal priorities.
    pub fn new(providers: Vec<P>) -> (r: Self)
        ensures
            exists|prios: Seq<u8>| prios.len() == providers@.len()
                && (forall|j: int| 0 <= j < prios.len() ==> #[trigger] prios[j] == providers@[j].spec_priority())
                && r.provider_seq() == ordered_by(providers@, prios),
            priorities_sorted(r.provider_seq()),
    {
        let n = providers.len();
        let mut providers = providers;
        let ghost orig = providers@;
        let mut prios: Vec<u8> = Vec::new();
        let mut slots: Vec<Option<P>> = Vec::new();
        let mut k: usize = 0;
        while k < n
            invariant
                n == orig.len(),
                k <= n,
                providers@ == orig.subrange(k as int, n as int),
                prios@.len() == k,
                slots@.len() == k,
                forall|j: int| 0 <= j < k ==> slots@[j] == Some(orig[j]),
                forall|j: int| 0 <= j < k ==> #[trigger] prios@[j] == orig[j].spec_priority(),
            decreases n - k,
        {
            let p = providers.remove(0);
            prios.push(p.priority());
            slots.push(Some(p));
            assert(orig.subrange(k + 1, n as int) =~= orig.subrange(k as int, n as int).remove(0));
            k = k + 1;
        }
        let mut out: Vec<P> = Vec::new();
        let mut v: u16 = 0;
        while v < 256
            invariant
                n == orig.len(),
                prios@.len() == n,
                slots@.len() == n,
                v <= 256,
                forall|j: int| 0 <= j < n ==> #[trigger] prios@[j] == orig[j].spec_priority(),
                out@ == positions_below(prios@, v as int).map_values(|j: int| orig[j]),
                forall|j: int| 0 <= j < n ==> (#[trigger] slots@[j] == if prios@[j] < v { None } else { Some(orig[j]) }),
            decreases 256 - v,
        {
            let ghost base = out@;
            let mut i: usize = 0;
            while i < n
                invariant
                    n == orig.len(),
                    prios@.len() == n,
                    slots@.len() == n,
                    v < 256,
                    i <= n,
                    base == positions_below(prios@, v as int).map_values(|j: int| orig[j]),
                    out@ == base + positions_with(prios@, v as int, i as int).map_values(|j: int| orig[j]),
                    forall|j: int| 0 <= j < n ==> (#[trigger] slots@[j] == if prios@[j] < v || (prios@[j] == v && j < i) { None } else { Some(orig[j]) }),
                decreases n - i,
            {
                if prios[i] as u16 == v {
                    let taken = slots[i].take();
                    match taken {
                        Some(p) => {
                            out.push(p);
                        },
                        None => {},
                    }
                    assert(positions_with(prios@, v as int, i + 1) == positions_with(prios@, v as int, i as int).push(i as int));
                    assert(out@ =~= base + positions_with(prios@, v as int, i + 1).map_values(|j: int| orig[j]));
                } else {
                    assert(positions_with(prios@, v as int, i + 1) == positions_with(prios@, v as int, i as int));
                }
                i = i + 1;
            }
            assert(positions_below(prios@, v + 1) == positions_below(prios@, v as int) + positions_with(prios@, v as int, n as int));
            assert(out@ =~= positions_below(prios@, v + 1).map_values(|j: int| orig[j]));
            v = v + 1;
        }
        proof {
            lemma_positions_below_sorted(prios@, 256);
            let pb = positions_below(prios@, 256);
            assert forall|i: int, j: int| 0 <= i < j < out@.len() implies
                (#[trigger] out@[i]).spec_priority() <= (#[trigger] out@[j]).spec_priority() by {
                assert(out@[i] == orig[pb[i]] && out@[j] == orig[pb[j]]);
                assert(prios@[pb[i]] <= prios@[pb[j]]);
            }
        }
        let r = BatteryAggregator { providers: out };
        assert(r.provider_seq() == ordered_by(orig, prios@));
        r
    }

    /// Queries every available provider that suits the device's transport and chooses
    /// one reading, writing each step to `log`.
    pub fn query_all(&self, device: &DeviceIdentity, log: &mut Vec<String>) -> (r: AggregatedResult)
        ensures
            aggregation_outcome(*device, r),
            provider_outcome(self.provider_seq(), *device, r),
            priorities_sorted(self.provider_seq()),
            log_extended(old(log)@, final(log)@),
            pass_log(*device, final(log)@.skip(old(log)@.len() as int)),
            pass_lines(self.provider_seq(), *device, r, string_views(final(log)@).skip(old(log)@.len() as int)),
            device.spec_resolved_transport() == ConnectionType::Unknown ==> {
                &&& log_extended(old(log)@, final(log)@)
                &&& final(log)@.len() == old(log)@.len() + 2
                &&& final(log)@.last()@ == "ERRO DE DIAGNÓSTICO: Transporte do dispositivo '"@ + device.name@
                    + "' é 'Unknown'. Seleção automática de bateria interrompida."@
            },
    {
        proof {
            use_type_invariant(self);
        }
        let ghost before = log@;
        let transport = device.resolved_transport();
        let now = current_epoch_seconds();
        let ttl = get_ttl_for_transport(&transport);

        let mut start = owned("--- Iniciando Varredura Multi-Fonte de Bateria para '");
        append_str(&mut start, device.name.as_str());
        append_str(&mut start, "' (Transporte Resolvido: ");
        let tname = transport.variant_name();
        append_str(&mut start, tname.as_str());
        append_str(&mut start, ", TTL: ");
        append_dec(&mut start, ttl);
        append_str(&mut start, "s) ---");
        assert(start@ == opening_line(*device));
        log.push(start);
        let ghost head = log@;
        proof {
            lemma_log_push(before, start);
            assert(head.subrange(0, head.len() as int) =~= head);
            lemma_pass_log_from(*device, before, head, head);
        }

        if transport == ConnectionType::Unknown {
            let ghost mid = log@;
            let mut line = owned("ERRO DE DIAGNÓSTICO: Transporte do dispositivo '");
            append_str(&mut line, device.name.as_str());
            append_str(&mut line, "' é 'Unknown'. Seleção automática de bateria interrompida.");
            log.push(line);
            proof {
                lemma_log_push(mid, line);
                lemma_pass_log_from(*device, before, head, log@);
                assert(string_views(log@).skip(before.len() as int) =~= seq![opening_line(*device), line@]);
            }
            assert(log@.subrange(0, old(log)@.len() as int) =~= old(log)@);
            let reason = owned("Transporte do dispositivo não pôde ser determinado");
            let chosen = placeholder(&device.name, owned("Unknown"), reason, now);
            return AggregatedResult {
                chosen,
                all_readings: Vec::new(),
                discarded: Vec::new(),
                conflict: None,
            };
        }

        let mut accepted: Vec<BatteryReading> = Vec::new();
        let mut discarded: Vec<(BatteryReading, String)> = Vec::new();
        let ghost mut cs: Seq<BatteryReading> = Seq::empty();
        let ghost mut origin: Seq<int> = Seq::empty();
        let ghost mut avail: Seq<bool> = Seq::empty();
        let ghost mut ans: Seq<Option<BatteryReading>> = Seq::empty();
        let ghost mut owns: Seq<Seq<Seq<char>>> = Seq::empty();
        assert(string_views(log@) =~= string_views(before) + seq![opening_line(*device)]
            + steps_lines(self.providers@, transport, avail, ans, owns, now, ttl));
        let mut i: usize = 0;
        while i < self.providers.len()
            invariant
                i <= self.providers@.len(),
                transport == device.spec_resolved_transport(),
                origin.len() == cs.len(),
                answered_by(self.providers@, transport, origin),
                forall|k: int| 0 <= k < origin.len() ==> #[trigger] origin[k] < i,
                accepted@ == accepted_of(cs, now, ttl),
                discards_match(cs, discarded@, now, ttl),
                forall|k: int| 0 <= k < accepted@.len() ==> (#[trigger] accepted@[k]).validity is Valid,
                avail.len() == i,
                ans.len() == i,
                forall|j: int| 0 <= j < i ==> #[trigger] self.providers@[j].reports_available(avail[j]),
                forall|j: int| 0 <= j < i && is_asked(self.providers@[j], transport, avail[j])
                    ==> #[trigger] self.providers@[j].answers(*device, ans[j]),
                cs == collected(self.providers@, transport, avail, ans),
                origin == collected_positions(self.providers@, transport, avail, ans),
                log_extended(head, log@),
                log_extended(before, head),
                pass_log(*device, head.skip(before.len() as int)),
                head.len() == before.len() + 1,
                owns.len() == i,
                tname@ == transport.spec_variant_name(),
                ttl == spec_ttl(transport),
                string_views(log@) == string_views(before) + seq![opening_line(*device)]
                    + steps_lines(self.providers@, transport, avail, ans, owns, now, ttl),
            decreases self.providers.len() - i,
        {
            let provider = &self.providers[i];
            let ghost log_in = log@;
            let ghost avail0 = avail;
            let ghost ans0 = ans;
            let ghost owns0 = owns;
            let ghost v_in = string_views(log@);
            let ghost mut own: Seq<Seq<char>> = Seq::empty();
            let available = provider.is_available();
            if !available {
                let mut l = owned("Provedor '");
                append_str(&mut l, provider.name());
                append_str(&mut l, "' não disponível no ambiente.");
                log.push(l);
                proof {
                    lemma_log_push(log_in, l);
                    assert(string_views(log@) =~= v_in.push(l@));
                    avail = avail.push(false);
                    ans = ans.push(None);
                }
            } else if !is_provider_compatible_with_transport(provider.source(), &transport) {
                let mut l = owned("Provedor '");
                append_str(&mut l, provider.name());
                append_str(&mut l, "' incompatível com transporte ativo (");
                append_str(&mut l, tname.as_str());
                append_str(&mut l, "). Pulando.");
                log.push(l);
                proof {
                    lemma_log_push(log_in, l);
                    assert(string_views(log@) =~= v_in.push(l@));
                    avail = avail.push(true);
                    ans = ans.push(None);
                }
            } else {
                let mut l = owned("Executando consulta via '");
                append_str(&mut l, provider.name());
                append_str(&mut l, "'...");
                log.push(l);
                let ghost l1 = log@;
                proof {
                    lemma_log_push(log_in, l);
                    assert(string_views(l1) =~= v_in.push(l@));
                }
                let answer = provider.query(device, log);
                proof {
                    lemma_views_extend(l1, log@);
                    own = string_views(log@).skip(l1.len() as int);
                    lemma_log_extended_trans(log_in, l1, log@);
                    avail = avail.push(true);
                    ans = ans.push(answer);
                }
                if let Some(reading) = answer {
                    let ghost prev = cs;
                    proof {
                        cs = cs.push(reading);
                        origin = origin.push(i as int);
                        assert(cs.drop_last() =~= prev);
                        lemma_discarded_positions_bounds(prev, now, ttl);
                    }
                    let mut l = owned("Leitura do provedor '");
                    append_str(&mut l, provider.name());
                    match classify_reading(reading, now, ttl) {
                        ReadingVerdict::Accepted(r) => {
                            accepted.push(r);
                        },
                        ReadingVerdict::Expired(d, reason) => {
                            append_str(&mut l, "' expirada: ");
                            append_str(&mut l, reason.as_str());
                            let ghost l2 = log@;
                            log.push(l);
                            proof {
                                lemma_log_push(l2, l);
                                lemma_log_extended_trans(log_in, l2, log@);
                                assert(string_views(log@) =~= string_views(l2).push(l@));
                            }
                            discarded.push((d, reason));
                        },
                        ReadingVerdict::Discarded(d, reason) => {
                            append_str(&mut l, "' descartada: ");
                            append_str(&mut l, reason.as_str());
                            let ghost l2 = log@;
                            log.push(l);
                            proof {
                                lemma_log_push(l2, l);
                                lemma_log_extended_trans(log_in, l2, log@);
                                assert(string_views(log@) =~= string_views(l2).push(l@));
                            }
                            discarded.push((d, reason));
                        },
                    }
                    proof {
                        let pos = discarded_positions(cs, now, ttl);
                        let ppos = discarded_positions(prev, now, ttl);
                        assert forall|k: int| 0 <= k < ppos.len() implies cs[ppos[k]] == prev[ppos[k]] by {}
                        assert forall|k: int| 0 <= k < discarded@.len() implies
                            discard_entry(#[trigger] cs[pos[k]], discarded@[k].0, discarded@[k].1@, now, ttl) by {
                            if k < ppos.len() {
                                assert(pos[k] == ppos[k]);
                            }
                        }
                    }
                }
            }
            proof {
                owns = owns.push(own);
                assert(avail.drop_last() =~= avail0);
                assert(ans.drop_last() =~= ans0);
                assert(owns.drop_last() =~= owns0);
                let stp = step_lines(self.providers@[i as int], transport, transport.spec_variant_name(),
                    avail[i as int], ans[i as int], own, now, ttl);
                assert(string_views(log@) =~= v_in + stp);
                lemma_log_extended_trans(head, log_in, log@);
            }
            i = i + 1;
        }
        let time = current_epoch_seconds();
        let ghost log_loop = log@;
        let ghost acc = accepted@;
        let r = finish_selection(&device.name, device.transport, accepted, discarded, time, log);
        proof {
            assert(string_views(log@).skip(before.len() as int) =~= seq![opening_line(*device)]
                + steps_lines(self.providers@, transport, avail, ans, owns, now, ttl)
                + selection_lines(device.name@, acc, r.chosen));
            lemma_log_extended_trans(head, log_loop, log@);
            lemma_pass_log_from(*device, before, head, log@);
            assert(providers_answered(self.provider_seq(), *device, avail, ans));
        }
        assert(answered_by(self.provider_seq(), transport, origin));
        r
    }
}

proof fn lemma_views_extend(a: Seq<String>, b: Seq<String>)
    requires
        a.len() <= b.len(),
        b.subrange(0, a.len() as int) == a,
    ensures
        string_views(b) == string_views(a) + string_views(b).skip(a.len() as int),
{
    assert forall|k: int| 0 <= k < a.len() implies b[k] == a[k] by {
        assert(b.subrange(0, a.len() as int)[k] == b[k]);
    }
    assert(string_views(b) =~= string_views(a) + string_views(b).skip(a.len() as int));
}

proof fn lemma_log_push(l: Seq<String>, x: String)
    ensures
        log_extended(l, l.push(x)),
{
    assert(l.push(x).subrange(0, l.len() as int) =~= l);
}

proof fn lemma_log_extended_trans(a: Seq<String>, b: Seq<String>, c: Seq<String>)
    requires
        log_extended(a, b),
        log_extended(b, c),
    ensures
        log_extended(a, c),
{
    assert(c.subrange(0, a.len() as int) =~= b.subrange(0, a.len() as int));
}

proof fn lemma_pass_log_from(device: DeviceIdentity, before: Seq<String>, head: Seq<String>, l: Seq<String>)
    requires
        head.len() == before.len() + 1,
        log_extended(before, head),
        head[before.len() as int]@ == opening_line(device),
        log_extended(head, l),
    ensures
        log_extended(before, l),
        pass_log(device, l.skip(before.len() as int)),
{
    lemma_log_extended_trans(before, head, l);
    assert(l[before.len() as int] == l.subrange(0, head.len() as int)[before.len() as int]);
}

proof fn lemma_accepted_of_acceptable(cs: Seq<BatteryReading>, now: u64, ttl: u64)
    ensures
        forall|k: int| 0 <= k < accepted_of(cs, now, ttl).len() ==>
            acceptable(#[trigger] accepted_of(cs, now, ttl)[k], now, ttl),
    decreases cs.len(),
{
    if cs.len() > 0 {
        lemma_accepted_of_acceptable(cs.drop_last(), now, ttl);
        let prev = accepted_of(cs.drop_last(), now, ttl);
        let cur = accepted_of(cs, now, ttl);
        assert forall|k: int| 0 <= k < cur.len() implies acceptable(#[trigger] cur[k], now, ttl) by {
            if k < prev.len() {
                assert(cur[k] == prev[k]);
            }
        }
    }
}

/// What every aggregation result keeps, whatever the providers answered:
/// - a chosen percentage is never above 100;
/// - a chosen reading still marked valid is neither older than the time-to-live nor
///   dated in the future;
/// - when the first two accepted readings disagree, the chosen one is marked as
///   conflicting and unconfirmed, never valid;
/// - every reading kept among the accepted ones passed every check.
pub proof fn lemma_aggregation_laws(
    cs: Seq<BatteryReading>,
    dis: Seq<(BatteryReading, String)>,
    now: u64,
    ttl: u64,
    name: Seq<char>,
    transport: ConnectionType,
    time: u64,
    r: AggregatedResult,
)
    requires
        discards_match(cs, dis, now, ttl),
        finished(name, transport, accepted_of(cs, now, ttl), dis, time, r),
    ensures
        r.chosen.percentage matches Some(p) ==> p <= 100,
        r.chosen.validity is Valid ==> !expired(r.chosen, now, ttl) && !from_future(r.chosen, now),
        r.conflict is Some ==> r.chosen.validity is ConflictingReadings
            && r.chosen.confidence == BatteryConfidence::Unconfirmed,
        forall|k: int| 0 <= k < r.all_readings@.len() ==> acceptable(#[trigger] r.all_readings@[k], now, ttl),
{
    lemma_accepted_of_acceptable(cs, now, ttl);
    let acc = accepted_of(cs, now, ttl);
    if acc.len() == 0 {
        if has_zero_unconfirmed(dis) {
            let i = choose|i: int| 0 <= i < dis.len() && (#[trigger] dis[i]).0.validity is ZeroUnconfirmed
                && (forall|j: int| 0 <= j < i ==> !(dis[j].0.validity is ZeroUnconfirmed))
                && r.chosen == dis[i].0;
            let pos = discarded_positions(cs, now, ttl);
            assert(discard_entry(cs[pos[i]], dis[i].0, dis[i].1@, now, ttl));
        }
    } else {
        assert(acceptable(acc[0], now, ttl));
    }
}

proof fn lemma_discarded_positions_bounds(cs: Seq<BatteryReading>, now: u64, ttl: u64)
    ensures
        forall|k: int| 0 <= k < discarded_positions(cs, now, ttl).len() ==>
            0 <= #[trigger] discarded_positions(cs, now, ttl)[k] < cs.len(),
    decreases cs.len(),
{
    if cs.len() > 0 {
        lemma_discarded_positions_bounds(cs.drop_last(), now, ttl);
        let prev = discarded_positions(cs.drop_last(), now, ttl);
        let cur = discarded_positions(cs, now, ttl);
        assert forall|k: int| 0 <= k < cur.len() implies 0 <= #[trigger] cur[k] < cs.len() by {
            if k < prev.len() {
                assert(cur[k] == prev[k]);
            }
        }
    }
}

} // verus!
