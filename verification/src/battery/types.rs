//! Battery readings, their sources and confidence levels, and the validated status shown to users.

use vstd::prelude::*;
use crate::text::{append_dec, append_str, dec, dec_string, digit_char, has_sub, occurs_at, owned, debug_quoted, debug_text};

verus! {

/// Source provider of a battery reading.
#[derive(Debug, Clone, Copy, PartialEq, Eq, Structural)]
pub enum BatterySource {
    UPower,
    BlueZ,
    BluezGatt,
    Sysfs,
    HidStandard,
    HidVendorSpecific,
    Unavailable,
    Unknown,
}

impl BatterySource {
    /// The user-facing name of the source.
    pub open spec fn spec_name(self) -> Seq<char> {
        match self {
            BatterySource::UPower => "UPower"@,
            BatterySource::BlueZ => "BlueZ"@,
            BatterySource::BluezGatt => "BlueZ GATT"@,
            BatterySource::Sysfs => "sysfs"@,
            BatterySource::HidStandard => "HID Padrão"@,
            BatterySource::HidVendorSpecific => "Rapoo Vendor HID"@,
            BatterySource::Unavailable => "Indisponível"@,
            BatterySource::Unknown => "Desconhecida"@,
        }
    }

    /// The user-facing name of the source (its `Display` text).
    pub fn to_display_string(&self) -> (r: String)
        ensures
            r@ == self.spec_name(),
    {
        match self {
            BatterySource::UPower => owned("UPower"),
            BatterySource::BlueZ => owned("BlueZ"),
            BatterySource::BluezGatt => owned("BlueZ GATT"),
            BatterySource::Sysfs => owned("sysfs"),
            BatterySource::HidStandard => owned("HID Padrão"),
            BatterySource::HidVendorSpecific => owned("Rapoo Vendor HID"),
            BatterySource::Unavailable => owned("Indisponível"),
            BatterySource::Unknown => owned("Desconhecida"),
        }
    }
}

impl BatterySource {
    /// The variant name (what `{:?}` prints).
    pub open spec fn spec_variant_name(self) -> Seq<char> {
        match self {
            BatterySource::UPower => "UPower"@,
            BatterySource::BlueZ => "BlueZ"@,
            BatterySource::BluezGatt => "BluezGatt"@,
            BatterySource::Sysfs => "Sysfs"@,
            BatterySource::HidStandard => "HidStandard"@,
            BatterySource::HidVendorSpecific => "HidVendorSpecific"@,
            BatterySource::Unavailable => "Unavailable"@,
            BatterySource::Unknown => "Unknown"@,
        }
    }

    /// The variant name (what `{:?}` prints).
    pub fn variant_name(&self) -> (r: String)
        ensures
            r@ == self.spec_variant_name(),
    {
        match self {
            BatterySource::UPower => owned("UPower"),
            BatterySource::BlueZ => owned("BlueZ"),
            BatterySource::BluezGatt => owned("BluezGatt"),
            BatterySource::Sysfs => owned("Sysfs"),
            BatterySource::HidStandard => owned("HidStandard"),
            BatterySource::HidVendorSpecific => owned("HidVendorSpecific"),
            BatterySource::Unavailable => owned("Unavailable"),
            BatterySource::Unknown => owned("Unknown"),
        }
    }
}

/// Confidence assigned to a reading after validation and cross-checking.
#[derive(Debug, Clone, Copy, PartialEq, Eq, Structural)]
pub enum BatteryConfidence {
    /// Two or more independent, consistent sources agree
    High,
    /// A single trusted provider with valid, fresh data
    Medium,
    /// A single provider with partial or unconfirmed data
    Low,
    /// Reading is suspicious (e.g. 0% without confirmation)
    Unconfirmed,
    /// Reading was rejected during validation
    Rejected,
    /// No valid reading available
    NotAvailable,
}

impl Default for BatteryConfidence {
    fn default() -> (r: Self)
        ensures
            r == BatteryConfidence::NotAvailable,
    {
        BatteryConfidence::NotAvailable
    }
}

impl BatteryConfidence {
    pub open spec fn spec_name(self) -> Seq<char> {
        match self {
            BatteryConfidence::High => "Alta (Confirmada)"@,
            BatteryConfidence::Medium => "Média (Confiável)"@,
            BatteryConfidence::Low => "Baixa"@,
            BatteryConfidence::Unconfirmed => "Não confirmada"@,
            BatteryConfidence::Rejected => "Rejeitada (Inválida)"@,
            BatteryConfidence::NotAvailable => "Nenhuma"@,
        }
    }

    /// The user-facing name of the confidence level (its `Display` text).
    pub fn to_display_string(&self) -> (r: String)
        ensures
            r@ == self.spec_name(),
    {
        match self {
            BatteryConfidence::High => owned("Alta (Confirmada)"),
            BatteryConfidence::Medium => owned("Média (Confiável)"),
            BatteryConfidence::Low => owned("Baixa"),
            BatteryConfidence::Unconfirmed => owned("Não confirmada"),
            BatteryConfidence::Rejected => owned("Rejeitada (Inválida)"),
            BatteryConfidence::NotAvailable => owned("Nenhuma"),
        }
    }
}

impl BatteryConfidence {
    /// The level's name as diagnostics print it (the level without a reading is `None`).
    pub open spec fn spec_variant_name(self) -> Seq<char> {
        match self {
            BatteryConfidence::High => "High"@,
            BatteryConfidence::Medium => "Medium"@,
            BatteryConfidence::Low => "Low"@,
            BatteryConfidence::Unconfirmed => "Unconfirmed"@,
            BatteryConfidence::Rejected => "Rejected"@,
            BatteryConfidence::NotAvailable => "None"@,
        }
    }

    /// The level's name as diagnostics print it.
    pub fn variant_name(&self) -> (r: String)
        ensures
            r@ == self.spec_variant_name(),
    {
        match self {
            BatteryConfidence::High => owned("High"),
            BatteryConfidence::Medium => owned("Medium"),
            BatteryConfidence::Low => owned("Low"),
            BatteryConfidence::Unconfirmed => owned("Unconfirmed"),
            BatteryConfidence::Rejected => owned("Rejected"),
            BatteryConfidence::NotAvailable => owned("None"),
        }
    }
}

/// Why a reading was accepted, flagged, or rejected.
#[derive(Debug, Clone, PartialEq, Eq)]
pub enum BatteryValidity {
    Valid,
    StaleReading { age_seconds: u64 },
    ZeroUnconfirmed,
    ConflictingReadings { sources: Vec<BatterySource> },
    DeviceDisconnected,
    PermissionDenied,
    ServiceUnavailable,
    Invalid { reason: String },
}

/// Operational state of the device battery.
#[derive(Debug, Clone, Copy, PartialEq, Eq, Structural)]
pub enum BatteryState {
    Available,
    Charging,
    Full,
    Low,
    Critical,
    Unknown,
    Unavailable,
    StaleReading,
    ConflictingReading,
    DeviceDisconnected,
}

/// A disagreement between two battery sources.
#[derive(Debug, Clone, Copy, PartialEq, Eq, Structural)]
pub struct ConflictInfo {
    pub source_a: BatterySource,
    pub value_a: u8,
    pub source_b: BatterySource,
    pub value_b: u8,
}

/// Raw low-level details associated with a reading.
#[derive(Debug, Clone, Default, PartialEq, Eq)]
pub struct RawProviderData {
    pub upower_path: Option<String>,
    pub bluez_path: Option<String>,
    pub hidraw_path: Option<String>,
    pub sysfs_path: Option<String>,
    pub hid_uniq: Option<String>,
    pub parent_usb: Option<String>,
    pub report_id: Option<u8>,
    pub bluetooth_address: Option<String>,
    pub model: Option<String>,
    pub serial: Option<String>,
}

impl RawProviderData {
    /// A record with every field empty.
    pub fn empty() -> (r: Self)
        ensures
            r.upower_path is None,
            r.bluez_path is None,
            r.hidraw_path is None,
            r.sysfs_path is None,
            r.hid_uniq is None,
            r.parent_usb is None,
            r.report_id is None,
            r.bluetooth_address is None,
            r.model is None,
            r.serial is None,
    {
        RawProviderData {
            upower_path: None,
            bluez_path: None,
            hidraw_path: None,
            sysfs_path: None,
            hid_uniq: None,
            parent_usb: None,
            report_id: None,
            bluetooth_address: None,
            model: None,
            serial: None,
        }
    }
}

/// A battery reading returned by a provider or chosen by the aggregator.
#[derive(Debug, Clone, PartialEq, Eq)]
pub struct BatteryReading {
    pub percentage: Option<u8>,
    pub state: BatteryState,
    pub is_present: bool,
    pub charging: Option<bool>,
    pub source: BatterySource,
    pub timestamp: u64,
    pub device_identifier: String,
    pub connection: String,
    /// Overall composite confidence level
    pub confidence: BatteryConfidence,
    /// Confidence of matching the physical device (MAC, serial, USB phys)
    pub device_match_confidence: BatteryConfidence,
    /// Confidence of the percentage value itself
    pub reading_confidence: BatteryConfidence,
    /// True if the percentage passed validation checks
    pub reading_valid: bool,
    /// True if the reading's age exceeds the transport's time-to-live
    pub is_stale: bool,
    pub validity: BatteryValidity,
    pub invalidation_reason: Option<String>,
    pub alternative_source: Option<BatterySource>,
    pub conflict_status: Option<ConflictInfo>,
    pub raw_data: Option<RawProviderData>,
}

impl Default for BatteryReading {
    fn default() -> (r: Self)
        ensures
            r.percentage is None,
            r.state == BatteryState::Unknown,
            !r.is_present,
            r.charging is None,
            r.source == BatterySource::Unknown,
            r.timestamp == 0,
            r.device_identifier@ == Seq::<char>::empty(),
            r.connection@ == Seq::<char>::empty(),
            r.confidence == BatteryConfidence::NotAvailable,
            r.device_match_confidence == BatteryConfidence::NotAvailable,
            r.reading_confidence == BatteryConfidence::NotAvailable,
            !r.reading_valid,
            !r.is_stale,
            r.validity matches BatteryValidity::Invalid { reason } && reason@ == "Default"@,
            r.invalidation_reason is None,
            r.alternative_source is None,
            r.conflict_status is None,
            r.raw_data is None,
    {
        BatteryReading {
            percentage: None,
            state: BatteryState::Unknown,
            is_present: false,
            charging: None,
            source: BatterySource::Unknown,
            timestamp: 0,
            device_identifier: String::new(),
            connection: String::new(),
            confidence: BatteryConfidence::NotAvailable,
            device_match_confidence: BatteryConfidence::NotAvailable,
            reading_confidence: BatteryConfidence::NotAvailable,
            reading_valid: false,
            is_stale: false,
            validity: BatteryValidity::Invalid { reason: owned("Default") },
            invalidation_reason: None,
            alternative_source: None,
            conflict_status: None,
            raw_data: None,
        }
    }
}

/// The text of a possibly-missing percentage, `"N/A"` when missing.
pub open spec fn pct_or_na(p: Option<u8>) -> Seq<char> {
    match p {
        Some(v) => dec(v as nat) + "%"@,
        None => "N/A"@,
    }
}

fn pct_or_na_string(p: Option<u8>) -> (r: String)
    ensures
        r@ == pct_or_na(p),
{
    match p {
        Some(v) => {
            let mut s = dec_string(v as u64);
            append_str(&mut s, "%");
            s
        },
        None => owned("N/A"),
    }
}

impl BatteryReading {
    /// The one-line summary shown in the interface.
    pub open spec fn spec_display_text_pt(&self) -> Seq<char> {
        match self.validity {
            BatteryValidity::ZeroUnconfirmed => "Bateria: Leitura não confirmada"@,
            BatteryValidity::ConflictingReadings { .. } => "Bateria: Leitura conflitante"@,
            BatteryValidity::StaleReading { age_seconds } => {
                match self.percentage {
                    Some(pct) => if age_seconds / 60 > 0 {
                        "Bateria: Última leitura "@ + dec(pct as nat) + "%, há "@ + dec((age_seconds / 60) as nat) + " min"@
                    } else {
                        "Bateria: Última leitura "@ + dec(pct as nat) + "%"@
                    },
                    None => "Bateria: Leitura antiga"@,
                }
            },
            BatteryValidity::DeviceDisconnected => "Bateria: Dispositivo desconectado"@,
            BatteryValidity::Invalid { reason } => "Bateria: Indisponível ("@ + reason@ + ")"@,
            _ => {
                match self.percentage {
                    Some(pct) => if self.charging == Some(true) {
                        "Bateria: "@ + dec(pct as nat) + "% (Carregando ⚡)"@
                    } else {
                        "Bateria: "@ + dec(pct as nat) + "%"@
                    },
                    None => match self.invalidation_reason {
                        Some(reason) => "Bateria: Indisponível ("@ + reason@ + ")"@,
                        None => "Bateria: Indisponível"@,
                    },
                }
            },
        }
    }

    /// The one-line summary shown in the interface.
    pub fn display_text_pt(&self) -> (r: String)
        ensures
            r@ == self.spec_display_text_pt(),
    {
        match &self.validity {
            BatteryValidity::ZeroUnconfirmed => owned("Bateria: Leitura não confirmada"),
            BatteryValidity::ConflictingReadings { .. } => owned("Bateria: Leitura conflitante"),
            BatteryValidity::StaleReading { age_seconds } => {
                let mins = *age_seconds / 60;
                match self.percentage {
                    Some(pct) => {
                        let mut s = owned("Bateria: Última leitura ");
                        append_dec(&mut s, pct as u64);
                        if mins > 0 {
                            append_str(&mut s, "%, há ");
                            append_dec(&mut s, mins);
                            append_str(&mut s, " min");
                        } else {
                            append_str(&mut s, "%");
                        }
                        s
                    },
                    None => owned("Bateria: Leitura antiga"),
                }
            },
            BatteryValidity::DeviceDisconnected => owned("Bateria: Dispositivo desconectado"),
            BatteryValidity::Invalid { reason } => {
                let mut s = owned("Bateria: Indisponível (");
                append_str(&mut s, reason.as_str());
                append_str(&mut s, ")");
                s
            },
            _ => {
                match self.percentage {
                    Some(pct) => {
                        let mut s = owned("Bateria: ");
                        append_dec(&mut s, pct as u64);
                        if self.charging == Some(true) {
                            append_str(&mut s, "% (Carregando ⚡)");
                        } else {
                            append_str(&mut s, "%");
                        }
                        s
                    },
                    None => match &self.invalidation_reason {
                        Some(reason) => {
                            let mut s = owned("Bateria: Indisponível (");
                            append_str(&mut s, reason.as_str());
                            append_str(&mut s, ")");
                            s
                        },
                        None => owned("Bateria: Indisponível"),
                    },
                }
            },
        }
    }

    /// The lines of the tooltip.
    pub open spec fn spec_tooltip_lines(&self) -> Seq<Seq<char>> {
        let l1 = match self.percentage {
            Some(pct) => "Nível de Bateria: "@ + dec(pct as nat) + "%"@,
            None => "Nível de Bateria: "@ + "Não disponível"@,
        };
        let l2 = "Origem: "@ + self.source.spec_name();
        let l3 = "Confiança: "@ + self.confidence.spec_name();
        let with_charge = match self.charging {
            Some(chg) => seq![l1, l2, l3, "Estado de Carga: "@ + (if chg { "Carregando ⚡"@ } else { "Descarregando"@ })],
            None => seq![l1, l2, l3],
        };
        match self.invalidation_reason {
            Some(reason) => with_charge.push("Nota: "@ + reason@),
            None => with_charge,
        }
    }

    /// The tooltip: its lines joined by newlines.
    pub fn tooltip_pt(&self) -> (r: String)
        ensures
            r@ == join_lines(self.spec_tooltip_lines()),
    {
        let mut lines: Vec<String> = Vec::new();
        let mut l1 = owned("Nível de Bateria: ");
        match self.percentage {
            Some(pct) => {
                append_dec(&mut l1, pct as u64);
                append_str(&mut l1, "%");
            },
            None => append_str(&mut l1, "Não disponível"),
        }
        lines.push(l1);
        let mut l2 = owned("Origem: ");
        let src = self.source.to_display_string();
        append_str(&mut l2, src.as_str());
        lines.push(l2);
        let mut l3 = owned("Confiança: ");
        let conf = self.confidence.to_display_string();
        append_str(&mut l3, conf.as_str());
        lines.push(l3);
        let ghost base = seq![l1@, l2@, l3@];
        assert(string_views(lines@) =~= base);
        let ghost with_charge = match self.charging {
            Some(chg) => base.push("Estado de Carga: "@ + (if chg { "Carregando ⚡"@ } else { "Descarregando"@ })),
            None => base,
        };
        match self.charging {
            Some(chg) => {
                let mut l4 = owned("Estado de Carga: ");
                if chg {
                    append_str(&mut l4, "Carregando ⚡");
                } else {
                    append_str(&mut l4, "Descarregando");
                }
                let ghost before = string_views(lines@);
                lines.push(l4);
                assert(string_views(lines@) =~= before.push(l4@));
            },
            None => {},
        }
        assert(string_views(lines@) =~= with_charge);
        match &self.invalidation_reason {
            Some(reason) => {
                let mut l5 = owned("Nota: ");
                append_str(&mut l5, reason.as_str());
                let ghost before = string_views(lines@);
                lines.push(l5);
                assert(string_views(lines@) =~= before.push(l5@));
            },
            None => {},
        }
        assert(string_views(lines@) =~= self.spec_tooltip_lines());
        join_with_newlines(&lines)
    }
}

/// The character sequences held by a list of strings.
pub open spec fn string_views(v: Seq<String>) -> Seq<Seq<char>> {
    v.map_values(|x: String| x@)
}

/// Joins strings with `'\n'` between them.
pub fn join_with_newlines(lines: &Vec<String>) -> (r: String)
    ensures
        r@ == join_lines(string_views(lines@)),
{
    let mut r = String::new();
    let mut i: usize = 0;
    while i < lines.len()
        invariant
            i <= lines.len(),
            r@ == join_lines(string_views(lines@).take(i as int)),
        decreases lines.len() - i,
    {
        let ghost t = string_views(lines@).take(i + 1);
        assert(t.drop_last() =~= string_views(lines@).take(i as int));
        if i > 0 {
            append_str(&mut r, "\n");
        }
        append_str(&mut r, lines[i].as_str());
        proof {
            if i == 0 {
                assert(r@ =~= t[0]);
            }
        }
        i = i + 1;
    }
    assert(string_views(lines@).take(lines.len() as int) =~= string_views(lines@));
    r
}

/// Lines joined with `'\n'` between them (`[..].join("\n")`).
pub open spec fn join_lines(ls: Seq<Seq<char>>) -> Seq<char>
    decreases ls.len(),
{
    if ls.len() == 0 {
        Seq::empty()
    } else if ls.len() == 1 {
        ls[0]
    } else {
        join_lines(ls.drop_last()) + "\n"@ + ls.last()
    }
}


/// External or internal power source supplying the device.
#[derive(Debug, Clone, Copy, PartialEq, Eq, Structural)]
pub enum PowerSource {
    UsbCable,
    Dock,
    Bluetooth,
    Dongle,
    Unknown,
}

impl PowerSource {
    pub open spec fn spec_name(self) -> Seq<char> {
        match self {
            PowerSource::UsbCable => "cabo USB"@,
            PowerSource::Dock => "dock"@,
            PowerSource::Bluetooth => "Bluetooth"@,
            PowerSource::Dongle => "dongle 2.4 GHz"@,
            PowerSource::Unknown => "fonte desconhecida"@,
        }
    }

    /// The user-facing name of the power source (its `Display` text).
    pub fn to_display_string(&self) -> (r: String)
        ensures
            r@ == self.spec_name(),
    {
        match self {
            PowerSource::UsbCable => owned("cabo USB"),
            PowerSource::Dock => owned("dock"),
            PowerSource::Bluetooth => owned("Bluetooth"),
            PowerSource::Dongle => owned("dongle 2.4 GHz"),
            PowerSource::Unknown => owned("fonte desconhecida"),
        }
    }
}

/// Charging details: whether charging, the power source, and the evidence for it.
#[derive(Debug, Clone, PartialEq, Eq)]
pub struct ChargingInfo {
    pub is_charging: bool,
    pub power_source: PowerSource,
    pub evidence: String,
}

impl BatteryValidity {
    /// Two validity values carry the same information.
    pub open spec fn equiv(self, other: BatteryValidity) -> bool {
        match (self, other) {
            (BatteryValidity::Valid, BatteryValidity::Valid) => true,
            (BatteryValidity::StaleReading { age_seconds: a }, BatteryValidity::StaleReading { age_seconds: b }) => a == b,
            (BatteryValidity::ZeroUnconfirmed, BatteryValidity::ZeroUnconfirmed) => true,
            (BatteryValidity::ConflictingReadings { sources: a }, BatteryValidity::ConflictingReadings { sources: b }) => a@ == b@,
            (BatteryValidity::DeviceDisconnected, BatteryValidity::DeviceDisconnected) => true,
            (BatteryValidity::PermissionDenied, BatteryValidity::PermissionDenied) => true,
            (BatteryValidity::ServiceUnavailable, BatteryValidity::ServiceUnavailable) => true,
            (BatteryValidity::Invalid { reason: a }, BatteryValidity::Invalid { reason: b }) => a@ == b@,
            _ => false,
        }
    }

    /// A copy carrying the same information.
    pub fn duplicate(&self) -> (r: BatteryValidity)
        ensures
            r.equiv(*self),
    {
        match self {
            BatteryValidity::Valid => BatteryValidity::Valid,
            BatteryValidity::StaleReading { age_seconds } => BatteryValidity::StaleReading { age_seconds: *age_seconds },
            BatteryValidity::ZeroUnconfirmed => BatteryValidity::ZeroUnconfirmed,
            BatteryValidity::ConflictingReadings { sources } => {
                let mut v: Vec<BatterySource> = Vec::new();
                let mut i: usize = 0;
                while i < sources.len()
                    invariant
                        i <= sources.len(),
                        v@ == sources@.take(i as int),
                    decreases sources.len() - i,
                {
                    v.push(sources[i]);
                    assert(sources@.take(i + 1) =~= sources@.take(i as int).push(sources@[i as int]));
                    i = i + 1;
                }
                assert(sources@.take(sources.len() as int) =~= sources@);
                BatteryValidity::ConflictingReadings { sources: v }
            },
            BatteryValidity::DeviceDisconnected => BatteryValidity::DeviceDisconnected,
            BatteryValidity::PermissionDenied => BatteryValidity::PermissionDenied,
            BatteryValidity::ServiceUnavailable => BatteryValidity::ServiceUnavailable,
            BatteryValidity::Invalid { reason } => BatteryValidity::Invalid { reason: reason.clone() },
        }
    }
}

/// The variant names of a list of sources, separated by `", "`.
pub open spec fn sources_debug(s: Seq<BatterySource>) -> Seq<char>
    decreases s.len(),
{
    if s.len() == 0 {
        Seq::<char>::empty()
    } else if s.len() == 1 {
        s[0].spec_variant_name()
    } else {
        sources_debug(s.drop_last()) + ", "@ + s.last().spec_variant_name()
    }
}

impl BatteryValidity {
    /// What `{:?}` prints for a validity value.
    pub open spec fn spec_debug(self) -> Seq<char> {
        match self {
            BatteryValidity::Valid => "Valid"@,
            BatteryValidity::StaleReading { age_seconds } =>
                "StaleReading { age_seconds: "@ + dec(age_seconds as nat) + " }"@,
            BatteryValidity::ZeroUnconfirmed => "ZeroUnconfirmed"@,
            BatteryValidity::ConflictingReadings { sources } =>
                "ConflictingReadings { sources: ["@ + sources_debug(sources@) + "] }"@,
            BatteryValidity::DeviceDisconnected => "DeviceDisconnected"@,
            BatteryValidity::PermissionDenied => "PermissionDenied"@,
            BatteryValidity::ServiceUnavailable => "ServiceUnavailable"@,
            BatteryValidity::Invalid { reason } => "Invalid { reason: "@ + debug_quoted(reason@) + " }"@,
        }
    }

    /// What `{:?}` prints for a validity value.
    pub fn debug_string(&self) -> (r: String)
        ensures
            r@ == self.spec_debug(),
    {
        match self {
            BatteryValidity::Valid => owned("Valid"),
            BatteryValidity::StaleReading { age_seconds } => {
                let mut r = owned("StaleReading { age_seconds: ");
                append_dec(&mut r, *age_seconds);
                append_str(&mut r, " }");
                r
            },
            BatteryValidity::ZeroUnconfirmed => owned("ZeroUnconfirmed"),
            BatteryValidity::ConflictingReadings { sources } => {
                let mut list = String::new();
                let mut i: usize = 0;
                while i < sources.len()
                    invariant
                        i <= sources.len(),
                        list@ == sources_debug(sources@.take(i as int)),
                    decreases sources.len() - i,
                {
                    let name = sources[i].variant_name();
                    if i > 0 {
                        append_str(&mut list, ", ");
                    }
                    append_str(&mut list, name.as_str());
                    proof {
                        let t = sources@.take(i + 1);
                        assert(t.drop_last() =~= sources@.take(i as int));
                        if i == 0 {
                            assert(list@ =~= sources_debug(t));
                        }
                    }
                    i = i + 1;
                }
                assert(sources@.take(sources.len() as int) =~= sources@);
                let mut r = owned("ConflictingReadings { sources: [");
                append_str(&mut r, list.as_str());
                append_str(&mut r, "] }");
                r
            },
            BatteryValidity::DeviceDisconnected => owned("DeviceDisconnected"),
            BatteryValidity::PermissionDenied => owned("PermissionDenied"),
            BatteryValidity::ServiceUnavailable => owned("ServiceUnavailable"),
            BatteryValidity::Invalid { reason } => {
                let mut r = owned("Invalid { reason: ");
                let q = debug_text(reason.as_str());
                append_str(&mut r, q.as_str());
                append_str(&mut r, " }");
                r
            },
        }
    }
}

/// Two optional strings hold the same text.
pub open spec fn opt_str_equiv(a: Option<String>, b: Option<String>) -> bool {
    match (a, b) {
        (Some(x), Some(y)) => x@ == y@,
        (None, None) => true,
        _ => false,
    }
}

/// A copy of an optional string.
pub fn clone_opt_string(a: &Option<String>) -> (r: Option<String>)
    ensures
        opt_str_equiv(r, *a),
{
    match a {
        Some(x) => Some(x.clone()),
        None => None,
    }
}

impl RawProviderData {
    pub open spec fn equiv(self, o: RawProviderData) -> bool {
        &&& opt_str_equiv(self.upower_path, o.upower_path)
        &&& opt_str_equiv(self.bluez_path, o.bluez_path)
        &&& opt_str_equiv(self.hidraw_path, o.hidraw_path)
        &&& opt_str_equiv(self.sysfs_path, o.sysfs_path)
        &&& opt_str_equiv(self.hid_uniq, o.hid_uniq)
        &&& opt_str_equiv(self.parent_usb, o.parent_usb)
        &&& self.report_id == o.report_id
        &&& opt_str_equiv(self.bluetooth_address, o.bluetooth_address)
        &&& opt_str_equiv(self.model, o.model)
        &&& opt_str_equiv(self.serial, o.serial)
    }

    /// A copy carrying the same information.
    pub fn duplicate(&self) -> (r: RawProviderData)
        ensures
            r.equiv(*self),
    {
        RawProviderData {
            upower_path: clone_opt_string(&self.upower_path),
            bluez_path: clone_opt_string(&self.bluez_path),
            hidraw_path: clone_opt_string(&self.hidraw_path),
            sysfs_path: clone_opt_string(&self.sysfs_path),
            hid_uniq: clone_opt_string(&self.hid_uniq),
            parent_usb: clone_opt_string(&self.parent_usb),
            report_id: self.report_id,
            bluetooth_address: clone_opt_string(&self.bluetooth_address),
            model: clone_opt_string(&self.model),
            serial: clone_opt_string(&self.serial),
        }
    }
}

impl BatteryReading {
    /// Every field but the validity carries the same information.
    pub open spec fn equiv_except_validity(self, o: BatteryReading) -> bool {
        &&& self.equiv_core(o)
        &&& self.confidence == o.confidence
        &&& self.conflict_status == o.conflict_status
    }

    /// Every field but the validity, the overall confidence and the conflict status
    /// carries the same information.
    pub open spec fn equiv_core(self, o: BatteryReading) -> bool {
        &&& self.percentage == o.percentage
        &&& self.state == o.state
        &&& self.is_present == o.is_present
        &&& self.charging == o.charging
        &&& self.source == o.source
        &&& self.timestamp == o.timestamp
        &&& self.device_identifier@ == o.device_identifier@
        &&& self.connection@ == o.connection@
        &&& self.device_match_confidence == o.device_match_confidence
        &&& self.reading_confidence == o.reading_confidence
        &&& self.reading_valid == o.reading_valid
        &&& self.is_stale == o.is_stale
        &&& opt_str_equiv(self.invalidation_reason, o.invalidation_reason)
        &&& self.alternative_source == o.alternative_source
        &&& match (self.raw_data, o.raw_data) {
            (Some(a), Some(b)) => a.equiv(b),
            (None, None) => true,
            _ => false,
        }
    }

    /// Two readings carry the same information.
    pub open spec fn equiv(self, o: BatteryReading) -> bool {
        self.equiv_except_validity(o) && self.validity.equiv(o.validity)
    }

    /// A copy carrying the same information.
    pub fn duplicate(&self) -> (r: BatteryReading)
        ensures
            r.equiv(*self),
    {
        BatteryReading {
            percentage: self.percentage,
            state: self.state,
            is_present: self.is_present,
            charging: self.charging,
            source: self.source,
            timestamp: self.timestamp,
            device_identifier: self.device_identifier.clone(),
            connection: self.connection.clone(),
            confidence: self.confidence,
            device_match_confidence: self.device_match_confidence,
            reading_confidence: self.reading_confidence,
            reading_valid: self.reading_valid,
            is_stale: self.is_stale,
            validity: self.validity.duplicate(),
            invalidation_reason: clone_opt_string(&self.invalidation_reason),
            alternative_source: self.alternative_source,
            conflict_status: self.conflict_status,
            raw_data: match &self.raw_data {
                Some(d) => Some(d.duplicate()),
                None => None,
            },
        }
    }
}

/// The validated battery status shown to users.
#[derive(Debug, Clone, PartialEq, Eq)]
pub enum BatteryStatus {
    Available {
        percentage: u8,
        charging: bool,
        source: Option<BatterySource>,
        timestamp: Option<u64>,
        diagnostic_message: Option<String>,
    },
    Charging {
        percentage: Option<u8>,
        source: PowerSource,
    },
    Discharging {
        percentage: u8,
    },
    Full,
    Unavailable {
        reason: String,
        source: Option<BatterySource>,
    },
    Stale {
        last_percentage: Option<u8>,
        age_seconds: u64,
    },
    Invalid {
        reason: String,
    },
    Unknown,
}

impl Default for BatteryStatus {
    fn default() -> (r: Self)
        ensures
            r is Unknown,
    {
        BatteryStatus::Unknown
    }
}

impl BatteryStatus {
    pub open spec fn spec_percentage(&self) -> Option<u8> {
        match self {
            BatteryStatus::Available { percentage, .. } => Some(*percentage),
            BatteryStatus::Charging { percentage, .. } => *percentage,
            BatteryStatus::Discharging { percentage } => Some(*percentage),
            BatteryStatus::Full => Some(100),
            BatteryStatus::Stale { last_percentage, .. } => *last_percentage,
            _ => None,
        }
    }

    /// The battery level, if the status carries one.
    pub fn percentage(&self) -> (r: Option<u8>)
        ensures
            r == self.spec_percentage(),
    {
        match self {
            BatteryStatus::Available { percentage, .. } => Some(*percentage),
            BatteryStatus::Charging { percentage, .. } => *percentage,
            BatteryStatus::Discharging { percentage } => Some(*percentage),
            BatteryStatus::Full => Some(100),
            BatteryStatus::Stale { last_percentage, .. } => *last_percentage,
            _ => None,
        }
    }

    pub open spec fn spec_is_charging(&self) -> bool {
        match self {
            BatteryStatus::Available { charging, .. } => *charging,
            BatteryStatus::Charging { .. } => true,
            BatteryStatus::Full => true,
            _ => false,
        }
    }

    /// Whether the device is charging (a full battery counts as charging).
    pub fn is_charging(&self) -> (r: bool)
        ensures
            r == self.spec_is_charging(),
    {
        match self {
            BatteryStatus::Available { charging, .. } => *charging,
            BatteryStatus::Charging { .. } => true,
            BatteryStatus::Full => true,
            _ => false,
        }
    }

    pub open spec fn spec_source(&self) -> BatterySource {
        match self {
            BatteryStatus::Available { source, .. } => source.unwrap_or(BatterySource::Unknown),
            BatteryStatus::Unavailable { source, .. } => source.unwrap_or(BatterySource::Unavailable),
            _ => BatterySource::Unknown,
        }
    }

    /// The source the status came from.
    pub fn source(&self) -> (r: BatterySource)
        ensures
            r == self.spec_source(),
    {
        match self {
            BatteryStatus::Available { source, .. } => match source {
                Some(s) => *s,
                None => BatterySource::Unknown,
            },
            BatteryStatus::Unavailable { source, .. } => match source {
                Some(s) => *s,
                None => BatterySource::Unavailable,
            },
            _ => BatterySource::Unknown,
        }
    }

    pub open spec fn spec_display_text_pt(&self) -> Seq<char> {
        match self {
            BatteryStatus::Available { percentage, charging, .. } => if *charging {
                dec(*percentage as nat) + "% · Carregando ⚡"@
            } else {
                dec(*percentage as nat) + "%"@
            },
            BatteryStatus::Charging { percentage: Some(pct), source } => match source {
                PowerSource::Unknown => dec(*pct as nat) + "% · Carregando ⚡"@,
                _ => dec(*pct as nat) + "% · Carregando via "@ + source.spec_name() + " ⚡"@,
            },
            BatteryStatus::Charging { percentage: None, source } => match source {
                PowerSource::Unknown => "Carregamento detectado · percentual indisponível"@,
                _ => "Carregamento detectado via "@ + source.spec_name() + " · percentual indisponível"@,
            },
            BatteryStatus::Discharging { percentage } => dec(*percentage as nat) + "% · Em uso"@,
            BatteryStatus::Full => "100% · Completa"@,
            BatteryStatus::Stale { last_percentage: Some(pct), age_seconds } =>
                "Leitura antiga ("@ + dec(*pct as nat) + "%, há "@ + dec(*age_seconds as nat) + "s)"@,
            BatteryStatus::Stale { last_percentage: None, .. } => "Leitura antiga (expirada)"@,
            BatteryStatus::Unavailable { reason, .. } => "Bateria indisponível ("@ + reason@ + ")"@,
            BatteryStatus::Invalid { reason } => "Bateria indisponível ("@ + reason@ + ")"@,
            BatteryStatus::Unknown => "Bateria indisponível"@,
        }
    }

    /// The status line shown in the interface.
    pub fn display_text_pt(&self) -> (r: String)
        ensures
            r@ == self.spec_display_text_pt(),
    {
        match self {
            BatteryStatus::Available { percentage, charging, .. } => {
                let mut s = dec_string(*percentage as u64);
                if *charging {
                    append_str(&mut s, "% · Carregando ⚡");
                } else {
                    append_str(&mut s, "%");
                }
                s
            },
            BatteryStatus::Charging { percentage: Some(pct), source } => {
                let mut s = dec_string(*pct as u64);
                match source {
                    PowerSource::Unknown => append_str(&mut s, "% · Carregando ⚡"),
                    _ => {
                        append_str(&mut s, "% · Carregando via ");
                        let n = source.to_display_string();
                        append_str(&mut s, n.as_str());
                        append_str(&mut s, " ⚡");
                    },
                }
                s
            },
            BatteryStatus::Charging { percentage: None, source } => match source {
                PowerSource::Unknown => owned("Carregamento detectado · percentual indisponível"),
                _ => {
                    let mut s = owned("Carregamento detectado via ");
                    let n = source.to_display_string();
                    append_str(&mut s, n.as_str());
                    append_str(&mut s, " · percentual indisponível");
                    s
                },
            },
            BatteryStatus::Discharging { percentage } => {
                let mut s = dec_string(*percentage as u64);
                append_str(&mut s, "% · Em uso");
                s
            },
            BatteryStatus::Full => owned("100% · Completa"),
            BatteryStatus::Stale { last_percentage: Some(pct), age_seconds } => {
                let mut s = owned("Leitura antiga (");
                append_dec(&mut s, *pct as u64);
                append_str(&mut s, "%, há ");
                append_dec(&mut s, *age_seconds);
                append_str(&mut s, "s)");
                s
            },
            BatteryStatus::Stale { last_percentage: None, .. } => owned("Leitura antiga (expirada)"),
            BatteryStatus::Unavailable { reason, .. } => {
                let mut s = owned("Bateria indisponível (");
                append_str(&mut s, reason.as_str());
                append_str(&mut s, ")");
                s
            },
            BatteryStatus::Invalid { reason } => {
                let mut s = owned("Bateria indisponível (");
                append_str(&mut s, reason.as_str());
                append_str(&mut s, ")");
                s
            },
            BatteryStatus::Unknown => owned("Bateria indisponível"),
        }
    }

    pub open spec fn spec_display_text_en(&self) -> Seq<char> {
        match self {
            BatteryStatus::Available { percentage, charging, .. } => if *charging {
                dec(*percentage as nat) + "% (Charging ⚡)"@
            } else {
                dec(*percentage as nat) + "%"@
            },
            BatteryStatus::Charging { percentage: Some(pct), .. } => dec(*pct as nat) + "% (Charging ⚡)"@,
            BatteryStatus::Charging { percentage: None, .. } => "Charging detected (percentage unavailable)"@,
            BatteryStatus::Discharging { percentage } => dec(*percentage as nat) + "% (In use)"@,
            BatteryStatus::Full => "100% (Full)"@,
            BatteryStatus::Stale { .. } => "Battery: Stale reading"@,
            BatteryStatus::Unavailable { reason, .. } => "Battery: Unavailable ("@ + reason@ + ")"@,
            BatteryStatus::Invalid { reason } => "Battery: Invalid ("@ + reason@ + ")"@,
            BatteryStatus::Unknown => "Battery: Not Available"@,
        }
    }

    /// The status line in English.
    pub fn display_text_en(&self) -> (r: String)
        ensures
            r@ == self.spec_display_text_en(),
    {
        match self {
            BatteryStatus::Available { percentage, charging, .. } => {
                let mut s = dec_string(*percentage as u64);
                if *charging {
                    append_str(&mut s, "% (Charging ⚡)");
                } else {
                    append_str(&mut s, "%");
                }
                s
            },
            BatteryStatus::Charging { percentage: Some(pct), .. } => {
                let mut s = dec_string(*pct as u64);
                append_str(&mut s, "% (Charging ⚡)");
                s
            },
            BatteryStatus::Charging { percentage: None, .. } => owned("Charging detected (percentage unavailable)"),
            BatteryStatus::Discharging { percentage } => {
                let mut s = dec_string(*percentage as u64);
                append_str(&mut s, "% (In use)");
                s
            },
            BatteryStatus::Full => owned("100% (Full)"),
            BatteryStatus::Stale { .. } => owned("Battery: Stale reading"),
            BatteryStatus::Unavailable { reason, .. } => {
                let mut s = owned("Battery: Unavailable (");
                append_str(&mut s, reason.as_str());
                append_str(&mut s, ")");
                s
            },
            BatteryStatus::Invalid { reason } => {
                let mut s = owned("Battery: Invalid (");
                append_str(&mut s, reason.as_str());
                append_str(&mut s, ")");
                s
            },
            BatteryStatus::Unknown => owned("Battery: Not Available"),
        }
    }

    pub open spec fn spec_tooltip_pt(&self) -> Seq<char> {
        match self {
            BatteryStatus::Available { percentage, charging, source, diagnostic_message, .. } => {
                let src = match source { Some(s) => s.spec_name(), None => "Desconhecida"@ };
                let st = if *charging { "Carregando ⚡"@ } else { "Em uso"@ };
                let base = "Nível: "@ + dec(*percentage as nat) + "%\nEstado: "@ + st + "\nOrigem: "@ + src;
                match diagnostic_message {
                    Some(m) => if m@.len() == 0 { base } else { base + "\nInfo: "@ + m@ },
                    None => base,
                }
            },
            BatteryStatus::Charging { percentage, source } =>
                "Nível: "@ + pct_or_na(*percentage) + "\nEstado: Carregando ⚡\nFonte de Energia: "@ + source.spec_name(),
            BatteryStatus::Discharging { percentage } =>
                "Nível: "@ + dec(*percentage as nat) + "%\nEstado: Em uso"@,
            BatteryStatus::Full => "Nível: 100%\nEstado: Bateria Completa"@,
            BatteryStatus::Stale { last_percentage, age_seconds } =>
                "Bateria Antiga\nÚltimo Nível: "@ + pct_or_na(*last_percentage) + "\nIdade: "@ + dec(*age_seconds as nat) + " segundos"@,
            BatteryStatus::Unavailable { reason, source } => {
                let src = match source { Some(s) => s.spec_name(), None => "N/A"@ };
                "Bateria Indisponível\nMotivo: "@ + reason@ + "\nOrigem: "@ + src
            },
            BatteryStatus::Invalid { reason } => "Leitura Inválida\nMotivo: "@ + reason@,
            BatteryStatus::Unknown => "Status de bateria desconhecido"@,
        }
    }

    /// The tooltip text.
    pub fn tooltip_pt(&self) -> (r: String)
        ensures
            r@ == self.spec_tooltip_pt(),
    {
        match self {
            BatteryStatus::Available { percentage, charging, source, diagnostic_message, .. } => {
                let src = match source {
                    Some(s) => s.to_display_string(),
                    None => owned("Desconhecida"),
                };
                let mut s = owned("Nível: ");
                append_dec(&mut s, *percentage as u64);
                append_str(&mut s, "%\nEstado: ");
                if *charging {
                    append_str(&mut s, "Carregando ⚡");
                } else {
                    append_str(&mut s, "Em uso");
                }
                append_str(&mut s, "\nOrigem: ");
                append_str(&mut s, src.as_str());
                match diagnostic_message {
                    Some(m) => {
                        if m.as_str().is_empty() {
                        } else {
                            append_str(&mut s, "\nInfo: ");
                            append_str(&mut s, m.as_str());
                        }
                    },
                    None => {},
                }
                s
            },
            BatteryStatus::Charging { percentage, source } => {
                let mut s = owned("Nível: ");
                let p = pct_or_na_string(*percentage);
                append_str(&mut s, p.as_str());
                append_str(&mut s, "\nEstado: Carregando ⚡\nFonte de Energia: ");
                let n = source.to_display_string();
                append_str(&mut s, n.as_str());
                s
            },
            BatteryStatus::Discharging { percentage } => {
                let mut s = owned("Nível: ");
                append_dec(&mut s, *percentage as u64);
                append_str(&mut s, "%\nEstado: Em uso");
                s
            },
            BatteryStatus::Full => owned("Nível: 100%\nEstado: Bateria Completa"),
            BatteryStatus::Stale { last_percentage, age_seconds } => {
                let mut s = owned("Bateria Antiga\nÚltimo Nível: ");
                let p = pct_or_na_string(*last_percentage);
                append_str(&mut s, p.as_str());
                append_str(&mut s, "\nIdade: ");
                append_dec(&mut s, *age_seconds);
                append_str(&mut s, " segundos");
                s
            },
            BatteryStatus::Unavailable { reason, source } => {
                let src = match source {
                    Some(s) => s.to_display_string(),
                    None => owned("N/A"),
                };
                let mut s = owned("Bateria Indisponível\nMotivo: ");
                append_str(&mut s, reason.as_str());
                append_str(&mut s, "\nOrigem: ");
                append_str(&mut s, src.as_str());
                s
            },
            BatteryStatus::Invalid { reason } => {
                let mut s = owned("Leitura Inválida\nMotivo: ");
                append_str(&mut s, reason.as_str());
                s
            },
            BatteryStatus::Unknown => owned("Status de bateria desconhecido"),
        }
    }
}

/// The status a reading is shown as.
pub open spec fn status_of_reading(r: BatteryReading, s: BatteryStatus) -> bool {
    match r.validity {
        BatteryValidity::Valid => {
            if r.charging == Some(true) {
                s == BatteryStatus::Charging { percentage: r.percentage, source: PowerSource::Unknown }
            } else if r.percentage is Some {
                s matches BatteryStatus::Available { percentage, charging, source, timestamp, diagnostic_message }
                    && percentage == r.percentage.unwrap() && !charging && source == Some(r.source)
                    && timestamp == Some(r.timestamp) && opt_str_equiv(diagnostic_message, r.invalidation_reason)
            } else {
                s matches BatteryStatus::Unavailable { reason, source }
                    && source == Some(r.source)
                    && reason@ == match r.invalidation_reason {
                        Some(x) => x@,
                        None => "Bateria sem porcentagem informada"@,
                    }
            }
        },
        BatteryValidity::ZeroUnconfirmed => s matches BatteryStatus::Unavailable { reason, source }
            && source == Some(r.source) && reason@ == "Leitura de 0% não confirmada por fonte secundária"@,
        BatteryValidity::ConflictingReadings { .. } => s matches BatteryStatus::Unavailable { reason, source }
            && source == Some(r.source) && reason@ == "Conflito entre fontes de bateria"@,
        BatteryValidity::StaleReading { age_seconds } =>
            s == BatteryStatus::Stale { last_percentage: r.percentage, age_seconds },
        BatteryValidity::DeviceDisconnected => s matches BatteryStatus::Unavailable { reason, source }
            && source == Some(r.source) && reason@ == "Dispositivo desconectado"@,
        BatteryValidity::PermissionDenied => s matches BatteryStatus::Unavailable { reason, source }
            && source == Some(r.source) && reason@ == "Permissão negada ao acessar dispositivo"@,
        BatteryValidity::ServiceUnavailable => s matches BatteryStatus::Unavailable { reason, source }
            && source == Some(r.source) && reason@ == "Serviço de bateria indisponível"@,
        BatteryValidity::Invalid { reason: why } => s matches BatteryStatus::Invalid { reason } && reason@ == why@,
    }
}

impl BatteryStatus {
    /// The status a reading is shown as (the conversion `From<BatteryReading>`).
    pub fn from_reading(reading: BatteryReading) -> (s: BatteryStatus)
        ensures
            status_of_reading(reading, s),
    {
        let BatteryReading { percentage, charging, source, timestamp, validity, invalidation_reason, .. } = reading;
        match validity {
            BatteryValidity::Valid => {
                if charging == Some(true) {
                    BatteryStatus::Charging { percentage, source: PowerSource::Unknown }
                } else {
                    match percentage {
                        Some(pct) => BatteryStatus::Available {
                            percentage: pct,
                            charging: false,
                            source: Some(source),
                            timestamp: Some(timestamp),
                            diagnostic_message: invalidation_reason,
                        },
                        None => BatteryStatus::Unavailable {
                            reason: match invalidation_reason {
                                Some(x) => x,
                                None => owned("Bateria sem porcentagem informada"),
                            },
                            source: Some(source),
                        },
                    }
                }
            },
            BatteryValidity::ZeroUnconfirmed => BatteryStatus::Unavailable {
                reason: owned("Leitura de 0% não confirmada por fonte secundária"),
                source: Some(source),
            },
            BatteryValidity::ConflictingReadings { .. } => BatteryStatus::Unavailable {
                reason: owned("Conflito entre fontes de bateria"),
                source: Some(source),
            },
            BatteryValidity::StaleReading { age_seconds } => BatteryStatus::Stale {
                last_percentage: percentage,
                age_seconds,
            },
            BatteryValidity::DeviceDisconnected => BatteryStatus::Unavailable {
                reason: owned("Dispositivo desconectado"),
                source: Some(source),
            },
            BatteryValidity::PermissionDenied => BatteryStatus::Unavailable {
                reason: owned("Permissão negada ao acessar dispositivo"),
                source: Some(source),
            },
            BatteryValidity::ServiceUnavailable => BatteryStatus::Unavailable {
                reason: owned("Serviço de bateria indisponível"),
                source: Some(source),
            },
            BatteryValidity::Invalid { reason } => BatteryStatus::Invalid { reason },
        }
    }
}

impl From<BatteryReading> for BatteryStatus {
    fn from(reading: BatteryReading) -> (s: BatteryStatus)
        ensures
            status_of_reading(reading, s),
    {
        BatteryStatus::from_reading(reading)
    }
}

/// The statuses carry `String` reasons, so a conversion is described by the relation
/// `status_of_reading` on `from_reading` rather than by one spec value: this impl claims
/// nothing through `from_spec`.
impl vstd::std_specs::convert::FromSpecImpl<BatteryReading> for BatteryStatus {
    open spec fn obeys_from_spec() -> bool {
        false
    }

    open spec fn from_spec(v: BatteryReading) -> BatteryStatus {
        choose|s: BatteryStatus| status_of_reading(v, s)
    }
}

/// The word the status lines use for "unavailable".
pub open spec fn unavailable_word() -> Seq<char> {
    "indisponível"@
}

/// No character of `s` is the accented `í` of `unavailable_word`.
pub open spec fn no_accented_i(s: Seq<char>) -> bool {
    forall|i: int| 0 <= i < s.len() ==> #[trigger] s[i] != 'í'
}

proof fn lemma_no_accent_no_word(s: Seq<char>)
    requires
        no_accented_i(s),
    ensures
        !has_sub(s, unavailable_word()),
{
    reveal_strlit("indisponível");
    let w = unavailable_word();
    assert(w[8] == 'í');
    assert forall|i: int| !occurs_at(s, w, i) by {
        if occurs_at(s, w, i) {
            assert(s.subrange(i, i + w.len())[8] == w[8]);
            assert(s[i + 8] == 'í');
        }
    }
}

proof fn lemma_no_accent_add(a: Seq<char>, b: Seq<char>)
    requires
        no_accented_i(a),
        no_accented_i(b),
    ensures
        no_accented_i(a + b),
{
    assert forall|i: int| 0 <= i < (a + b).len() implies #[trigger] (a + b)[i] != 'í' by {
        if i < a.len() {
            assert((a + b)[i] == a[i]);
        } else {
            assert((a + b)[i] == b[i - a.len()]);
        }
    }
}

proof fn lemma_dec_no_accent(n: nat)
    ensures
        no_accented_i(dec(n)),
    decreases n,
{
    if n >= 10 {
        lemma_dec_no_accent(n / 10);
        let d = digit_char(n % 10);
        assert(no_accented_i(seq![d]));
        assert(dec(n) == dec(n / 10).push(d));
        assert(dec(n / 10).push(d) =~= dec(n / 10) + seq![d]);
        lemma_no_accent_add(dec(n / 10), seq![d]);
    } else {
        assert(no_accented_i(seq![digit_char(n)]));
    }
}

/// What the status line says of the level: a status that has a level never calls the
/// battery unavailable; one without a level, unless it is an expired reading, does;
/// and the unknown status says exactly "Bateria indisponível".
pub proof fn lemma_unavailable_text(st: BatteryStatus)
    ensures
        st.spec_percentage() is Some ==> !has_sub(st.spec_display_text_pt(), unavailable_word()),
        (st.spec_percentage() is None && !(st is Stale)) ==> has_sub(st.spec_display_text_pt(), unavailable_word()),
        st is Unknown ==> st.spec_display_text_pt() == "Bateria indisponível"@,
{
    reveal_strlit("indisponível");
    reveal_strlit("% · Carregando ⚡");
    reveal_strlit("%");
    reveal_strlit("% · Carregando via ");
    reveal_strlit(" ⚡");
    reveal_strlit("% · Em uso");
    reveal_strlit("100% · Completa");
    reveal_strlit("Leitura antiga (");
    reveal_strlit("%, há ");
    reveal_strlit("s)");
    reveal_strlit("cabo USB");
    reveal_strlit("dock");
    reveal_strlit("Bluetooth");
    reveal_strlit("dongle 2.4 GHz");
    reveal_strlit("Carregamento detectado · percentual indisponível");
    reveal_strlit("Carregamento detectado via ");
    reveal_strlit(" · percentual indisponível");
    reveal_strlit("Bateria indisponível (");
    reveal_strlit("Bateria indisponível");
    let w = unavailable_word();
    let t = st.spec_display_text_pt();
    match st {
        BatteryStatus::Available { percentage, charging, .. } => {
            lemma_dec_no_accent(percentage as nat);
            if charging {
                assert(no_accented_i("% · Carregando ⚡"@));
                lemma_no_accent_add(dec(percentage as nat), "% · Carregando ⚡"@);
            } else {
                assert(no_accented_i("%"@));
                lemma_no_accent_add(dec(percentage as nat), "%"@);
            }
            lemma_no_accent_no_word(t);
        },
        BatteryStatus::Charging { percentage: Some(pct), source } => {
            lemma_dec_no_accent(pct as nat);
            match source {
                PowerSource::Unknown => {
                    assert(no_accented_i("% · Carregando ⚡"@));
                    lemma_no_accent_add(dec(pct as nat), "% · Carregando ⚡"@);
                },
                _ => {
                    assert(no_accented_i("% · Carregando via "@));
                    assert(no_accented_i(source.spec_name()));
                    assert(no_accented_i(" ⚡"@));
                    lemma_no_accent_add(dec(pct as nat), "% · Carregando via "@);
                    lemma_no_accent_add(dec(pct as nat) + "% · Carregando via "@, source.spec_name());
                    lemma_no_accent_add(dec(pct as nat) + "% · Carregando via "@ + source.spec_name(), " ⚡"@);
                },
            }
            lemma_no_accent_no_word(t);
        },
        BatteryStatus::Charging { percentage: None, source } => {
            match source {
                PowerSource::Unknown => {
                    assert(t.subrange(36, 48) =~= w);
                    assert(occurs_at(t, w, 36));
                },
                _ => {
                    let pre = "Carregamento detectado via "@ + source.spec_name();
                    let tail = " · percentual indisponível"@;
                    assert(t == pre + tail);
                    let k: int = pre.len() as int + 14;
                    assert(t.subrange(k, k + 12) =~= w);
                    assert(occurs_at(t, w, k));
                },
            }
        },
        BatteryStatus::Discharging { percentage } => {
            lemma_dec_no_accent(percentage as nat);
            assert(no_accented_i("% · Em uso"@));
            lemma_no_accent_add(dec(percentage as nat), "% · Em uso"@);
            lemma_no_accent_no_word(t);
        },
        BatteryStatus::Full => {
            assert(no_accented_i("100% · Completa"@));
            lemma_no_accent_no_word(t);
        },
        BatteryStatus::Stale { last_percentage: Some(pct), age_seconds } => {
            lemma_dec_no_accent(pct as nat);
            lemma_dec_no_accent(age_seconds as nat);
            assert(no_accented_i("Leitura antiga ("@));
            assert(no_accented_i("%, há "@));
            assert(no_accented_i("s)"@));
            lemma_no_accent_add("Leitura antiga ("@, dec(pct as nat));
            lemma_no_accent_add("Leitura antiga ("@ + dec(pct as nat), "%, há "@);
            lemma_no_accent_add("Leitura antiga ("@ + dec(pct as nat) + "%, há "@, dec(age_seconds as nat));
            lemma_no_accent_add("Leitura antiga ("@ + dec(pct as nat) + "%, há "@ + dec(age_seconds as nat), "s)"@);
            lemma_no_accent_no_word(t);
        },
        BatteryStatus::Stale { last_percentage: None, .. } => {},
        BatteryStatus::Unavailable { reason, .. } => {
            assert(t.subrange(8, 20) =~= w);
            assert(occurs_at(t, w, 8));
        },
        BatteryStatus::Invalid { reason } => {
            assert(t.subrange(8, 20) =~= w);
            assert(occurs_at(t, w, 8));
        },
        BatteryStatus::Unknown => {
            assert(t.subrange(8, 20) =~= w);
            assert(occurs_at(t, w, 8));
        },
    }
}

/// A status shows a level only when the reading it came from was valid or merely stale.
pub proof fn lemma_status_level_only_from_valid_or_stale(r: BatteryReading, s: BatteryStatus)
    requires
        status_of_reading(r, s),
        s.spec_percentage() is Some,
    ensures
        r.validity is Valid || r.validity is StaleReading,
        s.spec_percentage() == r.percentage,
{
}

} // verus!
