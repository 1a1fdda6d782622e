//! The battery diagnostic report: what the providers said about a device, in the
//! environment they ran in, and its Markdown rendering.

use vstd::prelude::*;
use crate::battery::aggregator::{aggregation_outcome, pass_lines, pass_log, provider_outcome, AggregatedResult, BatteryAggregator};
use crate::battery::provider::{BatteryProvider, DeviceIdentity};
use crate::battery::types::{BatteryReading, BatterySource, BatteryStatus, ConflictInfo, string_views, status_of_reading};
use crate::device::{ConnectionType, DeviceType};
use crate::battery::identity_from;
use crate::battery::provider::current_epoch_seconds;
use crate::text::{append_dec, append_str, debug_quoted, debug_text, dec, owned, str_opt, text_of};

verus! {

/// What was found about the machine the report was made on.
#[derive(Debug, Clone)]
pub struct SystemEnvironment {
    pub distro: String,
    pub kernel_version: String,
    pub upower_version: Option<String>,
    pub bluez_version: Option<String>,
    pub desktop_environment: String,
    pub session_type: String,
    pub bluetooth_controllers: Vec<String>,
    pub upower_devices: Vec<String>,
    pub bluez_devices: Vec<String>,
    pub hid_devices: Vec<String>,
    pub evdev_interfaces: Vec<String>,
    pub hidraw_interfaces: Vec<String>,
    pub user_groups: Vec<String>,
    pub udev_rules_found: Vec<String>,
}

/// Everything one diagnostic run found about a device's battery.
#[derive(Debug, Clone)]
pub struct BatteryDiagnosticReport {
    pub device_name: String,
    pub phys_path: Option<String>,
    pub hidraw_path: Option<String>,
    pub environment: SystemEnvironment,
    pub consulted_sources: Vec<String>,
    pub active_source: BatterySource,
    pub raw_status: BatteryStatus,
    pub chosen_reading: BatteryReading,
    pub all_readings: Vec<BatteryReading>,
    pub discarded_readings: Vec<(BatteryReading, String)>,
    pub diagnostic_log: Vec<String>,
    pub timestamp: u64,
}

/// A level as `<n>%`, or the given text when there is none.
pub open spec fn pct_text(p: Option<u8>, none: Seq<char>) -> Seq<char> {
    match p {
        Some(v) => dec(v as nat) + "%"@,
        None => none,
    }
}

/// An optional text, or the given text when absent.
pub open spec fn text_or(s: Option<String>, none: Seq<char>) -> Seq<char> {
    match s {
        Some(x) => x@,
        None => none,
    }
}

/// Texts joined with `", "` between them.
pub open spec fn join_commas(ls: Seq<Seq<char>>) -> Seq<char>
    decreases ls.len(),
{
    if ls.len() == 0 {
        Seq::empty()
    } else if ls.len() == 1 {
        ls[0]
    } else {
        join_commas(ls.drop_last()) + ", "@ + ls.last()
    }
}

/// What `{:?}` prints for a list of strings: each quoted, in brackets, comma-separated.
pub open spec fn debug_list(ls: Seq<Seq<char>>) -> Seq<char> {
    "["@ + join_commas(ls.map_values(|s: Seq<char>| debug_quoted(s))) + "]"@
}

/// One `- <text>` line per item.
pub open spec fn bullets(ls: Seq<Seq<char>>) -> Seq<char>
    decreases ls.len(),
{
    if ls.len() == 0 {
        Seq::empty()
    } else {
        bullets(ls.drop_last()) + "- "@ + ls.last() + "\n"@
    }
}

/// Every line followed by a newline.
pub open spec fn lines_text(ls: Seq<Seq<char>>) -> Seq<char>
    decreases ls.len(),
{
    if ls.len() == 0 {
        Seq::empty()
    } else {
        lines_text(ls.drop_last()) + ls.last() + "\n"@
    }
}

/// The line of one reading in the list of readings.
pub open spec fn reading_line(r: BatteryReading) -> Seq<char> {
    "- **"@ + r.source.spec_name() + "**: "@ + pct_text(r.percentage, "N/A"@) + " | Confiança: "@
        + r.confidence.spec_name() + " | Conexão: "@ + r.connection@ + "\n"@
}

/// The lines of the readings.
pub open spec fn reading_lines(rs: Seq<BatteryReading>) -> Seq<char>
    decreases rs.len(),
{
    if rs.len() == 0 {
        Seq::empty()
    } else {
        reading_lines(rs.drop_last()) + reading_line(rs.last())
    }
}

/// The lines of one discarded reading and its reason.
pub open spec fn discarded_line(d: (BatteryReading, String)) -> Seq<char> {
    "- **"@ + d.0.source.spec_name() + "**: "@ + pct_text(d.0.percentage, "N/A"@) + "\n  - *Motivo*: "@ + d.1@ + "\n"@
}

/// The lines of the discarded readings.
pub open spec fn discarded_lines(ds: Seq<(BatteryReading, String)>) -> Seq<char>
    decreases ds.len(),
{
    if ds.len() == 0 {
        Seq::empty()
    } else {
        discarded_lines(ds.drop_last()) + discarded_line(ds.last())
    }
}

/// The first lines of the summary: device, time, transport, source, confidences and level.
pub open spec fn summary_head(r: BatteryDiagnosticReport) -> Seq<char> {
    summary_title(r) + summary_levels(r.chosen_reading)
}

/// The title, device, time, transport and source lines.
pub open spec fn summary_title(r: BatteryDiagnosticReport) -> Seq<char> {
    let c = r.chosen_reading;
    "# 🔋 Relatório Técnico de Diagnóstico de Bateria — OpenRapoo\n\n"@
        + "- **Dispositivo Target**: "@ + r.device_name@ + "\n"@
        + "- **Data/Hora**: Unix Epoch "@ + dec(r.timestamp as nat) + "\n"@
        + "- **Transporte Ativo**: "@ + c.connection@ + "\n"@
        + "- **Fonte Encontrada**: "@ + c.source.spec_name() + "\n"@
}

/// The confidence, level and validation lines.
pub open spec fn summary_levels(c: BatteryReading) -> Seq<char> {
    "- **Confiança da Associação**: "@ + c.device_match_confidence.spec_name() + "\n"@
        + "- **Percentual Bruto**: "@ + pct_text(c.percentage, "N/A / Ausente"@) + "\n"@
        + "- **Validação do Percentual**: "@ + (if c.reading_valid { "Válida / Aceita"@ } else { "Rejeitada / Invalidade"@ }) + "\n"@
        + "- **Confiança da Leitura**: "@ + c.reading_confidence.spec_name() + "\n"@
}

/// The end of the summary: the reason of a rejection, then what is shown.
pub open spec fn summary_tail(c: BatteryReading) -> Seq<char> {
    (if !c.reading_valid {
        "- **Motivo da Rejeição**: "@ + text_or(c.invalidation_reason, "Nenhum motivo específico registrado"@) + "\n"@
    } else {
        Seq::empty()
    })
    + "- **Resultado Final Exibido**: "@ + c.spec_display_text_pt() + "\n\n"@
}

/// The summary at the top of the report.
pub open spec fn md_summary(r: BatteryDiagnosticReport) -> Seq<char> {
    summary_head(r) + summary_tail(r.chosen_reading)
}

/// The section on the system and its HID interfaces.
pub open spec fn md_environment(e: SystemEnvironment) -> Seq<char> {
    "---\n\n"@ + "## 🖥️ 1. Ambiente do Sistema e Hardware\n\n"@
        + "- **Distribuição**: "@ + e.distro@ + "\n"@
        + "- **Kernel**: "@ + e.kernel_version@ + "\n"@
        + "- **Ambiente Gráfico**: "@ + e.desktop_environment@ + " ("@ + e.session_type@ + ")\n"@
        + "- **UPower Versão**: "@ + text_or(e.upower_version, "Não disponível"@) + "\n"@
        + "- **BlueZ Versão**: "@ + text_or(e.bluez_version, "Não disponível"@) + "\n"@
        + "- **Controladores Bluetooth**: "@ + debug_list(string_views(e.bluetooth_controllers@)) + "\n"@
        + "- **Grupos do Usuário**: "@ + debug_list(string_views(e.user_groups@)) + "\n\n"@
        + "### Dispositivos HID e Interfaces Detectadas\n"@
        + bullets(string_views(e.hidraw_interfaces@)) + "\n"@
}

/// The conflict warning, when the chosen reading carries one.
pub open spec fn conflict_text(c: Option<ConflictInfo>) -> Seq<char> {
    match c {
        Some(k) => "> [!CAUTION]\n"@
            + "> **Conflito entre Fontes Detectado**: Fonte "@ + k.source_a.spec_name() + " ("@ + dec(k.value_a as nat)
            + "%) vs Fonte "@ + k.source_b.spec_name() + " ("@ + dec(k.value_b as nat) + "%)\n"@
            + "> A aplicação exibiu a leitura como não confirmada para evitar apresentar dados incorretos ao usuário.\n\n"@,
        None => Seq::empty(),
    }
}

/// The list of readings, or a warning when there is none.
pub open spec fn readings_part(rs: Seq<BatteryReading>) -> Seq<char> {
    if rs.len() == 0 {
        "> [!WARNING]\n> Nenhuma leitura válida foi obtida de provedores primários ou secundários.\n\n"@
    } else {
        reading_lines(rs) + "\n"@
    }
}

/// The list of discarded readings, when there is any.
pub open spec fn discarded_part(ds: Seq<(BatteryReading, String)>) -> Seq<char> {
    if ds.len() == 0 {
        Seq::empty()
    } else {
        "### Leituras Descartadas ou Invalidadas\n\n"@ + discarded_lines(ds) + "\n"@
    }
}

/// The section on the providers' readings, the discarded ones and any conflict.
pub open spec fn md_providers(r: BatteryDiagnosticReport) -> Seq<char> {
    "---\n\n"@ + "## 🔍 2. Provedores Consultados e Validação Cruzada\n\n"@
        + readings_part(r.all_readings@) + discarded_part(r.discarded_readings@)
        + conflict_text(r.chosen_reading.conflict_status)
}

/// The fixed explanation of the rules.
pub open spec fn md_rules() -> Seq<char> {
    "---\n\n"@ + "## 💡 4. Explicações das Decisões de Regra\n\n"@
        + "- **Aceitação de 80% (Teclado)**: Aceito se `IsPresent == true`, leitura recente, e associado corretamente por MAC/modelo.\n"@
        + "- **Rejeição de 0% Suspeito (Mouse)**: Valor 0% isolado com `state: unknown` no UPower/BlueZ é desconsiderado até confirmação secundária.\n"@
        + "- **Desconsideração do IconName**: O campo `icon-name` do freedesktop (ex: `battery-missing-symbolic`) é ignorado como fonte principal de verdade.\n"@
        + "- **Dongle 2.4GHz**: Varre hidraw dinamicamente e consulta via Report ID `0x07` (Categoria `0x01`).\n"@
}

/// The whole report in Markdown.
pub open spec fn spec_markdown(r: BatteryDiagnosticReport) -> Seq<char> {
    md_summary(r) + md_environment(r.environment) + md_providers(r)
        + "---\n\n"@ + "## 📋 3. Log de Associação e Justificativas das Regras\n\n"@
        + "```text\n"@ + lines_text(string_views(r.diagnostic_log@)) + "```\n\n"@
        + md_rules()
}

fn append_pct(md: &mut String, p: Option<u8>, none: &str)
    ensures
        final(md)@ == old(md)@ + pct_text(p, none@),
{
    match p {
        Some(v) => {
            append_dec(md, v as u64);
            append_str(md, "%");
        },
        None => append_str(md, none),
    }
}

fn append_debug_list(md: &mut String, ls: &Vec<String>)
    ensures
        final(md)@ == old(md)@ + debug_list(string_views(ls@)),
{
    let ghost base = old(md)@;
    let ghost qs = string_views(ls@).map_values(|s: Seq<char>| debug_quoted(s));
    append_str(md, "[");
    let mut i: usize = 0;
    while i < ls.len()
        invariant
            i <= ls@.len(),
            qs == string_views(ls@).map_values(|s: Seq<char>| debug_quoted(s)),
            md@ == base + "["@ + join_commas(qs.take(i as int)),
        decreases ls.len() - i,
    {
        assert(qs.take(i + 1).drop_last() =~= qs.take(i as int));
        if i > 0 {
            append_str(md, ", ");
        }
        let q = debug_text(ls[i].as_str());
        append_str(md, q.as_str());
        proof {
            if i == 0 {
                assert(join_commas(qs.take(1)) == qs.take(1)[0]);
            }
        }
        i = i + 1;
    }
    assert(qs.take(ls@.len() as int) =~= qs);
    append_str(md, "]");
}

fn append_bullets(md: &mut String, ls: &Vec<String>)
    ensures
        final(md)@ == old(md)@ + bullets(string_views(ls@)),
{
    let ghost base = old(md)@;
    let mut i: usize = 0;
    while i < ls.len()
        invariant
            i <= ls@.len(),
            md@ == base + bullets(string_views(ls@).take(i as int)),
        decreases ls.len() - i,
    {
        assert(string_views(ls@).take(i + 1).drop_last() =~= string_views(ls@).take(i as int));
        append_str(md, "- ");
        append_str(md, ls[i].as_str());
        append_str(md, "\n");
        i = i + 1;
    }
    assert(string_views(ls@).take(ls@.len() as int) =~= string_views(ls@));
}

fn append_lines(md: &mut String, ls: &Vec<String>)
    ensures
        final(md)@ == old(md)@ + lines_text(string_views(ls@)),
{
    let ghost base = old(md)@;
    let mut i: usize = 0;
    while i < ls.len()
        invariant
            i <= ls@.len(),
            md@ == base + lines_text(string_views(ls@).take(i as int)),
        decreases ls.len() - i,
    {
        assert(string_views(ls@).take(i + 1).drop_last() =~= string_views(ls@).take(i as int));
        append_str(md, ls[i].as_str());
        append_str(md, "\n");
        i = i + 1;
    }
    assert(string_views(ls@).take(ls@.len() as int) =~= string_views(ls@));
}

#[verifier::rlimit(50)]
fn reading_text(r: &BatteryReading) -> (t: String)
    ensures
        t@ == reading_line(*r),
{
    let mut t = owned("- **");
    let s = r.source.to_display_string();
    append_str(&mut t, s.as_str());
    append_str(&mut t, "**: ");
    append_pct(&mut t, r.percentage, "N/A");
    append_str(&mut t, " | Confiança: ");
    let c = r.confidence.to_display_string();
    append_str(&mut t, c.as_str());
    append_str(&mut t, " | Conexão: ");
    append_str(&mut t, r.connection.as_str());
    append_str(&mut t, "\n");
    t
}

fn append_readings(md: &mut String, rs: &Vec<BatteryReading>)
    ensures
        final(md)@ == old(md)@ + reading_lines(rs@),
{
    let ghost base = old(md)@;
    let mut i: usize = 0;
    while i < rs.len()
        invariant
            i <= rs@.len(),
            md@ == base + reading_lines(rs@.take(i as int)),
        decreases rs.len() - i,
    {
        assert(rs@.take(i + 1).drop_last() =~= rs@.take(i as int));
        let t = reading_text(&rs[i]);
        append_str(md, t.as_str());
        i = i + 1;
    }
    assert(rs@.take(rs@.len() as int) =~= rs@);
}

#[verifier::rlimit(50)]
fn discarded_text(d: &(BatteryReading, String)) -> (t: String)
    ensures
        t@ == discarded_line(*d),
{
    let mut t = owned("- **");
    let s = d.0.source.to_display_string();
    append_str(&mut t, s.as_str());
    append_str(&mut t, "**: ");
    append_pct(&mut t, d.0.percentage, "N/A");
    append_str(&mut t, "\n  - *Motivo*: ");
    append_str(&mut t, d.1.as_str());
    append_str(&mut t, "\n");
    t
}

fn append_discarded(md: &mut String, ds: &Vec<(BatteryReading, String)>)
    ensures
        final(md)@ == old(md)@ + discarded_lines(ds@),
{
    let ghost base = old(md)@;
    let mut i: usize = 0;
    while i < ds.len()
        invariant
            i <= ds@.len(),
            md@ == base + discarded_lines(ds@.take(i as int)),
        decreases ds.len() - i,
    {
        assert(ds@.take(i + 1).drop_last() =~= ds@.take(i as int));
        let t = discarded_text(&ds[i]);
        append_str(md, t.as_str());
        i = i + 1;
    }
    assert(ds@.take(ds@.len() as int) =~= ds@);
}

fn append_opt(md: &mut String, s: &Option<String>, none: &str)
    ensures
        final(md)@ == old(md)@ + text_or(*s, none@),
{
    match s {
        Some(x) => append_str(md, x.as_str()),
        None => append_str(md, none),
    }
}

impl BatteryDiagnosticReport {
    #[verifier::rlimit(50)]
    fn append_summary(&self, md: &mut String)
        ensures
            final(md)@ == old(md)@ + md_summary(*self),
    {
        let c = &self.chosen_reading;
        append_str(md, "# 🔋 Relatório Técnico de Diagnóstico de Bateria — OpenRapoo\n\n");
        append_str(md, "- **Dispositivo Target**: ");
        append_str(md, self.device_name.as_str());
        append_str(md, "\n");
        append_str(md, "- **Data/Hora**: Unix Epoch ");
        append_dec(md, self.timestamp);
        append_str(md, "\n");
        append_str(md, "- **Transporte Ativo**: ");
        append_str(md, c.connection.as_str());
        append_str(md, "\n");
        append_str(md, "- **Fonte Encontrada**: ");
        let s = c.source.to_display_string();
        append_str(md, s.as_str());
        append_str(md, "\n");
        assert(md@ =~= old(md)@ + summary_title(*self));
        append_summary_levels(md, c);
        assert(md@ =~= old(md)@ + summary_head(*self));
        append_summary_tail(md, c);
        assert(md@ =~= old(md)@ + md_summary(*self));
    }
}

#[verifier::rlimit(50)]
fn append_summary_levels(md: &mut String, c: &BatteryReading)
    ensures
        final(md)@ == old(md)@ + summary_levels(*c),
{
    {
        append_str(md, "- **Confiança da Associação**: ");
        let m = c.device_match_confidence.to_display_string();
        append_str(md, m.as_str());
        append_str(md, "\n");
        append_str(md, "- **Percentual Bruto**: ");
        append_pct(md, c.percentage, "N/A / Ausente");
        append_str(md, "\n");
        append_str(md, "- **Validação do Percentual**: ");
        append_str(md, if c.reading_valid { "Válida / Aceita" } else { "Rejeitada / Invalidade" });
        append_str(md, "\n");
        append_str(md, "- **Confiança da Leitura**: ");
        let rc = c.reading_confidence.to_display_string();
        append_str(md, rc.as_str());
        append_str(md, "\n");
        assert(md@ =~= old(md)@ + summary_levels(*c));
    }
}

#[verifier::rlimit(50)]
fn append_summary_tail(md: &mut String, c: &BatteryReading)
    ensures
        final(md)@ == old(md)@ + summary_tail(*c),
{
    {
        if !c.reading_valid {
            append_str(md, "- **Motivo da Rejeição**: ");
            append_opt(md, &c.invalidation_reason, "Nenhum motivo específico registrado");
            append_str(md, "\n");
        }
        append_str(md, "- **Resultado Final Exibido**: ");
        let d = c.display_text_pt();
        append_str(md, d.as_str());
        append_str(md, "\n\n");
        assert(md@ =~= old(md)@ + summary_tail(*c));
    }
}

impl BatteryDiagnosticReport {
    #[verifier::rlimit(50)]
    fn append_environment(&self, md: &mut String)
        ensures
            final(md)@ == old(md)@ + md_environment(self.environment),
    {
        let e = &self.environment;
        append_str(md, "---\n\n");
        append_str(md, "## 🖥️ 1. Ambiente do Sistema e Hardware\n\n");
        append_str(md, "- **Distribuição**: ");
        append_str(md, e.distro.as_str());
        append_str(md, "\n");
        append_str(md, "- **Kernel**: ");
        append_str(md, e.kernel_version.as_str());
        append_str(md, "\n");
        append_str(md, "- **Ambiente Gráfico**: ");
        append_str(md, e.desktop_environment.as_str());
        append_str(md, " (");
        append_str(md, e.session_type.as_str());
        append_str(md, ")\n");
        append_str(md, "- **UPower Versão**: ");
        append_opt(md, &e.upower_version, "Não disponível");
        append_str(md, "\n");
        append_str(md, "- **BlueZ Versão**: ");
        append_opt(md, &e.bluez_version, "Não disponível");
        append_str(md, "\n");
        append_str(md, "- **Controladores Bluetooth**: ");
        append_debug_list(md, &e.bluetooth_controllers);
        append_str(md, "\n");
        append_str(md, "- **Grupos do Usuário**: ");
        append_debug_list(md, &e.user_groups);
        append_str(md, "\n\n");
        append_str(md, "### Dispositivos HID e Interfaces Detectadas\n");
        append_bullets(md, &e.hidraw_interfaces);
        append_str(md, "\n");
    }

    #[verifier::rlimit(50)]
    fn append_providers(&self, md: &mut String)
        ensures
            final(md)@ == old(md)@ + md_providers(*self),
    {
        append_str(md, "---\n\n");
        append_str(md, "## 🔍 2. Provedores Consultados e Validação Cruzada\n\n");
        let ghost m0 = md@;
        if self.all_readings.len() == 0 {
            append_str(md, "> [!WARNING]\n> Nenhuma leitura válida foi obtida de provedores primários ou secundários.\n\n");
        } else {
            append_readings(md, &self.all_readings);
            append_str(md, "\n");
        }
        assert(md@ =~= m0 + readings_part(self.all_readings@));
        let ghost m1 = md@;
        if self.discarded_readings.len() > 0 {
            append_str(md, "### Leituras Descartadas ou Invalidadas\n\n");
            append_discarded(md, &self.discarded_readings);
            append_str(md, "\n");
        }
        assert(md@ =~= m1 + discarded_part(self.discarded_readings@));
        append_conflict(md, &self.chosen_reading.conflict_status);
        assert(md@ =~= old(md)@ + md_providers(*self));
    }
}

#[verifier::rlimit(50)]
fn append_conflict(md: &mut String, conflict: &Option<ConflictInfo>)
    ensures
        final(md)@ == old(md)@ + conflict_text(*conflict),
{
    {
        match conflict {
            Some(k) => {
                append_str(md, "> [!CAUTION]\n");
                append_str(md, "> **Conflito entre Fontes Detectado**: Fonte ");
                let a = k.source_a.to_display_string();
                append_str(md, a.as_str());
                append_str(md, " (");
                append_dec(md, k.value_a as u64);
                append_str(md, "%) vs Fonte ");
                let b = k.source_b.to_display_string();
                append_str(md, b.as_str());
                append_str(md, " (");
                append_dec(md, k.value_b as u64);
                append_str(md, "%)\n");
                append_str(md, "> A aplicação exibiu a leitura como não confirmada para evitar apresentar dados incorretos ao usuário.\n\n");
                assert(md@ =~= old(md)@ + conflict_text(*conflict));
            },
            None => {},
        }
    }
}

impl BatteryDiagnosticReport {

    /// The report in Markdown: summary, environment, providers, log, rules.
    #[verifier::rlimit(50)]
    pub fn to_markdown(&self) -> (md: String)
        ensures
            md@ == spec_markdown(*self),
    {
        let mut md = String::new();
        self.append_summary(&mut md);
        self.append_environment(&mut md);
        self.append_providers(&mut md);
        append_str(&mut md, "---\n\n");
        append_str(&mut md, "## 📋 3. Log de Associação e Justificativas das Regras\n\n");
        append_str(&mut md, "```text\n");
        append_lines(&mut md, &self.diagnostic_log);
        append_str(&mut md, "```\n\n");
        append_str(&mut md, "---\n\n");
        append_str(&mut md, "## 💡 4. Explicações das Decisões de Regra\n\n");
        append_str(&mut md, "- **Aceitação de 80% (Teclado)**: Aceito se `IsPresent == true`, leitura recente, e associado corretamente por MAC/modelo.\n");
        append_str(&mut md, "- **Rejeição de 0% Suspeito (Mouse)**: Valor 0% isolado com `state: unknown` no UPower/BlueZ é desconsiderado até confirmação secundária.\n");
        append_str(&mut md, "- **Desconsideração do IconName**: O campo `icon-name` do freedesktop (ex: `battery-missing-symbolic`) é ignorado como fonte principal de verdade.\n");
        append_str(&mut md, "- **Dongle 2.4GHz**: Varre hidraw dinamicamente e consulta via Report ID `0x07` (Categoria `0x01`).\n");
        assert(md@ =~= spec_markdown(*self));
        md
    }
}

/// The providers a diagnostic run names as consulted.
pub open spec fn consulted_names() -> Seq<Seq<char>> {
    seq!["BlueZ D-Bus"@, "BlueZ GATT"@, "UPower D-Bus"@, "HID Standard"@, "Rapoo Vendor HID (0x07)"@, "Sysfs"@]
}

fn consulted_list() -> (r: Vec<String>)
    ensures
        string_views(r@) == consulted_names(),
{
    let mut v: Vec<String> = Vec::new();
    v.push(owned("BlueZ D-Bus"));
    v.push(owned("BlueZ GATT"));
    v.push(owned("UPower D-Bus"));
    v.push(owned("HID Standard"));
    v.push(owned("Rapoo Vendor HID (0x07)"));
    v.push(owned("Sysfs"));
    assert(string_views(v@) =~= consulted_names());
    v
}

fn opt_text(s: Option<&str>) -> (r: Option<String>)
    ensures
        text_of(r) == str_opt(s),
{
    match s {
        Some(x) => Some(owned(x)),
        None => None,
    }
}

/// The report a run gives: the aggregator's choice `r` for the identity built from the
/// arguments, converted for display, with everything it saw, in the given environment.
pub open spec fn report_from(
    rep: BatteryDiagnosticReport,
    r: AggregatedResult,
    device_name: Seq<char>,
    phys: Option<Seq<char>>,
    hidraw: Option<Seq<char>>,
    env: SystemEnvironment,
) -> bool {
    &&& rep.device_name@ == device_name
    &&& text_of(rep.phys_path) == phys
    &&& text_of(rep.hidraw_path) == hidraw
    &&& rep.environment == env
    &&& string_views(rep.consulted_sources@) == consulted_names()
    &&& rep.active_source == r.chosen.source
    &&& status_of_reading(r.chosen, rep.raw_status)
    &&& rep.chosen_reading == r.chosen
    &&& rep.all_readings@ == r.all_readings@
    &&& rep.discarded_readings@ == r.discarded@
}

/// Asks the aggregator about a device and gathers what it saw into a report.
pub fn generate_battery_diagnostic_report<P: BatteryProvider>(
    aggregator: &BatteryAggregator<P>,
    environment: SystemEnvironment,
    device_name: &str,
    transport: ConnectionType,
    phys: Option<&str>,
    hidraw_path: Option<&str>,
) -> (rep: BatteryDiagnosticReport)
    ensures
        exists|id: DeviceIdentity, r: AggregatedResult|
            identity_from(id, device_name@, transport, str_opt(phys), str_opt(hidraw_path))
            && aggregation_outcome(id, r) && provider_outcome(aggregator.provider_seq(), id, r)
            && report_from(rep, r, device_name@, str_opt(phys), str_opt(hidraw_path), environment)
            && pass_log(id, rep.diagnostic_log@)
            && pass_lines(aggregator.provider_seq(), id, r, string_views(rep.diagnostic_log@)),
{
    let mut log: Vec<String> = Vec::new();
    let identity = DeviceIdentity {
        name: owned(device_name),
        device_type: DeviceType::Mouse,
        transport,
        vendor_id: 0,
        product_id: 0,
        phys: opt_text(phys),
        bluetooth_address: None,
        hidraw_path: opt_text(hidraw_path),
        hid_uniq: None,
        upower_path: None,
        bluez_path: None,
        serial: None,
    };
    let result = aggregator.query_all(&identity, &mut log);
    assert(log@.skip(0) =~= log@);
    assert(string_views(log@).skip(0) =~= string_views(log@));
    let ghost res = result;
    let AggregatedResult { chosen, all_readings, discarded, .. } = result;
    let raw_status = BatteryStatus::from_reading(chosen.duplicate());
    let active_source = chosen.source;
    let rep = BatteryDiagnosticReport {
        device_name: owned(device_name),
        phys_path: opt_text(phys),
        hidraw_path: opt_text(hidraw_path),
        environment,
        consulted_sources: consulted_list(),
        active_source,
        raw_status,
        chosen_reading: chosen,
        all_readings,
        discarded_readings: discarded,
        diagnostic_log: log,
        timestamp: current_epoch_seconds(),
    };
    assert(identity_from(identity, device_name@, transport, str_opt(phys), str_opt(hidraw_path))
        && aggregation_outcome(identity, res) && provider_outcome(aggregator.provider_seq(), identity, res)
        && report_from(rep, res, device_name@, str_opt(phys), str_opt(hidraw_path), environment)
        && pass_log(identity, rep.diagnostic_log@)
        && pass_lines(aggregator.provider_seq(), identity, res, string_views(rep.diagnostic_log@)));
    rep
}

/// A diagnostic report for a device, its log lines also appended to `log`.
pub fn generate_battery_diagnostic_for_device<P: BatteryProvider>(
    aggregator: &BatteryAggregator<P>,
    environment: SystemEnvironment,
    device_name: &str,
    transport: ConnectionType,
    phys: Option<&str>,
    hidraw_path: Option<&str>,
    log: &mut Vec<String>,
) -> (rep: BatteryDiagnosticReport)
    ensures
        exists|id: DeviceIdentity, r: AggregatedResult|
            identity_from(id, device_name@, transport, str_opt(phys), str_opt(hidraw_path))
            && aggregation_outcome(id, r) && provider_outcome(aggregator.provider_seq(), id, r)
            && report_from(rep, r, device_name@, str_opt(phys), str_opt(hidraw_path), environment)
            && pass_log(id, rep.diagnostic_log@)
            && pass_lines(aggregator.provider_seq(), id, r, string_views(rep.diagnostic_log@)),
        string_views(final(log)@) == string_views(old(log)@) + string_views(rep.diagnostic_log@),
{
    let rep = generate_battery_diagnostic_report(aggregator, environment, device_name, transport, phys, hidraw_path);
    let ghost start = log@;
    let mut i: usize = 0;
    while i < rep.diagnostic_log.len()
        invariant
            i <= rep.diagnostic_log@.len(),
            string_views(log@) == string_views(start) + string_views(rep.diagnostic_log@).take(i as int),
        decreases rep.diagnostic_log.len() - i,
    {
        let ghost before = log@;
        let line = rep.diagnostic_log[i].clone();
        log.push(line);
        assert(string_views(log@) =~= string_views(before).push(rep.diagnostic_log@[i as int]@));
        assert(string_views(rep.diagnostic_log@).take(i + 1) =~= string_views(rep.diagnostic_log@).take(i as int).push(rep.diagnostic_log@[i as int]@));
        assert(string_views(log@) =~= string_views(start) + string_views(rep.diagnostic_log@).take(i + 1));
        i = i + 1;
    }
    assert(string_views(rep.diagnostic_log@).take(rep.diagnostic_log@.len() as int) =~= string_views(rep.diagnostic_log@));
    rep
}

/// A diagnostic report for a device whose transport is resolved from its name and path.
pub fn generate_battery_diagnostic<P: BatteryProvider>(
    aggregator: &BatteryAggregator<P>,
    environment: SystemEnvironment,
    device_name: &str,
    phys: Option<&str>,
    hidraw_path: Option<&str>,
    log: &mut Vec<String>,
) -> (rep: BatteryDiagnosticReport)
    ensures
        exists|id: DeviceIdentity, r: AggregatedResult|
            identity_from(id, device_name@, ConnectionType::Unknown, str_opt(phys), str_opt(hidraw_path))
            && aggregation_outcome(id, r) && provider_outcome(aggregator.provider_seq(), id, r)
            && report_from(rep, r, device_name@, str_opt(phys), str_opt(hidraw_path), environment)
            && pass_log(id, rep.diagnostic_log@)
            && pass_lines(aggregator.provider_seq(), id, r, string_views(rep.diagnostic_log@)),
        string_views(final(log)@) == string_views(old(log)@) + string_views(rep.diagnostic_log@),
{
    generate_battery_diagnostic_for_device(aggregator, environment, device_name, ConnectionType::Unknown, phys, hidraw_path, log)
}

} // verus!
