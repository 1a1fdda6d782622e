//! The device listing of the diagnostic tool.

use vstd::prelude::*;
use crate::battery::types::string_views;
use crate::device::{KnownDevice, RapooDevice};
use crate::text::{append_dec, append_str, dec, hex_pad, hex_pad_string, owned};

verus! {

/// The lines shown when no device was found.
pub open spec fn none_found_lines() -> Seq<Seq<char>> {
    seq![
        Seq::<char>::empty(),
        "  ✗ Nenhum dispositivo Rapoo detectado (VID 0x24AE)."@,
        Seq::<char>::empty(),
        "  Possíveis causas:"@,
        "    • O mouse não está conectado"@,
        "    • O mouse está em modo Bluetooth (tente via receptor 2.4 GHz)"@,
        "    • O PID do MT760 Pro ainda não está na lista de PIDs conhecidos"@,
        "      → Execute `lsusb | grep 24ae` e reporte o PID no GitHub"@,
        Seq::<char>::empty(),
        "  Dica: Para debug extra, execute com -v:"@,
        "    openrapoo-diag -v list-devices"@,
        Seq::<char>::empty(),
    ]
}

/// The line of a device node: its path and whether it can be opened, or "not found".
pub open spec fn node_line(label: Seq<char>, path: Option<String>, ok: bool) -> Seq<char> {
    match path {
        Some(p) => label + p@ + "  "@ + (if ok { "✓"@ } else { "✗ (sem permissão)"@ }),
        None => label + "(não encontrado)"@,
    }
}

/// The lines of the device numbered `num`, with whether its evdev and hidraw nodes
/// can be opened.
pub open spec fn device_block(d: RapooDevice, num: nat, access: (bool, bool)) -> Seq<Seq<char>> {
    seq![
        Seq::<char>::empty(),
        "  ["@ + dec(num) + "] "@ + d.model.spec_name() + (if d.model == KnownDevice::RapooMt760Pro { " ← alvo"@ } else { Seq::empty() }),
        "      Nome:       "@ + d.name@,
        "      VID:PID:    0x"@ + hex_pad(d.vendor_id as nat, 4, true) + ":0x"@ + hex_pad(d.product_id as nat, 4, true),
        "      Conexão:    "@ + d.connection.spec_name(),
        node_line("      evdev:      "@, d.evdev_path, access.0),
        node_line("      hidraw:     "@, d.hidraw_path, access.1),
    ] + match d.phys {
        Some(p) => seq!["      Localização: "@ + p@],
        None => Seq::empty(),
    }
}

/// The blocks of the devices, numbered from 1.
pub open spec fn device_blocks(ds: Seq<RapooDevice>, access: Seq<(bool, bool)>) -> Seq<Seq<char>>
    decreases ds.len(),
{
    if ds.len() == 0 {
        Seq::empty()
    } else {
        device_blocks(ds.drop_last(), access) + device_block(ds.last(), ds.len(), access[ds.len() - 1])
    }
}

/// Some node exists but cannot be opened.
pub open spec fn permission_problem(ds: Seq<RapooDevice>, access: Seq<(bool, bool)>) -> bool {
    exists|k: int| 0 <= k < ds.len() && (
        ((#[trigger] ds[k]).evdev_path is Some && !access[k].0) || (ds[k].hidraw_path is Some && !access[k].1))
}

/// The listing: a note when nothing was found; otherwise the count, one block per
/// device, and the fix when some node cannot be opened.
pub open spec fn spec_listing(ds: Seq<RapooDevice>, access: Seq<(bool, bool)>) -> Seq<Seq<char>> {
    if ds.len() == 0 {
        none_found_lines()
    } else {
        seq![
            Seq::<char>::empty(),
            "  Dispositivos Rapoo detectados: "@ + dec(ds.len()),
            "  ─────────────────────────────────────────────────"@,
        ] + device_blocks(ds, access) + seq![Seq::<char>::empty()]
            + if permission_problem(ds, access) {
                seq![
                    "  ⚠ Problema de permissão detectado. Para corrigir:"@,
                    "    sudo cp udev/99-openrapoo.rules /etc/udev/rules.d/"@,
                    "    sudo udevadm control --reload-rules"@,
                    "    sudo usermod -aG input $USER"@,
                    "    → Faça logout e login novamente"@,
                    Seq::<char>::empty(),
                ]
            } else {
                Seq::empty()
            }
    }
}

fn push_line(out: &mut Vec<String>, l: String)
    ensures
        string_views(final(out)@) == string_views(old(out)@).push(l@),
{
    out.push(l);
    assert(string_views(out@) =~= string_views(old(out)@).push(l@));
}

fn node_text(label: &str, path: &Option<String>, ok: bool) -> (r: String)
    ensures
        r@ == node_line(label@, *path, ok),
{
    let mut l = owned(label);
    match path {
        Some(p) => {
            append_str(&mut l, p.as_str());
            append_str(&mut l, "  ");
            append_str(&mut l, if ok { "✓" } else { "✗ (sem permissão)" });
        },
        None => append_str(&mut l, "(não encontrado)"),
    }
    l
}

#[verifier::rlimit(50)]
fn push_block(out: &mut Vec<String>, d: &RapooDevice, num: usize, access: (bool, bool))
    ensures
        string_views(final(out)@) == string_views(old(out)@) + device_block(*d, num as nat, access),
{
    let ghost base = string_views(out@);
    push_line(out, String::new());
    let mut head = owned("  [");
    append_dec(&mut head, num as u64);
    append_str(&mut head, "] ");
    let m = d.model.to_display_string();
    append_str(&mut head, m.as_str());
    if d.is_mt760_pro() {
        append_str(&mut head, " ← alvo");
    }
    push_line(out, head);
    let mut name = owned("      Nome:       ");
    append_str(&mut name, d.name.as_str());
    push_line(out, name);
    let mut ids = owned("      VID:PID:    0x");
    let v = hex_pad_string(d.vendor_id as u64, 4, true);
    append_str(&mut ids, v.as_str());
    append_str(&mut ids, ":0x");
    let p = hex_pad_string(d.product_id as u64, 4, true);
    append_str(&mut ids, p.as_str());
    push_line(out, ids);
    let mut conn = owned("      Conexão:    ");
    let c = d.connection.to_display_string();
    append_str(&mut conn, c.as_str());
    push_line(out, conn);
    push_line(out, node_text("      evdev:      ", &d.evdev_path, access.0));
    push_line(out, node_text("      hidraw:     ", &d.hidraw_path, access.1));
    match &d.phys {
        Some(ph) => {
            let mut l = owned("      Localização: ");
            append_str(&mut l, ph.as_str());
            push_line(out, l);
        },
        None => {},
    }
    assert(string_views(out@) =~= base + device_block(*d, num as nat, access));
}

/// The device listing, given whether each device's evdev and hidraw nodes can be opened.
#[verifier::rlimit(50)]
pub fn device_listing_lines(devices: &Vec<RapooDevice>, access: &Vec<(bool, bool)>) -> (r: Vec<String>)
    requires
        access@.len() == devices@.len(),
    ensures
        string_views(r@) == spec_listing(devices@, access@),
{
    let mut out: Vec<String> = Vec::new();
    if devices.len() == 0 {
        push_line(&mut out, String::new());
        push_line(&mut out, owned("  ✗ Nenhum dispositivo Rapoo detectado (VID 0x24AE)."));
        push_line(&mut out, String::new());
        push_line(&mut out, owned("  Possíveis causas:"));
        push_line(&mut out, owned("    • O mouse não está conectado"));
        push_line(&mut out, owned("    • O mouse está em modo Bluetooth (tente via receptor 2.4 GHz)"));
        push_line(&mut out, owned("    • O PID do MT760 Pro ainda não está na lista de PIDs conhecidos"));
        push_line(&mut out, owned("      → Execute `lsusb | grep 24ae` e reporte o PID no GitHub"));
        push_line(&mut out, String::new());
        push_line(&mut out, owned("  Dica: Para debug extra, execute com -v:"));
        push_line(&mut out, owned("    openrapoo-diag -v list-devices"));
        push_line(&mut out, String::new());
        assert(string_views(out@) =~= none_found_lines());
        return out;
    }
    push_line(&mut out, String::new());
    let mut count = owned("  Dispositivos Rapoo detectados: ");
    append_dec(&mut count, devices.len() as u64);
    push_line(&mut out, count);
    push_line(&mut out, owned("  ─────────────────────────────────────────────────"));
    let ghost head = string_views(out@);
    let mut problem = false;
    let mut i: usize = 0;
    while i < devices.len()
        invariant
            i <= devices@.len(),
            access@.len() == devices@.len(),
            string_views(out@) == head + device_blocks(devices@.take(i as int), access@),
            problem <==> exists|k: int| 0 <= k < i && (
                ((#[trigger] devices@[k]).evdev_path is Some && !access@[k].0)
                || (devices@[k].hidraw_path is Some && !access@[k].1)),
        decreases devices.len() - i,
    {
        let d = &devices[i];
        let a = access[i];
        assert(devices@.take(i + 1).drop_last() =~= devices@.take(i as int));
        push_block(&mut out, d, i + 1, a);
        if (d.evdev_path.is_some() && !a.0) || (d.hidraw_path.is_some() && !a.1) {
            problem = true;
        }
        i = i + 1;
    }
    assert(devices@.take(devices@.len() as int) =~= devices@);
    push_line(&mut out, String::new());
    if problem {
        push_line(&mut out, owned("  ⚠ Problema de permissão detectado. Para corrigir:"));
        push_line(&mut out, owned("    sudo cp udev/99-openrapoo.rules /etc/udev/rules.d/"));
        push_line(&mut out, owned("    sudo udevadm control --reload-rules"));
        push_line(&mut out, owned("    sudo usermod -aG input $USER"));
        push_line(&mut out, owned("    → Faça logout e login novamente"));
        push_line(&mut out, String::new());
    }
    assert(string_views(out@) =~= spec_listing(devices@, access@));
    out
}

/// The device listing, with each node checked for access now (a node without a path
/// counts as not accessible).
pub fn list_devices_lines(devices: &Vec<RapooDevice>) -> (r: Vec<String>)
    ensures
        exists|access: Seq<(bool, bool)>| access.len() == devices@.len()
            && (forall|k: int| 0 <= k < access.len() ==> (devices@[k].evdev_path is None ==> !(#[trigger] access[k]).0)
                && (devices@[k].hidraw_path is None ==> !access[k].1))
            && string_views(r@) == spec_listing(devices@, access),
{
    let mut access: Vec<(bool, bool)> = Vec::new();
    let mut i: usize = 0;
    while i < devices.len()
        invariant
            i <= devices@.len(),
            access@.len() == i,
            forall|k: int| 0 <= k < i ==> (devices@[k].evdev_path is None ==> !(#[trigger] access@[k]).0)
                && (devices@[k].hidraw_path is None ==> !access@[k].1),
        decreases devices.len() - i,
    {
        let e = devices[i].evdev_accessible();
        let h = devices[i].hidraw_accessible();
        access.push((e, h));
        i = i + 1;
    }
    device_listing_lines(devices, &access)
}

/// The position of the first device that has an evdev node.
pub open spec fn first_with_evdev(ds: Seq<RapooDevice>, i: int) -> bool {
    0 <= i < ds.len() && ds[i].evdev_path is Some
        && forall|j: int| 0 <= j < i ==> (#[trigger] ds[j]).evdev_path is None
}

/// The position of the first device that has a hidraw node.
pub open spec fn first_with_hidraw(ds: Seq<RapooDevice>, i: int) -> bool {
    0 <= i < ds.len() && ds[i].hidraw_path is Some
        && forall|j: int| 0 <= j < i ==> (#[trigger] ds[j]).hidraw_path is None
}

/// The evdev node of the first detected device that has one.
pub fn first_evdev_path(devices: &Vec<RapooDevice>) -> (r: Option<String>)
    ensures
        r is None <==> forall|k: int| 0 <= k < devices@.len() ==> (#[trigger] devices@[k]).evdev_path is None,
        r matches Some(p) ==> exists|i: int| first_with_evdev(devices@, i) && p@ == devices@[i].evdev_path.unwrap()@,
{
    let mut i: usize = 0;
    while i < devices.len()
        invariant
            i <= devices@.len(),
            forall|j: int| 0 <= j < i ==> (#[trigger] devices@[j]).evdev_path is None,
        decreases devices.len() - i,
    {
        match &devices[i].evdev_path {
            Some(p) => {
                assert(first_with_evdev(devices@, i as int));
                return Some(p.clone());
            },
            None => {},
        }
        i = i + 1;
    }
    None
}

/// The hidraw node of the first detected device that has one.
pub fn first_hidraw_path(devices: &Vec<RapooDevice>) -> (r: Option<String>)
    ensures
        r is None <==> forall|k: int| 0 <= k < devices@.len() ==> (#[trigger] devices@[k]).hidraw_path is None,
        r matches Some(p) ==> exists|i: int| first_with_hidraw(devices@, i) && p@ == devices@[i].hidraw_path.unwrap()@,
{
    let mut i: usize = 0;
    while i < devices.len()
        invariant
            i <= devices@.len(),
            forall|j: int| 0 <= j < i ==> (#[trigger] devices@[j]).hidraw_path is None,
        decreases devices.len() - i,
    {
        match &devices[i].hidraw_path {
            Some(p) => {
                assert(first_with_hidraw(devices@, i as int));
                return Some(p.clone());
            },
            None => {},
        }
        i = i + 1;
    }
    None
}

} // verus!
