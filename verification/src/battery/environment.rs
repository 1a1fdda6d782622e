//! What the diagnostic report says about the system, taken from the texts the system
//! gives (`/etc/os-release`, `/proc/bus/input/devices`, command output, directory names).

use vstd::prelude::*;
use crate::battery::types::string_views;
use crate::text::{
    append_str, chars_of, has_sub, hex_pad, hex_pad_string, lines, lines_of, lowercase, owned,
    starts_with, str_contains, string_of, strip_prefix, trim, trim_char, trim_chars, trim_matching,
    to_lowercase, views, words, split_words,
};

verus! {

/// The value of the first `PRETTY_NAME=` line, without surrounding double quotes.
pub open spec fn pretty_name(ls: Seq<Seq<char>>) -> Option<Seq<char>>
    decreases ls.len(),
{
    if ls.len() == 0 {
        None
    } else if starts_with(ls[0], "PRETTY_NAME="@) {
        Some(trim_char(ls[0].skip(12), '"'))
    } else {
        pretty_name(ls.drop_first())
    }
}

/// The distribution's name from `/etc/os-release` (absent when it could not be read);
/// "Linux Genérico" when it names none.
pub open spec fn spec_distro_name(os_release: Option<Seq<char>>) -> Seq<char> {
    match os_release {
        Some(c) => match pretty_name(lines(c)) {
            Some(n) => n,
            None => "Linux Genérico"@,
        },
        None => "Linux Genérico"@,
    }
}

/// The distribution's name from the text of `/etc/os-release`.
pub fn distro_name(os_release: Option<&str>) -> (r: String)
    ensures
        r@ == spec_distro_name(match os_release { Some(c) => Some(c@), None => None }),
{
    proof { reveal_strlit("PRETTY_NAME="); }
    match os_release {
        None => owned("Linux Genérico"),
        Some(c) => {
            let cs = chars_of(c);
            let ls = lines_of(cs.as_slice());
            let prefix = chars_of("PRETTY_NAME=");
            assert(views(ls@).skip(0) =~= views(ls@));
            let mut i: usize = 0;
            while i < ls.len()
                invariant
                    i <= ls@.len(),
                    os_release == Some(c),
                    views(ls@) == lines(c@),
                    prefix@ == "PRETTY_NAME="@,
                    prefix@.len() == 12,
                    pretty_name(lines(c@)) == pretty_name(views(ls@).skip(i as int)),
                decreases ls.len() - i,
            {
                assert(views(ls@).skip(i as int)[0] == ls@[i as int]@);
                match strip_prefix(ls[i].as_slice(), prefix.as_slice()) {
                    Some(rest) => {
                        let ghost sk = views(ls@).skip(i as int);
                        assert(sk.len() > 0);
                        assert(starts_with(sk[0], "PRETTY_NAME="@));
                        assert(rest@ == sk[0].skip(12));
                        assert(pretty_name(sk) == Some(trim_char(sk[0].skip(12), '"')));
                        let t = trim_matching(rest.as_slice(), '"');
                        return string_of(t.as_slice());
                    },
                    None => {},
                }
                assert(views(ls@).skip(i as int).drop_first() =~= views(ls@).skip(i + 1));
                i = i + 1;
            }
            owned("Linux Genérico")
        },
    }
}

/// The input device names, from `N: Name=` lines, that mention Rapoo in any case,
/// without surrounding double quotes.
pub open spec fn rapoo_names(ls: Seq<Seq<char>>) -> Seq<Seq<char>>
    decreases ls.len(),
{
    if ls.len() == 0 {
        Seq::empty()
    } else {
        let prev = rapoo_names(ls.drop_last());
        let l = ls.last();
        if starts_with(l, "N: Name="@) && has_sub(lowercase(l.skip(8)), "rapoo"@) {
            prev.push(trim_char(l.skip(8), '"'))
        } else {
            prev
        }
    }
}

/// The names of the Rapoo input devices listed in `/proc/bus/input/devices`.
pub fn rapoo_input_names(proc_devices: &str) -> (r: Vec<String>)
    ensures
        string_views(r@) == rapoo_names(lines(proc_devices@)),
{
    proof { reveal_strlit("N: Name="); }
    let cs = chars_of(proc_devices);
    let ls = lines_of(cs.as_slice());
    let prefix = chars_of("N: Name=");
    let mut out: Vec<String> = Vec::new();
    let mut i: usize = 0;
    while i < ls.len()
        invariant
            i <= ls@.len(),
            views(ls@) == lines(proc_devices@),
            prefix@ == "N: Name="@,
            prefix@.len() == 8,
            string_views(out@) == rapoo_names(views(ls@).take(i as int)),
        decreases ls.len() - i,
    {
        assert(views(ls@).take(i + 1).drop_last() =~= views(ls@).take(i as int));
        assert(views(ls@).take(i + 1).last() == ls@[i as int]@);
        match strip_prefix(ls[i].as_slice(), prefix.as_slice()) {
            Some(rest) => {
                let rs = string_of(rest.as_slice());
                let low = to_lowercase(rs.as_str());
                if str_contains(low.as_str(), "rapoo") {
                    let t = trim_matching(rest.as_slice(), '"');
                    out.push(string_of(t.as_slice()));
                    assert(string_views(out@) =~= rapoo_names(views(ls@).take(i + 1)));
                }
            },
            None => {},
        }
        i = i + 1;
    }
    assert(views(ls@).take(ls@.len() as int) =~= views(ls@));
    out
}

/// A HID device directory of the Rapoo vendor: its name holds `24AE` or `24ae`.
pub fn is_rapoo_hid_dir(name: &str) -> (r: bool)
    ensures
        r == (has_sub(name@, "24AE"@) || has_sub(name@, "24ae"@)),
{
    str_contains(name, "24AE") || str_contains(name, "24ae")
}

/// A udev rules file worth listing: its name mentions rapoo, input or hid.
pub fn is_relevant_udev_rule(file_name: &str) -> (r: bool)
    ensures
        r == (has_sub(file_name@, "rapoo"@) || has_sub(file_name@, "input"@) || has_sub(file_name@, "hid"@)),
{
    str_contains(file_name, "rapoo") || str_contains(file_name, "input") || str_contains(file_name, "hid")
}

/// The line describing a hidraw interface: path, vendor and product id in four
/// uppercase hex digits, and whether it is a vendor interface.
pub open spec fn spec_interface_line(path: Seq<char>, vid: u16, pid: u16, is_vendor: bool) -> Seq<char> {
    path + " (VID: "@ + hex_pad(vid as nat, 4, true) + ", PID: "@ + hex_pad(pid as nat, 4, true)
        + ", Vendor: "@ + (if is_vendor { "true"@ } else { "false"@ }) + ")"@
}

/// The line describing a hidraw interface.
pub fn hidraw_interface_line(path: &str, vid: u16, pid: u16, is_vendor: bool) -> (r: String)
    ensures
        r@ == spec_interface_line(path@, vid, pid, is_vendor),
{
    let mut r = owned(path);
    append_str(&mut r, " (VID: ");
    let v = hex_pad_string(vid as u64, 4, true);
    append_str(&mut r, v.as_str());
    append_str(&mut r, ", PID: ");
    let p = hex_pad_string(pid as u64, 4, true);
    append_str(&mut r, p.as_str());
    append_str(&mut r, ", Vendor: ");
    append_str(&mut r, if is_vendor { "true" } else { "false" });
    append_str(&mut r, ")");
    r
}

/// The group names printed by `id -Gn`, split at whitespace.
pub fn user_group_names(id_output: &str) -> (r: Vec<String>)
    ensures
        string_views(r@) == words(id_output@),
{
    let cs = chars_of(id_output);
    let ws = split_words(cs.as_slice());
    let mut out: Vec<String> = Vec::new();
    let mut i: usize = 0;
    while i < ws.len()
        invariant
            i <= ws@.len(),
            views(ws@) == words(id_output@),
            string_views(out@) == views(ws@).take(i as int),
        decreases ws.len() - i,
    {
        let ghost before = out@;
        let w = string_of(ws[i].as_slice());
        out.push(w);
        assert(views(ws@)[i as int] == ws@[i as int]@);
        assert(string_views(out@) =~= string_views(before).push(ws@[i as int]@));
        assert(string_views(out@) =~= views(ws@).take(i + 1));
        i = i + 1;
    }
    assert(views(ws@).take(ws@.len() as int) =~= views(ws@));
    out
}

/// The first line of a command's output, trimmed (empty when there is none).
pub open spec fn spec_first_line(out: Seq<char>) -> Seq<char> {
    if lines(out).len() > 0 { trim(lines(out)[0]) } else { Seq::empty() }
}

/// The first line of a command's output, trimmed.
pub fn first_line_trimmed(out: &str) -> (r: String)
    ensures
        r@ == spec_first_line(out@),
{
    let cs = chars_of(out);
    let ls = lines_of(cs.as_slice());
    if ls.len() > 0 {
        assert(views(ls@)[0] == ls@[0]@);
        let t = trim_chars(ls[0].as_slice());
        string_of(t.as_slice())
    } else {
        String::new()
    }
}

/// A command's whole output, trimmed.
pub fn output_trimmed(out: &str) -> (r: String)
    ensures
        r@ == trim(out@),
{
    let t = trim_chars(chars_of(out).as_slice());
    string_of(t.as_slice())
}

} // verus!
