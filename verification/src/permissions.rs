//! Membership of the `input` group, read from `/etc/group` and the process status.

use vstd::prelude::*;
use crate::config::{join_path, path_join};
use crate::error::OpenRapooError;
use crate::text::{
    append_dec, dec, owned,
    chars_of, lines, lines_of, parse_number, parse_unsigned, split_char, split_on, split_words,
    starts_with, string_of, trim, trim_chars, trim_start_pat, trim_start_pattern, views, words,
};

verus! {

/// Where the user stands with the `input` group.
#[derive(Debug, Clone, Copy, PartialEq, Eq, Structural)]
pub enum GroupMembershipState {
    /// The process already runs with the group
    Active,
    /// Listed in `/etc/group`, effective after logging in again
    PendingRelogin,
    /// Not a member
    NotMember,
}

impl GroupMembershipState {
    /// Whether the group is already effective.
    pub fn is_active(&self) -> (r: bool)
        ensures
            r == (*self == GroupMembershipState::Active),
    {
        matches!(self, GroupMembershipState::Active)
    }

    pub open spec fn spec_message_pt(self) -> Seq<char> {
        match self {
            GroupMembershipState::Active => "Membro ativo ✓"@,
            GroupMembershipState::PendingRelogin => "Membro no /etc/group (Requer logout e login novamente para ativar) ⚠️"@,
            GroupMembershipState::NotMember => "Não membro ✗ (Rode: sudo usermod -aG input $USER)"@,
        }
    }

    /// The state explained in Portuguese.
    pub fn display_message_pt(&self) -> (r: &'static str)
        ensures
            r@ == self.spec_message_pt(),
    {
        match self {
            GroupMembershipState::Active => "Membro ativo ✓",
            GroupMembershipState::PendingRelogin => "Membro no /etc/group (Requer logout e login novamente para ativar) ⚠️",
            GroupMembershipState::NotMember => "Não membro ✗ (Rode: sudo usermod -aG input $USER)",
        }
    }

    pub open spec fn spec_message_en(self) -> Seq<char> {
        match self {
            GroupMembershipState::Active => "Active member ✓"@,
            GroupMembershipState::PendingRelogin => "Member in /etc/group (Log out and back in to activate) ⚠️"@,
            GroupMembershipState::NotMember => "Not a member ✗ (Run: sudo usermod -aG input $USER)"@,
        }
    }

    /// The state explained in English.
    pub fn display_message_en(&self) -> (r: &'static str)
        ensures
            r@ == self.spec_message_en(),
    {
        match self {
            GroupMembershipState::Active => "Active member ✓",
            GroupMembershipState::PendingRelogin => "Member in /etc/group (Log out and back in to activate) ⚠️",
            GroupMembershipState::NotMember => "Not a member ✗ (Run: sudo usermod -aG input $USER)",
        }
    }
}

/// The udev rules that give the `input` group and the desktop user access to the
/// MT760 Pro's hidraw and input nodes, and to `uinput`.
pub const OPENRAPOO_UDEV_RULES_CONTENT: &'static str = "# Rapoo MT760 Pro (Receptor 2.4 GHz Wireless / ITON Corp. VID: 0x24AE, PID: 0x186A)\n# Allows read/write access for members of the 'input' group and desktop users via uaccess\nSUBSYSTEM==\"hidraw\", ATTRS{idVendor}==\"24[aA][eE]\", ATTRS{idProduct}==\"18[6bB][aA]\", TAG+=\"uaccess\", GROUP=\"input\", MODE=\"0660\"\nSUBSYSTEM==\"input\", ATTRS{idVendor}==\"24[aA][eE]\", ATTRS{idProduct}==\"18[6bB][aA]\", TAG+=\"uaccess\", GROUP=\"input\", MODE=\"0660\"\nKERNEL==\"uinput\", GROUP=\"input\", MODE=\"0660\"\n";

/// A decimal `u32` (none when it does not parse).
pub open spec fn dec_u32(s: Seq<char>) -> Option<u32> {
    match parse_unsigned(s, 10, 0xFFFF_FFFF) {
        Some(v) => Some(v as u32),
        None => None,
    }
}

/// The pieces of a member list, trimmed.
pub open spec fn trimmed_members(s: Seq<char>) -> Seq<Seq<char>> {
    split_char(s, ',').map_values(|m: Seq<char>| trim(m))
}

/// The `input` group's id and whether `user` is listed in it, after reading one more
/// line of `/etc/group` (comments and blank lines skipped; a later `input` line
/// overrides the id when its id parses).
pub open spec fn group_step(st: (Option<u32>, bool), line: Seq<char>, user: Seq<char>) -> (Option<u32>, bool) {
    let l = trim(line);
    if starts_with(l, "#"@) || l.len() == 0 {
        st
    } else {
        let parts = split_char(l, ':');
        if parts.len() >= 3 && parts[0] == "input"@ {
            let gid = match dec_u32(parts[2]) { Some(g) => Some(g), None => st.0 };
            let listed = if parts.len() >= 4 && trimmed_members(parts[3]).contains(user) { true } else { st.1 };
            (gid, listed)
        } else {
            st
        }
    }
}

/// The state after reading the lines `ls`.
pub open spec fn group_fold(ls: Seq<Seq<char>>, user: Seq<char>) -> (Option<u32>, bool)
    decreases ls.len(),
{
    if ls.len() == 0 {
        (None, false)
    } else {
        group_step(group_fold(ls.drop_last(), user), ls.last(), user)
    }
}

fn dec_u32_of(s: &[char]) -> (r: Option<u32>)
    ensures
        r == dec_u32(s@),
{
    match parse_number(s, 10, 0xFFFF_FFFF) {
        Some(v) => Some(v as u32),
        None => None,
    }
}

fn members_contain(list: &[char], user: &[char]) -> (r: bool)
    ensures
        r == trimmed_members(list@).contains(user@),
{
    let pieces = split_on(list, ',');
    let ghost tm = trimmed_members(list@);
    let mut found = false;
    let mut i: usize = 0;
    while i < pieces.len()
        invariant
            i <= pieces@.len(),
            views(pieces@) == split_char(list@, ','),
            tm == trimmed_members(list@),
            tm.len() == pieces@.len(),
            found <==> exists|j: int| 0 <= j < i && tm[j] == user@,
        decreases pieces.len() - i,
    {
        let t = trim_chars(pieces[i].as_slice());
        assert(tm[i as int] == trim(pieces@[i as int]@));
        if crate::text::chars_eq(t.as_slice(), user) {
            found = true;
        }
        i = i + 1;
    }
    proof {
        if found {
            let j = choose|j: int| 0 <= j < pieces@.len() && tm[j] == user@;
            assert(tm.contains(user@));
        } else {
            assert(!tm.contains(user@));
        }
    }
    found
}

/// The `input` group's id in `/etc/group` and whether `username` is listed as a member.
pub fn parse_etc_group_for_user(etc_group_content: &str, username: &str) -> (r: (Option<u32>, bool))
    ensures
        r == group_fold(lines(etc_group_content@), username@),
{
    let c = chars_of(etc_group_content);
    let ls = lines_of(c.as_slice());
    let user = chars_of(username);
    let mut gid: Option<u32> = None;
    let mut listed = false;
    let mut i: usize = 0;
    while i < ls.len()
        invariant
            i <= ls@.len(),
            views(ls@) == lines(etc_group_content@),
            user@ == username@,
            (gid, listed) == group_fold(views(ls@).take(i as int), username@),
        decreases ls.len() - i,
    {
        proof { reveal_strlit("input"); reveal_strlit("#"); }
        let ghost t = views(ls@).take(i + 1);
        assert(t.drop_last() =~= views(ls@).take(i as int));
        assert(t.last() == ls@[i as int]@);
        let line = trim_chars(ls[i].as_slice());
        if !(crate::text::begins(line.as_slice(), "#") || line.len() == 0) {
            let parts = split_on(line.as_slice(), ':');
            if parts.len() >= 3 && crate::text::is_text(parts[0].as_slice(), "input") {
                match dec_u32_of(parts[2].as_slice()) {
                    Some(g) => {
                        gid = Some(g);
                    },
                    None => {},
                }
                if parts.len() >= 4 && members_contain(parts[3].as_slice(), user.as_slice()) {
                    listed = true;
                }
            }
        }
        i = i + 1;
    }
    assert(views(ls@).take(ls@.len() as int) =~= views(ls@));
    (gid, listed)
}

/// The decimal `u32` values among the words, in order (others skipped).
pub open spec fn parsed_u32s(ws: Seq<Seq<char>>) -> Seq<u32>
    decreases ws.len(),
{
    if ws.len() == 0 {
        Seq::empty()
    } else {
        let prev = parsed_u32s(ws.drop_last());
        match dec_u32(ws.last()) {
            Some(v) => prev.push(v),
            None => prev,
        }
    }
}

/// The group ids on the first `Groups:` line of a process status, or none.
pub open spec fn status_gids(ls: Seq<Seq<char>>) -> Seq<u32>
    decreases ls.len(),
{
    if ls.len() == 0 {
        Seq::empty()
    } else if starts_with(ls[0], "Groups:"@) {
        parsed_u32s(words(trim(trim_start_pat(ls[0], "Groups:"@))))
    } else {
        status_gids(ls.drop_first())
    }
}

/// The supplementary group ids listed in `/proc/<pid>/status`.
pub fn parse_proc_status_gids(status_content: &str) -> (r: Vec<u32>)
    ensures
        r@ == status_gids(lines(status_content@)),
{
    let c = chars_of(status_content);
    let ls = lines_of(c.as_slice());
    let p = chars_of("Groups:");
    assert(views(ls@).skip(0) =~= views(ls@));
    let mut i: usize = 0;
    while i < ls.len()
        invariant
            i <= ls@.len(),
            views(ls@) == lines(status_content@),
            p@ == "Groups:"@,
            status_gids(views(ls@)) == status_gids(views(ls@).skip(i as int)),
        decreases ls.len() - i,
    {
        let ghost rest = views(ls@).skip(i as int);
        assert(rest.len() > 0);
        assert(rest[0] == ls@[i as int]@);
        assert(rest.drop_first() =~= views(ls@).skip(i + 1));
        if crate::text::has_prefix(ls[i].as_slice(), p.as_slice()) {
            let t = trim_start_pattern(ls[i].as_slice(), p.as_slice());
            let tt = trim_chars(t.as_slice());
            let ws = split_words(tt.as_slice());
            let mut out: Vec<u32> = Vec::new();
            let mut k: usize = 0;
            while k < ws.len()
                invariant
                    k <= ws@.len(),
                    out@ == parsed_u32s(views(ws@).take(k as int)),
                decreases ws.len() - k,
            {
                let ghost tk = views(ws@).take(k + 1);
                assert(tk.drop_last() =~= views(ws@).take(k as int));
                assert(tk.last() == ws@[k as int]@);
                match dec_u32_of(ws[k].as_slice()) {
                    Some(v) => out.push(v),
                    None => {},
                }
                k = k + 1;
            }
            assert(views(ws@).take(ws@.len() as int) =~= views(ws@));
            return out;
        }
        i = i + 1;
    }
    assert(views(ls@).skip(ls@.len() as int) =~= Seq::<Seq<char>>::empty());
    Vec::new()
}

/// Calls `nix::unistd::getgroups` and returns the raw group ids (none on error). The
/// answer depends on the running process, so nothing is promised of it.
#[verifier::external_body]
fn process_group_ids() -> (r: Vec<u32>) {
    nix::unistd::getgroups().unwrap_or_default().into_iter().map(|g| g.as_raw()).collect()
}

/// The membership state, `in_process` telling whether the process runs with the
/// `input` group's id.
pub open spec fn membership(listed: bool, in_process: bool) -> GroupMembershipState {
    if in_process {
        GroupMembershipState::Active
    } else if listed {
        GroupMembershipState::PendingRelogin
    } else {
        GroupMembershipState::NotMember
    }
}

fn contains_u32(v: &Vec<u32>, x: u32) -> (r: bool)
    ensures
        r == v@.contains(x),
{
    let mut i: usize = 0;
    while i < v.len()
        invariant
            i <= v@.len(),
            forall|j: int| 0 <= j < i ==> v@[j] != x,
        decreases v.len() - i,
    {
        if v[i] == x {
            assert(v@[i as int] == x);
            return true;
        }
        i = i + 1;
    }
    false
}

/// `r` is the membership state the texts allow, whatever the system reports.
pub open spec fn group_status_ok(user: Seq<char>, etc: Seq<char>, status: Seq<char>, r: GroupMembershipState) -> bool {
    let st = group_fold(lines(etc), user);
    let active = status_gids(lines(status));
    &&& (st.0 is Some && active.contains(st.0.unwrap())) ==> r == GroupMembershipState::Active
    &&& r == membership(st.1, st.0 is Some && active.contains(st.0.unwrap()))
        || (st.0 is Some && r == GroupMembershipState::Active)
}

/// The membership state from the texts and the group ids `sys` the system reports for
/// the process: active when the `input` group's id is in the process status or in
/// `sys`; pending when only `/etc/group` lists the user; otherwise not a member.
pub open spec fn group_status_with(user: Seq<char>, etc: Seq<char>, status: Seq<char>, sys: Seq<u32>) -> GroupMembershipState {
    let st = group_fold(lines(etc), user);
    let active = status_gids(lines(status));
    membership(st.1, st.0 is Some && (active.contains(st.0.unwrap()) || sys.contains(st.0.unwrap())))
}

/// The state of `username`'s membership, given the group ids `sys_gids` the system
/// reports for the process.
pub fn group_status_from(username: &str, etc_group_content: &str, proc_status_content: &str, sys_gids: &Vec<u32>) -> (r: GroupMembershipState)
    ensures
        r == group_status_with(username@, etc_group_content@, proc_status_content@, sys_gids@),
{
    let (input_gid, listed) = parse_etc_group_for_user(etc_group_content, username);
    let active_gids = parse_proc_status_gids(proc_status_content);
    let (in_status, in_sys) = match input_gid {
        Some(g) => (contains_u32(&active_gids, g), contains_u32(sys_gids, g)),
        None => (false, false),
    };
    let has_active_gid = in_status || in_sys;
    if has_active_gid {
        GroupMembershipState::Active
    } else if listed {
        GroupMembershipState::PendingRelogin
    } else {
        GroupMembershipState::NotMember
    }
}

/// The state of `username`'s membership: active when the `input` group's id is among
/// the ids in the process status or those the system reports for the process;
/// pending when only `/etc/group` lists the user; otherwise not a member.
pub fn check_group_status_internal(username: &str, etc_group_content: &str, proc_status_content: &str) -> (r: GroupMembershipState)
    ensures
        group_status_ok(username@, etc_group_content@, proc_status_content@, r),
        exists|sys: Seq<u32>| r == group_status_with(username@, etc_group_content@, proc_status_content@, sys),
{
    let sys_gids = process_group_ids();
    group_status_from(username, etc_group_content, proc_status_content, &sys_gids)
}

/// The directory the udev rules go to when none is given.
pub open spec fn default_rules_dir() -> Seq<char> {
    "/etc/udev/rules.d"@
}

/// Where the udev rules file goes: `99-openrapoo.rules` in the given directory, else in
/// `/etc/udev/rules.d`. Writing to the system directory needs root: without a
/// directory, a user who is not root is refused with the error telling to use `sudo`.
pub fn udev_rules_target(is_root: bool, custom_dir: Option<&str>) -> (r: Result<String, OpenRapooError>)
    ensures
        r is Err <==> (!is_root && custom_dir is None),
        r matches Ok(p) ==> p@ == path_join(
            match custom_dir { Some(d) => d@, None => default_rules_dir() }, "99-openrapoo.rules"@),
        r matches Err(e) ==> (e matches OpenRapooError::PermissionDenied(m)
            && m@ == "Erro: '--install-udev' requer privilégios de administrador (root). Execute com 'sudo openrapoo-gui --install-udev'."@),
{
    match custom_dir {
        Some(d) => Ok(join_path(d, "99-openrapoo.rules")),
        None => {
            if !is_root {
                Err(OpenRapooError::PermissionDenied(owned(
                    "Erro: '--install-udev' requer privilégios de administrador (root). Execute com 'sudo openrapoo-gui --install-udev'.",
                )))
            } else {
                Ok(join_path("/etc/udev/rules.d", "99-openrapoo.rules"))
            }
        },
    }
}

/// The user the tool acts for: `SUDO_USER` (trimmed) when it is set and not blank, else
/// `USER`, else `LOGNAME`, else the numeric user id.
pub open spec fn spec_target_username(sudo_user: Option<Seq<char>>, user: Option<Seq<char>>, logname: Option<Seq<char>>, uid: u32) -> Seq<char> {
    if sudo_user is Some && trim(sudo_user.unwrap()).len() > 0 {
        trim(sudo_user.unwrap())
    } else if user is Some {
        user.unwrap()
    } else if logname is Some {
        logname.unwrap()
    } else {
        dec(uid as nat)
    }
}

/// The user the tool acts for, from the values of `SUDO_USER`, `USER` and `LOGNAME`
/// (none when unset) and the process's user id.
pub fn target_username(sudo_user: Option<&str>, user: Option<&str>, logname: Option<&str>, uid: u32) -> (r: String)
    ensures
        r@ == spec_target_username(
            match sudo_user { Some(s) => Some(s@), None => None },
            match user { Some(s) => Some(s@), None => None },
            match logname { Some(s) => Some(s@), None => None },
            uid,
        ),
{
    match sudo_user {
        Some(s) => {
            let t = trim_chars(chars_of(s).as_slice());
            if t.len() > 0 {
                return string_of(t.as_slice());
            }
        },
        None => {},
    }
    match user {
        Some(u) => owned(u),
        None => match logname {
            Some(l) => owned(l),
            None => {
                let mut r = String::new();
                append_dec(&mut r, uid as u64);
                r
            },
        },
    }
}

} // verus!
