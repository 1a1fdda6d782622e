use openrapoo::permissions::{
    check_group_status_internal, group_status_from, parse_etc_group_for_user, parse_proc_status_gids,
    GroupMembershipState,
};

#[test]
fn test_etc_group_parsing_active_and_pending() {
    let fake_etc_group = r#"
root:x:0:
daemon:x:1:
input:x:104:user1,user2
wheel:x:999:user1
"#;

    let fake_proc_status_active = r#"
Name:	openrapoo-gui
State:	S (sleeping)
Groups:	1000 999 104
"#;

    let fake_proc_status_pending = r#"
Name:	openrapoo-gui
State:	S (sleeping)
Groups:	1000 999
"#;

    let status_active =
        check_group_status_internal("user1", fake_etc_group, fake_proc_status_active);
    assert_eq!(status_active, GroupMembershipState::Active);
    assert!(status_active.is_active());

    let status_pending =
        check_group_status_internal("user1", fake_etc_group, fake_proc_status_pending);
    assert_eq!(status_pending, GroupMembershipState::PendingRelogin);
    assert!(!status_pending.is_active());

    let status_non_member =
        check_group_status_internal("user3", fake_etc_group, fake_proc_status_pending);
    assert_eq!(status_non_member, GroupMembershipState::NotMember);
    assert!(!status_non_member.is_active());
}

#[test]
fn test_proc_status_gids_parsing() {
    let proc_status = r#"
Name:	test
Pid:	1234
Groups:	10 20 104 1000
"#;
    let gids = parse_proc_status_gids(proc_status);
    assert_eq!(gids, vec![10, 20, 104, 1000]);
}

#[test]
fn test_group_membership_display_messages() {
    let active = GroupMembershipState::Active;
    let pending = GroupMembershipState::PendingRelogin;
    let not_member = GroupMembershipState::NotMember;

    assert!(active.display_message_pt().contains("Membro ativo"));
    assert!(pending.display_message_pt().contains("logout e login"));
    assert!(not_member.display_message_pt().contains("Não membro"));
}

#[test]
fn etc_group_line_gives_gid_and_membership() {
    let content = "input:x:104:user1,user2\nwheel:x:999:user1\n";
    assert_eq!(parse_etc_group_for_user(content, "user2"), (Some(104), true));
    assert_eq!(parse_etc_group_for_user(content, "user3"), (Some(104), false));
    assert_eq!(parse_etc_group_for_user("wheel:x:999:user1\n", "user1"), (None, false));
}

#[test]
fn proc_status_without_groups_line_gives_no_gids() {
    assert_eq!(parse_proc_status_gids("Name:\ttest\nPid:\t1\n"), Vec::<u32>::new());
    assert_eq!(parse_proc_status_gids("Groups:\t7 x 9\n"), vec![7, 9]);
}

#[test]
fn membership_from_process_groups() {
    let etc = "root:x:0:\ninput:x:104:user1,user2\nwheel:x:999:user1\n";
    let status = "Name:\tx\nGroups:\t1000 999\n";
    assert_eq!(group_status_from("user1", etc, status, &vec![]), GroupMembershipState::PendingRelogin);
    assert_eq!(group_status_from("user3", etc, status, &vec![]), GroupMembershipState::NotMember);
    assert_eq!(group_status_from("user1", etc, status, &vec![104]), GroupMembershipState::Active);
    assert_eq!(group_status_from("user1", etc, "Groups:\t1000 999 104\n", &vec![]), GroupMembershipState::Active);
}
