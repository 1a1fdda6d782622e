use openrapoo::config::{ButtonAction, Profile, ProfileStore};

#[test]
fn test_profile_default() {
    let p = Profile::default_profile();
    assert!(p.is_default);
    assert_eq!(p.get_action("0x110"), Some(&ButtonAction::PassThrough));
}

#[test]
fn test_run_command_validation() {
    let valid = ButtonAction::RunCommand {
        argv: vec!["ls".to_string(), "-la".to_string()],
    };
    assert!(valid.validate().is_ok());

    let invalid = ButtonAction::RunCommand { argv: vec![] };
    assert!(invalid.validate().is_err());
}

#[test]
fn test_profile_management_ops() {
    let mut store = ProfileStore::default();
    let original_id = store.active_profile_id;

    let dup = store
        .duplicate_profile(original_id, "Perfil Cópia")
        .expect("dup");
    assert_eq!(dup.name, "Perfil Cópia");
    assert_eq!(store.profiles.len(), 2);

    assert!(store.rename_profile(dup.id, "Perfil Renomeado"));
    assert_eq!(
        store.profiles.iter().find(|p| p.id == dup.id).unwrap().name,
        "Perfil Renomeado"
    );

    let exported = store.export_profile(dup.id).expect("export");
    let imported_id = store.import_profile(exported);
    assert_eq!(store.profiles.len(), 3);

    assert!(store.delete_profile(imported_id));
    assert_eq!(store.profiles.len(), 2);
}
