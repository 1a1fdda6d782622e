use openrapoo::config::{ButtonAction, MouseButton, Profile};
use openrapoo::device::{DeviceType, RapooDevice};
use openrapoo::remap::{
    char_to_key_code, event_code_names, is_keyboard_node, key_by_name, mouse_event_paths,
    parse_key_str, plan_action, route_event, wheel_key, ActionPlan, EmitStep, EventRoute, EV_KEY,
    EV_REL, creates_virtual_device, node_handling, resolve_device_paths, NodeHandling, RemapperConfig,
};

fn profile_with(mappings: Vec<(&str, ButtonAction)>) -> Profile {
    let mut p = Profile::new("t");
    p.mappings = mappings.into_iter().map(|(k, a)| (k.to_string(), a)).collect();
    p
}

#[test]
fn code_names_in_three_spellings() {
    let (l, u, d) = event_code_names(0x11a);
    assert_eq!(l, "0x11a");
    assert_eq!(u, "0x11A");
    assert_eq!(d, "282");
    assert_eq!(event_code_names(0x5).0, "0x005");
}

#[test]
fn mapped_button_runs_on_press_only() {
    let p = profile_with(vec![("0x113", ButtonAction::Copy)]);
    assert_eq!(route_event(&p, EV_KEY, 0x113, 1), EventRoute::Execute(ButtonAction::Copy));
    assert_eq!(route_event(&p, EV_KEY, 0x113, 0), EventRoute::Drop);
    assert_eq!(route_event(&p, EV_KEY, 0x110, 1), EventRoute::Forward);
}

#[test]
fn uppercase_and_decimal_names_also_match() {
    let p = profile_with(vec![("0x11A", ButtonAction::Paste), ("275", ButtonAction::Disabled)]);
    assert_eq!(route_event(&p, EV_KEY, 0x11a, 1), EventRoute::Execute(ButtonAction::Paste));
    assert_eq!(route_event(&p, EV_KEY, 275, 1), EventRoute::Execute(ButtonAction::Disabled));
}

#[test]
fn passthrough_release_is_forwarded() {
    let p = profile_with(vec![("0x114", ButtonAction::PassThrough)]);
    assert_eq!(route_event(&p, EV_KEY, 0x114, 0), EventRoute::Forward);
    assert_eq!(route_event(&p, EV_KEY, 0x114, 2), EventRoute::Drop);
}

#[test]
fn wheel_directions() {
    assert_eq!(wheel_key(0x06, -1), Some("SCROLL_LEFT"));
    assert_eq!(wheel_key(0x0c, 3), Some("SCROLL_RIGHT"));
    assert_eq!(wheel_key(0x08, 1), Some("SCROLL_UP"));
    assert_eq!(wheel_key(0x0b, -1), Some("SCROLL_DOWN"));
    assert_eq!(wheel_key(0x08, 0), None);
    assert_eq!(wheel_key(0x00, 5), None);
    let p = profile_with(vec![("SCROLL_UP", ButtonAction::MediaNext)]);
    assert_eq!(route_event(&p, EV_REL, 0x08, 1), EventRoute::Execute(ButtonAction::MediaNext));
    assert_eq!(route_event(&p, EV_REL, 0x08, -1), EventRoute::Forward);
}

#[test]
fn key_names_and_codes() {
    assert_eq!(parse_key_str("0x1E"), Some(30));
    assert_eq!(parse_key_str("0Xff"), Some(255));
    assert_eq!(parse_key_str("17"), Some(17));
    assert_eq!(parse_key_str("+5"), Some(5));
    assert_eq!(parse_key_str("ctrl"), Some(29));
    assert_eq!(parse_key_str("KEY_leftmeta"), Some(125));
    assert_eq!(parse_key_str("foo"), None);
    assert_eq!(parse_key_str("70000"), None);
    assert_eq!(key_by_name("KEY_F4"), Some(62));
}

#[test]
fn typed_characters() {
    assert_eq!(char_to_key_code('a'), Some(30));
    assert_eq!(char_to_key_code('b'), Some(48));
    assert_eq!(char_to_key_code('Z'), Some(44));
    assert_eq!(char_to_key_code('q'), Some(16));
    assert_eq!(char_to_key_code('M'), Some(50));
    assert_eq!(char_to_key_code('1'), Some(2));
    assert_eq!(char_to_key_code('0'), Some(11));
    assert_eq!(char_to_key_code(' '), Some(57));
    assert_eq!(char_to_key_code('\n'), Some(28));
    assert_eq!(char_to_key_code('!'), None);
}

#[test]
fn combos_press_then_release_in_reverse() {
    let copy = plan_action(&ButtonAction::Copy, false);
    assert_eq!(
        copy,
        ActionPlan::Emit(vec![
            EmitStep::Down(29),
            EmitStep::Down(46),
            EmitStep::Pause,
            EmitStep::Up(46),
            EmitStep::Up(29)
        ])
    );
    let ws = plan_action(&ButtonAction::SwitchWorkspace { number: 2 }, false);
    assert_eq!(
        ws,
        ActionPlan::Emit(vec![EmitStep::Down(125), EmitStep::Down(3), EmitStep::Pause, EmitStep::Up(3), EmitStep::Up(125)])
    );
    let ws9 = plan_action(&ButtonAction::SwitchWorkspace { number: 9 }, false);
    assert_eq!(ws9, ActionPlan::Emit(vec![EmitStep::Down(125), EmitStep::Pause, EmitStep::Up(125)]));
    let combo = plan_action(&ButtonAction::KeyCombo { keys: vec!["alt".into(), "bogus".into(), "0x3e".into()] }, false);
    assert_eq!(
        combo,
        ActionPlan::Emit(vec![EmitStep::Down(56), EmitStep::Down(62), EmitStep::Pause, EmitStep::Up(62), EmitStep::Up(56)])
    );
}

#[test]
fn other_action_plans() {
    assert_eq!(plan_action(&ButtonAction::Copy, true), ActionPlan::Nothing);
    assert_eq!(plan_action(&ButtonAction::PassThrough, false), ActionPlan::Emit(vec![EmitStep::Forward]));
    assert_eq!(plan_action(&ButtonAction::Disabled, false), ActionPlan::Emit(vec![]));
    assert_eq!(
        plan_action(&ButtonAction::MouseButton { button: MouseButton::Back }, false),
        ActionPlan::Emit(vec![EmitStep::Click(0x113)])
    );
    assert_eq!(plan_action(&ButtonAction::MediaMute, false), ActionPlan::Emit(vec![EmitStep::Click(113)]));
    assert_eq!(plan_action(&ButtonAction::OpenTerminal, false), ActionPlan::OpenTerminal);
    assert_eq!(plan_action(&ButtonAction::RunCommand { argv: vec![] }, false), ActionPlan::Nothing);
    assert_eq!(
        plan_action(&ButtonAction::RunCommand { argv: vec!["ls".into()] }, false),
        ActionPlan::Run(vec!["ls".to_string()])
    );
    assert_eq!(
        plan_action(&ButtonAction::TypeText { text: "a 1!".into() }, false),
        ActionPlan::Emit(vec![EmitStep::Click(30), EmitStep::Click(57), EmitStep::Click(2)])
    );
    assert_eq!(plan_action(&ButtonAction::Key { key: "enter".into() }, false), ActionPlan::Emit(vec![EmitStep::Click(28)]));
    assert_eq!(plan_action(&ButtonAction::Macro { macro_id: 7 }, false), ActionPlan::Emit(vec![]));
}

#[test]
fn keyboard_nodes_and_mouse_paths() {
    assert!(is_keyboard_node("Rapoo E9050L"));
    assert!(is_keyboard_node("ITON Corp. Rapoo NearLink Mouse Keyboard"));
    assert!(!is_keyboard_node("Rapoo MT760 Pro"));
    let mouse = RapooDevice { device_type: DeviceType::Mouse, evdev_path: Some("/dev/input/event5".into()), ..Default::default() };
    let kbd = RapooDevice { device_type: DeviceType::Keyboard, evdev_path: Some("/dev/input/event6".into()), ..Default::default() };
    let nodeless = RapooDevice { device_type: DeviceType::Mouse, ..Default::default() };
    let paths = mouse_event_paths(&vec![mouse.clone(), kbd, nodeless, mouse]);
    assert_eq!(paths, vec!["/dev/input/event5".to_string()]);
}

#[test]
fn keyboard_nodes_are_never_grabbed() {
    assert_eq!(node_handling("Rapoo E9050 Keyboard", false), NodeHandling::LeaveUngrabbed);
    assert_eq!(node_handling("Rapoo E9050 Keyboard", true), NodeHandling::LeaveUngrabbed);
    assert_eq!(node_handling("Rapoo 2.4G Wireless Device Mouse", false), NodeHandling::Grab);
    assert_eq!(node_handling("Rapoo 2.4G Wireless Device Mouse", true), NodeHandling::InspectOnly);
}

#[test]
fn configured_node_replaces_detection() {
    let mouse = RapooDevice { device_type: DeviceType::Mouse, evdev_path: Some("/dev/input/event5".into()), ..Default::default() };
    let forced = RemapperConfig { device_path: Some("/dev/input/event9".into()), config_path: None, dry_run: false };
    assert_eq!(resolve_device_paths(&forced, &vec![mouse.clone()]), vec!["/dev/input/event9".to_string()]);
    let auto = RemapperConfig { device_path: None, config_path: None, dry_run: true };
    assert_eq!(resolve_device_paths(&auto, &vec![mouse]), vec!["/dev/input/event5".to_string()]);
    assert!(!creates_virtual_device(&auto));
    assert!(creates_virtual_device(&forced));
}
