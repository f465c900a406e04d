use cosmolith::watcher::input::{
    input_setting, unknown_key_message, InputAction, InputSetting, InputState, Reading,
    INPUTNAMESPACE, VERSION,
};

type State = InputState<&'static str, String, bool>;

fn empty() -> State {
    InputState::new(None, None, None, None)
}

#[test]
fn namespace_and_version() {
    assert_eq!(INPUTNAMESPACE, "com.system76.CosmicComp");
    assert_eq!(VERSION, 1);
}

#[test]
fn followed_keys_name_their_setting() {
    assert_eq!(input_setting("input_touchpad"), Some(InputSetting::Touchpad));
    assert_eq!(input_setting("input_default"), Some(InputSetting::Mouse));
    assert_eq!(input_setting("xkb_config"), Some(InputSetting::Keyboard));
    assert_eq!(input_setting("keyboard_config"), Some(InputSetting::Numlock));
}

#[test]
fn other_keys_are_not_followed() {
    for key in ["workspaces", "xkb_config ", "XKB_CONFIG", "", "input_touchpad_override", "autotile"] {
        assert_eq!(input_setting(key), None, "key {key:?}");
    }
}

#[test]
fn unknown_key_report_names_the_key() {
    assert_eq!(
        unknown_key_message("autotile"),
        "Unknown key found in Input (com.system76.CosmicComp): autotile"
    );
}

#[test]
fn first_touchpad_value_has_nothing_to_compare() {
    let mut state = empty();
    assert_eq!(state.record_touchpad("tap"), None);
    assert_eq!(state.touchpad, Some("tap"));
}

#[test]
fn next_change_is_compared_with_last_recorded() {
    let mut state = empty();
    state.record_touchpad("a");
    assert_eq!(state.record_touchpad("b"), Some("a"));
    assert_eq!(state.record_touchpad("c"), Some("b"));
    state.record_mouse("m1");
    assert_eq!(state.record_mouse("m2"), Some("m1"));
    state.record_numslock(true);
    assert_eq!(state.record_numslock(false), Some(true));
    assert_eq!(state.numslock, Some(false));
}

#[test]
fn first_keyboard_layout_is_compared_with_the_default() {
    let mut state = empty();
    let base = state.record_keyboard("us".to_string(), "default".to_string());
    assert_eq!(base, "default");
    let base = state.record_keyboard("us,fr".to_string(), "default".to_string());
    assert_eq!(base, "us");
    assert_eq!(state.keyboard, Some("us,fr".to_string()));
}

#[test]
fn recording_one_setting_keeps_the_others() {
    let mut state = InputState::new(Some("t"), Some("m"), Some("us".to_string()), Some(true));
    state.record_touchpad("t2");
    assert_eq!(state.mouse, Some("m"));
    assert_eq!(state.keyboard, Some("us".to_string()));
    assert_eq!(state.numslock, Some(true));
    state.record_keyboard("fr".to_string(), String::new());
    assert_eq!(state.touchpad, Some("t2"));
    assert_eq!(state.mouse, Some("m"));
    assert_eq!(state.numslock, Some(true));
}

fn report(action: InputAction<&'static str, String, bool>) -> String {
    match action {
        InputAction::Report(line) => line,
        _ => panic!("expected a report"),
    }
}

#[test]
fn changed_key_records_and_compares() {
    let mut state = empty();
    let d = || "default".to_string();
    assert!(matches!(state.on_key_changed("input_touchpad", Reading::Touchpad("t1"), d()), InputAction::Nothing));
    assert!(matches!(
        state.on_key_changed("input_touchpad", Reading::Touchpad("t2"), d()),
        InputAction::CompareTouchpad("t1")
    ));
    assert!(matches!(state.on_key_changed("input_default", Reading::Mouse("m1"), d()), InputAction::Nothing));
    assert!(matches!(
        state.on_key_changed("input_default", Reading::Mouse("m2"), d()),
        InputAction::CompareMouse("m1")
    ));
    assert!(matches!(state.on_key_changed("keyboard_config", Reading::Numlock(true), d()), InputAction::Nothing));
    assert!(matches!(
        state.on_key_changed("keyboard_config", Reading::Numlock(false), d()),
        InputAction::CompareNumlock(true)
    ));
    match state.on_key_changed("xkb_config", Reading::Keyboard("us".to_string()), d()) {
        InputAction::CompareKeyboard(base) => assert_eq!(base, "default"),
        _ => panic!("expected a keyboard comparison"),
    }
    match state.on_key_changed("xkb_config", Reading::Keyboard("us,fr".to_string()), d()) {
        InputAction::CompareKeyboard(base) => assert_eq!(base, "us"),
        _ => panic!("expected a keyboard comparison"),
    }
    assert_eq!(state.touchpad, Some("t2"));
    assert_eq!(state.mouse, Some("m2"));
    assert_eq!(state.keyboard, Some("us,fr".to_string()));
    assert_eq!(state.numslock, Some(false));
}

#[test]
fn failed_read_is_reported_and_keeps_baseline() {
    let mut state = empty();
    state.on_key_changed("xkb_config", Reading::Keyboard("us".to_string()), String::new());
    let line = report(state.on_key_changed("xkb_config", Reading::Failed("missing key".to_string()), String::new()));
    assert_eq!(line, "failed to read config key com.system76.CosmicComp.xkb_config");
    assert_eq!(state.keyboard, Some("us".to_string()));
    match state.on_key_changed("xkb_config", Reading::Keyboard("fr".to_string()), String::new()) {
        InputAction::CompareKeyboard(base) => assert_eq!(base, "us"),
        _ => panic!("expected a keyboard comparison"),
    }
}

#[test]
fn unknown_key_is_reported_and_changes_nothing() {
    let mut state = InputState::new(Some("t"), None, None, Some(true));
    let line = report(state.on_key_changed("autotile", Reading::NotRead, String::new()));
    assert_eq!(line, "Unknown key found in Input (com.system76.CosmicComp): autotile");
    assert_eq!(state.touchpad, Some("t"));
    assert_eq!(state.mouse, None);
    assert_eq!(state.keyboard, None);
    assert_eq!(state.numslock, Some(true));
}
