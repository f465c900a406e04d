use cosmolith::identifier::{get_current_session, has_desktop_token, Desktop, SessionEnv};

const NAMES: [&str; 8] = [
    "XDG_SESSION_TYPE",
    "HYPRLAND_INSTANCE_SIGNATURE",
    "SWAYSOCK",
    "XDG_CURRENT_DESKTOP",
    "XDG_SESSION_DESKTOP",
    "DESKTOP_SESSION",
    "WAYLAND_DISPLAY",
    "DISPLAY",
];

fn unset() -> SessionEnv {
    SessionEnv {
        xdg_session_type: None,
        hyprland_instance_signature: None,
        swaysock: None,
        xdg_current_desktop: None,
        xdg_session_desktop: None,
        desktop_session: None,
        wayland_display: None,
        display: None,
    }
}

fn set_var(env: &mut SessionEnv, name: &str, value: &str) {
    let slot = match name {
        "XDG_SESSION_TYPE" => &mut env.xdg_session_type,
        "HYPRLAND_INSTANCE_SIGNATURE" => &mut env.hyprland_instance_signature,
        "SWAYSOCK" => &mut env.swaysock,
        "XDG_CURRENT_DESKTOP" => &mut env.xdg_current_desktop,
        "XDG_SESSION_DESKTOP" => &mut env.xdg_session_desktop,
        "DESKTOP_SESSION" => &mut env.desktop_session,
        "WAYLAND_DISPLAY" => &mut env.wayland_display,
        "DISPLAY" => &mut env.display,
        other => panic!("unknown variable {other}"),
    };
    *slot = Some(value.to_string());
}

fn with(pairs: &[(&str, &str)]) -> SessionEnv {
    let mut env = unset();
    for (name, value) in pairs {
        set_var(&mut env, name, value);
    }
    env
}

#[test]
fn empty_environment_values_are_not_session_indicators() {
    let mut env = unset();
    for name in NAMES {
        set_var(&mut env, name, "");
    }

    assert!(matches!(get_current_session(&env), Desktop::Unknown(_)));
}

#[test]
fn whitespace_environment_values_are_not_session_indicators() {
    let mut env = unset();
    for name in NAMES {
        set_var(&mut env, name, " ");
    }

    assert!(matches!(get_current_session(&env), Desktop::Unknown(_)));
}

#[test]
fn cosmic_sway_desktop_value_selects_sway_backend() {
    let env = with(&[("XDG_CURRENT_DESKTOP", "Regolith-Wayland:COSMIC:sway")]);

    assert!(matches!(get_current_session(&env), Desktop::Sway));
}

#[test]
fn desktop_tokens_match_sway_without_substring_false_positives() {
    let env = with(&[("XDG_CURRENT_DESKTOP", "Not-Sway")]);
    assert!(matches!(get_current_session(&env), Desktop::Unknown(_)));

    let env = with(&[("XDG_CURRENT_DESKTOP", "Sway")]);
    assert!(matches!(get_current_session(&env), Desktop::Sway));

    let env = with(&[("XDG_CURRENT_DESKTOP", "COSMIC:Sway")]);
    assert!(matches!(get_current_session(&env), Desktop::Sway));
}

#[test]
fn unknown_session_says_not_detected() {
    match get_current_session(&unset()) {
        Desktop::Unknown(text) => assert_eq!(text, "Not Detected"),
        other => panic!("unexpected {:?}", other),
    }
}

#[test]
fn tty_session_type_comes_first_in_any_case() {
    for value in ["tty", "TTY", "Tty"] {
        let env = with(&[
            ("XDG_SESSION_TYPE", value),
            ("HYPRLAND_INSTANCE_SIGNATURE", "abc"),
            ("SWAYSOCK", "/run/sway.sock"),
            ("XDG_CURRENT_DESKTOP", "GNOME"),
            ("DISPLAY", ":0"),
        ]);
        assert!(matches!(get_current_session(&env), Desktop::Tty));
    }
}

#[test]
fn tty_check_agrees_with_lowercasing() {
    for value in ["tty", "TTY", "tTy", "tty ", " tty", "tt", "ttyy", "wayland", "x11", "ṫty", "\u{1e6b}ty"] {
        let env = with(&[("XDG_SESSION_TYPE", value)]);
        let is_tty = matches!(get_current_session(&env), Desktop::Tty);
        assert_eq!(is_tty, value.to_lowercase() == "tty", "value {value:?}");
    }
}

#[test]
fn wayland_and_x11_session_types_do_not_decide() {
    let env = with(&[("XDG_SESSION_TYPE", "wayland"), ("XDG_CURRENT_DESKTOP", "KDE")]);
    assert!(matches!(get_current_session(&env), Desktop::Kde));
    let env = with(&[("XDG_SESSION_TYPE", "x11")]);
    assert!(matches!(get_current_session(&env), Desktop::Unknown(_)));
}

#[test]
fn hyprland_signature_beats_sway_socket() {
    let env = with(&[("HYPRLAND_INSTANCE_SIGNATURE", "sig"), ("SWAYSOCK", "/s")]);
    assert!(matches!(get_current_session(&env), Desktop::Hyprland));
    let env = with(&[("SWAYSOCK", "/s"), ("XDG_CURRENT_DESKTOP", "GNOME")]);
    assert!(matches!(get_current_session(&env), Desktop::Sway));
}

#[test]
fn desktop_list_checks_in_order() {
    let cases: [(&str, fn(&Desktop) -> bool); 9] = [
        ("Hyprland", |d| matches!(d, Desktop::Hyprland)),
        ("sway", |d| matches!(d, Desktop::Sway)),
        ("ubuntu:GNOME", |d| matches!(d, Desktop::Gnome)),
        ("KDE", |d| matches!(d, Desktop::Kde)),
        ("plasma", |d| matches!(d, Desktop::Plasma)),
        ("XFCE", |d| matches!(d, Desktop::Xfce)),
        ("COSMIC", |d| matches!(d, Desktop::Cosmic)),
        ("cosmic:hyprland", |d| matches!(d, Desktop::Hyprland)),
        ("gnome:kde", |d| matches!(d, Desktop::Gnome)),
    ];
    for (value, check) in cases {
        let env = with(&[("XDG_CURRENT_DESKTOP", value)]);
        assert!(check(&get_current_session(&env)), "value {value:?}");
    }
}

#[test]
fn later_desktop_lists_are_consulted_when_earlier_name_nothing() {
    let env = with(&[("XDG_CURRENT_DESKTOP", "Unity"), ("XDG_SESSION_DESKTOP", "xfce")]);
    assert!(matches!(get_current_session(&env), Desktop::Xfce));
    let env = with(&[("XDG_SESSION_DESKTOP", "  "), ("DESKTOP_SESSION", "plasma")]);
    assert!(matches!(get_current_session(&env), Desktop::Plasma));
    let env = with(&[("XDG_CURRENT_DESKTOP", "gnome"), ("DESKTOP_SESSION", "plasma")]);
    assert!(matches!(get_current_session(&env), Desktop::Gnome));
}

#[test]
fn display_variables_are_last() {
    let env = with(&[("WAYLAND_DISPLAY", "wayland-1"), ("DISPLAY", ":0")]);
    assert!(matches!(get_current_session(&env), Desktop::Wayland));
    let env = with(&[("DISPLAY", ":0"), ("XDG_CURRENT_DESKTOP", "Unity")]);
    assert!(matches!(get_current_session(&env), Desktop::X11));
    let env = with(&[("WAYLAND_DISPLAY", "\t\n"), ("DISPLAY", ":1")]);
    assert!(matches!(get_current_session(&env), Desktop::X11));
}

#[test]
fn unicode_whitespace_counts_as_blank() {
    let env = with(&[("SWAYSOCK", "\u{3000}\u{a0}\u{2028}"), ("DISPLAY", ":0")]);
    assert!(matches!(get_current_session(&env), Desktop::X11));
    let env = with(&[("SWAYSOCK", "\u{200b}")]);
    assert!(matches!(get_current_session(&env), Desktop::Sway));
}

#[test]
fn blank_check_agrees_with_trim_for_every_char() {
    for code in 0u32..=0x10FFFF {
        if let Some(c) = char::from_u32(code) {
            let value = c.to_string();
            let env = with(&[("SWAYSOCK", value.as_str())]);
            let unset_like = !matches!(get_current_session(&env), Desktop::Sway);
            assert_eq!(unset_like, value.trim().is_empty(), "char {code:#x}");
        }
    }
}

#[test]
fn desktop_token_matches_whole_items_ignoring_ascii_case() {
    assert!(has_desktop_token("COSMIC:Sway", "sway"));
    assert!(has_desktop_token("sway", "sway"));
    assert!(has_desktop_token("a::SWAY:", "sway"));
    assert!(!has_desktop_token("Not-Sway", "sway"));
    assert!(!has_desktop_token("swayfx", "sway"));
    assert!(!has_desktop_token("", "sway"));
    assert!(has_desktop_token("a::b", ""));
    assert!(has_desktop_token("", ""));
    assert!(!has_desktop_token("şway", "sway"));
}

#[test]
fn desktop_token_agrees_with_split() {
    let values = ["Regolith-Wayland:COSMIC:sway", "", ":", "gnome:", ":KDE", "Xfce:xfce", "ab:c"];
    let names = ["sway", "cosmic", "kde", "xfce", "", "c", "ab"];
    for v in values {
        for n in names {
            let expected = v.split(':').any(|t| t.eq_ignore_ascii_case(n));
            assert_eq!(has_desktop_token(v, n), expected, "{v:?} {n:?}");
        }
    }
}

#[test]
fn ascii_case_of_values_does_not_matter() {
    let pairs = [
        ("COSMIC:Sway", "cosmic:SWAY"),
        ("Regolith-Wayland:COSMIC:sway", "REGOLITH-wayland:cosmic:SWAY"),
        ("Not-Sway", "not-sway"),
        ("Hyprland", "HYPRLAND"),
        ("TTY", "tty"),
    ];
    for (a, b) in pairs {
        for name in ["XDG_SESSION_TYPE", "XDG_CURRENT_DESKTOP", "DESKTOP_SESSION"] {
            let da = format!("{:?}", get_current_session(&with(&[(name, a)])));
            let db = format!("{:?}", get_current_session(&with(&[(name, b)])));
            assert_eq!(da, db, "{name} {a:?} {b:?}");
        }
    }
}

#[test]
fn desktop_token_ignores_ascii_case_of_both_sides() {
    for (value, expected) in [("COSMIC:Sway", "sway"), ("Not-Sway", "sway"), ("gnome:KDE", "kde"), ("x", "y")] {
        let r = has_desktop_token(value, expected);
        assert_eq!(has_desktop_token(&value.to_ascii_uppercase(), expected), r);
        assert_eq!(has_desktop_token(&value.to_ascii_lowercase(), expected), r);
        assert_eq!(has_desktop_token(value, &expected.to_ascii_uppercase()), r);
    }
}
