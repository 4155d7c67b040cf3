use rippy::config::{
    default_app, default_key, default_modifiers, describe_hotkey, format_hotkey, keycode_for, keycode_for_lowercase,
    modifier_flag, modifiers_mask, Config, HotkeyConfig, TerminalConfig, MODIFIER_FILTER,
};
use rippy::hotkey::{hotkey_context, hotkey_matches};

fn names(xs: &[&str]) -> Vec<String> {
    xs.iter().map(|s| s.to_string()).collect()
}

#[test]
fn defaults_are_cmd_shift_v_and_auto_terminal() {
    assert_eq!(default_key(), "v");
    assert_eq!(default_modifiers(), names(&["cmd", "shift"]));
    assert_eq!(default_app(), "auto");
    let cfg = Config::default();
    assert_eq!(cfg.hotkey.key, "v");
    assert_eq!(cfg.hotkey.modifiers, names(&["cmd", "shift"]));
    assert_eq!(cfg.terminal.app, "auto");
    assert_eq!(HotkeyConfig::default().key, "v");
    assert_eq!(TerminalConfig::default().app, "auto");
}

#[test]
fn config_or_default_keeps_a_parsed_config() {
    let parsed = Config {
        hotkey: HotkeyConfig { key: "k".to_string(), modifiers: names(&["ctrl"]) },
        terminal: TerminalConfig { app: "WezTerm".to_string() },
    };
    let c = Config::or_default(Some(parsed));
    assert_eq!(c.hotkey.key, "k");
    assert_eq!(c.terminal.app, "WezTerm");
    let d = Config::or_default(None);
    assert_eq!(d.hotkey.key, "v");
    assert_eq!(d.terminal.app, "auto");
}

#[test]
fn config_path_joins_like_path_join() {
    assert_eq!(Config::path("/home/u/.local/share/rippy"), "/home/u/.local/share/rippy/config.toml");
    assert_eq!(Config::path("/data/"), "/data/config.toml");
    assert_eq!(Config::path(""), "config.toml");
}

#[test]
fn keycodes_of_letters_digits_and_function_keys() {
    assert_eq!(keycode_for("a"), Some(0x00));
    assert_eq!(keycode_for("v"), Some(0x09));
    assert_eq!(keycode_for("b"), Some(0x0B));
    assert_eq!(keycode_for("8"), Some(0x1C));
    assert_eq!(keycode_for("space"), Some(0x31));
    assert_eq!(keycode_for("esc"), Some(0x35));
    assert_eq!(keycode_for("escape"), Some(0x35));
    assert_eq!(keycode_for("f1"), Some(0x7A));
    assert_eq!(keycode_for("f12"), Some(0x6F));
    assert_eq!(keycode_for("3"), Some(0x14));
}

#[test]
fn keycodes_ignore_case() {
    assert_eq!(keycode_for("V"), Some(0x09));
    assert_eq!(keycode_for("F5"), Some(0x60));
    assert_eq!(keycode_for("Escape"), Some(0x35));
    assert_eq!(keycode_for("SPACE"), Some(0x31));
    // the lower-case table itself does not fold case
    assert_eq!(keycode_for_lowercase("V"), None);
    assert_eq!(keycode_for_lowercase("v"), Some(0x09));
}

#[test]
fn unknown_keys_have_no_keycode() {
    assert_eq!(keycode_for(""), None);
    assert_eq!(keycode_for("f13"), None);
    assert_eq!(keycode_for("enter"), None);
    assert_eq!(keycode_for("vv"), None);
}

#[test]
fn modifier_flags() {
    assert_eq!(modifier_flag("cmd"), Some(1 << 20));
    assert_eq!(modifier_flag("Command"), Some(1 << 20));
    assert_eq!(modifier_flag("SHIFT"), Some(1 << 17));
    assert_eq!(modifier_flag("ctrl"), Some(1 << 18));
    assert_eq!(modifier_flag("control"), Some(1 << 18));
    assert_eq!(modifier_flag("alt"), Some(1 << 19));
    assert_eq!(modifier_flag("Option"), Some(1 << 19));
    assert_eq!(modifier_flag("opt"), Some(1 << 19));
    assert_eq!(modifier_flag("hyper"), None);
    assert_eq!(modifier_flag(""), None);
}

#[test]
fn modifiers_mask_combines_known_names() {
    assert_eq!(modifiers_mask(&names(&["cmd", "shift"])), (1 << 20) | (1 << 17));
    assert_eq!(modifiers_mask(&names(&["cmd", "bogus", "CTRL"])), (1 << 20) | (1 << 18));
    assert_eq!(modifiers_mask(&names(&[])), 0);
    assert_eq!(modifiers_mask(&names(&["alt", "opt", "option"])), 1 << 19);
}

#[test]
fn modifiers_mask_order_does_not_matter() {
    let a = names(&["shift", "alt"]);
    let b = names(&["cmd"]);
    let mut ab = a.clone();
    ab.extend(b.clone());
    let mut ba = b.clone();
    ba.extend(a.clone());
    assert_eq!(modifiers_mask(&ab), modifiers_mask(&a) | modifiers_mask(&b));
    assert_eq!(modifiers_mask(&ab), modifiers_mask(&ba));
}

#[test]
fn modifiers_mask_stays_within_the_modifier_filter() {
    let all = names(&["cmd", "shift", "ctrl", "alt", "junk", "command", "control", "option"]);
    let m = modifiers_mask(&all);
    assert_eq!(m & !MODIFIER_FILTER, 0);
    assert_eq!(m, MODIFIER_FILTER);
}

#[test]
fn format_default_hotkey() {
    assert_eq!(format_hotkey(&HotkeyConfig::default()), "Cmd+Shift+V");
}

#[test]
fn format_hotkey_labels_and_upper_case() {
    let cfg = HotkeyConfig { key: "f5".to_string(), modifiers: names(&["ctrl", "option"]) };
    assert_eq!(format_hotkey(&cfg), "Ctrl+Opt+F5");
    let cfg = HotkeyConfig { key: "space".to_string(), modifiers: names(&["command", "control", "alt"]) };
    assert_eq!(format_hotkey(&cfg), "Cmd+Ctrl+Opt+SPACE");
    // labels are matched exactly: other spellings are shown as they are
    let cfg = HotkeyConfig { key: "k".to_string(), modifiers: names(&["Shift", "hyper"]) };
    assert_eq!(format_hotkey(&cfg), "Shift+hyper+K");
    let cfg = HotkeyConfig { key: "v".to_string(), modifiers: names(&[]) };
    assert_eq!(format_hotkey(&cfg), "+V");
}

#[test]
fn hotkey_context_of_default_config() {
    let cfg = Config::default();
    let ctx = hotkey_context(&cfg).expect("default key has a keycode");
    assert_eq!(ctx.keycode, 0x09);
    assert_eq!(ctx.modifier_mask, (1 << 20) | (1 << 17));
    assert_eq!(ctx.terminal_app, "auto");
}

#[test]
fn hotkey_context_unknown_key() {
    let mut cfg = Config::default();
    cfg.hotkey.key = "enter".to_string();
    assert!(hotkey_context(&cfg).is_none());
}

#[test]
fn hotkey_matches_ignores_other_flags() {
    let ctx = hotkey_context(&Config::default()).unwrap();
    let caps_lock: u64 = 1 << 16;
    let device_bits: u64 = 0x100;
    assert!(hotkey_matches(&ctx, 0x09, (1 << 20) | (1 << 17)));
    assert!(hotkey_matches(&ctx, 0x09, (1 << 20) | (1 << 17) | caps_lock | device_bits));
    assert!(!hotkey_matches(&ctx, 0x09, 1 << 20));
    assert!(!hotkey_matches(&ctx, 0x09, (1 << 20) | (1 << 17) | (1 << 18)));
    assert!(!hotkey_matches(&ctx, 0x08, (1 << 20) | (1 << 17)));
}

#[test]
fn describe_hotkey_takes_the_key_as_given() {
    assert_eq!(describe_hotkey(&names(&["cmd"]), "x"), "Cmd+x");
    assert_eq!(describe_hotkey(&names(&["shift", "opt"]), "F1"), "Shift+Opt+F1");
}

#[test]
fn modifier_names_ignore_case() {
    assert_eq!(modifier_flag("CMD"), modifier_flag("cmd"));
    assert_eq!(modifier_flag("Option"), Some(1 << 19));
    assert_eq!(modifiers_mask(&names(&["CMD", "Shift"])), modifiers_mask(&names(&["cmd", "shift"])));
    let cfg = HotkeyConfig { key: "v".to_string(), modifiers: names(&["cmd", "shift"]) };
    assert_eq!(format_hotkey(&cfg), "Cmd+Shift+V");
}
