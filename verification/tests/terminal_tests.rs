use rippy::terminal::{detect_terminal, launch_script};

#[test]
fn detect_terminal_auto() {
    assert_eq!(detect_terminal("auto", true), "iTerm2");
    assert_eq!(detect_terminal("auto", false), "Terminal");
}

#[test]
fn detect_terminal_keeps_other_preferences() {
    assert_eq!(detect_terminal("WezTerm", true), "WezTerm");
    assert_eq!(detect_terminal("Alacritty", false), "Alacritty");
    assert_eq!(detect_terminal("Auto", false), "Auto");
    assert_eq!(detect_terminal("", true), "");
}

#[test]
fn launch_script_iterm() {
    let bin = "/usr/local/bin/rippy";
    let expected = format!(
        r#"tell application "iTerm2"
                activate
                create window with default profile command "{bin} ; exit"
            end tell"#
    );
    assert_eq!(launch_script("iTerm2", bin), expected);
    assert_eq!(launch_script("iterm2", bin), expected);
    assert_eq!(launch_script("iterm", bin), expected);
}

#[test]
fn launch_script_alacritty_and_wezterm() {
    let bin = "/opt/rippy";
    let alacritty = format!(
        r#"do shell script "open -a Alacritty --args -e {bin}"
            "#
    );
    assert_eq!(launch_script("Alacritty", bin), alacritty);
    assert_eq!(launch_script("alacritty", bin), alacritty);
    let wezterm = format!(
        r#"do shell script "open -a WezTerm --args start -- {bin}"
            "#
    );
    assert_eq!(launch_script("WezTerm", bin), wezterm);
    assert_eq!(launch_script("wezterm", bin), wezterm);
}

#[test]
fn launch_script_falls_back_to_terminal() {
    let bin = "rippy";
    let expected = format!(
        r#"tell application "Terminal"
                activate
                do script "{bin} ; exit"
            end tell"#
    );
    assert_eq!(launch_script("Terminal", bin), expected);
    assert_eq!(launch_script("kitty", bin), expected);
    assert_eq!(launch_script("ITERM2", bin), expected);
}
