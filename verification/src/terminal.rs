use vstd::prelude::*;
use crate::text::str_eq;

verus! {

/// The terminal to use for a preference: `"auto"` means iTerm2 when it is installed and
/// Terminal otherwise; any other preference is used as it is.
pub open spec fn detect_terminal_spec(pref: Seq<char>, iterm_installed: bool) -> Seq<char> {
    if pref == "auto"@ {
        if iterm_installed {
            "iTerm2"@
        } else {
            "Terminal"@
        }
    } else {
        pref
    }
}

/// Detect which terminal app to use; `iterm_installed` says whether
/// `/Applications/iTerm.app` exists.
pub fn detect_terminal<'a>(pref: &'a str, iterm_installed: bool) -> (r: &'a str)
    ensures
        r@ == detect_terminal_spec(pref@, iterm_installed),
{
    if str_eq(pref, "auto") {
        if iterm_installed {
            "iTerm2"
        } else {
            "Terminal"
        }
    } else {
        pref
    }
}

/// Which of the script templates a terminal name selects.
pub enum TerminalKind {
    ITerm,
    Alacritty,
    WezTerm,
    AppleTerminal,
}

pub open spec fn terminal_kind_spec(terminal: Seq<char>) -> TerminalKind {
    if terminal == "iTerm2"@ || terminal == "iterm2"@ || terminal == "iterm"@ {
        TerminalKind::ITerm
    } else if terminal == "Alacritty"@ || terminal == "alacritty"@ {
        TerminalKind::Alacritty
    } else if terminal == "WezTerm"@ || terminal == "wezterm"@ {
        TerminalKind::WezTerm
    } else {
        TerminalKind::AppleTerminal
    }
}

/// The AppleScript that opens a window of `terminal` running `bin`.
pub open spec fn launch_script_spec(terminal: Seq<char>, bin: Seq<char>) -> Seq<char> {
    match terminal_kind_spec(terminal) {
        TerminalKind::ITerm => "tell application \"iTerm2\"\n                activate\n                create window with default profile command \""@
            + bin + " ; exit\"\n            end tell"@,
        TerminalKind::Alacritty => "do shell script \"open -a Alacritty --args -e "@ + bin
            + "\"\n            "@,
        TerminalKind::WezTerm => "do shell script \"open -a WezTerm --args start -- "@ + bin
            + "\"\n            "@,
        TerminalKind::AppleTerminal => "tell application \"Terminal\"\n                activate\n                do script \""@
            + bin + " ; exit\"\n            end tell"@,
    }
}

fn terminal_kind(terminal: &str) -> (r: TerminalKind)
    ensures
        r == terminal_kind_spec(terminal@),
{
    if str_eq(terminal, "iTerm2") || str_eq(terminal, "iterm2") || str_eq(terminal, "iterm") {
        TerminalKind::ITerm
    } else if str_eq(terminal, "Alacritty") || str_eq(terminal, "alacritty") {
        TerminalKind::Alacritty
    } else if str_eq(terminal, "WezTerm") || str_eq(terminal, "wezterm") {
        TerminalKind::WezTerm
    } else {
        TerminalKind::AppleTerminal
    }
}

/// The AppleScript that `launch_tui` hands to `osascript` to open `bin` in `terminal`.
pub fn launch_script(terminal: &str, bin: &str) -> (r: String)
    ensures
        r@ == launch_script_spec(terminal@, bin@),
{
    let (head, tail) = match terminal_kind(terminal) {
        TerminalKind::ITerm => (
            "tell application \"iTerm2\"\n                activate\n                create window with default profile command \"",
            " ; exit\"\n            end tell",
        ),
        TerminalKind::Alacritty => (
            "do shell script \"open -a Alacritty --args -e ",
            "\"\n            ",
        ),
        TerminalKind::WezTerm => (
            "do shell script \"open -a WezTerm --args start -- ",
            "\"\n            ",
        ),
        TerminalKind::AppleTerminal => (
            "tell application \"Terminal\"\n                activate\n                do script \"",
            " ; exit\"\n            end tell",
        ),
    };
    let mut r = head.to_owned();
    r.append(bin);
    r.append(tail);
    r
}

} // verus!
