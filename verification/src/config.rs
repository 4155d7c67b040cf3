use vstd::prelude::*;
use crate::text::{
    ascii_lower, ascii_upper, is_ascii_chars, join_path, join_path_spec, lowercase, push_char, str_eq, to_lowercase, to_uppercase,
    uppercase,
};

verus! {

/// Settings read from `config.toml` in the data directory.
#[derive(Debug)]
pub struct Config {
    pub hotkey: HotkeyConfig,
    pub terminal: TerminalConfig,
}

/// The global hotkey: a key name and the names of the modifiers held with it.
#[derive(Debug)]
pub struct HotkeyConfig {
    pub key: String,
    pub modifiers: Vec<String>,
}

/// The terminal application that the hotkey opens (`"auto"` to detect one).
#[derive(Debug)]
pub struct TerminalConfig {
    pub app: String,
}

/// The key used when the configuration names none.
pub fn default_key() -> (r: String)
    ensures
        r@ == "v"@,
{
    "v".to_owned()
}

/// The modifiers used when the configuration names none.
pub fn default_modifiers() -> (r: Vec<String>)
    ensures
        r@.len() == 2,
        r@[0]@ == "cmd"@,
        r@[1]@ == "shift"@,
{
    let mut r: Vec<String> = Vec::new();
    r.push("cmd".to_owned());
    r.push("shift".to_owned());
    r
}

/// The terminal preference used when the configuration names none.
pub fn default_app() -> (r: String)
    ensures
        r@ == "auto"@,
{
    "auto".to_owned()
}

impl HotkeyConfig {
    pub open spec fn is_default(&self) -> bool {
        &&& self.key@ == "v"@
        &&& self.modifiers@.len() == 2
        &&& self.modifiers@[0]@ == "cmd"@
        &&& self.modifiers@[1]@ == "shift"@
    }
}

impl TerminalConfig {
    pub open spec fn is_default(&self) -> bool {
        self.app@ == "auto"@
    }
}

impl Config {
    pub open spec fn is_default(&self) -> bool {
        self.hotkey.is_default() && self.terminal.is_default()
    }
}

impl Default for HotkeyConfig {
    fn default() -> (r: Self)
        ensures
            r.is_default(),
    {
        HotkeyConfig { key: default_key(), modifiers: default_modifiers() }
    }
}

impl Default for TerminalConfig {
    fn default() -> (r: Self)
        ensures
            r.is_default(),
    {
        TerminalConfig { app: default_app() }
    }
}

impl Default for Config {
    fn default() -> (r: Self)
        ensures
            r.is_default(),
    {
        Config { hotkey: HotkeyConfig::default(), terminal: TerminalConfig::default() }
    }
}

impl Config {
    /// The configuration file inside the data directory.
    pub fn path(data_dir: &str) -> (r: String)
        ensures
            r@ == join_path_spec(data_dir@, "config.toml"@),
    {
        proof {
            reveal_strlit("config.toml");
        }
        join_path(data_dir, "config.toml")
    }

    /// The configuration that loading gives: the parsed file when it could be read and parsed,
    /// else the defaults.
    pub fn or_default(parsed: Option<Config>) -> (r: Config)
        ensures
            match parsed {
                Some(c) => r == c,
                None => r.is_default(),
            },
    {
        match parsed {
            Some(c) => c,
            None => Config::default(),
        }
    }
}

/// The macOS virtual keycode of a lower-case key name.
pub open spec fn keycode_table(name: Seq<char>) -> Option<u16> {
    if name == "a"@ {
        Some(0x00)
    } else if name == "s"@ {
        Some(0x01)
    } else if name == "d"@ {
        Some(0x02)
    } else if name == "f"@ {
        Some(0x03)
    } else if name == "h"@ {
        Some(0x04)
    } else if name == "g"@ {
        Some(0x05)
    } else if name == "z"@ {
        Some(0x06)
    } else if name == "x"@ {
        Some(0x07)
    } else if name == "c"@ {
        Some(0x08)
    } else if name == "v"@ {
        Some(0x09)
    } else if name == "b"@ {
        Some(0x0b)
    } else if name == "q"@ {
        Some(0x0c)
    } else if name == "w"@ {
        Some(0x0d)
    } else if name == "e"@ {
        Some(0x0e)
    } else if name == "r"@ {
        Some(0x0f)
    } else if name == "y"@ {
        Some(0x10)
    } else if name == "t"@ {
        Some(0x11)
    } else if name == "1"@ {
        Some(0x12)
    } else if name == "2"@ {
        Some(0x13)
    } else if name == "3"@ {
        Some(0x14)
    } else if name == "4"@ {
        Some(0x15)
    } else if name == "6"@ {
        Some(0x16)
    } else if name == "5"@ {
        Some(0x17)
    } else if name == "9"@ {
        Some(0x19)
    } else if name == "7"@ {
        Some(0x1a)
    } else if name == "8"@ {
        Some(0x1c)
    } else if name == "0"@ {
        Some(0x1d)
    } else if name == "o"@ {
        Some(0x1f)
    } else if name == "u"@ {
        Some(0x20)
    } else if name == "i"@ {
        Some(0x22)
    } else if name == "p"@ {
        Some(0x23)
    } else if name == "l"@ {
        Some(0x25)
    } else if name == "j"@ {
        Some(0x26)
    } else if name == "k"@ {
        Some(0x28)
    } else if name == "n"@ {
        Some(0x2d)
    } else if name == "m"@ {
        Some(0x2e)
    } else if name == "space"@ {
        Some(0x31)
    } else if name == "escape"@ {
        Some(0x35)
    } else if name == "esc"@ {
        Some(0x35)
    } else if name == "f1"@ {
        Some(0x7a)
    } else if name == "f2"@ {
        Some(0x78)
    } else if name == "f3"@ {
        Some(0x63)
    } else if name == "f4"@ {
        Some(0x76)
    } else if name == "f5"@ {
        Some(0x60)
    } else if name == "f6"@ {
        Some(0x61)
    } else if name == "f7"@ {
        Some(0x62)
    } else if name == "f8"@ {
        Some(0x64)
    } else if name == "f9"@ {
        Some(0x65)
    } else if name == "f10"@ {
        Some(0x6d)
    } else if name == "f11"@ {
        Some(0x67)
    } else if name == "f12"@ {
        Some(0x6f)
    } else {
        None
    }
}

/// The key name that a keycode of the table stands for (`"escape"` for the escape key).
pub open spec fn key_name(code: u16) -> Seq<char> {
    if code == 0x00 { "a"@ } else if code == 0x01 { "s"@ } else if code == 0x02 { "d"@ }
    else if code == 0x03 { "f"@ } else if code == 0x04 { "h"@ } else if code == 0x05 { "g"@ }
    else if code == 0x06 { "z"@ } else if code == 0x07 { "x"@ } else if code == 0x08 { "c"@ }
    else if code == 0x09 { "v"@ } else if code == 0x0b { "b"@ } else if code == 0x0c { "q"@ }
    else if code == 0x0d { "w"@ } else if code == 0x0e { "e"@ } else if code == 0x0f { "r"@ }
    else if code == 0x10 { "y"@ } else if code == 0x11 { "t"@ } else if code == 0x12 { "1"@ }
    else if code == 0x13 { "2"@ } else if code == 0x14 { "3"@ } else if code == 0x15 { "4"@ }
    else if code == 0x16 { "6"@ } else if code == 0x17 { "5"@ } else if code == 0x19 { "9"@ }
    else if code == 0x1a { "7"@ } else if code == 0x1c { "8"@ } else if code == 0x1d { "0"@ }
    else if code == 0x1f { "o"@ } else if code == 0x20 { "u"@ } else if code == 0x22 { "i"@ }
    else if code == 0x23 { "p"@ } else if code == 0x25 { "l"@ } else if code == 0x26 { "j"@ }
    else if code == 0x28 { "k"@ } else if code == 0x2d { "n"@ } else if code == 0x2e { "m"@ }
    else if code == 0x31 { "space"@ } else if code == 0x35 { "escape"@ } else if code == 0x7a { "f1"@ }
    else if code == 0x78 { "f2"@ } else if code == 0x63 { "f3"@ } else if code == 0x76 { "f4"@ }
    else if code == 0x60 { "f5"@ } else if code == 0x61 { "f6"@ } else if code == 0x62 { "f7"@ }
    else if code == 0x64 { "f8"@ } else if code == 0x65 { "f9"@ } else if code == 0x6d { "f10"@ }
    else if code == 0x67 { "f11"@ } else if code == 0x6f { "f12"@ } else { Seq::empty() }
}

/// A name that the table knows is the name of its keycode, or `"esc"`, the other name of the
/// escape key.
/// The characters of each key name of the table.
proof fn lemma_key_name_chars()
    ensures
        "a"@.len() == 1 && "a"@[0] == 'a',
        "s"@.len() == 1 && "s"@[0] == 's',
        "d"@.len() == 1 && "d"@[0] == 'd',
        "f"@.len() == 1 && "f"@[0] == 'f',
        "h"@.len() == 1 && "h"@[0] == 'h',
        "g"@.len() == 1 && "g"@[0] == 'g',
        "z"@.len() == 1 && "z"@[0] == 'z',
        "x"@.len() == 1 && "x"@[0] == 'x',
        "c"@.len() == 1 && "c"@[0] == 'c',
        "v"@.len() == 1 && "v"@[0] == 'v',
        "b"@.len() == 1 && "b"@[0] == 'b',
        "q"@.len() == 1 && "q"@[0] == 'q',
        "w"@.len() == 1 && "w"@[0] == 'w',
        "e"@.len() == 1 && "e"@[0] == 'e',
        "r"@.len() == 1 && "r"@[0] == 'r',
        "y"@.len() == 1 && "y"@[0] == 'y',
        "t"@.len() == 1 && "t"@[0] == 't',
        "1"@.len() == 1 && "1"@[0] == '1',
        "2"@.len() == 1 && "2"@[0] == '2',
        "3"@.len() == 1 && "3"@[0] == '3',
        "4"@.len() == 1 && "4"@[0] == '4',
        "6"@.len() == 1 && "6"@[0] == '6',
        "5"@.len() == 1 && "5"@[0] == '5',
        "9"@.len() == 1 && "9"@[0] == '9',
        "7"@.len() == 1 && "7"@[0] == '7',
        "8"@.len() == 1 && "8"@[0] == '8',
        "0"@.len() == 1 && "0"@[0] == '0',
        "o"@.len() == 1 && "o"@[0] == 'o',
        "u"@.len() == 1 && "u"@[0] == 'u',
        "i"@.len() == 1 && "i"@[0] == 'i',
        "p"@.len() == 1 && "p"@[0] == 'p',
        "l"@.len() == 1 && "l"@[0] == 'l',
        "j"@.len() == 1 && "j"@[0] == 'j',
        "k"@.len() == 1 && "k"@[0] == 'k',
        "n"@.len() == 1 && "n"@[0] == 'n',
        "m"@.len() == 1 && "m"@[0] == 'm',
        "space"@.len() == 5 && "space"@[0] == 's' && "space"@[1] == 'p' && "space"@[2] == 'a' && "space"@[3] == 'c' && "space"@[4] == 'e',
        "escape"@.len() == 6 && "escape"@[0] == 'e' && "escape"@[1] == 's' && "escape"@[2] == 'c' && "escape"@[3] == 'a' && "escape"@[4] == 'p' && "escape"@[5] == 'e',
        "esc"@.len() == 3 && "esc"@[0] == 'e' && "esc"@[1] == 's' && "esc"@[2] == 'c',
        "f1"@.len() == 2 && "f1"@[0] == 'f' && "f1"@[1] == '1',
        "f2"@.len() == 2 && "f2"@[0] == 'f' && "f2"@[1] == '2',
        "f3"@.len() == 2 && "f3"@[0] == 'f' && "f3"@[1] == '3',
        "f4"@.len() == 2 && "f4"@[0] == 'f' && "f4"@[1] == '4',
        "f5"@.len() == 2 && "f5"@[0] == 'f' && "f5"@[1] == '5',
        "f6"@.len() == 2 && "f6"@[0] == 'f' && "f6"@[1] == '6',
        "f7"@.len() == 2 && "f7"@[0] == 'f' && "f7"@[1] == '7',
        "f8"@.len() == 2 && "f8"@[0] == 'f' && "f8"@[1] == '8',
        "f9"@.len() == 2 && "f9"@[0] == 'f' && "f9"@[1] == '9',
        "f10"@.len() == 3 && "f10"@[0] == 'f' && "f10"@[1] == '1' && "f10"@[2] == '0',
        "f11"@.len() == 3 && "f11"@[0] == 'f' && "f11"@[1] == '1' && "f11"@[2] == '1',
        "f12"@.len() == 3 && "f12"@[0] == 'f' && "f12"@[1] == '1' && "f12"@[2] == '2',
        "esc"@.len() == 3 && "esc"@[0] == 'e' && "esc"@[1] == 's' && "esc"@[2] == 'c',
{
    reveal_strlit("a");
    reveal_strlit("s");
    reveal_strlit("d");
    reveal_strlit("f");
    reveal_strlit("h");
    reveal_strlit("g");
    reveal_strlit("z");
    reveal_strlit("x");
    reveal_strlit("c");
    reveal_strlit("v");
    reveal_strlit("b");
    reveal_strlit("q");
    reveal_strlit("w");
    reveal_strlit("e");
    reveal_strlit("r");
    reveal_strlit("y");
    reveal_strlit("t");
    reveal_strlit("1");
    reveal_strlit("2");
    reveal_strlit("3");
    reveal_strlit("4");
    reveal_strlit("6");
    reveal_strlit("5");
    reveal_strlit("9");
    reveal_strlit("7");
    reveal_strlit("8");
    reveal_strlit("0");
    reveal_strlit("o");
    reveal_strlit("u");
    reveal_strlit("i");
    reveal_strlit("p");
    reveal_strlit("l");
    reveal_strlit("j");
    reveal_strlit("k");
    reveal_strlit("n");
    reveal_strlit("m");
    reveal_strlit("space");
    reveal_strlit("escape");
    reveal_strlit("esc");
    reveal_strlit("f1");
    reveal_strlit("f2");
    reveal_strlit("f3");
    reveal_strlit("f4");
    reveal_strlit("f5");
    reveal_strlit("f6");
    reveal_strlit("f7");
    reveal_strlit("f8");
    reveal_strlit("f9");
    reveal_strlit("f10");
    reveal_strlit("f11");
    reveal_strlit("f12");
    reveal_strlit("esc");
}

/// The names of one group of keycodes give their keycodes back.
proof fn lemma_keycode_names_0()
    ensures
        keycode_table("a"@) == Some(0x00u16),
        keycode_table("s"@) == Some(0x01u16),
        keycode_table("d"@) == Some(0x02u16),
        keycode_table("f"@) == Some(0x03u16),
        keycode_table("h"@) == Some(0x04u16),
        keycode_table("g"@) == Some(0x05u16),
        keycode_table("z"@) == Some(0x06u16),
        keycode_table("x"@) == Some(0x07u16),
        keycode_table("c"@) == Some(0x08u16),
        keycode_table("v"@) == Some(0x09u16),
{
    lemma_key_name_chars();
}

/// The names of one group of keycodes give their keycodes back.
proof fn lemma_keycode_names_1()
    ensures
        keycode_table("b"@) == Some(0x0bu16),
        keycode_table("q"@) == Some(0x0cu16),
        keycode_table("w"@) == Some(0x0du16),
        keycode_table("e"@) == Some(0x0eu16),
        keycode_table("r"@) == Some(0x0fu16),
        keycode_table("y"@) == Some(0x10u16),
        keycode_table("t"@) == Some(0x11u16),
        keycode_table("1"@) == Some(0x12u16),
        keycode_table("2"@) == Some(0x13u16),
        keycode_table("3"@) == Some(0x14u16),
{
    lemma_key_name_chars();
}

/// The names of one group of keycodes give their keycodes back.
proof fn lemma_keycode_names_2()
    ensures
        keycode_table("4"@) == Some(0x15u16),
        keycode_table("6"@) == Some(0x16u16),
        keycode_table("5"@) == Some(0x17u16),
        keycode_table("9"@) == Some(0x19u16),
        keycode_table("7"@) == Some(0x1au16),
        keycode_table("8"@) == Some(0x1cu16),
        keycode_table("0"@) == Some(0x1du16),
        keycode_table("o"@) == Some(0x1fu16),
        keycode_table("u"@) == Some(0x20u16),
        keycode_table("i"@) == Some(0x22u16),
{
    lemma_key_name_chars();
}

/// The names of one group of keycodes give their keycodes back.
proof fn lemma_keycode_names_3()
    ensures
        keycode_table("p"@) == Some(0x23u16),
        keycode_table("l"@) == Some(0x25u16),
        keycode_table("j"@) == Some(0x26u16),
        keycode_table("k"@) == Some(0x28u16),
        keycode_table("n"@) == Some(0x2du16),
        keycode_table("m"@) == Some(0x2eu16),
        keycode_table("space"@) == Some(0x31u16),
        keycode_table("escape"@) == Some(0x35u16),
        keycode_table("f1"@) == Some(0x7au16),
        keycode_table("f2"@) == Some(0x78u16),
{
    lemma_key_name_chars();
}

/// The names of one group of keycodes give their keycodes back.
proof fn lemma_keycode_names_4()
    ensures
        keycode_table("f3"@) == Some(0x63u16),
        keycode_table("f4"@) == Some(0x76u16),
        keycode_table("f5"@) == Some(0x60u16),
        keycode_table("f6"@) == Some(0x61u16),
        keycode_table("f7"@) == Some(0x62u16),
        keycode_table("f8"@) == Some(0x64u16),
        keycode_table("f9"@) == Some(0x65u16),
        keycode_table("f10"@) == Some(0x6du16),
        keycode_table("f11"@) == Some(0x67u16),
        keycode_table("f12"@) == Some(0x6fu16),
{
    lemma_key_name_chars();
}

/// Every key the table knows is reached from its name: the name of a keycode gives that
/// keycode back (so `"c"` gives the keycode of C, and so on for every letter, digit, function
/// key, space and escape).
pub proof fn law_keycode_names_complete(code: u16)
    requires
        key_name(code).len() > 0,
    ensures
        keycode_table(key_name(code)) == Some(code),
{
    lemma_keycode_names_0();
    lemma_keycode_names_1();
    lemma_keycode_names_2();
    lemma_keycode_names_3();
    lemma_keycode_names_4();
}

proof fn lemma_keycode_table_inverse(name: Seq<char>)
    ensures
        keycode_table(name) matches Some(c) ==> name == key_name(c) || (name == "esc"@ && c == 0x35),
{
}

/// Key names are compared without regard to ASCII case: two names that differ only in the case
/// of their letters get the same keycode, and a name gets the keycode of its lowercase form.
pub proof fn law_keycode_ignores_case(a: Seq<char>, b: Seq<char>)
    requires
        is_ascii_chars(a),
        is_ascii_chars(b),
        ascii_lower(a) == ascii_lower(b),
    ensures
        keycode_table(ascii_lower(a)) == keycode_table(ascii_lower(b)),
        is_ascii_chars(ascii_lower(a)),
        keycode_table(ascii_lower(ascii_lower(a))) == keycode_table(ascii_lower(a)),
{
    crate::text::lemma_ascii_lower_idempotent(a);
}

/// Two key names get the same keycode only when they are the same name, or are `"esc"` and
/// `"escape"`, the two names of the escape key.
pub proof fn law_keycode_distinct_names(a: Seq<char>, b: Seq<char>)
    requires
        keycode_table(a) is Some,
        keycode_table(a) == keycode_table(b),
    ensures
        a == b || ((a == "esc"@ || a == "escape"@) && (b == "esc"@ || b == "escape"@)),
{
    lemma_keycode_table_inverse(a);
    lemma_keycode_table_inverse(b);
}

/// The macOS virtual keycode of a key name that is already in lower case.
pub fn keycode_for_lowercase(name: &str) -> (r: Option<u16>)
    ensures
        r == keycode_table(name@),
{
    if str_eq(name, "a") {
        Some(0x00)
    } else if str_eq(name, "s") {
        Some(0x01)
    } else if str_eq(name, "d") {
        Some(0x02)
    } else if str_eq(name, "f") {
        Some(0x03)
    } else if str_eq(name, "h") {
        Some(0x04)
    } else if str_eq(name, "g") {
        Some(0x05)
    } else if str_eq(name, "z") {
        Some(0x06)
    } else if str_eq(name, "x") {
        Some(0x07)
    } else if str_eq(name, "c") {
        Some(0x08)
    } else if str_eq(name, "v") {
        Some(0x09)
    } else if str_eq(name, "b") {
        Some(0x0b)
    } else if str_eq(name, "q") {
        Some(0x0c)
    } else if str_eq(name, "w") {
        Some(0x0d)
    } else if str_eq(name, "e") {
        Some(0x0e)
    } else if str_eq(name, "r") {
        Some(0x0f)
    } else if str_eq(name, "y") {
        Some(0x10)
    } else if str_eq(name, "t") {
        Some(0x11)
    } else if str_eq(name, "1") {
        Some(0x12)
    } else if str_eq(name, "2") {
        Some(0x13)
    } else if str_eq(name, "3") {
        Some(0x14)
    } else if str_eq(name, "4") {
        Some(0x15)
    } else if str_eq(name, "6") {
        Some(0x16)
    } else if str_eq(name, "5") {
        Some(0x17)
    } else if str_eq(name, "9") {
        Some(0x19)
    } else if str_eq(name, "7") {
        Some(0x1a)
    } else if str_eq(name, "8") {
        Some(0x1c)
    } else if str_eq(name, "0") {
        Some(0x1d)
    } else if str_eq(name, "o") {
        Some(0x1f)
    } else if str_eq(name, "u") {
        Some(0x20)
    } else if str_eq(name, "i") {
        Some(0x22)
    } else if str_eq(name, "p") {
        Some(0x23)
    } else if str_eq(name, "l") {
        Some(0x25)
    } else if str_eq(name, "j") {
        Some(0x26)
    } else if str_eq(name, "k") {
        Some(0x28)
    } else if str_eq(name, "n") {
        Some(0x2d)
    } else if str_eq(name, "m") {
        Some(0x2e)
    } else if str_eq(name, "space") {
        Some(0x31)
    } else if str_eq(name, "escape") {
        Some(0x35)
    } else if str_eq(name, "esc") {
        Some(0x35)
    } else if str_eq(name, "f1") {
        Some(0x7a)
    } else if str_eq(name, "f2") {
        Some(0x78)
    } else if str_eq(name, "f3") {
        Some(0x63)
    } else if str_eq(name, "f4") {
        Some(0x76)
    } else if str_eq(name, "f5") {
        Some(0x60)
    } else if str_eq(name, "f6") {
        Some(0x61)
    } else if str_eq(name, "f7") {
        Some(0x62)
    } else if str_eq(name, "f8") {
        Some(0x64)
    } else if str_eq(name, "f9") {
        Some(0x65)
    } else if str_eq(name, "f10") {
        Some(0x6d)
    } else if str_eq(name, "f11") {
        Some(0x67)
    } else if str_eq(name, "f12") {
        Some(0x6f)
    } else {
        None
    }
}

/// Map a human-readable key name to a macOS virtual keycode; names are compared in lower case.
pub fn keycode_for(name: &str) -> (r: Option<u16>)
    ensures
        r == keycode_table(lowercase(name@)),
        is_ascii_chars(name@) ==> r == keycode_table(ascii_lower(name@)),
{
    let lower = to_lowercase(name);
    keycode_for_lowercase(lower.as_str())
}

/// `kCGEventFlagMaskCommand`.
pub const FLAG_COMMAND: u64 = 0x10_0000;

/// `kCGEventFlagMaskShift`.
pub const FLAG_SHIFT: u64 = 0x2_0000;

/// `kCGEventFlagMaskControl`.
pub const FLAG_CONTROL: u64 = 0x4_0000;

/// `kCGEventFlagMaskAlternate`.
pub const FLAG_ALTERNATE: u64 = 0x8_0000;

/// The modifier keys a hotkey can use (command, shift, control, option); other event flags
/// (device-dependent bits, caps lock) are ignored.
pub const MODIFIER_FILTER: u64 = 0x1e_0000;

/// The event flag of a lower-case modifier name.
pub open spec fn modifier_table(name: Seq<char>) -> Option<u64> {
    if name == "cmd"@ || name == "command"@ {
        Some(FLAG_COMMAND)
    } else if name == "shift"@ {
        Some(FLAG_SHIFT)
    } else if name == "ctrl"@ || name == "control"@ {
        Some(FLAG_CONTROL)
    } else if name == "alt"@ || name == "option"@ || name == "opt"@ {
        Some(FLAG_ALTERNATE)
    } else {
        None
    }
}

/// The event flag of a modifier name that is already in lower case.
pub fn modifier_flag_lowercase(name: &str) -> (r: Option<u64>)
    ensures
        r == modifier_table(name@),
{
    if str_eq(name, "cmd") || str_eq(name, "command") {
        Some(FLAG_COMMAND)
    } else if str_eq(name, "shift") {
        Some(FLAG_SHIFT)
    } else if str_eq(name, "ctrl") || str_eq(name, "control") {
        Some(FLAG_CONTROL)
    } else if str_eq(name, "alt") || str_eq(name, "option") || str_eq(name, "opt") {
        Some(FLAG_ALTERNATE)
    } else {
        None
    }
}

/// Map modifier name to CGEventFlags bitmask; names are compared in lower case.
pub fn modifier_flag(name: &str) -> (r: Option<u64>)
    ensures
        r == modifier_table(lowercase(name@)),
        is_ascii_chars(name@) ==> r == modifier_table(ascii_lower(name@)),
{
    let lower = to_lowercase(name);
    modifier_flag_lowercase(lower.as_str())
}

/// The flag a modifier name contributes to a mask: its own, or nothing when it is unknown.
pub open spec fn modifier_bits(name: Seq<char>) -> u64 {
    match modifier_table(lowercase(name)) {
        Some(f) => f,
        None => 0,
    }
}

/// The union of the flags of the known names among `names`.
pub open spec fn modifiers_mask_spec(names: Seq<String>) -> u64
    decreases names.len(),
{
    if names.len() == 0 {
        0
    } else {
        modifiers_mask_spec(names.drop_last()) | modifier_bits(names.last()@)
    }
}

/// Whether every name is ASCII.
pub open spec fn all_ascii(names: Seq<String>) -> bool {
    forall|i: int| 0 <= i < names.len() ==> is_ascii_chars(#[trigger] names[i]@)
}

/// The mask of ASCII modifier names: each name's flag, looked up by its ASCII lowercase.
pub open spec fn ascii_modifiers_mask(names: Seq<String>) -> u64
    decreases names.len(),
{
    if names.len() == 0 {
        0
    } else {
        ascii_modifiers_mask(names.drop_last()) | match modifier_table(ascii_lower(names.last()@)) {
            Some(f) => f,
            None => 0,
        }
    }
}

/// Combine modifier names into a single bitmask; names that are not modifiers are skipped.
pub fn modifiers_mask(names: &[String]) -> (r: u64)
    ensures
        r == modifiers_mask_spec(names@),
        all_ascii(names@) ==> r == ascii_modifiers_mask(names@),
{
    let mut acc: u64 = 0;
    let mut i: usize = 0;
    while i < names.len()
        invariant
            i <= names@.len(),
            acc == modifiers_mask_spec(names@.take(i as int)),
            all_ascii(names@) ==> acc == ascii_modifiers_mask(names@.take(i as int)),
        decreases names@.len() - i,
    {
        let f = match modifier_flag(names[i].as_str()) {
            Some(f) => f,
            None => 0,
        };
        proof {
            let t = names@.take(i + 1);
            assert(t.drop_last() == names@.take(i as int));
            assert(t.last() == names@[i as int]);
        }
        acc = acc | f;
        i = i + 1;
    }
    assert(names@.take(names@.len() as int) == names@);
    acc
}

} // verus!

verus! {

/// Every mask built from modifier names uses only the four modifier flags.
pub proof fn lemma_modifiers_mask_in_filter(names: Seq<String>)
    ensures
        modifiers_mask_spec(names) & !MODIFIER_FILTER == 0,
    decreases names.len(),
{
    assert(0u64 & !0x1e_0000u64 == 0) by (bit_vector);
    if names.len() > 0 {
        lemma_modifiers_mask_in_filter(names.drop_last());
        let a = modifiers_mask_spec(names.drop_last());
        let b = modifier_bits(names.last()@);
        assert(b & !MODIFIER_FILTER == 0) by {
            assert(0x10_0000u64 & !0x1e_0000u64 == 0) by (bit_vector);
            assert(0x2_0000u64 & !0x1e_0000u64 == 0) by (bit_vector);
            assert(0x4_0000u64 & !0x1e_0000u64 == 0) by (bit_vector);
            assert(0x8_0000u64 & !0x1e_0000u64 == 0) by (bit_vector);
            assert(0u64 & !0x1e_0000u64 == 0) by (bit_vector);
        }
        assert((a | b) & !0x1e_0000u64 == 0) by (bit_vector)
            requires
                a & !0x1e_0000u64 == 0,
                b & !0x1e_0000u64 == 0,
        ;
    }
}

/// The mask of two lists of names put together is the union of their masks: the order and
/// grouping of the names does not matter.
pub proof fn lemma_modifiers_mask_concat(a: Seq<String>, b: Seq<String>)
    ensures
        modifiers_mask_spec(a + b) == modifiers_mask_spec(a) | modifiers_mask_spec(b),
    decreases b.len(),
{
    let x = modifiers_mask_spec(a);
    if b.len() == 0 {
        assert(a + b == a);
        assert(x | 0 == x) by (bit_vector);
    } else {
        lemma_modifiers_mask_concat(a, b.drop_last());
        assert((a + b).drop_last() == a + b.drop_last());
        assert((a + b).last() == b.last());
        let y = modifiers_mask_spec(b.drop_last());
        let z = modifier_bits(b.last()@);
        assert((x | y) | z == x | (y | z)) by (bit_vector);
    }
}

/// How a modifier name is shown in a hotkey description.
pub open spec fn modifier_label(name: Seq<char>) -> Seq<char> {
    if name == "cmd"@ || name == "command"@ {
        "Cmd"@
    } else if name == "shift"@ {
        "Shift"@
    } else if name == "ctrl"@ || name == "control"@ {
        "Ctrl"@
    } else if name == "alt"@ || name == "option"@ || name == "opt"@ {
        "Opt"@
    } else {
        name
    }
}

/// The labels of the modifiers, joined by `'+'`.
pub open spec fn joined_labels(names: Seq<String>) -> Seq<char>
    decreases names.len(),
{
    if names.len() == 0 {
        Seq::empty()
    } else if names.len() == 1 {
        modifier_label(names[0]@)
    } else {
        joined_labels(names.drop_last()) + seq!['+'] + modifier_label(names.last()@)
    }
}

/// The description of a hotkey: the modifier labels joined by `'+'`, then `'+'` and the key
/// in upper case.
pub open spec fn format_hotkey_spec(modifiers: Seq<String>, key: Seq<char>) -> Seq<char> {
    joined_labels(modifiers) + seq!['+'] + uppercase(key)
}

fn modifier_label_of(name: &str) -> (r: String)
    ensures
        r@ == modifier_label(name@),
{
    if str_eq(name, "cmd") || str_eq(name, "command") {
        "Cmd".to_owned()
    } else if str_eq(name, "shift") {
        "Shift".to_owned()
    } else if str_eq(name, "ctrl") || str_eq(name, "control") {
        "Ctrl".to_owned()
    } else if str_eq(name, "alt") || str_eq(name, "option") || str_eq(name, "opt") {
        "Opt".to_owned()
    } else {
        name.to_owned()
    }
}

/// The description of a hotkey whose key name is already in upper case: the modifier labels
/// joined by `'+'`, then `'+'` and the key.
pub fn describe_hotkey(modifiers: &[String], key_upper: &str) -> (r: String)
    ensures
        r@ == joined_labels(modifiers@) + seq!['+'] + key_upper@,
{
    let mut out = String::new();
    let mut i: usize = 0;
    while i < modifiers.len()
        invariant
            i <= modifiers@.len(),
            out@ == joined_labels(modifiers@.take(i as int)),
        decreases modifiers@.len() - i,
    {
        let label = modifier_label_of(modifiers[i].as_str());
        let ghost before = out@;
        if i > 0 {
            push_char(&mut out, '+');
        }
        out.append(label.as_str());
        proof {
            let t = modifiers@.take(i + 1);
            assert(t.drop_last() == modifiers@.take(i as int));
            assert(t.last() == modifiers@[i as int]);
            if i == 0 {
                assert(t[0] == modifiers@[0]);
                assert(before == Seq::<char>::empty());
                assert(out@ == modifier_label(modifiers@[0]@));
            }
        }
        i = i + 1;
    }
    assert(modifiers@.take(modifiers@.len() as int) == modifiers@);
    push_char(&mut out, '+');
    out.append(key_upper);
    out
}

/// Format a hotkey config as a human-readable string.
pub fn format_hotkey(cfg: &HotkeyConfig) -> (r: String)
    ensures
        r@ == format_hotkey_spec(cfg.modifiers@, cfg.key@),
        is_ascii_chars(cfg.key@) ==> r@ == joined_labels(cfg.modifiers@) + seq!['+'] + ascii_upper(cfg.key@),
{
    let upper = to_uppercase(cfg.key.as_str());
    describe_hotkey(cfg.modifiers.as_slice(), upper.as_str())
}

} // verus!
