use vstd::prelude::*;
use crate::text::{chars_vec, push_char};

verus! {

/// The launchd label of the background service.
pub const SERVICE_LABEL: &'static str = "com.rippy.daemon";

/// How one character is written inside XML text.
pub open spec fn xml_char(c: char) -> Seq<char> {
    if c == '&' {
        "&amp;"@
    } else if c == '<' {
        "&lt;"@
    } else if c == '>' {
        "&gt;"@
    } else if c == '"' {
        "&quot;"@
    } else if c == '\'' {
        "&apos;"@
    } else {
        seq![c]
    }
}

/// `s` written as XML text: the five special characters as entities, the rest as they are.
pub open spec fn xml_escape_spec(s: Seq<char>) -> Seq<char>
    decreases s.len(),
{
    if s.len() == 0 {
        Seq::empty()
    } else {
        xml_escape_spec(s.drop_last()) + xml_char(s.last())
    }
}

/// `s` written as XML text.
pub fn xml_escape(s: &str) -> (r: String)
    ensures
        r@ == xml_escape_spec(s@),
{
    let cs = chars_vec(s);
    let mut r = String::new();
    let mut i: usize = 0;
    while i < cs.len()
        invariant
            i <= cs@.len(),
            cs@ == s@,
            r@ == xml_escape_spec(cs@.take(i as int)),
        decreases cs@.len() - i,
    {
        let c = cs[i];
        if c == '&' {
            r.append("&amp;");
        } else if c == '<' {
            r.append("&lt;");
        } else if c == '>' {
            r.append("&gt;");
        } else if c == '"' {
            r.append("&quot;");
        } else if c == '\'' {
            r.append("&apos;");
        } else {
            push_char(&mut r, c);
        }
        proof {
            let t = cs@.take(i + 1);
            assert(t.drop_last() == cs@.take(i as int));
            assert(t.last() == c);
        }
        i = i + 1;
    }
    assert(cs@.take(cs@.len() as int) == cs@);
    r
}

/// The launchd property list that runs `bin daemon --foreground` at login and keeps it alive.
pub open spec fn launch_agent_spec(bin: Seq<char>) -> Seq<char> {
    "<?xml version=\"1.0\" encoding=\"UTF-8\"?>\n<!DOCTYPE plist PUBLIC \"-//Apple//DTD PLIST 1.0//EN\" \"http://www.apple.com/DTDs/PropertyList-1.0.dtd\">\n<plist version=\"1.0\">\n<dict>\n    <key>Label</key>\n    <string>com.rippy.daemon</string>\n    <key>ProgramArguments</key>\n    <array>\n        <string>"@
        + xml_escape_spec(bin)
        + "</string>\n        <string>daemon</string>\n        <string>--foreground</string>\n    </array>\n    <key>RunAtLoad</key>\n    <true/>\n    <key>KeepAlive</key>\n    <true/>\n</dict>\n</plist>\n"@
}

/// The launchd property list of the background service for the program at `bin`.
pub fn launch_agent_plist(bin: &str) -> (r: String)
    ensures
        r@ == launch_agent_spec(bin@),
{
    let mut r = "<?xml version=\"1.0\" encoding=\"UTF-8\"?>\n<!DOCTYPE plist PUBLIC \"-//Apple//DTD PLIST 1.0//EN\" \"http://www.apple.com/DTDs/PropertyList-1.0.dtd\">\n<plist version=\"1.0\">\n<dict>\n    <key>Label</key>\n    <string>com.rippy.daemon</string>\n    <key>ProgramArguments</key>\n    <array>\n        <string>".to_owned();
    let escaped = xml_escape(bin);
    r.append(escaped.as_str());
    r.append(
        "</string>\n        <string>daemon</string>\n        <string>--foreground</string>\n    </array>\n    <key>RunAtLoad</key>\n    <true/>\n    <key>KeepAlive</key>\n    <true/>\n</dict>\n</plist>\n",
    );
    r
}

/// Whether `t` occurs in `s`.
pub open spec fn occurs_in(t: Seq<char>, s: Seq<char>) -> bool {
    exists|i: int| 0 <= i && i + t.len() <= s.len() && #[trigger] s.subrange(i, i + t.len()) == t
}

/// The property list's dictionary binds its keys: it starts with `Label`, bound to the
/// service's label; `ProgramArguments` is bound to the program (written as XML text) followed
/// by `daemon --foreground`; `RunAtLoad` and `KeepAlive` are bound to true.
pub proof fn law_launch_agent_keys(bin: Seq<char>)
    ensures
        occurs_in(
            "<dict>\n    <key>Label</key>\n    <string>"@ + SERVICE_LABEL@ + "</string>"@,
            launch_agent_spec(bin),
        ),
        occurs_in(
            "<key>ProgramArguments</key>\n    <array>\n        <string>"@ + xml_escape_spec(bin)
                + "</string>\n        <string>daemon</string>\n        <string>--foreground</string>\n    </array>"@,
            launch_agent_spec(bin),
        ),
        occurs_in("<key>RunAtLoad</key>\n    <true/>"@, launch_agent_spec(bin)),
        occurs_in("<key>KeepAlive</key>\n    <true/>"@, launch_agent_spec(bin)),
{
    reveal_strlit("<?xml version=\"1.0\" encoding=\"UTF-8\"?>\n<!DOCTYPE plist PUBLIC \"-//Apple//DTD PLIST 1.0//EN\" \"http://www.apple.com/DTDs/PropertyList-1.0.dtd\">\n<plist version=\"1.0\">\n<dict>\n    <key>Label</key>\n    <string>com.rippy.daemon</string>\n    <key>ProgramArguments</key>\n    <array>\n        <string>");
    reveal_strlit("</string>\n        <string>daemon</string>\n        <string>--foreground</string>\n    </array>\n    <key>RunAtLoad</key>\n    <true/>\n    <key>KeepAlive</key>\n    <true/>\n</dict>\n</plist>\n");
    reveal_strlit("<dict>\n    <key>Label</key>\n    <string>");
    reveal_strlit("com.rippy.daemon");
    reveal_strlit("</string>");
    reveal_strlit("<key>ProgramArguments</key>\n    <array>\n        <string>");
    reveal_strlit("</string>\n        <string>daemon</string>\n        <string>--foreground</string>\n    </array>");
    reveal_strlit("<key>RunAtLoad</key>\n    <true/>");
    reveal_strlit("<key>KeepAlive</key>\n    <true/>");
    let l1 = "<?xml version=\"1.0\" encoding=\"UTF-8\"?>\n<!DOCTYPE plist PUBLIC \"-//Apple//DTD PLIST 1.0//EN\" \"http://www.apple.com/DTDs/PropertyList-1.0.dtd\">\n<plist version=\"1.0\">\n<dict>\n    <key>Label</key>\n    <string>com.rippy.daemon</string>\n    <key>ProgramArguments</key>\n    <array>\n        <string>"@;
    let l2 = "</string>\n        <string>daemon</string>\n        <string>--foreground</string>\n    </array>\n    <key>RunAtLoad</key>\n    <true/>\n    <key>KeepAlive</key>\n    <true/>\n</dict>\n</plist>\n"@;
    let e = xml_escape_spec(bin);
    let s = launch_agent_spec(bin);
    assert(s == l1 + e + l2);
    let label = "<dict>\n    <key>Label</key>\n    <string>"@ + SERVICE_LABEL@ + "</string>"@;
    assert(s.subrange(164, 164 + label.len() as int) =~= label);
    let a = "<key>ProgramArguments</key>\n    <array>\n        <string>"@;
    let z = "</string>\n        <string>daemon</string>\n        <string>--foreground</string>\n    </array>"@;
    let args = a + e + z;
    assert(l1.subrange(234, 290) =~= a);
    assert(l2.subrange(0, 92) =~= z);
    assert(s.subrange(234, 234 + args.len() as int) =~= args);
    let run = "<key>RunAtLoad</key>\n    <true/>"@;
    let keep = "<key>KeepAlive</key>\n    <true/>"@;
    let base: int = 290 + e.len() as int;
    assert(s.subrange(base + 97, base + 97 + run.len() as int) =~= run);
    assert(s.subrange(base + 134, base + 134 + keep.len() as int) =~= keep);
}

} // verus!
