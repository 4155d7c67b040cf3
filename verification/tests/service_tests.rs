use rippy::service::{launch_agent_plist, xml_escape, SERVICE_LABEL};

#[test]
fn xml_escape_replaces_special_characters() {
    assert_eq!(xml_escape("plain/path"), "plain/path");
    assert_eq!(xml_escape("a&b<c>d\"e'f"), "a&amp;b&lt;c&gt;d&quot;e&apos;f");
    assert_eq!(xml_escape(""), "");
}

#[test]
fn launch_agent_runs_the_daemon_in_the_foreground() {
    let plist = launch_agent_plist("/Applications/R&D/rippy");
    assert!(plist.starts_with("<?xml version=\"1.0\" encoding=\"UTF-8\"?>\n"));
    assert!(plist.contains(&format!("<string>{SERVICE_LABEL}</string>")));
    assert!(plist.contains("<string>/Applications/R&amp;D/rippy</string>\n        <string>daemon</string>\n        <string>--foreground</string>"));
    assert!(plist.contains("<key>RunAtLoad</key>\n    <true/>"));
    assert!(plist.ends_with("</plist>\n"));
}
