use pomobar::launch_agent::generate_plist;

#[test]
fn test_plist_generation() {
    let plist = generate_plist("/usr/local/bin/pomobar");

    assert!(plist.contains("com.pomobar"));
    assert!(plist.contains("/usr/local/bin/pomobar"));
    assert!(plist.contains("<key>RunAtLoad</key>"));
    assert!(plist.contains("<true/>"));
}

#[test]
fn test_plist_shape() {
    let plist = generate_plist("/opt/bin/p");
    assert!(plist.starts_with("<?xml version=\"1.0\" encoding=\"UTF-8\"?>\n"));
    assert!(plist.ends_with("</plist>\n"));
    assert!(plist.contains("<string>/opt/bin/p</string>"));
    assert!(plist.contains("<key>KeepAlive</key>\n    <false/>"));
}
