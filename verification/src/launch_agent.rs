//! The login-agent property list: a fixed document around the executable
//! path. Writing it to the agents directory is file I/O and lives outside
//! the library.

use vstd::prelude::*;
use vstd::string::StringExecFns;

verus! {

/// The document before the executable path.
pub open spec fn spec_plist_head() -> Seq<char> {
    "<?xml version=\"1.0\" encoding=\"UTF-8\"?>\n<!DOCTYPE plist PUBLIC \"-//Apple//DTD PLIST 1.0//EN\" \"http://www.apple.com/DTDs/PropertyList-1.0.dtd\">\n<plist version=\"1.0\">\n<dict>\n    <key>Label</key>\n    <string>com.pomobar</string>\n    <key>ProgramArguments</key>\n    <array>\n        <string>"@
}

/// The document after the executable path.
pub open spec fn spec_plist_tail() -> Seq<char> {
    "</string>\n    </array>\n    <key>RunAtLoad</key>\n    <true/>\n    <key>KeepAlive</key>\n    <false/>\n</dict>\n</plist>\n"@
}

/// The whole agent document for the executable at `exe`.
pub open spec fn spec_plist(exe: Seq<char>) -> Seq<char> {
    spec_plist_head() + exe + spec_plist_tail()
}

/// Generates the login-agent property list running the executable at
/// `exe`: the fixed label, the one program argument, run at load, not kept
/// alive.
pub fn generate_plist(exe: &str) -> (r: String)
    ensures
        r@ == spec_plist(exe@),
{
    let mut s = String::from_str(
        "<?xml version=\"1.0\" encoding=\"UTF-8\"?>\n<!DOCTYPE plist PUBLIC \"-//Apple//DTD PLIST 1.0//EN\" \"http://www.apple.com/DTDs/PropertyList-1.0.dtd\">\n<plist version=\"1.0\">\n<dict>\n    <key>Label</key>\n    <string>com.pomobar</string>\n    <key>ProgramArguments</key>\n    <array>\n        <string>",
    );
    s.append(exe);
    s.append(
        "</string>\n    </array>\n    <key>RunAtLoad</key>\n    <true/>\n    <key>KeepAlive</key>\n    <false/>\n</dict>\n</plist>\n",
    );
    s
}

} // verus!
