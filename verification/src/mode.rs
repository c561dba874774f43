//! The kind of transport that a test runs over.

use vstd::prelude::*;
use vstd::string::StringExecFns;

verus! {

/// The kind of transport.
#[derive(Debug, Clone, Copy, PartialEq, Eq, Structural)]
pub enum TestMode {
    /// A TCP connection.
    Tcp,
    /// A connection over a local domain socket.
    Unix,
}

/// The mode that `name` names, if it names one: `tcp` and `unix`, each in
/// small or in capital letters.
pub open spec fn mode_named(name: Seq<char>) -> Option<TestMode> {
    if name == "tcp"@ || name == "TCP"@ {
        Some(TestMode::Tcp)
    } else if name == "unix"@ || name == "UNIX"@ {
        Some(TestMode::Unix)
    } else {
        None
    }
}

/// The complaint about a name that names no mode.
pub open spec fn unknown_mode(name: Seq<char>) -> Seq<char> {
    "Unkown Test Mode: "@ + name
}

impl TestMode {
    /// Reads a mode from its name. A name that names none is handed back
    /// inside a complaint.
    pub fn parse(s: &str) -> (r: Result<TestMode, String>)
        ensures
            match mode_named(s@) {
                Some(mode) => r == Ok::<TestMode, String>(mode),
                None => r matches Err(complaint) && complaint@ == unknown_mode(s@),
            },
    {
        let name: String = String::from_str(s);
        if name == String::from_str("tcp") || name == String::from_str("TCP") {
            Ok(TestMode::Tcp)
        } else if name == String::from_str("unix") || name == String::from_str("UNIX") {
            Ok(TestMode::Unix)
        } else {
            let mut complaint: String = String::from_str("Unkown Test Mode: ");
            complaint.append(s);
            Err(complaint)
        }
    }
}

impl core::str::FromStr for TestMode {
    type Err = String;

    fn from_str(s: &str) -> (r: Result<Self, Self::Err>)
        ensures
            match mode_named(s@) {
                Some(mode) => r == Ok::<TestMode, String>(mode),
                None => r matches Err(complaint) && complaint@ == unknown_mode(s@),
            },
    {
        TestMode::parse(s)
    }
}

} // verus!
