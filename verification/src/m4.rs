//! Module for the usage of the m4 general-purpose macro processor.
use crate::util::str_eq;

use vstd::prelude::*;

verus! {

/// Default name of the m4 executable. Used when no other name is handed over
/// from the `M4_CMD` environment variable.
pub const M4_CMD: &'static str = "m4";

/// Name of the environment variable which determines the name of the m4
/// executable.
pub const M4_ENV: &'static str = "M4_CMD";

/// Handles the errors in correspondence with the m4 command.
#[derive(Debug)]
pub enum M4Error {
    /// The m4 executable wasn't found on the system. Contains the name used
    /// for the m4 executable.
    NotFound(String),
    /// The execution of m4 failed. Contains the stderr output.
    ExecutionFailed(String),
    /// Calling of m4 failed. Holds the text of the underlying OS error.
    CallingFailed(String),
}

impl M4Error {
    /// The text that `message` returns.
    pub open spec fn spec_message(&self) -> Seq<char> {
        match self {
            M4Error::NotFound(executable) => if executable@ == M4_CMD@ {
                "couldn't find \"m4\" on your system, use the env \"M4_CMD\" to use an non default executable name"@
            } else {
                "couldn't find m4 with the executable name \""@ + executable@
                    + "\" use env \"M4_CMD\" to specify otherwise"@
            },
            M4Error::ExecutionFailed(err) => "m4 failed with "@ + err@,
            M4Error::CallingFailed(err) => "couldn't call m4 "@ + err@,
        }
    }

    /// Renders the error as a single human-readable line.
    pub fn message(&self) -> (r: String)
        ensures
            r@ == self.spec_message(),
    {
        match self {
            M4Error::NotFound(executable) => {
                if str_eq(executable.as_str(), M4_CMD) {
                    String::from_str(
                        "couldn't find \"m4\" on your system, use the env \"M4_CMD\" to use an non default executable name",
                    )
                } else {
                    let mut r = String::from_str("couldn't find m4 with the executable name \"");
                    r.append(executable.as_str());
                    r.append("\" use env \"M4_CMD\" to specify otherwise");
                    proof {
                        assert(r@ =~= self.spec_message());
                    }
                    r
                }
            },
            M4Error::ExecutionFailed(err) => {
                let mut r = String::from_str("m4 failed with ");
                r.append(err.as_str());
                proof {
                    assert(r@ =~= self.spec_message());
                }
                r
            },
            M4Error::CallingFailed(err) => {
                let mut r = String::from_str("couldn't call m4 ");
                r.append(err.as_str());
                proof {
                    assert(r@ =~= self.spec_message());
                }
                r
            },
        }
    }
}

} // verus!
