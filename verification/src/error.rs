//! The error surfaced to the operator: one unrecovered condition at a time.

use vstd::prelude::*;
use vstd::string::StringExecFns;

verus! {

/// An unrecovered error, kept in shared state until dismissed.
#[derive(Debug)]
pub enum Error {
    /// A client-side condition, described in words.
    Client(String),
    /// A condition the discovery/connection capability reported.
    Ble(String),
}

impl Error {
    /// The words shown to the operator.
    pub open spec fn spec_message(&self) -> Seq<char> {
        match self {
            Error::Client(s) => s@,
            Error::Ble(s) => "Bluetooth platform error: "@ + s@,
        }
    }

    /// Builds a client-side error from its description.
    pub fn client(msg: &str) -> (r: Self)
        ensures
            r matches Error::Client(s) && s@ == msg@,
    {
        Error::Client(msg.to_owned())
    }

    /// Renders the error for display.
    pub fn message(&self) -> (r: String)
        ensures
            r@ == self.spec_message(),
    {
        match self {
            Error::Client(s) => s.clone(),
            Error::Ble(s) => {
                let mut out = String::new();
                out.append("Bluetooth platform error: ");
                out.append(s.as_str());
                proof {
                    assert(out@ =~= "Bluetooth platform error: "@ + s@);
                }
                out
            },
        }
    }
}

} // verus!
