use vstd::prelude::*;
use vstd::string::{StringExecFns, StrSliceExecFns};

verus! {

/// What the signing-and-notification collaborator reported.
pub enum Notice {
    /// The certificate was signed and delivered.
    Sent,
    /// The collaborator ran and reported failure, with its diagnostics.
    Failed(String),
    /// The collaborator could not be run at all.
    Error(String),
}

impl Notice {
    pub open spec fn spec_text(&self) -> Seq<char> {
        match self {
            Notice::Sent => "sent"@,
            Notice::Failed(reason) => "failed: "@ + reason@,
            Notice::Error(reason) => "error: "@ + reason@,
        }
    }

    /// The notification result as recorded on a finished job.
    pub fn text(&self) -> (r: String)
        ensures
            r@ == self.spec_text(),
    {
        match self {
            Notice::Sent => String::from_str("sent"),
            Notice::Failed(reason) => {
                let mut s = String::from_str("failed: ");
                s.append(reason.as_str());
                s
            },
            Notice::Error(reason) => {
                let mut s = String::from_str("error: ");
                s.append(reason.as_str());
                s
            },
        }
    }
}

} // verus!
