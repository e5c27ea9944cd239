//! The uniform error contract of the client: every remote failure is
//! reported as the operation that failed together with the transport's
//! human-readable detail string.

use vstd::prelude::*;
use vstd::string::StringExecFns;

verus! {

/// Which of the four client operations failed.
#[derive(Clone, Copy, PartialEq, Eq, Structural, Debug)]
pub enum ErrorKind {
    Connection,
    Save,
    Get,
    Delete,
}

/// A failed remote operation: which operation it was, and the detail
/// string that the transport reported.
#[derive(Debug)]
pub struct StoreError {
    pub kind: ErrorKind,
    pub detail: String,
}

/// The fixed label under which each operation's failure is reported.
pub open spec fn kind_label(kind: ErrorKind) -> Seq<char> {
    match kind {
        ErrorKind::Connection => "failed to connect to the state store"@,
        ErrorKind::Save => "failed to save state"@,
        ErrorKind::Get => "failed to retrieve state"@,
        ErrorKind::Delete => "failed to delete state"@,
    }
}

impl StoreError {
    /// The operation's fixed label, followed by the transport detail.
    pub fn message(&self) -> (r: String)
        ensures
            r@ == kind_label(self.kind) + ": "@ + self.detail@,
    {
        let label: &str = match self.kind {
            ErrorKind::Connection => "failed to connect to the state store",
            ErrorKind::Save => "failed to save state",
            ErrorKind::Get => "failed to retrieve state",
            ErrorKind::Delete => "failed to delete state",
        };
        let mut m = String::from_str(label);
        m.append(": ");
        m.append(self.detail.as_str());
        m
    }
}

} // verus!
