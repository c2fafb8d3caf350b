//! The outcome of an availability check.

use vstd::prelude::*;

verus! {

/// Current status of a target.
#[derive(Clone, Copy, Debug, PartialEq, Eq, Structural)]
pub enum Status {
    /// Nothing is known about the target: it was never checked, or the last
    /// check ended in an error.
    Unknown,
    /// The target is available.
    Available,
    /// The target is not available.
    NotAvailable,
}

/// A `Status` in the role of the status that a check replaced.
pub type OldStatus = Status;

impl Status {
    /// The words by which a status is shown to a reader.
    pub open spec fn text(self) -> Seq<char> {
        match self {
            Status::Unknown => "unknown"@,
            Status::Available => "available"@,
            Status::NotAvailable => "not available"@,
        }
    }

    /// The status as a static string.
    pub fn as_str(&self) -> (r: &'static str)
        ensures
            r@ == self.text(),
    {
        match self {
            Status::Unknown => "unknown",
            Status::Available => "available",
            Status::NotAvailable => "not available",
        }
    }

    /// The status as an owned string.
    pub fn to_string(&self) -> (r: String)
        ensures
            r@ == self.text(),
    {
        String::from_str(self.as_str())
    }
}

} // verus!
