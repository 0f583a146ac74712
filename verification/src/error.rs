//! The errors the library reports.
use vstd::prelude::*;

verus! {

/// The broad class of an [`Error`], named after the `std::io::ErrorKind` it corresponds to.
#[derive(Clone, Copy, Debug, PartialEq, Eq, Structural)]
pub enum ErrorKind {
    /// Data that was read is malformed.
    InvalidData,
    /// A caller-supplied argument is malformed.
    InvalidInput,
    /// Something that was looked for is not there.
    NotFound,
    /// The device refused the request.
    Other,
}

/// An error: its class and the text shown to the user.
#[derive(Debug)]
pub struct Error {
    pub kind: ErrorKind,
    pub message: String,
}

impl Error {
    /// Whether this is the error of class `kind` with exactly the text `message`.
    pub open spec fn says(self, kind: ErrorKind, message: Seq<char>) -> bool {
        &&& self.kind == kind
        &&& self.message@ == message
    }

    /// The error of class `kind` with the text `message`.
    pub fn new(kind: ErrorKind, message: &str) -> (e: Error)
        ensures
            e.says(kind, message@),
    {
        Error { kind, message: message.to_owned() }
    }
}

/// An error that says something is of that class and holds that text and no other.
pub proof fn law_says(e: Error, kind: ErrorKind, message: Seq<char>)
    ensures
        e.says(kind, message) <==> e.kind == kind && e.message@ == message,
{
}

} // verus!
