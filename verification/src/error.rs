//! The one error kind a conversion can report.

use vstd::prelude::*;

verus! {

/// A conversion fails only when the driving value's own serialization logic
/// reports a failure; its free-text message is kept here. The bridge itself
/// never originates a data-validation error.
pub enum Error {
    Syntax(String),
}

impl Error {
    /// The message carried by the error.
    pub open spec fn spec_message(&self) -> Seq<char> {
        match *self {
            Error::Syntax(ref msg) => msg@,
        }
    }

    /// Wraps a failure message reported by the driving serialization logic.
    pub fn syntax(msg: String) -> (r: Error)
        ensures
            r.spec_message() == msg@,
    {
        Error::Syntax(msg)
    }

    /// Reads the message back.
    pub fn message(&self) -> (r: &str)
        ensures
            r@ == self.spec_message(),
    {
        match *self {
            Error::Syntax(ref msg) => msg.as_str(),
        }
    }
}

} // verus!
