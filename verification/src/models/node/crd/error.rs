//! What can be wrong with a `BottlerocketShadow`.

use vstd::prelude::*;
use vstd::string::*;

use crate::text::concat3;

verus! {

/// An error in a `BottlerocketShadow`.
#[derive(Debug)]
pub enum Error {
    /// The object is missing a reference to the owning node.
    MissingOwnerReference { name: String },
    /// A timestamp of the object is not in RFC 3339 form.
    TimestampFormat { source: String },
    /// The apiserver could not be reached.
    IOError { source: String },
}

impl Error {
    /// The error in words.
    pub open spec fn message(self) -> Seq<char> {
        match self {
            Error::MissingOwnerReference { name } => "BottlerocketShadow object ('"@
                + name@ + "') is missing a reference to the owning Node."@,
            Error::TimestampFormat { source } =>
            "BottlerocketShadow object must have valid rfc3339 timestamp: '"@
                + source@ + "'"@,
            Error::IOError { source } =>
            "IO error occurred while attempting to use APIServerClient: '"@
                + source@ + "'"@,
        }
    }

    /// The error in words.
    pub fn to_text(&self) -> (r: String)
        ensures
            r@ == self.message(),
    {
        match self {
            Error::MissingOwnerReference { name } => concat3(
                "BottlerocketShadow object ('",
                name.as_str(),
                "') is missing a reference to the owning Node.",
            ),
            Error::TimestampFormat { source } => concat3(
                "BottlerocketShadow object must have valid rfc3339 timestamp: '",
                source.as_str(),
                "'",
            ),
            Error::IOError { source } => concat3(
                "IO error occurred while attempting to use APIServerClient: '",
                source.as_str(),
                "'",
            ),
        }
    }
}

} // verus!
