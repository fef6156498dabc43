//! What can go wrong with the metrics.

use vstd::prelude::*;
use vstd::string::*;

use crate::text::concat3;

verus! {

/// An error in the metrics.
#[derive(Debug)]
pub enum MetricsError {
    /// The state of a node has no name.
    SerializeState { source: String },
}

impl MetricsError {
    /// The error in words.
    pub open spec fn message(self) -> Seq<char> {
        match self {
            MetricsError::SerializeState { source } => "Failed to serialize Shadow state: '"@
                + source@ + "'"@,
        }
    }

    /// The error in words.
    pub fn to_text(&self) -> (r: String)
        ensures
            r@ == self.message(),
    {
        match self {
            MetricsError::SerializeState { source } => concat3(
                "Failed to serialize Shadow state: '",
                source.as_str(),
                "'",
            ),
        }
    }
}

} // verus!
