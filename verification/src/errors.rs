//! The failures that a search can run into.

use vstd::prelude::*;

verus! {

/// Why a search failed. Adapters hand these to their caller unchanged; the
/// command-line layer is the single place that turns one into output.
#[derive(Clone, Debug, PartialEq)]
pub enum SearchError {
    /// The network call itself failed.
    Transport(String),
    /// The response body was not valid JSON.
    Decode(String),
    /// A non-success HTTP status; carries the response body text.
    HttpStatus(String),
    /// Writing the output file failed.
    Io(String),
    /// Turning a value into JSON text failed.
    Serialize(String),
}

impl SearchError {
    /// The message that the error carries.
    pub open spec fn message_view(&self) -> Seq<char> {
        match self {
            SearchError::Transport(m) => m@,
            SearchError::Decode(m) => m@,
            SearchError::HttpStatus(m) => m@,
            SearchError::Io(m) => m@,
            SearchError::Serialize(m) => m@,
        }
    }

    /// The message that the error carries.
    pub fn message(&self) -> (r: &String)
        ensures
            r@ == self.message_view(),
    {
        match self {
            SearchError::Transport(m) => m,
            SearchError::Decode(m) => m,
            SearchError::HttpStatus(m) => m,
            SearchError::Io(m) => m,
            SearchError::Serialize(m) => m,
        }
    }
}

} // verus!
