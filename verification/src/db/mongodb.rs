//! Failures on the way to a MongoDB client.

use vstd::prelude::*;

verus! {

/// Why no client could be had.
#[derive(Debug, Clone, PartialEq, Eq)]
pub enum MongoError {
    /// The connection string could not be parsed.
    ConnectionStringError(String),
    /// The client could not be created.
    ClientCreationError(String),
}

impl MongoError {
    /// The failure written out in words.
    pub open spec fn text(self) -> Seq<char> {
        match self {
            MongoError::ConnectionStringError(detail) => "Failed to parse connection string: "@
                + detail@,
            MongoError::ClientCreationError(detail) => "Failed to create client: "@ + detail@,
        }
    }

    /// The failure written out in words: the stage that failed, then the detail.
    pub fn to_text(&self) -> (r: String)
        ensures
            r@ == self.text(),
    {
        match self {
            MongoError::ConnectionStringError(detail) => {
                "Failed to parse connection string: ".to_owned().concat(detail.as_str())
            },
            MongoError::ClientCreationError(detail) => {
                "Failed to create client: ".to_owned().concat(detail.as_str())
            },
        }
    }
}

} // verus!
