//! What can go wrong in a music widget.

use vstd::prelude::*;

verus! {

/// The failures that a music widget knows.
///
/// Only `ConnectionFailed`, `CommandFailed` and `UnknownButtonIdentifier`
/// ever reach the widget's user; a failed query and a reply that cannot be
/// decoded both end as "no player", with nothing shown.
#[derive(Debug, Clone)]
pub enum Error {
    /// No connection to the bus could be made.
    ConnectionFailed,
    /// The player did not answer a request for one of its properties.
    QueryFailed,
    /// The player's metadata does not have the expected shape.
    MalformedMetadata,
    /// A command for the player could not be sent.
    CommandFailed,
    /// The configuration names a button that does not exist.
    UnknownButtonIdentifier(String),
}

impl Error {
    /// The text that describes this failure.
    pub open spec fn text(self) -> Seq<char> {
        match self {
            Error::ConnectionFailed => "failed to establish D-Bus connection"@,
            Error::QueryFailed => "failed to query the player"@,
            Error::MalformedMetadata => "failed to extract metadata"@,
            Error::CommandFailed => "failed to call method via D-Bus"@,
            Error::UnknownButtonIdentifier(name) => "unknown music button identifier: '"@ + name@
                + "'"@,
        }
    }

    /// Describes this failure in words.
    pub fn message(&self) -> (out: String)
        ensures
            out@ == self.text(),
    {
        match self {
            Error::ConnectionFailed => String::from_str("failed to establish D-Bus connection"),
            Error::QueryFailed => String::from_str("failed to query the player"),
            Error::MalformedMetadata => String::from_str("failed to extract metadata"),
            Error::CommandFailed => String::from_str("failed to call method via D-Bus"),
            Error::UnknownButtonIdentifier(name) => String::from_str(
                "unknown music button identifier: '",
            ).concat(name.as_str()).concat("'"),
        }
    }
}

} // verus!
