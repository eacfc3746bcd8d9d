//! What can go wrong with the connection, as the caller is told.

use vstd::prelude::*;
use vstd::string::*;

verus! {

/// A failure of a connection operation.
#[derive(Clone, Debug, PartialEq, Eq)]
pub enum ConnectionError {
    /// The transport could not be opened; the detail says why.
    TransportOpenFailed(String),
    /// There was nothing to disconnect.
    NoActiveConnection,
}

/// A failure, with its detail as a sequence of characters.
pub enum ErrorModel {
    TransportOpenFailed(Seq<char>),
    NoActiveConnection,
}

impl ErrorModel {
    /// The sentence that tells the caller of the failure.
    pub open spec fn message(self) -> Seq<char> {
        match self {
            ErrorModel::TransportOpenFailed(detail) => "Mavlink Connect Error: "@ + detail,
            ErrorModel::NoActiveConnection => "No connection is active to disconnect."@,
        }
    }
}

impl View for ConnectionError {
    type V = ErrorModel;

    open spec fn view(&self) -> ErrorModel {
        match self {
            ConnectionError::TransportOpenFailed(detail) => ErrorModel::TransportOpenFailed(
                detail@,
            ),
            ConnectionError::NoActiveConnection => ErrorModel::NoActiveConnection,
        }
    }
}

impl ConnectionError {
    /// The sentence that tells the caller of the failure.
    pub fn message(&self) -> (text: String)
        ensures
            text@ == self@.message(),
    {
        match self {
            ConnectionError::TransportOpenFailed(detail) => {
                let mut text = String::from_str("Mavlink Connect Error: ");
                text.append(detail.as_str());
                text
            },
            ConnectionError::NoActiveConnection => String::from_str(
                "No connection is active to disconnect.",
            ),
        }
    }
}

} // verus!
