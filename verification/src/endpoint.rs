//! Where a link is opened: a serial port and its speed.

use vstd::prelude::*;
use vstd::string::*;
use crate::text::{decimal, decimal_text};

verus! {

/// How to open a new link. Supplied afresh with every connect.
#[derive(Clone, Debug, PartialEq, Eq)]
pub struct Endpoint {
    pub path: String,
    pub baud: u32,
}

/// The address of a serial link: the word `serial`, the port and the speed
/// in decimal notation, separated by colons.
pub open spec fn address_text(path: Seq<char>, baud: nat) -> Seq<char> {
    "serial:"@ + path + ":"@ + decimal(baud)
}

/// What a successful connect reports: the port it connected to.
pub open spec fn connected_text(path: Seq<char>) -> Seq<char> {
    "Connected to "@ + path
}

impl Endpoint {
    /// An endpoint for the given port and speed.
    pub fn new(path: String, baud: u32) -> (endpoint: Endpoint)
        ensures
            endpoint.path@ == path@,
            endpoint.baud == baud,
    {
        Endpoint { path, baud }
    }

    /// The address that the transport is opened with.
    pub fn address(&self) -> (text: String)
        ensures
            text@ == address_text(self.path@, self.baud as nat),
    {
        let mut text = String::from_str("serial:");
        text.append(self.path.as_str());
        text.append(":");
        let digits = decimal_text(self.baud);
        text.append(digits.as_str());
        text
    }

    /// The sentence that reports a successful connect to this endpoint.
    pub fn connected_message(&self) -> (text: String)
        ensures
            text@ == connected_text(self.path@),
    {
        let mut text = String::from_str("Connected to ");
        text.append(self.path.as_str());
        text
    }
}

} // verus!
