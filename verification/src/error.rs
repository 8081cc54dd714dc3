//! Parse failures, carrying the offending input verbatim.

use vstd::prelude::*;
use vstd::string::StringExecFns;

verus! {

/// A parse failure. Each variant names the alphabet that was being parsed
/// and carries the original unparsed text for diagnostics.
#[derive(Clone, Debug, PartialEq)]
pub enum Error {
    /// The text could not be read as a suit.
    ParseSuit(String),
    /// The text could not be read as a rank.
    ParseRank(String),
}

impl Error {
    /// The diagnostic message: it names the alphabet that failed and quotes
    /// the offending text.
    pub fn message(&self) -> (r: String)
        ensures
            self matches Error::ParseSuit(t) ==> r@ == "cannot parse \""@ + t@ + "\" into Suit"@,
            self matches Error::ParseRank(t) ==> r@ == "cannot parse \""@ + t@ + "\" into Rank"@,
    {
        match self {
            Error::ParseSuit(t) => {
                let m = String::from_str("cannot parse \"");
                let m = m.concat(t.as_str());
                m.concat("\" into Suit")
            },
            Error::ParseRank(t) => {
                let m = String::from_str("cannot parse \"");
                let m = m.concat(t.as_str());
                m.concat("\" into Rank")
            },
        }
    }
}

} // verus!
