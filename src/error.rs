//! The ways resolving or placing a card can fail.
use vstd::prelude::*;

use crate::text::{decimal_of, decimal_string};

verus! {

/// Why a card could not be built.
#[derive(Debug, Clone, PartialEq, Eq)]
pub enum CardError {
    /// The raw index is not a valid catalog index (it is 0).
    InvalidIndex(usize),
    /// The per-item service has no record for the key it was asked for.
    RemoteLookup,
    /// No path connected the name to a species of the name dataset.
    NameReconciliation,
    /// The species is known but the dataset has no row in the wanted language.
    LocalizationMissing,
    /// A reply could not be read (bad JSON, a bad dataset row, a bad id).
    MalformedResponse,
}

/// The text of the error raised for the raw index `index`.
pub open spec fn invalid_index_message(index: nat) -> Seq<char> {
    "Provided Card ID: "@ + decimal_of(index) + " can't be lower than 1"@
}

impl CardError {
    /// A human-readable description of the error.
    pub fn to_string(&self) -> (r: String)
        ensures
            self matches CardError::InvalidIndex(i) ==> r@ == invalid_index_message(i as nat),
    {
        match self {
            CardError::InvalidIndex(i) => {
                let mut s = String::from_str("Provided Card ID: ");
                let digits = decimal_string(*i);
                s.append(digits.as_str());
                s.append(" can't be lower than 1");
                s
            },
            CardError::RemoteLookup => String::from_str("the item service has no record for this key"),
            CardError::NameReconciliation => String::from_str("no species of the name dataset matches the name"),
            CardError::LocalizationMissing => String::from_str("the name dataset has no row in the wanted language"),
            CardError::MalformedResponse => String::from_str("a reply could not be read"),
        }
    }
}

} // verus!
