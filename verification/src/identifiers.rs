//! The trader identity carried in every formatted line.

use vstd::prelude::*;

verus! {

/// Opaque identity string of the trader; treated as immutable for the
/// logger's lifetime.
#[derive(Clone, PartialEq, Eq, Debug)]
pub struct TraderId {
    pub value: String,
}

impl TraderId {
    /// Stores the given identity string.
    pub fn new(s: &str) -> (r: TraderId)
        ensures
            r.value@ == s@,
    {
        TraderId { value: String::from_str(s) }
    }
}

} // verus!
