//! A search coordinator that hands workers a shared flag.
use vstd::prelude::*;

verus! {

/// Runs searches whose workers poll a shared flag between candidates.
pub struct Keytool {}

impl Keytool {
    pub fn new() -> (r: Self) {
        Keytool {}
    }
}

} // verus!
