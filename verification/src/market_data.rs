//! Market-data service.
//!
//! A placeholder: the asynchronous price lookup is I/O and lives with the
//! callers; the service itself holds no state yet.

use vstd::prelude::*;

verus! {

pub struct MarketDataService {}

impl MarketDataService {
    pub fn new() -> (s: MarketDataService) {
        MarketDataService {}
    }
}

} // verus!
