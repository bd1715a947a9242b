//! Domain model types shared across the service.

use vstd::prelude::*;

verus! {

/// Direction of a trade.
#[derive(Clone, Copy, Debug, PartialEq, Eq, Structural)]
pub enum TradeSide {
    Buy,
    Sell,
}

} // verus!
