//! Trade liquidity.
use vstd::prelude::*;

verus! {

/// Liquidity type enumeration
#[derive(Clone, PartialEq, Eq, Structural, Debug)]
pub enum Liquidity {
    /// Maker (provided liquidity)
    Maker,
    /// Taker (consumed liquidity)
    Taker,
    /// Mixed (both maker and taker in same trade)
    Mixed,
}

} // verus!
