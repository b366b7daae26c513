//! Position direction.
use vstd::prelude::*;

verus! {

/// Direction of a position
#[derive(Clone, Debug)]
pub enum Direction {
    /// Buy direction
    Buy,
    /// Sell direction
    Sell,
}

} // verus!
