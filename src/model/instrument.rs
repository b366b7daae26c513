//! Instrument kinds, option types and instrument types.
use vstd::prelude::*;

verus! {

/// Instrument kind enumeration
#[derive(Clone, PartialEq, Eq, Structural, Debug)]
pub enum InstrumentKind {
    /// Future contract
    Future,
    /// Option contract
    Option,
    /// Spot trading
    Spot,
    /// Future combo
    FutureCombo,
    /// Option combo
    OptionCombo,
}

/// Option type enumeration
#[derive(Clone, PartialEq, Eq, Structural, Debug)]
pub enum OptionType {
    /// Call option
    Call,
    /// Put option
    Put,
}

/// Instrument type enumeration
#[derive(Clone, PartialEq, Eq, Structural, Debug)]
pub enum InstrumentType {
    /// Linear instrument
    Linear,
    /// Reversed instrument
    Reversed,
}

} // verus!
