//! Settlement events.
use vstd::prelude::*;

verus! {

/// A settlement event. This library does not model the fields of a
/// settlement: the type stands in for the event so that settlement lists can
/// be carried and counted, and nothing here reads its content.
#[derive(Clone, Debug, PartialEq, Eq, Structural)]
pub struct Settlement;

} // verus!
