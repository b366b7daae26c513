//! Results of transfers and quotes made around orders.
use vstd::prelude::*;

verus! {

/// Transfer result for order-related transfers (e.g., fee rebates)
#[derive(Clone, Debug)]
pub struct TransferResult {
    /// Transfer identifier
    pub id: String,
    /// Transfer status
    pub status: String,
}

/// Quote result
#[derive(Clone, Debug)]
pub struct QuoteResult {
    /// Name of the instrument that was quoted
    pub instrument_name: String,
    /// Whether the quote was successful
    pub success: bool,
    /// Error message if quote failed
    pub error: Option<String>,
}

} // verus!
