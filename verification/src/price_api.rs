//! The capability interface for external price sources.
//!
//! A price source shares the node's process but is independent of the
//! composition core: it exposes one operation, fetching the dollar price of a
//! token. Multiple concrete sources may implement the capability
//! interchangeably; callers depend only on the interface.

use vstd::prelude::*;

verus! {

/// A token price in dollars, carried as a ratio so that sub-dollar prices
/// keep their precision.
#[derive(Clone, Copy, Debug, PartialEq, Eq)]
pub struct BaseTokenAPIPrice {
    /// Numerator of the dollar price.
    pub numerator: u64,
    /// Denominator of the dollar price.
    pub denominator: u64,
}

impl BaseTokenAPIPrice {
    /// A price is well formed when its denominator is positive.
    pub open spec fn wf(&self) -> bool {
        self.denominator > 0
    }
}

/// A failure of a price source, carrying the source's own explanation.
#[derive(Clone, Debug, PartialEq, Eq)]
pub struct PriceFetchError {
    /// A human-readable description of what went wrong.
    pub message: String,
}

/// The interface of a client connecting to an external API that quotes token
/// prices. Implementations perform the network exchange outside this crate;
/// nothing is assumed of their results.
pub trait PriceAPIClient {
    /// Returns the price for the input token address in dollars, or the
    /// source's error.
    fn fetch_price(&self, token_address: u64) -> Result<BaseTokenAPIPrice, PriceFetchError>;
}

} // verus!
