//! The market data endpoints: instruments and venues.

pub mod instruments;
pub mod venues;
