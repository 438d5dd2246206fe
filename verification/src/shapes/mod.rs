//! The shapes of the responses that hold no fractional number.

pub mod addresses;
pub mod countries;
pub mod places;
