//! A mock vehicle-registry lookup service.
//!
//! Given a search request that carries a chassis number and a search date,
//! the library classifies the request as a success or an error case, resolves
//! a vehicle body type from a static shape-code catalog, derives registration
//! and expiry dates from the search date, and assembles the tagged
//! success/error response record that a thin HTTP layer encodes to XML.

pub mod airis;
pub mod body_type;
pub mod dates;
pub mod error_type;
mod rng;
pub mod shape_code;
pub mod text;
pub mod xml;
