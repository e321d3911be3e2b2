//! A minimal HTTP JSON service, verified.
//!
//! The library holds everything the service decides or computes: the response
//! payload and its well-formedness, the JSON encoding of that payload as exact
//! bytes, decimal rendering of integers, and the routing decision that maps a
//! request method and path to a response. The network layer that carries
//! requests and responses lives outside the library.

pub mod numeral;
pub mod payload;
pub mod json;
pub mod http;
