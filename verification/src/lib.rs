//! Typed request/response schema for an institution-lookup API endpoint
//! family, with a verified mapping between the typed values and the
//! JSON-shaped wire structure they travel in.

pub mod codec;
pub mod types;
pub mod wire;
