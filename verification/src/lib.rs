//! Client-side core of a signed JSON-over-HTTP exchange API: request signing,
//! header assembly, and decoding of the uniform response envelope.

pub mod client;
pub mod decimal;
pub mod decode;
pub mod endpoints;
pub mod error;
pub mod header;
pub mod json;
pub mod message;
pub mod numeric;
pub mod outside;
pub mod prelude;
pub mod signer;
pub mod target;
pub mod types;
