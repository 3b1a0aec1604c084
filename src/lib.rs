//! Token-based authentication core: credential checks, signed session tokens,
//! refresh-token revalidation and bearer-token extraction.

pub mod claims;
pub mod clock;
pub mod error;
pub mod extractor;
pub mod issuer;
pub mod jwt;
pub mod keys;
pub mod laws;
pub mod payloads;
pub mod role;
pub mod session;
pub mod text;
