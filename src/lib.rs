//! HOTP (counter-based) and TOTP (time-based) one-time passwords, with their
//! generation and verification proved against a model of the algorithm.
pub mod clock;
pub mod custom;
pub mod decimal;
pub mod error;
pub mod hash;
pub mod laws;
pub mod truncate;

pub use error::ThotpError;
