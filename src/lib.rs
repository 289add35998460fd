//! The error type of a certificate-generation toolkit: one closed set of
//! failure kinds, a fixed one-line message for each, and conversions from the
//! failures of the cryptography backend and of the PEM codec.

pub mod decimal;
pub mod error;

pub use error::Error;
