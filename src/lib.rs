//! Decoding, classification and rendering of the 32-bit response codes that a
//! TPM 2.0 returns for each command.

pub mod bits;
pub mod kind;
pub mod decimal;
pub mod response_code;
pub mod error;
pub mod laws;
