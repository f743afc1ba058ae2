//! The calls into the cryptographic crates. Each function here holds one
//! such call behind a contract that is taken on trust; each body-less spec
//! function names what such a call computes.

pub mod eddsa;
pub mod falcon;
pub mod hashes;
