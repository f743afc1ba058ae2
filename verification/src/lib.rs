//! Hybrid signatures over executable content: a classical algorithm (Ed25519)
//! combined with post-quantum ones (Falcon-512, Falcon-1024), bundled in one
//! self-describing container, so that a signature stays trustworthy when one
//! family of algorithms is broken.
//!
//! - [`hasher`]: streaming digests over five interchangeable hash algorithms.
//! - [`keypair`]: algorithm-tagged key material that signs and verifies.
//! - [`format`]: the container, its slots, the persisted key record and the
//!   bit-exact wire layout.
//! - [`engine`]: signing with several keypairs at once, and verification
//!   against a key registry under a hybrid policy.
//! - [`primitives`]: the calls into the cryptographic crates, each behind a
//!   contract that the rest of the library takes on trust.
//!
//! Which public keys deserve trust is the caller's business: the library
//! says whether a signature matches a key, and no more.

pub mod engine;
pub mod error;
pub mod format;
pub mod hasher;
pub mod keypair;
pub mod primitives;

pub use error::Error;
