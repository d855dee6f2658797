//! Privacy-preserving passport credentials.
//!
//! The crate covers the protocol core: the attribute codec that turns a raw
//! passport dump into a canonical attribute record, the commitment layer that
//! binds a record to a hiding commitment, the hash-checker predicate that an
//! issuance proof must satisfy, the issuance decision itself, and the
//! fixed-height sparse Merkle accumulator over issued credentials.
//!
//! Cryptographic primitives (the SHA-256 digest and the randomness source)
//! are called through narrow trusted wrappers; the zero-knowledge
//! proving/verification backend and the issuer's signature scheme are
//! external capabilities whose verdicts are handed in as plain values.

pub mod bytes;
pub mod com_tree;
pub mod commitment;
pub mod digest;
pub mod errors;
pub mod issuance;
pub mod issuance_checker;
pub mod params;
pub mod passport_dump;
pub mod passport_info;
