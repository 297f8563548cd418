//! Verified core of a KZG powers-of-tau trusted-setup ceremony over
//! BLS12-381: the structured reference string (SRS) and its structural
//! verifier, the update protocol with Schnorr proofs of knowledge, the
//! chain-of-updates verifier, the Drand beacon binding, and the dual-basis
//! consistency check.
//!
//! Curve arithmetic, hashing and beacon-signature verification are performed
//! by outside libraries behind the trusted wrappers of `curve`, `digests` and
//! `drand`; everything else is verified.

pub mod ceremony;
pub mod chain;
pub mod consistency;
pub mod curve;
pub mod digests;
pub mod drand;
pub mod filecoin;
pub mod hexcode;
pub mod schnorr;
pub mod store;
pub mod utils;
