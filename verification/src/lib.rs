//! Stable, privacy-preserving host fingerprinting.
//!
//! The library reads a small snapshot of host attributes, joins them into a
//! canonical string, hashes that string with SHA-256, and returns the digest
//! as a 64-character lowercase hexadecimal string.

pub mod attributes;
pub mod decimal;
pub mod digest;
pub mod fingerprint;
pub mod hex;
pub mod provider;
pub mod sensitivity;
