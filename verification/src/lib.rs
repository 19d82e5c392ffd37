//! Identification of binary formats by magic-number signatures.
//!
//! A [`catalog::Catalog`] holds an ordered list of signatures, each a byte
//! pattern expected at a fixed offset. [`matcher::classify`] compares a buffer
//! against every signature and reports all matches together with the single
//! best one under a deterministic resolution policy. [`magicnums`] supplies
//! the standard signature table.

pub mod catalog;
pub mod magicnums;
pub mod matcher;
