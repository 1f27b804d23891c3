//! Discovery and verification of release signatures.
//!
//! A release is identified by the digest of its payload. A signature store
//! publishes numbered candidate signatures for each digest. This library
//! derives where the candidates live, decides what a fetched candidate is
//! worth against a keyring of trusted keys, walks the candidate slots of one
//! release, and selects the releases of a catalogue that are to be checked.
//! It performs no input or output: the caller fetches what the library asks
//! for and hands the answers back.

pub mod attempt;
pub mod catalogue;
pub mod config;
pub mod course;
pub mod discovery;
pub mod fetch;
pub mod files;
pub mod keyring;
pub mod location;
pub mod release;
pub mod report;
pub mod text;
pub mod verify;
