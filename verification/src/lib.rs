//! Client-side construction, signing and submission planning for compressed
//! token tree transactions, together with the metadata codec that feeds them.
//!
//! - `error`: the failures that every operation ends in.
//! - `keys`: public keys and key pairs from their base-58 texts.
//! - `document`: a metadata document from its JSON text.
//! - `metadata`: a metadata record to the protocol's binary form and back.
//! - `instruction`: the instructions that create a tree, mint and transfer.
//! - `transaction`: instructions and signers to a signed transaction.
//! - `submission`: when a refused submission is tried again.
//! - `operation`: the three operations as plans that the caller carries out.
//! - `wire`: numbers and texts as the protocol writes them.
//!
//! The library makes no network call and does not wait: what it cannot
//! compute it asks of the caller, one action at a time.

pub mod document;
pub mod error;
pub mod instruction;
pub mod keys;
pub mod metadata;
pub mod operation;
pub mod submission;
pub mod transaction;
pub mod wire;
