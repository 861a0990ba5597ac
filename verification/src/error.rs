//! The error taxonomy shared by every operation of the library.

use vstd::prelude::*;
use vstd::string::*;

verus! {

/// The kind of a failure, without its detail text.
#[derive(Clone, Copy, Debug, PartialEq, Eq, Structural)]
pub enum ErrorKind {
    InvalidPubkey,
    MissingMetadatafield,
    InvalidMetadata,
    RpcError,
    InstructionError,
    InvalidKeypair,
    SerializationError,
}

/// The mathematical model of a `NifError`: its kind and its detail text.
pub ghost struct Failure {
    pub kind: ErrorKind,
    pub detail: Seq<char>,
}

/// A terminal failure of one operation. Every variant carries a human-readable
/// detail; none of them ever carries secret key material.
#[derive(Debug)]
pub enum NifError {
    InvalidPubkey(String),
    MissingMetadatafield(&'static str),
    InvalidMetadata(String),
    RpcError(String),
    InstructionError(String),
    InvalidKeypair(String),
    SerializationError(String),
}

/// The fixed text that the rendering of an error of the given kind starts with.
pub open spec fn kind_prefix(kind: ErrorKind) -> Seq<char> {
    match kind {
        ErrorKind::InvalidPubkey => "Invalid Public key: "@,
        ErrorKind::MissingMetadatafield => "Missing metadata field: "@,
        ErrorKind::InvalidMetadata => "Invalid metadata field: "@,
        ErrorKind::RpcError => "Solana RPC error: "@,
        ErrorKind::InstructionError => "Instruction error: "@,
        ErrorKind::InvalidKeypair => "Invalid keypair: "@,
        ErrorKind::SerializationError => "Serialization error: "@,
    }
}

impl View for NifError {
    type V = Failure;

    open spec fn view(&self) -> Failure {
        match self {
            NifError::InvalidPubkey(d) => Failure { kind: ErrorKind::InvalidPubkey, detail: d@ },
            NifError::MissingMetadatafield(d) => Failure {
                kind: ErrorKind::MissingMetadatafield,
                detail: d@,
            },
            NifError::InvalidMetadata(d) => Failure { kind: ErrorKind::InvalidMetadata, detail: d@ },
            NifError::RpcError(d) => Failure { kind: ErrorKind::RpcError, detail: d@ },
            NifError::InstructionError(d) => Failure {
                kind: ErrorKind::InstructionError,
                detail: d@,
            },
            NifError::InvalidKeypair(d) => Failure { kind: ErrorKind::InvalidKeypair, detail: d@ },
            NifError::SerializationError(d) => Failure {
                kind: ErrorKind::SerializationError,
                detail: d@,
            },
        }
    }
}

impl NifError {
    /// The kind of this error.
    pub fn kind(&self) -> (k: ErrorKind)
        ensures
            k == self@.kind,
    {
        match self {
            NifError::InvalidPubkey(_) => ErrorKind::InvalidPubkey,
            NifError::MissingMetadatafield(_) => ErrorKind::MissingMetadatafield,
            NifError::InvalidMetadata(_) => ErrorKind::InvalidMetadata,
            NifError::RpcError(_) => ErrorKind::RpcError,
            NifError::InstructionError(_) => ErrorKind::InstructionError,
            NifError::InvalidKeypair(_) => ErrorKind::InvalidKeypair,
            NifError::SerializationError(_) => ErrorKind::SerializationError,
        }
    }

    /// The detail text of this error, without the prefix of its kind.
    pub fn detail(&self) -> (d: &str)
        ensures
            d@ == self@.detail,
    {
        match self {
            NifError::InvalidPubkey(d) => d.as_str(),
            NifError::MissingMetadatafield(d) => d,
            NifError::InvalidMetadata(d) => d.as_str(),
            NifError::RpcError(d) => d.as_str(),
            NifError::InstructionError(d) => d.as_str(),
            NifError::InvalidKeypair(d) => d.as_str(),
            NifError::SerializationError(d) => d.as_str(),
        }
    }

    /// Renders the error for a caller: the prefix of its kind, then its detail.
    pub fn to_string(&self) -> (text: String)
        ensures
            text@ == kind_prefix(self@.kind) + self@.detail,
    {
        let prefix: &str = match self {
            NifError::InvalidPubkey(_) => "Invalid Public key: ",
            NifError::MissingMetadatafield(_) => "Missing metadata field: ",
            NifError::InvalidMetadata(_) => "Invalid metadata field: ",
            NifError::RpcError(_) => "Solana RPC error: ",
            NifError::InstructionError(_) => "Instruction error: ",
            NifError::InvalidKeypair(_) => "Invalid keypair: ",
            NifError::SerializationError(_) => "Serialization error: ",
        };
        let mut text = prefix.to_owned();
        text.append(self.detail());
        text
    }
}

} // verus!
