//! The key codec: textual public keys and secret keys to typed key material.

use crate::error::{ErrorKind, Failure, NifError};
use solana_sdk::signature::Keypair;
use solana_sdk::pubkey::Pubkey;
use std::str::FromStr;
use vstd::prelude::*;
use vstd::utf8::encode_utf8;

verus! {

/// Width of a public key in bytes.
pub const PUBKEY_BYTES: usize = 32;

/// Width of a key pair in bytes: the secret half, then the public half.
pub const KEYPAIR_BYTES: usize = 64;

/// Longest base-58 text, in bytes, that can stand for a public key.
pub const MAX_PUBKEY_TEXT_BYTES: usize = 44;

/// What the base-58 decoder makes of a text: the decoded bytes, or nothing
/// where the text is not base-58.
pub uninterp spec fn spec_base58_decode(text: Seq<char>) -> Option<Seq<u8>>;

/// The base-58 text of a byte string.
pub uninterp spec fn spec_base58_encode(bytes: Seq<u8>) -> Seq<char>;

/// Whether a byte string is a well-formed Ed25519 key pair: a secret key
/// followed by the public key derived from it.
pub uninterp spec fn spec_keypair_accepts(bytes: Seq<u8>) -> bool;

/// The public key that a text stands for, or the reason why it stands for none.
pub open spec fn pubkey_from_text(text: Seq<char>) -> Result<Seq<u8>, Seq<char>> {
    if encode_utf8(text).len() > MAX_PUBKEY_TEXT_BYTES {
        Err("String is the wrong size"@)
    } else {
        match spec_base58_decode(text) {
            None => Err("Invalid Base58 string"@),
            Some(bytes) => if bytes.len() == PUBKEY_BYTES {
                Ok(bytes)
            } else {
                Err("String is the wrong size"@)
            },
        }
    }
}

/// The key pair that a secret text stands for, if it stands for one.
pub open spec fn keypair_from_text(text: Seq<char>) -> Option<Seq<u8>> {
    match spec_base58_decode(text) {
        Some(bytes) => if spec_keypair_accepts(bytes) {
            Some(bytes)
        } else {
            None
        },
        None => None,
    }
}

/// A 32-byte account identifier. Two keys are equal when their bytes are.
#[derive(Clone, Copy, Debug)]
pub struct PublicKey {
    pub bytes: [u8; 32],
}

impl View for PublicKey {
    type V = Seq<u8>;

    open spec fn view(&self) -> Seq<u8> {
        self.bytes@
    }
}

/// A signing key together with the public key derived from it. The secret half
/// is never rendered or handed out.
pub struct KeyPair {
    pub(crate) bytes: [u8; 64],
}

impl View for KeyPair {
    type V = Seq<u8>;

    closed spec fn view(&self) -> Seq<u8> {
        self.bytes@
    }
}

/// Calls `Pubkey::from_str` and hands back the key's bytes, or the text of the
/// parse error.
///
/// Trusted: the result is what `pubkey_from_text` says, which follows the
/// function's source line by line over the base-58 decoder; and the text of an
/// accepted key is the base-58 encoding of its bytes, as the decoder's
/// documentation shows for decoding followed by encoding.
#[verifier::external_body]
fn pubkey_from_str(text: &str) -> (r: Result<[u8; 32], String>)
    ensures
        match r {
            Ok(bytes) => pubkey_from_text(text@) == Ok::<Seq<u8>, Seq<char>>(bytes@)
                && spec_base58_encode(bytes@) == text@,
            Err(reason) => pubkey_from_text(text@) == Err::<Seq<u8>, Seq<char>>(reason@),
        },
{
    Pubkey::from_str(text).map(|key| key.to_bytes()).map_err(|e| e.to_string())
}

/// Calls `Pubkey::to_string`, which writes the base-58 encoding of the key.
///
/// Trusted: the result is the base-58 text of the 32 bytes, and it reads back
/// as the same key: the text of 32 bytes has at most 44 digits, and the
/// decoder gives back the bytes that the encoder was given.
#[verifier::external_body]
fn pubkey_to_string(bytes: &[u8; 32]) -> (text: String)
    ensures
        text@ == spec_base58_encode(bytes@),
        pubkey_from_text(text@) == (Ok::<Seq<u8>, Seq<char>>(bytes@)),
{
    Pubkey::new_from_array(*bytes).to_string()
}

/// Calls `bs58::decode(..).into_vec()`.
///
/// Trusted: the result is the decoder's, and nothing where it reports an error.
#[verifier::external_body]
fn base58_decode(text: &str) -> (r: Option<Vec<u8>>)
    ensures
        match r {
            Some(bytes) => spec_base58_decode(text@) == Some(bytes@),
            None => spec_base58_decode(text@) is None,
        },
{
    solana_sdk::bs58::decode(text).into_vec().ok()
}

/// Calls `Keypair::from_bytes`.
///
/// Trusted: a key pair comes back exactly for the byte strings that the
/// function accepts, and it holds the bytes it was made from. The function
/// accepts 64 bytes only: it refuses fewer, and reads the public half from
/// everything after the 32nd byte, which must be 32 bytes.
#[verifier::external_body]
fn keypair_from_bytes(bytes: &[u8]) -> (r: Option<[u8; 64]>)
    ensures
        r is Some == spec_keypair_accepts(bytes@),
        r matches Some(pair) ==> pair@ == bytes@,
{
    Keypair::from_bytes(bytes).ok().map(|pair| pair.to_bytes())
}

/// Decodes a base-58 public key.
///
/// Succeeds exactly on the texts of at most 44 bytes that decode to 32 bytes,
/// and the key it returns encodes back to the text it was given. Every other
/// text fails with `InvalidPubkey`, whose detail says whether the text was not
/// base-58 or had the wrong size.
pub fn parse_pubkey(pubkey: &str) -> (r: Result<PublicKey, NifError>)
    ensures
        match r {
            Ok(key) => pubkey_from_text(pubkey@) == Ok::<Seq<u8>, Seq<char>>(key@)
                && spec_base58_encode(key@) == pubkey@,
            Err(e) => pubkey_from_text(pubkey@) is Err && e@ == (Failure {
                kind: ErrorKind::InvalidPubkey,
                detail: pubkey_from_text(pubkey@)->Err_0,
            }),
        },
{
    match pubkey_from_str(pubkey) {
        Ok(bytes) => Ok(PublicKey { bytes }),
        Err(reason) => Err(NifError::InvalidPubkey(reason)),
    }
}

/// Decodes a base-58 secret into a key pair.
///
/// Succeeds exactly on the texts that decode to a well-formed key pair. Every
/// other text fails with `InvalidKeypair` and a fixed detail, so that no part
/// of the secret can reach an error message.
pub fn parse_keypair(secret_key: &str) -> (r: Result<KeyPair, NifError>)
    ensures
        match r {
            Ok(pair) => keypair_from_text(secret_key@) == Some(pair@) && pair@.len()
                == KEYPAIR_BYTES,
            Err(e) => keypair_from_text(secret_key@) is None && e@ == (Failure {
                kind: ErrorKind::InvalidKeypair,
                detail: "Invalid secret key"@,
            }),
        },
{
    let decoded = match base58_decode(secret_key) {
        Some(bytes) => bytes,
        None => { return Err(NifError::InvalidKeypair("Invalid secret key".to_owned())); },
    };
    match keypair_from_bytes(decoded.as_slice()) {
        Some(bytes) => Ok(KeyPair { bytes }),
        None => Err(NifError::InvalidKeypair("Invalid secret key".to_owned())),
    }
}

impl PublicKey {
    /// The key with the given bytes.
    pub fn new(bytes: [u8; 32]) -> (key: PublicKey)
        ensures
            key@ == bytes@,
    {
        PublicKey { bytes }
    }

    /// The base-58 text of the key. It reads back as this key: `parse_pubkey`
    /// accepts the text of any 32 bytes and returns them.
    pub fn to_string(&self) -> (text: String)
        ensures
            text@ == spec_base58_encode(self@),
            pubkey_from_text(text@) == Ok::<Seq<u8>, Seq<char>>(self@),
    {
        pubkey_to_string(&self.bytes)
    }

    /// Whether two keys hold the same bytes.
    pub fn same_as(&self, other: &PublicKey) -> (same: bool)
        ensures
            same == (self@ == other@),
    {
        let mut i: usize = 0;
        while i < 32
            invariant
                i <= 32,
                forall|j: int| 0 <= j < i ==> self.bytes@[j] == other.bytes@[j],
            decreases 32 - i,
        {
            if self.bytes[i] != other.bytes[i] {
                return false;
            }
            i += 1;
        }
        assert(self@ =~= other@);
        true
    }
}

impl KeyPair {
    #[verifier::type_invariant]
    spec fn well_formed(self) -> bool {
        spec_keypair_accepts(self.bytes@)
    }

    /// The public half of the pair.
    pub fn pubkey(&self) -> (key: PublicKey)
        ensures
            key@ == self@.subrange(32, 64),
    {
        let mut bytes = [0u8; 32];
        let mut i: usize = 0;
        while i < 32
            invariant
                i <= 32,
                forall|j: int| 0 <= j < i ==> bytes@[j] == self.bytes@[32 + j],
            decreases 32 - i,
        {
            bytes[i] = self.bytes[i + 32];
            i += 1;
        }
        assert(bytes@ =~= self.bytes@.subrange(32, 64));
        PublicKey { bytes }
    }
}

/// A text of at most 44 bytes that is base-58 for 32 bytes stands for the
/// public key of those bytes.
pub proof fn lemma_wellformed_pubkey_text_is_accepted(text: Seq<char>, bytes: Seq<u8>)
    requires
        encode_utf8(text).len() <= MAX_PUBKEY_TEXT_BYTES,
        spec_base58_decode(text) == Some(bytes),
        bytes.len() == PUBKEY_BYTES,
    ensures
        pubkey_from_text(text) == Ok::<Seq<u8>, Seq<char>>(bytes),
{
}

/// A text that is not base-58, or is base-58 for other than 32 bytes, stands
/// for no public key.
pub proof fn lemma_malformed_pubkey_text_is_refused(text: Seq<char>)
    requires
        spec_base58_decode(text) is None || spec_base58_decode(text)->Some_0.len() != PUBKEY_BYTES,
    ensures
        pubkey_from_text(text) is Err,
{
}

/// A text that is not base-58, or is base-58 for bytes that are no key pair,
/// stands for no key pair.
pub proof fn lemma_malformed_secret_text_is_refused(text: Seq<char>)
    requires
        spec_base58_decode(text) is None || !spec_keypair_accepts(
            spec_base58_decode(text)->Some_0,
        ),
    ensures
        keypair_from_text(text) is None,
{
}

} // verus!
