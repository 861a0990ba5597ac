//! The metadata codec: a metadata document to the binary record that the
//! protocol reads, carried as base-64 text, and back.

use crate::document::{
    creator_inputs_model, metadata_input, parse_metadata_input, prefixed, spec_json_array,
    spec_json_object, CreatorInput, CreatorInputModel, MetadataInput, MetadataInputModel,
};
use crate::error::{ErrorKind, Failure, NifError};
use crate::keys::{parse_pubkey, pubkey_from_text, PublicKey};
use base64::engine::general_purpose::STANDARD;
use base64::Engine;
use borsh::{BorshDeserialize, BorshSerialize};
use mpl_bubblegum::types::MetadataArgs;
use crate::wire::{flag_byte, le_bytes_u16, le_bytes_u32, wire_text};
use vstd::prelude::*;
use vstd::utf8::encode_utf8;

verus! {

/// Largest royalty, in basis points, that a record may hold.
pub const MAX_SELLER_FEE_BASIS_POINTS: u16 = 10000;

/// Largest share, in percent, that a creator may hold.
pub const MAX_CREATOR_SHARE: u8 = 100;

/// One creator of an asset.
#[derive(Clone, Copy, Debug)]
pub struct Creator {
    pub address: PublicKey,
    pub verified: bool,
    pub share: u8,
}

/// The mathematical model of a `Creator`.
pub ghost struct CreatorModel {
    pub address: Seq<u8>,
    pub verified: bool,
    pub share: u8,
}

impl View for Creator {
    type V = CreatorModel;

    open spec fn view(&self) -> CreatorModel {
        CreatorModel { address: self.address@, verified: self.verified, share: self.share }
    }
}

/// The metadata of one asset. The fields that the protocol reserves (edition
/// nonce, token standard, collection, uses, token program version) are not
/// part of a record: the codec writes them as absent, with the token program
/// version `Original`, and does not hand them back.
#[derive(Debug)]
pub struct MetadataRecord {
    pub name: String,
    pub symbol: String,
    pub uri: String,
    pub seller_fee_basis_points: u16,
    pub creators: Vec<Creator>,
    pub primary_sale_happened: bool,
    pub is_mutable: bool,
}

/// The mathematical model of a `MetadataRecord`.
pub ghost struct MetadataModel {
    pub name: Seq<char>,
    pub symbol: Seq<char>,
    pub uri: Seq<char>,
    pub seller_fee_basis_points: u16,
    pub creators: Seq<CreatorModel>,
    pub primary_sale_happened: bool,
    pub is_mutable: bool,
}

/// A list of creators as the list of their models.
pub open spec fn creators_model(creators: Seq<Creator>) -> Seq<CreatorModel> {
    Seq::new(creators.len(), |i: int| creators[i]@)
}

impl View for MetadataRecord {
    type V = MetadataModel;

    open spec fn view(&self) -> MetadataModel {
        MetadataModel {
            name: self.name@,
            symbol: self.symbol@,
            uri: self.uri@,
            seller_fee_basis_points: self.seller_fee_basis_points,
            creators: creators_model(self.creators@),
            primary_sale_happened: self.primary_sale_happened,
            is_mutable: self.is_mutable,
        }
    }
}

/// Whether every field of a record is within its range: the royalty at most
/// 10000 basis points, each share at most 100 percent. The shares need not add
/// up to 100.
pub open spec fn in_range(record: MetadataModel) -> bool {
    &&& record.seller_fee_basis_points <= MAX_SELLER_FEE_BASIS_POINTS
    &&& forall|i: int|
        0 <= i < record.creators.len() ==> (#[trigger] record.creators[i]).share
            <= MAX_CREATOR_SHARE
}

/// One creator in the binary record: the 32 bytes of the address, the flag,
/// the share.
pub open spec fn creator_layout(creator: CreatorModel) -> Seq<u8> {
    creator.address + flag_byte(creator.verified) + seq![creator.share]
}

/// The creators in the binary record, one after the other.
pub open spec fn creators_layout(creators: Seq<CreatorModel>) -> Seq<u8>
    decreases creators.len(),
{
    if creators.len() == 0 {
        Seq::empty()
    } else {
        creators_layout(creators.drop_last()) + creator_layout(creators.last())
    }
}

/// The five fields that the protocol reserves, as the codec always writes
/// them: no edition nonce, no token standard, no collection, no uses, each an
/// absent field and so a zero byte, and the token program version `Original`,
/// which is the first and so a zero byte.
pub open spec fn reserved_layout() -> Seq<u8> {
    seq![0u8, 0u8, 0u8, 0u8, 0u8]
}

/// The binary record of a metadata record with the given reserved fields, in
/// the order and the widths that the protocol reads: the three texts, the
/// royalty, the two flags, the reserved fields, then the count of the
/// creators and the creators.
pub open spec fn layout_with(record: MetadataModel, reserved: Seq<u8>) -> Seq<u8> {
    wire_text(record.name) + wire_text(record.symbol) + wire_text(record.uri) + le_bytes_u16(
        record.seller_fee_basis_points,
    ) + flag_byte(record.primary_sale_happened) + flag_byte(record.is_mutable) + reserved
        + le_bytes_u32(record.creators.len() as u32) + creators_layout(record.creators)
}

/// The binary record of a metadata record as the codec writes it: with every
/// reserved field absent and the token program version `Original`.
pub open spec fn metadata_layout(record: MetadataModel) -> Seq<u8> {
    layout_with(record, reserved_layout())
}

/// Whether a record can be written: the byte count of each text and the count
/// of the creators fit a 32-bit number.
pub open spec fn encodable(record: MetadataModel) -> bool {
    &&& encode_utf8(record.name).len() <= u32::MAX
    &&& encode_utf8(record.symbol).len() <= u32::MAX
    &&& encode_utf8(record.uri).len() <= u32::MAX
    &&& record.creators.len() <= u32::MAX
}

/// The encoder's complaint about a record and reserved fields that cannot be
/// written.
pub uninterp spec fn spec_borsh_complaint(record: MetadataModel, reserved: Seq<u8>) -> Seq<char>;

/// What the binary decoder makes of a byte string: the seven fields of the
/// record it holds, or the decoder's complaint.
pub uninterp spec fn spec_metadata_from_borsh(bytes: Seq<u8>) -> Result<MetadataModel, Seq<char>>;

/// The base-64 text of a byte string, in the standard alphabet with padding.
pub uninterp spec fn spec_base64_encode(bytes: Seq<u8>) -> Seq<char>;

/// What the base-64 decoder makes of a text.
pub uninterp spec fn spec_base64_decode(text: Seq<char>) -> Result<Seq<u8>, Seq<char>>;

/// Longest byte string whose base-64 text has a length that fits the machine.
pub open spec fn max_base64_input() -> int {
    usize::MAX / 4 * 3
}

/// Reads the five reserved fields from their bytes with the decoder's
/// `try_from_slice`, builds a `MetadataArgs` from them and the record, and
/// calls `try_to_vec` on it.
///
/// Trusted: the encoder writes the fields in the order of their declaration:
/// a text as its byte count in four bytes and its bytes, a number with its
/// low byte first, a flag as one byte, a list as its count in four bytes and
/// its items; and the reserved fields as the bytes they were read from, since
/// the encoding maps values and byte strings one to one. Five zero bytes read
/// as four absent fields and the first token program version. With them the
/// encoder refuses exactly a text or a list whose count does not fit four
/// bytes. What it wrote, the decoder reads back as the same seven fields.
#[verifier::external_body]
fn borsh_encode(record: &MetadataRecord, reserved: &[u8]) -> (r: Result<Vec<u8>, String>)
    ensures
        reserved@ == reserved_layout() ==> (r is Ok == encodable(record@)),
        match r {
            Ok(bytes) => encodable(record@) && bytes@ == layout_with(record@, reserved@)
                && spec_metadata_from_borsh(bytes@) == Ok::<MetadataModel, Seq<char>>(record@),
            Err(reason) => reason@ == spec_borsh_complaint(record@, reserved@),
        },
{
    let (edition_nonce, token_standard, collection, uses, token_program_version) =
        BorshDeserialize::try_from_slice(reserved).map_err(|e| e.to_string())?;
    let creators = record.creators.iter().map(|c| mpl_bubblegum::types::Creator {
        address: c.address.bytes.into(), verified: c.verified, share: c.share,
    }).collect();
    MetadataArgs {
        name: record.name.clone(), symbol: record.symbol.clone(), uri: record.uri.clone(),
        seller_fee_basis_points: record.seller_fee_basis_points,
        primary_sale_happened: record.primary_sale_happened, is_mutable: record.is_mutable,
        edition_nonce, token_standard, collection, uses, token_program_version, creators,
    }.try_to_vec().map_err(|e| e.to_string())
}

/// Calls `MetadataArgs::try_from_slice` and hands back the seven fields of
/// what it read.
///
/// Trusted: the result is the decoder's, or the text of its error.
#[verifier::external_body]
fn borsh_decode(bytes: &[u8]) -> (r: Result<MetadataRecord, String>)
    ensures
        match r {
            Ok(record) => spec_metadata_from_borsh(bytes@) == Ok::<MetadataModel, Seq<char>>(
                record@,
            ),
            Err(reason) => spec_metadata_from_borsh(bytes@) == Err::<MetadataModel, Seq<char>>(
                reason@,
            ),
        },
{
    let m = MetadataArgs::try_from_slice(bytes).map_err(|e| e.to_string())?;
    let creators = m.creators.iter().map(|c| Creator {
        address: PublicKey { bytes: c.address.to_bytes() }, verified: c.verified, share: c.share,
    }).collect();
    Ok(MetadataRecord {
        name: m.name, symbol: m.symbol, uri: m.uri,
        seller_fee_basis_points: m.seller_fee_basis_points, creators,
        primary_sale_happened: m.primary_sale_happened, is_mutable: m.is_mutable,
    })
}

/// Calls `encode` of the standard base-64 engine.
///
/// Trusted: the result is the engine's text, and the engine decodes that text
/// to the bytes it came from. The engine gives up on an input whose text would
/// be longer than the machine can count: such an input is not admitted.
#[verifier::external_body]
fn base64_encode(bytes: &[u8]) -> (text: String)
    requires
        bytes@.len() <= max_base64_input(),
    ensures
        text@ == spec_base64_encode(bytes@),
        spec_base64_decode(text@) == (Ok::<Seq<u8>, Seq<char>>(bytes@)),
{
    STANDARD.encode(bytes)
}

/// Calls `decode` of the standard base-64 engine.
///
/// Trusted: the result is the engine's, or the text of its error.
#[verifier::external_body]
fn base64_decode(text: &str) -> (r: Result<Vec<u8>, String>)
    ensures
        match r {
            Ok(bytes) => spec_base64_decode(text@) == Ok::<Seq<u8>, Seq<char>>(bytes@),
            Err(reason) => spec_base64_decode(text@) == Err::<Seq<u8>, Seq<char>>(reason@),
        },
{
    STANDARD.decode(text).map_err(|e| e.to_string())
}

/// The creator that a document's creator stands for: its address decoded.
pub open spec fn creator_from_input(input: CreatorInputModel) -> Result<CreatorModel, Seq<char>> {
    match pubkey_from_text(input.address) {
        Ok(address) => Ok(CreatorModel { address, verified: input.verified, share: input.share }),
        Err(reason) => Err(reason),
    }
}

/// The creators that a document's creators stand for, or the complaint about
/// the first address among them that is no public key.
pub open spec fn creators_from_inputs(inputs: Seq<CreatorInputModel>) -> Result<
    Seq<CreatorModel>,
    Seq<char>,
>
    decreases inputs.len(),
{
    if inputs.len() == 0 {
        Ok(Seq::empty())
    } else {
        match creators_from_inputs(inputs.drop_last()) {
            Err(reason) => Err(reason),
            Ok(creators) => match creator_from_input(inputs.last()) {
                Err(reason) => Err(reason),
                Ok(creator) => Ok(creators.push(creator)),
            },
        }
    }
}

/// The creators that a document lists: none where it leaves the field out.
pub open spec fn listed_creators(input: MetadataInputModel) -> Seq<CreatorInputModel> {
    match input.creators {
        Some(creators) => creators,
        None => Seq::empty(),
    }
}

/// Whether every listed share is at most 100.
pub open spec fn shares_in_range(creators: Seq<CreatorInputModel>) -> bool {
    forall|i: int| 0 <= i < creators.len() ==> (#[trigger] creators[i]).share <= MAX_CREATOR_SHARE
}

/// The record that the typed fields of a document stand for.
///
/// A field out of its range makes the document invalid; after that, the first
/// creator address that is no public key makes it fail on that key.
pub open spec fn record_from_input(input: MetadataInputModel) -> Result<MetadataModel, Failure> {
    if input.seller_fee_basis_points > MAX_SELLER_FEE_BASIS_POINTS {
        Err(
            Failure {
                kind: ErrorKind::InvalidMetadata,
                detail: "seller_fee_basis_points is out of range"@,
            },
        )
    } else if !shares_in_range(listed_creators(input)) {
        Err(Failure { kind: ErrorKind::InvalidMetadata, detail: "creator share is out of range"@ })
    } else {
        match creators_from_inputs(listed_creators(input)) {
            Err(reason) => Err(Failure { kind: ErrorKind::InvalidPubkey, detail: reason }),
            Ok(creators) => Ok(
                MetadataModel {
                    name: input.name,
                    symbol: input.symbol,
                    uri: input.uri,
                    seller_fee_basis_points: input.seller_fee_basis_points,
                    creators,
                    primary_sale_happened: input.primary_sale_happened,
                    is_mutable: input.is_mutable,
                },
            ),
        }
    }
}

/// The record that a metadata document stands for.
pub open spec fn document_record(text: Seq<char>) -> Result<MetadataModel, Failure> {
    match metadata_input(text) {
        Err(reason) => Err(
            Failure { kind: ErrorKind::InvalidMetadata, detail: "JSON parse error: "@ + reason },
        ),
        Ok(input) => record_from_input(input),
    }
}

/// The base-64 text of the binary form of a record.
pub open spec fn encoded_record(record: MetadataModel) -> Result<Seq<char>, Failure> {
    if !encodable(record) {
        Err(
            Failure {
                kind: ErrorKind::SerializationError,
                detail: "Borsh serialize error: "@ + spec_borsh_complaint(record, reserved_layout()),
            },
        )
    } else if metadata_layout(record).len() > max_base64_input() {
        Err(
            Failure {
                kind: ErrorKind::SerializationError,
                detail: "Base64 encode error: input is too long"@,
            },
        )
    } else {
        Ok(spec_base64_encode(metadata_layout(record)))
    }
}

/// What serializing a metadata document gives.
pub open spec fn serialized(text: Seq<char>) -> Result<Seq<char>, Failure> {
    match document_record(text) {
        Err(failure) => Err(failure),
        Ok(record) => encoded_record(record),
    }
}

/// What deserializing a base-64 text gives.
pub open spec fn deserialized(text: Seq<char>) -> Result<MetadataModel, Failure> {
    match spec_base64_decode(text) {
        Err(reason) => Err(
            Failure { kind: ErrorKind::InvalidMetadata, detail: "Base64 decode error: "@ + reason },
        ),
        Ok(bytes) => match spec_metadata_from_borsh(bytes) {
            Err(reason) => Err(
                Failure {
                    kind: ErrorKind::InvalidMetadata,
                    detail: "Borsh deserialize error: "@ + reason,
                },
            ),
            Ok(record) => if in_range(record) {
                Ok(record)
            } else {
                Err(
                    Failure {
                        kind: ErrorKind::InvalidMetadata,
                        detail: "Borsh deserialize error: a field is out of range"@,
                    },
                )
            },
        },
    }
}

/// Once a prefix of a list of creators is refused, every longer prefix is
/// refused with the same complaint.
pub proof fn lemma_creators_error_persists(inputs: Seq<CreatorInputModel>, i: int, k: int)
    requires
        0 <= i <= k <= inputs.len(),
        creators_from_inputs(inputs.take(i)) is Err,
    ensures
        creators_from_inputs(inputs.take(k)) == creators_from_inputs(inputs.take(i)),
    decreases k - i,
{
    if i < k {
        lemma_creators_error_persists(inputs, i, k - 1);
        assert(inputs.take(k).drop_last() =~= inputs.take(k - 1));
    }
}

/// Checks the ranges of the typed fields of a document and decodes the
/// addresses of its creators.
pub fn record_from_metadata_input(input: &MetadataInput) -> (r: Result<MetadataRecord, NifError>)
    ensures
        match r {
            Ok(record) => record_from_input(input@) == Ok::<MetadataModel, Failure>(record@)
                && in_range(record@),
            Err(e) => record_from_input(input@) == Err::<MetadataModel, Failure>(e@),
        },
{
    if input.seller_fee_basis_points > MAX_SELLER_FEE_BASIS_POINTS {
        return Err(NifError::InvalidMetadata("seller_fee_basis_points is out of range".to_owned()));
    }
    let none: Vec<CreatorInput> = Vec::new();
    let listed: &Vec<CreatorInput> = match &input.creators {
        Some(creators) => creators,
        None => &none,
    };
    let ghost all = creator_inputs_model(listed@);
    proof {
        assert(all =~= listed_creators(input@));
    }
    let mut i: usize = 0;
    while i < listed.len()
        invariant
            i <= listed.len(),
            all == creator_inputs_model(listed@),
            all == listed_creators(input@),
            input.seller_fee_basis_points <= MAX_SELLER_FEE_BASIS_POINTS,
            forall|j: int| 0 <= j < i ==> (#[trigger] all[j]).share <= MAX_CREATOR_SHARE,
        decreases listed.len() - i,
    {
        if listed[i].share > MAX_CREATOR_SHARE {
            proof {
                assert(all[i as int].share > MAX_CREATOR_SHARE);
            }
            return Err(NifError::InvalidMetadata("creator share is out of range".to_owned()));
        }
        i += 1;
    }
    let mut creators: Vec<Creator> = Vec::new();
    let mut i: usize = 0;
    proof {
        assert(all.take(0) =~= Seq::<CreatorInputModel>::empty());
        assert(creators_model(creators@) =~= Seq::<CreatorModel>::empty());
    }
    while i < listed.len()
        invariant
            i <= listed.len(),
            all == creator_inputs_model(listed@),
            all == listed_creators(input@),
            input.seller_fee_basis_points <= MAX_SELLER_FEE_BASIS_POINTS,
            shares_in_range(all),
            creators@.len() == i,
            forall|j: int| 0 <= j < i ==> (#[trigger] creators@[j]).share <= MAX_CREATOR_SHARE,
            creators_from_inputs(all.take(i as int)) == Ok::<Seq<CreatorModel>, Seq<char>>(
                creators_model(creators@),
            ),
        decreases listed.len() - i,
    {
        proof {
            assert(all.take(i as int + 1).drop_last() =~= all.take(i as int));
            assert(all.take(i as int + 1).last() == all[i as int]);
            assert(all.take(i as int + 1).len() == i + 1);
        }
        match parse_pubkey(listed[i].address.as_str()) {
            Ok(address) => {
                let ghost before = creators@;
                let creator = Creator {
                    address,
                    verified: listed[i].verified,
                    share: listed[i].share,
                };
                proof {
                    assert(all[i as int].share <= MAX_CREATOR_SHARE);
                    assert(creator_from_input(all[i as int]) == Ok::<CreatorModel, Seq<char>>(
                        creator@,
                    ));
                }
                creators.push(creator);
                proof {
                    assert(creators_model(creators@) =~= creators_model(before).push(creator@));
                }
            },
            Err(e) => {
                proof {
                    assert(creators_from_inputs(all.take(i as int + 1)) == Err::<
                        Seq<CreatorModel>,
                        Seq<char>,
                    >(e@.detail));
                    lemma_creators_error_persists(all, i as int + 1, all.len() as int);
                    assert(all.take(all.len() as int) =~= all);
                }
                return Err(e);
            },
        }
        i += 1;
    }
    proof {
        assert(all.take(i as int) =~= all);
    }
    let record = MetadataRecord {
        name: input.name.clone(),
        symbol: input.symbol.clone(),
        uri: input.uri.clone(),
        seller_fee_basis_points: input.seller_fee_basis_points,
        creators,
        primary_sale_happened: input.primary_sale_happened,
        is_mutable: input.is_mutable,
    };
    proof {
        assert forall|j: int| 0 <= j < record@.creators.len() implies (
        #[trigger] record@.creators[j]).share <= MAX_CREATOR_SHARE by {
            assert(record@.creators[j] == record.creators@[j]@);
        }
    }
    Ok(record)
}

/// Reads a metadata document into a record.
pub fn parse_metadata_document(metadata_json: &str) -> (r: Result<MetadataRecord, NifError>)
    ensures
        match r {
            Ok(record) => document_record(metadata_json@) == Ok::<MetadataModel, Failure>(record@)
                && in_range(record@),
            Err(e) => document_record(metadata_json@) == Err::<MetadataModel, Failure>(e@),
        },
{
    match parse_metadata_input(metadata_json) {
        Ok(input) => record_from_metadata_input(&input),
        Err(reason) => Err(
            NifError::InvalidMetadata(prefixed("JSON parse error: ", reason.as_str())),
        ),
    }
}

/// The binary form of a record, as the protocol reads it. The reserved
/// fields are set here: all four absent, and the first token program
/// version.
pub fn record_to_bytes(record: &MetadataRecord) -> (r: Result<Vec<u8>, NifError>)
    ensures
        match r {
            Ok(bytes) => encodable(record@) && bytes@ == metadata_layout(record@)
                && spec_metadata_from_borsh(bytes@) == Ok::<MetadataModel, Seq<char>>(record@),
            Err(e) => !encodable(record@) && e@ == (Failure {
                kind: ErrorKind::SerializationError,
                detail: "Borsh serialize error: "@ + spec_borsh_complaint(record@, reserved_layout()),
            }),
        },
{
    let reserved: [u8; 5] = [0, 0, 0, 0, 0];
    proof {
        assert(reserved@ =~= reserved_layout());
    }
    match borsh_encode(record, reserved.as_slice()) {
        Ok(bytes) => Ok(bytes),
        Err(reason) => Err(
            NifError::SerializationError(prefixed("Borsh serialize error: ", reason.as_str())),
        ),
    }
}

/// Writes a record in its binary form, as base-64 text.
///
/// The text decodes back to the record it was written from, provided the
/// record is within its ranges.
pub fn encode_record(record: &MetadataRecord) -> (r: Result<String, NifError>)
    ensures
        match r {
            Ok(text) => encoded_record(record@) == Ok::<Seq<char>, Failure>(text@) && (in_range(
                record@,
            ) ==> deserialized(text@) == Ok::<MetadataModel, Failure>(record@)),
            Err(e) => encoded_record(record@) == Err::<Seq<char>, Failure>(e@),
        },
{
    let bytes = match record_to_bytes(record) {
        Ok(bytes) => bytes,
        Err(e) => { return Err(e); },
    };
    if bytes.len() > usize::MAX / 4 * 3 {
        return Err(
            NifError::SerializationError("Base64 encode error: input is too long".to_owned()),
        );
    }
    Ok(base64_encode(bytes.as_slice()))
}

/// Serializes a metadata document: reads its JSON text, checks each field,
/// decodes each creator's address, and writes the record in the protocol's
/// binary form as base-64 text.
///
/// Fails with `InvalidMetadata` where the text is no JSON document of the
/// expected fields or a field is out of its range, with `InvalidPubkey` where
/// a creator's address is no public key, and with `SerializationError` where
/// the record cannot be written. The reserved fields are always written as
/// absent, whatever the document says of them. On success the text
/// deserializes to the record of the document, field by field.
pub fn serialize_metadata_to_borsh(metadata_json: &str) -> (r: Result<String, NifError>)
    ensures
        match r {
            Ok(text) => serialized(metadata_json@) == Ok::<Seq<char>, Failure>(text@)
                && deserialized(text@) == document_record(metadata_json@),
            Err(e) => serialized(metadata_json@) == Err::<Seq<char>, Failure>(e@),
        },
{
    let record = match parse_metadata_document(metadata_json) {
        Ok(record) => record,
        Err(e) => { return Err(e); },
    };
    encode_record(&record)
}

/// Deserializes base-64 text into the metadata record that it holds.
///
/// Fails with `InvalidMetadata` where the text is not base-64, where the bytes
/// are no binary record, or where a field of the record is out of its range.
pub fn deserialize_metadata_from_borsh(metadata_borsh: &str) -> (r: Result<
    MetadataRecord,
    NifError,
>)
    ensures
        match r {
            Ok(record) => deserialized(metadata_borsh@) == Ok::<MetadataModel, Failure>(record@)
                && in_range(record@),
            Err(e) => deserialized(metadata_borsh@) == Err::<MetadataModel, Failure>(e@),
        },
{
    let bytes = match base64_decode(metadata_borsh) {
        Ok(bytes) => bytes,
        Err(reason) => {
            return Err(
                NifError::InvalidMetadata(prefixed("Base64 decode error: ", reason.as_str())),
            );
        },
    };
    let record = match borsh_decode(bytes.as_slice()) {
        Ok(record) => record,
        Err(reason) => {
            return Err(
                NifError::InvalidMetadata(prefixed("Borsh deserialize error: ", reason.as_str())),
            );
        },
    };
    accept_in_range(record)
}

/// Hands a decoded record on where every field is within its range, and
/// refuses it as invalid metadata where one is not.
pub fn accept_in_range(record: MetadataRecord) -> (r: Result<MetadataRecord, NifError>)
    ensures
        match r {
            Ok(accepted) => in_range(record@) && accepted@ == record@,
            Err(e) => !in_range(record@) && e@ == (Failure {
                kind: ErrorKind::InvalidMetadata,
                detail: "Borsh deserialize error: a field is out of range"@,
            }),
        },
{
    if record.seller_fee_basis_points > MAX_SELLER_FEE_BASIS_POINTS {
        return Err(
            NifError::InvalidMetadata(
                "Borsh deserialize error: a field is out of range".to_owned(),
            ),
        );
    }
    let mut i: usize = 0;
    while i < record.creators.len()
        invariant
            i <= record.creators.len(),
            record.seller_fee_basis_points <= MAX_SELLER_FEE_BASIS_POINTS,
            forall|j: int| 0 <= j < i ==> (#[trigger] record@.creators[j]).share
                <= MAX_CREATOR_SHARE,
        decreases record.creators.len() - i,
    {
        if record.creators[i].share > MAX_CREATOR_SHARE {
            proof {
                assert(record@.creators[i as int].share > MAX_CREATOR_SHARE);
            }
            return Err(
                NifError::InvalidMetadata(
                    "Borsh deserialize error: a field is out of range".to_owned(),
                ),
            );
        }
        i += 1;
    }
    Ok(record)
}

/// A document that stands for a record whose texts and creators can be
/// counted serializes, and to the base-64 text of the record's binary form,
/// in which the reserved fields are absent.
pub proof fn lemma_valid_document_serializes(text: Seq<char>, record: MetadataModel)
    requires
        document_record(text) == Ok::<MetadataModel, Failure>(record),
        encodable(record),
        metadata_layout(record).len() <= max_base64_input(),
    ensures
        serialized(text) == Ok::<Seq<char>, Failure>(spec_base64_encode(metadata_layout(record))),
{
}

/// A document whose text the JSON reader refuses, as an object and as an
/// array, fails to serialize with `InvalidMetadata`, and the detail says that
/// the JSON could not be parsed, followed by the reader's complaint.
pub proof fn lemma_unreadable_document_is_invalid_metadata(text: Seq<char>)
    requires
        spec_json_object(text) is Err,
        spec_json_array(text) is Err,
    ensures
        serialized(text) == Err::<Seq<char>, Failure>(
            Failure {
                kind: ErrorKind::InvalidMetadata,
                detail: "JSON parse error: "@ + spec_json_object(text)->Err_0,
            },
        ),
{
}

/// A document that reads well and is within its ranges, but lists a creator
/// whose address is no public key, fails to serialize with `InvalidPubkey`
/// and never with `InvalidMetadata`.
pub proof fn lemma_malformed_creator_is_invalid_pubkey(text: Seq<char>)
    requires
        metadata_input(text) is Ok,
        metadata_input(text)->Ok_0.seller_fee_basis_points <= MAX_SELLER_FEE_BASIS_POINTS,
        shares_in_range(listed_creators(metadata_input(text)->Ok_0)),
        creators_from_inputs(listed_creators(metadata_input(text)->Ok_0)) is Err,
    ensures
        serialized(text) is Err,
        serialized(text)->Err_0.kind == ErrorKind::InvalidPubkey,
{
}

} // verus!
