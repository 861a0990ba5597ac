//! Protocol instructions and the three builders that arrange their accounts
//! and payload.

use crate::error::{ErrorKind, Failure, NifError};
use crate::keys::PublicKey;
use crate::metadata::{
    encodable, metadata_layout, record_to_bytes, reserved_layout, spec_borsh_complaint,
    spec_metadata_from_borsh, MetadataRecord,
};
use crate::wire::{le_bytes_u32, le_bytes_u64};
use borsh::BorshDeserialize;
use mpl_bubblegum::instructions::{CreateTreeConfigBuilder, MintV1Builder, TransferBuilder};
use mpl_bubblegum::types::MetadataArgs;
use solana_sdk::pubkey::Pubkey;
use vstd::string::*;
use vstd::pervasive::unreached;
use vstd::prelude::*;

verus! {

/// The program that every instruction of this library addresses.
pub const BUBBLEGUM_PROGRAM_ID: [u8; 32] = [
    152, 139, 128, 235, 121, 53, 40, 105, 178, 36, 116, 95, 89, 221, 191, 138,
    38, 88, 202, 19, 220, 104, 129, 33, 38, 53, 28, 174, 7, 193, 165, 165,
];

/// The log wrapper program, a read-only account of every instruction.
pub const LOG_WRAPPER_ID: [u8; 32] = [
    11, 188, 15, 192, 187, 71, 202, 47, 116, 196, 17, 46, 148, 171, 19, 207,
    163, 198, 52, 229, 220, 23, 234, 203, 3, 205, 26, 35, 205, 126, 120, 124,
];

/// The account compression program, a read-only account of every instruction.
pub const COMPRESSION_PROGRAM_ID: [u8; 32] = [
    9, 42, 19, 238, 149, 196, 28, 186, 8, 166, 127, 90, 198, 126, 141, 247,
    225, 218, 17, 98, 94, 29, 100, 19, 127, 143, 79, 35, 131, 3, 127, 20,
];

/// The system program, a read-only account of every instruction.
pub const SYSTEM_PROGRAM_ID: [u8; 32] = [
    0, 0, 0, 0, 0, 0, 0, 0, 0, 0, 0, 0, 0, 0, 0, 0,
    0, 0, 0, 0, 0, 0, 0, 0, 0, 0, 0, 0, 0, 0, 0, 0,
];

/// Leading bytes of the payload of a tree-creation instruction.
pub const CREATE_TREE_DISCRIMINATOR: [u8; 8] = [165, 83, 136, 142, 89, 202, 47, 220];

/// Leading bytes of the payload of a mint instruction.
pub const MINT_DISCRIMINATOR: [u8; 8] = [145, 98, 192, 118, 184, 147, 118, 104];

/// Leading bytes of the payload of a transfer instruction.
pub const TRANSFER_DISCRIMINATOR: [u8; 8] = [163, 52, 200, 231, 140, 3, 69, 186];

/// One account reference of an instruction, with its two flags.
#[derive(Clone, Copy, Debug)]
pub struct AccountMeta {
    pub pubkey: PublicKey,
    pub is_signer: bool,
    pub is_writable: bool,
}

/// The mathematical model of an `AccountMeta`.
pub ghost struct AccountRole {
    pub pubkey: Seq<u8>,
    pub is_signer: bool,
    pub is_writable: bool,
}

impl View for AccountMeta {
    type V = AccountRole;

    open spec fn view(&self) -> AccountRole {
        AccountRole {
            pubkey: self.pubkey@,
            is_signer: self.is_signer,
            is_writable: self.is_writable,
        }
    }
}

/// One unit of on-chain work: a program, its ordered accounts and a payload.
#[derive(Debug)]
pub struct Instruction {
    pub program_id: PublicKey,
    pub accounts: Vec<AccountMeta>,
    pub data: Vec<u8>,
}

/// The mathematical model of an `Instruction`.
pub ghost struct InstructionModel {
    pub program_id: Seq<u8>,
    pub accounts: Seq<AccountRole>,
    pub data: Seq<u8>,
}

impl View for Instruction {
    type V = InstructionModel;

    open spec fn view(&self) -> InstructionModel {
        InstructionModel {
            program_id: self.program_id@,
            accounts: Seq::new(self.accounts@.len(), |i: int| self.accounts@[i]@),
            data: self.data@,
        }
    }
}

/// A writable account reference.
pub open spec fn writable(pubkey: Seq<u8>, is_signer: bool) -> AccountRole {
    AccountRole { pubkey, is_signer, is_writable: true }
}

/// A read-only account reference.
pub open spec fn readonly(pubkey: Seq<u8>, is_signer: bool) -> AccountRole {
    AccountRole { pubkey, is_signer, is_writable: false }
}

/// The tree-creation instruction that the protocol mandates for the given
/// accounts and sizes: the two tree accounts writable, the payer a writable
/// signer, the tree creator a read-only signer, then the three programs; the
/// payload holds both sizes and leaves the tree's visibility unset.
pub open spec fn create_tree_instruction(
    payer: Seq<u8>,
    tree_creator: Seq<u8>,
    tree_config: Seq<u8>,
    merkle_tree: Seq<u8>,
    max_depth: u32,
    max_buffer_size: u32,
) -> InstructionModel {
    InstructionModel {
        program_id: BUBBLEGUM_PROGRAM_ID@,
        accounts: seq![
            writable(tree_config, false),
            writable(merkle_tree, false),
            writable(payer, true),
            readonly(tree_creator, true),
            readonly(LOG_WRAPPER_ID@, false),
            readonly(COMPRESSION_PROGRAM_ID@, false),
            readonly(SYSTEM_PROGRAM_ID@, false),
        ],
        data: CREATE_TREE_DISCRIMINATOR@ + le_bytes_u32(max_depth) + le_bytes_u32(max_buffer_size)
            + seq![0u8],
    }
}

/// A transfer instruction as the protocol lays it out: owner and delegate
/// sign as the two flags say, the Merkle tree is the one writable account;
/// the payload holds the leaf's proof triple, its nonce and its index.
pub open spec fn transfer_instruction_signed_by(
    tree_config: Seq<u8>,
    merkle_tree: Seq<u8>,
    leaf_owner: Seq<u8>,
    owner_signs: bool,
    leaf_delegate: Seq<u8>,
    delegate_signs: bool,
    new_leaf_owner: Seq<u8>,
    root: Seq<u8>,
    data_hash: Seq<u8>,
    creator_hash: Seq<u8>,
    nonce: u64,
    index: u32,
) -> InstructionModel {
    InstructionModel {
        program_id: BUBBLEGUM_PROGRAM_ID@,
        accounts: seq![
            readonly(tree_config, false),
            readonly(leaf_owner, owner_signs),
            readonly(leaf_delegate, delegate_signs),
            readonly(new_leaf_owner, false),
            writable(merkle_tree, false),
            readonly(LOG_WRAPPER_ID@, false),
            readonly(COMPRESSION_PROGRAM_ID@, false),
            readonly(SYSTEM_PROGRAM_ID@, false),
        ],
        data: TRANSFER_DISCRIMINATOR@ + root + data_hash + creator_hash + le_bytes_u64(nonce)
            + le_bytes_u32(index),
    }
}

/// The transfer instruction that the protocol mandates here: the current
/// owner authorizes as a signer, the delegate does not.
pub open spec fn transfer_instruction(
    tree_config: Seq<u8>,
    merkle_tree: Seq<u8>,
    leaf_owner: Seq<u8>,
    leaf_delegate: Seq<u8>,
    new_leaf_owner: Seq<u8>,
    root: Seq<u8>,
    data_hash: Seq<u8>,
    creator_hash: Seq<u8>,
    nonce: u64,
    index: u32,
) -> InstructionModel {
    transfer_instruction_signed_by(
        tree_config,
        merkle_tree,
        leaf_owner,
        true,
        leaf_delegate,
        false,
        new_leaf_owner,
        root,
        data_hash,
        creator_hash,
        nonce,
        index,
    )
}

/// Calls `CreateTreeConfigBuilder` with the four accounts and the two sizes
/// set, and `instruction()` on it.
///
/// Trusted: the instruction is the one `create_tree_instruction` describes,
/// which lists the accounts in the order and with the flags of the builder's
/// source, its three default programs, and the payload as the discriminator
/// followed by the arguments in their binary encoding.
#[verifier::external_body]
fn outside_create_tree_instruction(
    payer: &PublicKey,
    tree_creator: &PublicKey,
    tree_config: &PublicKey,
    merkle_tree: &PublicKey,
    max_depth: u32,
    max_buffer_size: u32,
) -> (ix: Instruction)
    ensures
        ix@ == create_tree_instruction(
            payer@,
            tree_creator@,
            tree_config@,
            merkle_tree@,
            max_depth,
            max_buffer_size,
        ),
{
    let ix = CreateTreeConfigBuilder::new()
        .payer(payer.bytes.into())
        .tree_creator(tree_creator.bytes.into())
        .tree_config(tree_config.bytes.into())
        .merkle_tree(merkle_tree.bytes.into())
        .max_depth(max_depth)
        .max_buffer_size(max_buffer_size)
        .instruction();
    let accounts = ix.accounts.iter().map(|a| AccountMeta {
        pubkey: PublicKey { bytes: a.pubkey.to_bytes() }, is_signer: a.is_signer, is_writable: a.is_writable,
    }).collect();
    Instruction { program_id: PublicKey { bytes: ix.program_id.to_bytes() }, accounts, data: ix.data }
}

/// Calls `TransferBuilder` with the five accounts, the two signer flags, the
/// proof triple, the nonce and the index set, and `instruction()` on it.
///
/// Trusted: the instruction is the one `transfer_instruction_signed_by`
/// describes, which lists the accounts in the order and with the flags of
/// the builder's source, its three default programs, and the payload as the
/// discriminator followed by the arguments in their binary encoding.
#[verifier::external_body]
fn outside_transfer_instruction(
    tree_config: &PublicKey,
    merkle_tree: &PublicKey,
    leaf_owner: &PublicKey,
    owner_signs: bool,
    leaf_delegate: &PublicKey,
    delegate_signs: bool,
    new_leaf_owner: &PublicKey,
    root: &[u8; 32],
    data_hash: &[u8; 32],
    creator_hash: &[u8; 32],
    nonce: u64,
    index: u32,
) -> (ix: Instruction)
    ensures
        ix@ == transfer_instruction_signed_by(
            tree_config@,
            merkle_tree@,
            leaf_owner@,
            owner_signs,
            leaf_delegate@,
            delegate_signs,
            new_leaf_owner@,
            root@,
            data_hash@,
            creator_hash@,
            nonce,
            index,
        ),
{
    let ix = TransferBuilder::new()
        .tree_config(tree_config.bytes.into())
        .merkle_tree(merkle_tree.bytes.into())
        .leaf_owner(leaf_owner.bytes.into(), owner_signs)
        .leaf_delegate(leaf_delegate.bytes.into(), delegate_signs)
        .new_leaf_owner(new_leaf_owner.bytes.into())
        .root(*root).data_hash(*data_hash).creator_hash(*creator_hash)
        .nonce(nonce).index(index)
        .instruction();
    let accounts = ix.accounts.iter().map(|a| AccountMeta {
        pubkey: PublicKey { bytes: a.pubkey.to_bytes() }, is_signer: a.is_signer, is_writable: a.is_writable,
    }).collect();
    Instruction { program_id: PublicKey { bytes: ix.program_id.to_bytes() }, accounts, data: ix.data }
}

/// The mint instruction that the protocol mandates: the tree configuration
/// and the Merkle tree writable, the payer and the tree authority read-only
/// signers, owner and delegate plain references; the payload holds the binary
/// form of the metadata.
pub open spec fn mint_instruction(
    tree_config: Seq<u8>,
    leaf_owner: Seq<u8>,
    leaf_delegate: Seq<u8>,
    merkle_tree: Seq<u8>,
    payer: Seq<u8>,
    tree_authority: Seq<u8>,
    metadata: Seq<u8>,
) -> InstructionModel {
    InstructionModel {
        program_id: BUBBLEGUM_PROGRAM_ID@,
        accounts: seq![
            writable(tree_config, false),
            readonly(leaf_owner, false),
            readonly(leaf_delegate, false),
            writable(merkle_tree, false),
            readonly(payer, true),
            readonly(tree_authority, true),
            readonly(LOG_WRAPPER_ID@, false),
            readonly(COMPRESSION_PROGRAM_ID@, false),
            readonly(SYSTEM_PROGRAM_ID@, false),
        ],
        data: MINT_DISCRIMINATOR@ + metadata,
    }
}

/// Reads the metadata with `MetadataArgs::try_from_slice`, then calls
/// `MintV1Builder` with the six accounts and the metadata set, and
/// `instruction()` on it.
///
/// Trusted: an instruction comes back exactly where the decoder accepts the
/// bytes, and it is the one `mint_instruction` describes, which lists the
/// accounts in the order and with the flags of the builder's source and its
/// three default programs. The payload is the discriminator followed by the
/// metadata written again, which are the bytes that were read, since the
/// encoding maps values and byte strings one to one.
#[verifier::external_body]
fn outside_mint_instruction(
    tree_config: &PublicKey,
    leaf_owner: &PublicKey,
    leaf_delegate: &PublicKey,
    merkle_tree: &PublicKey,
    payer: &PublicKey,
    tree_authority: &PublicKey,
    metadata: &[u8],
) -> (r: Option<Instruction>)
    ensures
        match r {
            Some(ix) => spec_metadata_from_borsh(metadata@) is Ok && ix@ == mint_instruction(
                tree_config@,
                leaf_owner@,
                leaf_delegate@,
                merkle_tree@,
                payer@,
                tree_authority@,
                metadata@,
            ),
            None => spec_metadata_from_borsh(metadata@) is Err,
        },
{
    let ix = MintV1Builder::new()
        .tree_config(tree_config.bytes.into()).leaf_owner(leaf_owner.bytes.into())
        .leaf_delegate(leaf_delegate.bytes.into()).merkle_tree(merkle_tree.bytes.into())
        .payer(payer.bytes.into()).tree_creator_or_delegate(tree_authority.bytes.into())
        .metadata(MetadataArgs::try_from_slice(metadata).ok()?)
        .instruction();
    let accounts = ix.accounts.iter().map(|a| AccountMeta {
        pubkey: PublicKey { bytes: a.pubkey.to_bytes() }, is_signer: a.is_signer, is_writable: a.is_writable,
    }).collect();
    Some(Instruction { program_id: PublicKey { bytes: ix.program_id.to_bytes() }, accounts, data: ix.data })
}

/// The Merkle proof of a leaf as the ledger holds it now: the tree's root, the
/// two hashes of the leaf, and the leaf's nonce. A transfer built on other
/// values than the leaf's current ones is rejected by the protocol.
#[derive(Clone, Copy, Debug)]
pub struct LeafProof {
    pub root: [u8; 32],
    pub data_hash: [u8; 32],
    pub creator_hash: [u8; 32],
    pub nonce: u64,
}

/// The address of the configuration account of a tree: the one that the
/// program derives from the address of the tree's Merkle account. Nothing
/// where no such address exists.
pub uninterp spec fn spec_tree_config_address(merkle_tree: Seq<u8>) -> Option<Seq<u8>>;

/// Calls `Pubkey::try_find_program_address` with the Merkle tree's address as
/// the one seed and the program's address, as the client's `find_pda` does.
///
/// Trusted: the result is the address that the search finds, and nothing
/// where it finds none.
#[verifier::external_body]
fn outside_tree_config_address(merkle_tree: &PublicKey) -> (r: Option<PublicKey>)
    ensures
        match r {
            Some(address) => spec_tree_config_address(merkle_tree@) == Some(address@),
            None => spec_tree_config_address(merkle_tree@) is None,
        },
{
    Pubkey::try_find_program_address(&[&merkle_tree.bytes], &mpl_bubblegum::ID)
        .map(|found| PublicKey { bytes: found.0.to_bytes() })
}

/// The address of a tree's configuration account, as a result: a tree without
/// one is an instruction error.
pub open spec fn tree_config_of(merkle_tree: Seq<u8>) -> Result<Seq<u8>, Failure> {
    match spec_tree_config_address(merkle_tree) {
        Some(address) => Ok(address),
        None => Err(
            Failure {
                kind: ErrorKind::InstructionError,
                detail: "no tree configuration address can be derived"@,
            },
        ),
    }
}

/// Derives the address of the configuration account of a tree from the
/// address of its Merkle account.
pub fn derive_tree_config(merkle_tree: &PublicKey) -> (r: Result<PublicKey, NifError>)
    ensures
        match r {
            Ok(address) => tree_config_of(merkle_tree@) == Ok::<Seq<u8>, Failure>(address@),
            Err(e) => tree_config_of(merkle_tree@) == Err::<Seq<u8>, Failure>(e@),
        },
{
    match outside_tree_config_address(merkle_tree) {
        Some(address) => Ok(address),
        None => Err(
            NifError::InstructionError("no tree configuration address can be derived".to_owned()),
        ),
    }
}

/// Builds the instruction that creates a tree. Payer and tree creator must
/// both sign the transaction that carries it.
pub fn build_create_tree_instruction(
    payer: &PublicKey,
    tree_creator: &PublicKey,
    tree_config: &PublicKey,
    merkle_tree: &PublicKey,
    max_depth: u32,
    max_buffer_size: u32,
) -> (ix: Instruction)
    ensures
        ix@ == create_tree_instruction(
            payer@,
            tree_creator@,
            tree_config@,
            merkle_tree@,
            max_depth,
            max_buffer_size,
        ),
{
    outside_create_tree_instruction(
        payer,
        tree_creator,
        tree_config,
        merkle_tree,
        max_depth,
        max_buffer_size,
    )
}

/// Builds the instruction that mints one asset into a tree. The payer also
/// acts as the tree's authority, and is the only signer.
///
/// Fails with `SerializationError` exactly where the metadata cannot be
/// written in its binary form: a text or the list of creators is longer than
/// a 32-bit number counts.
pub fn build_mint_instruction(
    tree_config: &PublicKey,
    merkle_tree: &PublicKey,
    leaf_owner: &PublicKey,
    leaf_delegate: &PublicKey,
    payer: &PublicKey,
    metadata: &MetadataRecord,
) -> (r: Result<Instruction, NifError>)
    ensures
        match r {
            Ok(ix) => encodable(metadata@) && ix@ == mint_instruction(
                tree_config@,
                leaf_owner@,
                leaf_delegate@,
                merkle_tree@,
                payer@,
                payer@,
                metadata_layout(metadata@),
            ),
            Err(e) => !encodable(metadata@) && e@ == (Failure {
                kind: ErrorKind::SerializationError,
                detail: "Borsh serialize error: "@ + spec_borsh_complaint(
                    metadata@,
                    reserved_layout(),
                ),
            }),
        },
{
    let bytes = match record_to_bytes(metadata) {
        Ok(bytes) => bytes,
        Err(e) => { return Err(e); },
    };
    match outside_mint_instruction(
        tree_config,
        leaf_owner,
        leaf_delegate,
        merkle_tree,
        payer,
        payer,
        bytes.as_slice(),
    ) {
        Some(ix) => Ok(ix),
        None => unreached(),
    }
}

/// Builds the instruction that hands a leaf to a new owner. The current owner
/// authorizes it as a signer; the delegate does not sign.
pub fn build_transfer_instruction(
    tree_config: &PublicKey,
    merkle_tree: &PublicKey,
    leaf_owner: &PublicKey,
    leaf_delegate: &PublicKey,
    new_leaf_owner: &PublicKey,
    proof: &LeafProof,
    index: u32,
) -> (ix: Instruction)
    ensures
        ix@ == transfer_instruction(
            tree_config@,
            merkle_tree@,
            leaf_owner@,
            leaf_delegate@,
            new_leaf_owner@,
            proof.root@,
            proof.data_hash@,
            proof.creator_hash@,
            proof.nonce,
            index,
        ),
{
    outside_transfer_instruction(
        tree_config,
        merkle_tree,
        leaf_owner,
        true,
        leaf_delegate,
        false,
        new_leaf_owner,
        &proof.root,
        &proof.data_hash,
        &proof.creator_hash,
        proof.nonce,
        index,
    )
}

} // verus!
