//! The three operations, each as a plan: what to build from the caller's
//! texts, and what to do next for each answer of the ledger endpoint.
//!
//! The library performs no network call. An operation starts by parsing and
//! building; the caller then fetches a blockhash, hands it in, submits the
//! signed transaction, and hands in what the endpoint said, until the plan
//! says that the operation is finished.

use crate::error::{ErrorKind, Failure, NifError};
use crate::instruction::{
    build_create_tree_instruction, build_mint_instruction, build_transfer_instruction,
    create_tree_instruction, derive_tree_config, mint_instruction, transfer_instruction,
    tree_config_of, Instruction, InstructionModel, LeafProof,
};
use crate::keys::{
    keypair_from_text, parse_keypair, parse_pubkey, pubkey_from_text, KeyPair, PublicKey,
};
use crate::metadata::{
    deserialize_metadata_from_borsh, deserialized, encodable, metadata_layout, reserved_layout,
    spec_borsh_complaint,
};
use crate::submission::{
    doubled, is_rate_limited, next_delay, reports_rate_limit, FIRST_RETRY_DELAY_SECONDS,
    MAX_SUBMIT_ATTEMPTS,
};
use crate::transaction::{
    assemble_and_sign, fits_one_message, has_pair, incomplete_complaint, instructions_model,
    message_refusal,
    is_required_signer, keypairs_model, public_half, signed, signers_complete, Transaction,
    TransactionModel,
};
use vstd::prelude::*;
use vstd::string::*;

verus! {

/// What an operation has built and still has to sign.
pub struct PreparedTransaction {
    pub instructions: Vec<Instruction>,
    pub fee_payer: PublicKey,
    pub signers: Vec<KeyPair>,
}

/// The mathematical model of a `PreparedTransaction`.
pub ghost struct PreparedModel {
    pub instructions: Seq<InstructionModel>,
    pub fee_payer: Seq<u8>,
    pub signers: Seq<Seq<u8>>,
}

impl View for PreparedTransaction {
    type V = PreparedModel;

    open spec fn view(&self) -> PreparedModel {
        PreparedModel {
            instructions: instructions_model(self.instructions@),
            fee_payer: self.fee_payer@,
            signers: keypairs_model(self.signers@),
        }
    }
}

/// Where an operation stands.
pub enum Phase {
    /// Built; waiting for a recent blockhash to sign with.
    AwaitingBlockhash(PreparedTransaction),
    /// Signed and submitted `attempts` times; waiting for the endpoint's
    /// answer. A further submission would wait `retry_delay_seconds` first.
    AwaitingConfirmation { transaction: Transaction, attempts: u32, retry_delay_seconds: u64 },
    /// Finished: its result was handed out.
    Finished,
}

/// The mathematical model of a `Phase`.
pub ghost enum PhaseModel {
    AwaitingBlockhash(PreparedModel),
    AwaitingConfirmation { transaction: TransactionModel, attempts: u32, retry_delay_seconds: u64 },
    Finished,
}

impl View for Phase {
    type V = PhaseModel;

    open spec fn view(&self) -> PhaseModel {
        match self {
            Phase::AwaitingBlockhash(prepared) => PhaseModel::AwaitingBlockhash(prepared@),
            Phase::AwaitingConfirmation { transaction, attempts, retry_delay_seconds } =>
                PhaseModel::AwaitingConfirmation {
                    transaction: transaction@,
                    attempts: *attempts,
                    retry_delay_seconds: *retry_delay_seconds,
                },
            Phase::Finished => PhaseModel::Finished,
        }
    }
}

/// One operation against one endpoint.
pub struct Operation {
    pub rpc_url: String,
    pub phase: Phase,
}

/// The mathematical model of an `Operation`.
pub ghost struct OperationModel {
    pub rpc_url: Seq<char>,
    pub phase: PhaseModel,
}

impl View for Operation {
    type V = OperationModel;

    open spec fn view(&self) -> OperationModel {
        OperationModel { rpc_url: self.rpc_url@, phase: self.phase@ }
    }
}

/// What the endpoint answered. A failure comes as the endpoint's message.
pub enum Event {
    /// The answer to fetching a recent blockhash.
    Blockhash(Result<[u8; 32], String>),
    /// The answer to submitting the transaction and waiting for it to be
    /// confirmed: the transaction's identifier.
    Confirmation(Result<String, String>),
}

/// The mathematical model of an `Event`.
pub ghost enum EventModel {
    Blockhash(Result<Seq<u8>, Seq<char>>),
    Confirmation(Result<Seq<char>, Seq<char>>),
}

impl View for Event {
    type V = EventModel;

    open spec fn view(&self) -> EventModel {
        match self {
            Event::Blockhash(Ok(hash)) => EventModel::Blockhash(Ok(hash@)),
            Event::Blockhash(Err(message)) => EventModel::Blockhash(Err(message@)),
            Event::Confirmation(Ok(id)) => EventModel::Confirmation(Ok(id@)),
            Event::Confirmation(Err(message)) => EventModel::Confirmation(Err(message@)),
        }
    }
}

/// What the caller is to do next.
#[derive(Debug)]
pub enum Action {
    /// Fetch a recent blockhash from the operation's endpoint.
    FetchBlockhash,
    /// Wait so many seconds, then submit the operation's transaction to its
    /// endpoint and wait for it to be confirmed.
    Submit { delay_seconds: u64 },
    /// Hand the result to the caller: the operation is finished.
    Finish(Result<String, NifError>),
}

/// The mathematical model of an `Action`.
pub ghost enum ActionModel {
    FetchBlockhash,
    Submit { delay_seconds: u64 },
    Finish(Result<Seq<char>, Failure>),
}

impl View for Action {
    type V = ActionModel;

    open spec fn view(&self) -> ActionModel {
        match self {
            Action::FetchBlockhash => ActionModel::FetchBlockhash,
            Action::Submit { delay_seconds } => ActionModel::Submit {
                delay_seconds: *delay_seconds,
            },
            Action::Finish(Ok(id)) => ActionModel::Finish(Ok(id@)),
            Action::Finish(Err(e)) => ActionModel::Finish(Err(e@)),
        }
    }
}

/// The end of an operation with the given failure.
pub open spec fn failed(rpc_url: Seq<char>, kind: ErrorKind, detail: Seq<char>) -> (
    OperationModel,
    ActionModel,
) {
    (
        OperationModel { rpc_url, phase: PhaseModel::Finished },
        ActionModel::Finish(Err(Failure { kind, detail })),
    )
}

/// What follows a blockhash: the transaction is signed and submitted at once,
/// or the operation ends with the reason why it could not be signed.
pub open spec fn after_blockhash(
    rpc_url: Seq<char>,
    prepared: PreparedModel,
    blockhash: Seq<u8>,
) -> (OperationModel, ActionModel) {
    if message_refusal(prepared.instructions, prepared.fee_payer) is Some {
        failed(
            rpc_url,
            ErrorKind::InstructionError,
            message_refusal(prepared.instructions, prepared.fee_payer)->Some_0,
        )
    } else {
        match signed(prepared.instructions, prepared.fee_payer, prepared.signers, blockhash) {
            Ok(transaction) => (
                OperationModel {
                    rpc_url,
                    phase: PhaseModel::AwaitingConfirmation {
                        transaction,
                        attempts: 1,
                        retry_delay_seconds: FIRST_RETRY_DELAY_SECONDS,
                    },
                },
                ActionModel::Submit { delay_seconds: 0 },
            ),
            Err(reason) => failed(rpc_url, ErrorKind::SerializationError, reason),
        }
    }
}

/// What follows a failed submission: another attempt after a wait, where the
/// endpoint reported rate limiting and attempts are left; else the end, with
/// the endpoint's message as it came.
pub open spec fn after_rejection(
    rpc_url: Seq<char>,
    transaction: TransactionModel,
    attempts: u32,
    retry_delay_seconds: u64,
    message: Seq<char>,
) -> (OperationModel, ActionModel) {
    if is_rate_limited(message) && attempts < MAX_SUBMIT_ATTEMPTS {
        (
            OperationModel {
                rpc_url,
                phase: PhaseModel::AwaitingConfirmation {
                    transaction,
                    attempts: (attempts + 1) as u32,
                    retry_delay_seconds: doubled(retry_delay_seconds),
                },
            },
            ActionModel::Submit { delay_seconds: retry_delay_seconds },
        )
    } else {
        failed(rpc_url, ErrorKind::RpcError, message)
    }
}

/// The next state of an operation and the next action, for each state and
/// each answer of the endpoint. An answer that the state did not ask for ends
/// the operation.
pub open spec fn next(state: OperationModel, event: EventModel) -> (OperationModel, ActionModel) {
    match (state.phase, event) {
        (PhaseModel::AwaitingBlockhash(prepared), EventModel::Blockhash(Ok(blockhash))) =>
            after_blockhash(state.rpc_url, prepared, blockhash),
        (PhaseModel::AwaitingBlockhash(_), EventModel::Blockhash(Err(message))) => failed(
            state.rpc_url,
            ErrorKind::RpcError,
            message,
        ),
        (
            PhaseModel::AwaitingConfirmation { transaction, attempts, retry_delay_seconds },
            EventModel::Confirmation(Ok(id)),
        ) => (
            OperationModel { rpc_url: state.rpc_url, phase: PhaseModel::Finished },
            ActionModel::Finish(Ok(id)),
        ),
        (
            PhaseModel::AwaitingConfirmation { transaction, attempts, retry_delay_seconds },
            EventModel::Confirmation(Err(message)),
        ) => after_rejection(state.rpc_url, transaction, attempts, retry_delay_seconds, message),
        _ => failed(state.rpc_url, ErrorKind::InstructionError, "unexpected event"@),
    }
}

/// Whether a state and an answer lead to a submission. A built transaction
/// is submitted on a blockhash exactly where it fits one message and the key
/// pairs are those of every required signer, and of no other; a signed one is
/// submitted again exactly where the endpoint reported rate limiting and
/// attempts are left.
pub open spec fn submits(state: OperationModel, event: EventModel) -> bool {
    match state.phase {
        PhaseModel::AwaitingBlockhash(prepared) => event matches EventModel::Blockhash(Ok(_))
            && fits_one_message(prepared.instructions, prepared.fee_payer) && signers_complete(
            prepared.instructions,
            prepared.fee_payer,
            prepared.signers,
        ),
        PhaseModel::AwaitingConfirmation { attempts, .. } => event matches EventModel::Confirmation(
            Err(message),
        ) && is_rate_limited(message) && attempts < MAX_SUBMIT_ATTEMPTS,
        PhaseModel::Finished => false,
    }
}

/// The failure that ends an operation whose key pairs are not those of the
/// required signers: a pair that is not asked for is a mismatch; without such
/// a pair, a signature is missing.
pub open spec fn signing_failure(state: OperationModel) -> Failure {
    Failure {
        kind: ErrorKind::SerializationError,
        detail: match state.phase {
            PhaseModel::AwaitingBlockhash(prepared) => incomplete_complaint(
                prepared.instructions,
                prepared.fee_payer,
                prepared.signers,
            ),
            _ => Seq::empty(),
        },
    }
}

/// Whether a state and an answer end the operation because it cannot be
/// signed: a blockhash came for a built transaction that fits one message,
/// and the key pairs are not those of the required signers.
pub open spec fn cannot_sign(state: OperationModel, event: EventModel) -> bool {
    state.phase matches PhaseModel::AwaitingBlockhash(prepared) && event matches EventModel::Blockhash(
        Ok(_),
    ) && fits_one_message(prepared.instructions, prepared.fee_payer) && !signers_complete(
        prepared.instructions,
        prepared.fee_payer,
        prepared.signers,
    )
}

impl Operation {
    /// Takes the endpoint's answer and says what follows.
    ///
    /// A blockhash is signed with at once, so that no transaction is signed
    /// with a stale one. A transaction is submitted only when every required
    /// signer has signed it. A failure of the endpoint ends the operation
    /// with `RpcError` and the endpoint's message unchanged, except that a
    /// submission refused for rate limiting is repeated, each time after
    /// twice the wait, up to five submissions in all.
    pub fn advance(self, event: Event) -> (r: (Operation, Action))
        ensures
            (r.0@, r.1@) == next(self@, event@),
            r.1 is Submit ==> r.0.phase is AwaitingConfirmation,
            r.1 is Finish <==> r.0.phase is Finished,
            r.1 !is FetchBlockhash,
            r.1 is Submit <==> submits(self@, event@),
            cannot_sign(self@, event@) ==> r.1@ == ActionModel::Finish(Err(signing_failure(self@))),
    {
        let rpc_url = self.rpc_url;
        match self.phase {
            Phase::AwaitingBlockhash(prepared) => match event {
                Event::Blockhash(Ok(blockhash)) => {
                    match assemble_and_sign(
                        &prepared.instructions,
                        &prepared.fee_payer,
                        &prepared.signers,
                        &blockhash,
                    ) {
                        Ok(transaction) => (
                            Operation {
                                rpc_url,
                                phase: Phase::AwaitingConfirmation {
                                    transaction,
                                    attempts: 1,
                                    retry_delay_seconds: FIRST_RETRY_DELAY_SECONDS,
                                },
                            },
                            Action::Submit { delay_seconds: 0 },
                        ),
                        Err(e) => (
                            Operation { rpc_url, phase: Phase::Finished },
                            Action::Finish(Err(e)),
                        ),
                    }
                },
                Event::Blockhash(Err(message)) => (
                    Operation { rpc_url, phase: Phase::Finished },
                    Action::Finish(Err(NifError::RpcError(message))),
                ),
                Event::Confirmation(_) => (
                    Operation { rpc_url, phase: Phase::Finished },
                    Action::Finish(Err(NifError::InstructionError("unexpected event".to_owned()))),
                ),
            },
            Phase::AwaitingConfirmation { transaction, attempts, retry_delay_seconds } =>
                match event {
                Event::Confirmation(Ok(id)) => (
                    Operation { rpc_url, phase: Phase::Finished },
                    Action::Finish(Ok(id)),
                ),
                Event::Confirmation(Err(message)) => {
                    if reports_rate_limit(message.as_str()) && attempts < MAX_SUBMIT_ATTEMPTS {
                        (
                            Operation {
                                rpc_url,
                                phase: Phase::AwaitingConfirmation {
                                    transaction,
                                    attempts: attempts + 1,
                                    retry_delay_seconds: next_delay(retry_delay_seconds),
                                },
                            },
                            Action::Submit { delay_seconds: retry_delay_seconds },
                        )
                    } else {
                        (
                            Operation { rpc_url, phase: Phase::Finished },
                            Action::Finish(Err(NifError::RpcError(message))),
                        )
                    }
                },
                Event::Blockhash(_) => (
                    Operation { rpc_url, phase: Phase::Finished },
                    Action::Finish(Err(NifError::InstructionError("unexpected event".to_owned()))),
                ),
            },
            Phase::Finished => (
                Operation { rpc_url, phase: Phase::Finished },
                Action::Finish(Err(NifError::InstructionError("unexpected event".to_owned()))),
            ),
        }
    }
}

/// The failure of a public key text.
pub open spec fn invalid_pubkey(reason: Seq<char>) -> Failure {
    Failure { kind: ErrorKind::InvalidPubkey, detail: reason }
}

/// The failure of a secret key text. Its detail is fixed, so that it holds no
/// part of the secret.
pub open spec fn invalid_keypair() -> Failure {
    Failure { kind: ErrorKind::InvalidKeypair, detail: "Invalid secret key"@ }
}

/// What creating a tree builds: the texts are read in the order payer key,
/// tree creator key, Merkle tree key, payer secret, tree creator secret, and
/// the first that does not read is the failure. The tree's configuration
/// account is the one derived from its Merkle account. The payer pays the
/// fee; both key pairs sign.
pub open spec fn create_tree_prepared(
    payer_pubkey: Seq<char>,
    tree_creator_pubkey: Seq<char>,
    merkle_tree_pubkey: Seq<char>,
    max_depth: u32,
    max_buffer_size: u32,
    payer_secret_key: Seq<char>,
    tree_creator_secret_key: Seq<char>,
) -> Result<PreparedModel, Failure> {
    match pubkey_from_text(payer_pubkey) {
        Err(reason) => Err(invalid_pubkey(reason)),
        Ok(payer) => match pubkey_from_text(tree_creator_pubkey) {
            Err(reason) => Err(invalid_pubkey(reason)),
            Ok(tree_creator) => match pubkey_from_text(merkle_tree_pubkey) {
                Err(reason) => Err(invalid_pubkey(reason)),
                Ok(merkle_tree) => match keypair_from_text(payer_secret_key) {
                    None => Err(invalid_keypair()),
                    Some(payer_pair) => match keypair_from_text(tree_creator_secret_key) {
                        None => Err(invalid_keypair()),
                        Some(tree_creator_pair) => match tree_config_of(merkle_tree) {
                            Err(failure) => Err(failure),
                            Ok(tree_config) => Ok(
                                PreparedModel {
                                    instructions: seq![
                                        create_tree_instruction(
                                            payer,
                                            tree_creator,
                                            tree_config,
                                            merkle_tree,
                                            max_depth,
                                            max_buffer_size,
                                        ),
                                    ],
                                    fee_payer: payer,
                                    signers: seq![payer_pair, tree_creator_pair],
                                },
                            ),
                        },
                    },
                },
            },
        },
    }
}

/// What minting builds: the texts are read in the order tree key, leaf owner
/// key, leaf delegate key, payer secret, leaf owner secret, metadata, and the
/// first that does not read is the failure. The tree's key is the address of
/// its Merkle account, from which its configuration account is derived. The
/// payer pays the fee, acts as the tree's authority, and is the only signer.
pub open spec fn mint_prepared(
    tree_pubkey: Seq<char>,
    leaf_owner: Seq<char>,
    leaf_delegate: Seq<char>,
    metadata_borsh: Seq<char>,
    payer_secret_key: Seq<char>,
    leaf_owner_secret_key: Seq<char>,
) -> Result<PreparedModel, Failure> {
    match pubkey_from_text(tree_pubkey) {
        Err(reason) => Err(invalid_pubkey(reason)),
        Ok(tree) => match pubkey_from_text(leaf_owner) {
            Err(reason) => Err(invalid_pubkey(reason)),
            Ok(owner) => match pubkey_from_text(leaf_delegate) {
                Err(reason) => Err(invalid_pubkey(reason)),
                Ok(delegate) => match keypair_from_text(payer_secret_key) {
                    None => Err(invalid_keypair()),
                    Some(payer_pair) => match keypair_from_text(leaf_owner_secret_key) {
                        None => Err(invalid_keypair()),
                        Some(_) => match deserialized(metadata_borsh) {
                            Err(failure) => Err(failure),
                            Ok(record) => match tree_config_of(tree) {
                                Err(failure) => Err(failure),
                                Ok(tree_config) => if !encodable(record) {
                                    Err(
                                        Failure {
                                            kind: ErrorKind::SerializationError,
                                            detail: "Borsh serialize error: "@
                                                + spec_borsh_complaint(record, reserved_layout()),
                                        },
                                    )
                                } else {
                                    Ok(
                                        PreparedModel {
                                            instructions: seq![
                                                mint_instruction(
                                                    tree_config,
                                                    owner,
                                                    delegate,
                                                    tree,
                                                    public_half(payer_pair),
                                                    public_half(payer_pair),
                                                    metadata_layout(record),
                                                ),
                                            ],
                                            fee_payer: public_half(payer_pair),
                                            signers: seq![payer_pair],
                                        },
                                    )
                                },
                            },
                        },
                    },
                },
            },
        },
    }
}

/// What a transfer builds: the texts are read in the order tree key, leaf
/// owner key, new owner key, payer secret, leaf owner secret, and the first
/// that does not read is the failure. The tree's key is the address of its
/// Merkle account, from which its configuration account is derived; the
/// owner is also the delegate. The proof and the index go into the payload
/// as the caller gave them. The payer pays the fee; payer and leaf owner
/// sign.
pub open spec fn transfer_prepared(
    tree_pubkey: Seq<char>,
    leaf_owner: Seq<char>,
    new_leaf_owner: Seq<char>,
    root: Seq<u8>,
    data_hash: Seq<u8>,
    creator_hash: Seq<u8>,
    nonce: u64,
    leaf_index: u32,
    payer_secret_key: Seq<char>,
    leaf_owner_secret_key: Seq<char>,
) -> Result<PreparedModel, Failure> {
    match pubkey_from_text(tree_pubkey) {
        Err(reason) => Err(invalid_pubkey(reason)),
        Ok(tree) => match pubkey_from_text(leaf_owner) {
            Err(reason) => Err(invalid_pubkey(reason)),
            Ok(owner) => match pubkey_from_text(new_leaf_owner) {
                Err(reason) => Err(invalid_pubkey(reason)),
                Ok(new_owner) => match keypair_from_text(payer_secret_key) {
                    None => Err(invalid_keypair()),
                    Some(payer_pair) => match keypair_from_text(leaf_owner_secret_key) {
                        None => Err(invalid_keypair()),
                        Some(owner_pair) => match tree_config_of(tree) {
                            Err(failure) => Err(failure),
                            Ok(tree_config) => Ok(
                                PreparedModel {
                                    instructions: seq![
                                        transfer_instruction(
                                            tree_config,
                                            tree,
                                            owner,
                                            owner,
                                            new_owner,
                                            root,
                                            data_hash,
                                            creator_hash,
                                            nonce,
                                            leaf_index,
                                        ),
                                    ],
                                    fee_payer: public_half(payer_pair),
                                    signers: seq![payer_pair, owner_pair],
                                },
                            ),
                        },
                    },
                },
            },
        },
    }
}

/// An operation that has built its transaction and waits for a blockhash.
fn awaiting_blockhash(
    rpc_url: &str,
    instruction: Instruction,
    fee_payer: PublicKey,
    signers: Vec<KeyPair>,
) -> (operation: Operation)
    ensures
        operation@ == (OperationModel {
            rpc_url: rpc_url@,
            phase: PhaseModel::AwaitingBlockhash(
                PreparedModel {
                    instructions: seq![instruction@],
                    fee_payer: fee_payer@,
                    signers: keypairs_model(signers@),
                },
            ),
        }),
{
    let mut instructions: Vec<Instruction> = Vec::new();
    instructions.push(instruction);
    proof {
        assert(instructions_model(instructions@) =~= seq![instruction@]);
    }
    Operation {
        rpc_url: rpc_url.to_owned(),
        phase: Phase::AwaitingBlockhash(PreparedTransaction { instructions, fee_payer, signers }),
    }
}

/// Starts the creation of a tree at the given Merkle account: reads the keys,
/// derives the tree's configuration account and builds the instruction. No
/// network call is made; on success the operation waits for a blockhash.
pub fn create_tree_config(
    rpc_url: &str,
    payer_pubkey: &str,
    tree_creator_pubkey: &str,
    merkle_tree_pubkey: &str,
    max_depth: u32,
    max_buffer_size: u32,
    payer_secret_key: &str,
    tree_creator_secret_key: &str,
) -> (r: Result<Operation, NifError>)
    ensures
        match r {
            Ok(operation) => create_tree_prepared(
                payer_pubkey@,
                tree_creator_pubkey@,
                merkle_tree_pubkey@,
                max_depth,
                max_buffer_size,
                payer_secret_key@,
                tree_creator_secret_key@,
            ) matches Ok(prepared) && operation@ == (OperationModel {
                rpc_url: rpc_url@,
                phase: PhaseModel::AwaitingBlockhash(prepared),
            }),
            Err(e) => create_tree_prepared(
                payer_pubkey@,
                tree_creator_pubkey@,
                merkle_tree_pubkey@,
                max_depth,
                max_buffer_size,
                payer_secret_key@,
                tree_creator_secret_key@,
            ) == Err::<PreparedModel, Failure>(e@),
        },
{
    let payer = match parse_pubkey(payer_pubkey) {
        Ok(key) => key,
        Err(e) => { return Err(e); },
    };
    let tree_creator = match parse_pubkey(tree_creator_pubkey) {
        Ok(key) => key,
        Err(e) => { return Err(e); },
    };
    let merkle_tree = match parse_pubkey(merkle_tree_pubkey) {
        Ok(key) => key,
        Err(e) => { return Err(e); },
    };
    let payer_keypair = match parse_keypair(payer_secret_key) {
        Ok(pair) => pair,
        Err(e) => { return Err(e); },
    };
    let tree_creator_keypair = match parse_keypair(tree_creator_secret_key) {
        Ok(pair) => pair,
        Err(e) => { return Err(e); },
    };
    let tree_config = match derive_tree_config(&merkle_tree) {
        Ok(address) => address,
        Err(e) => { return Err(e); },
    };
    let instruction = build_create_tree_instruction(
        &payer,
        &tree_creator,
        &tree_config,
        &merkle_tree,
        max_depth,
        max_buffer_size,
    );
    let ghost pairs = seq![payer_keypair@, tree_creator_keypair@];
    let mut signers: Vec<KeyPair> = Vec::new();
    signers.push(payer_keypair);
    signers.push(tree_creator_keypair);
    proof {
        assert(keypairs_model(signers@) =~= pairs);
    }
    Ok(awaiting_blockhash(rpc_url, instruction, payer, signers))
}

/// Starts a mint: reads the keys and the metadata, derives the tree's
/// configuration account and builds the instruction. No network call is
/// made; on success the operation waits for a blockhash.
pub fn mint_v1(
    rpc_url: &str,
    tree_pubkey: &str,
    leaf_owner: &str,
    leaf_delegate: &str,
    metadata_borsh: &str,
    payer_secret_key: &str,
    leaf_owner_secret_key: &str,
) -> (r: Result<Operation, NifError>)
    ensures
        match r {
            Ok(operation) => mint_prepared(
                tree_pubkey@,
                leaf_owner@,
                leaf_delegate@,
                metadata_borsh@,
                payer_secret_key@,
                leaf_owner_secret_key@,
            ) matches Ok(prepared) && operation@ == (OperationModel {
                rpc_url: rpc_url@,
                phase: PhaseModel::AwaitingBlockhash(prepared),
            }),
            Err(e) => mint_prepared(
                tree_pubkey@,
                leaf_owner@,
                leaf_delegate@,
                metadata_borsh@,
                payer_secret_key@,
                leaf_owner_secret_key@,
            ) == Err::<PreparedModel, Failure>(e@),
        },
{
    let tree = match parse_pubkey(tree_pubkey) {
        Ok(key) => key,
        Err(e) => { return Err(e); },
    };
    let owner = match parse_pubkey(leaf_owner) {
        Ok(key) => key,
        Err(e) => { return Err(e); },
    };
    let delegate = match parse_pubkey(leaf_delegate) {
        Ok(key) => key,
        Err(e) => { return Err(e); },
    };
    let payer_keypair = match parse_keypair(payer_secret_key) {
        Ok(pair) => pair,
        Err(e) => { return Err(e); },
    };
    match parse_keypair(leaf_owner_secret_key) {
        Ok(_) => {},
        Err(e) => { return Err(e); },
    }
    let metadata = match deserialize_metadata_from_borsh(metadata_borsh) {
        Ok(record) => record,
        Err(e) => { return Err(e); },
    };
    let tree_config = match derive_tree_config(&tree) {
        Ok(address) => address,
        Err(e) => { return Err(e); },
    };
    let payer = payer_keypair.pubkey();
    let instruction = match build_mint_instruction(
        &tree_config,
        &tree,
        &owner,
        &delegate,
        &payer,
        &metadata,
    ) {
        Ok(instruction) => instruction,
        Err(e) => { return Err(e); },
    };
    let ghost pairs = seq![payer_keypair@];
    let mut signers: Vec<KeyPair> = Vec::new();
    signers.push(payer_keypair);
    proof {
        assert(keypairs_model(signers@) =~= pairs);
    }
    Ok(awaiting_blockhash(rpc_url, instruction, payer, signers))
}

/// Starts a transfer on the proof of the leaf that the caller obtained from
/// an indexer: reads the keys, derives the tree's configuration account and
/// builds the instruction. No network call is made; on success the operation
/// waits for a blockhash.
pub fn transfer(
    rpc_url: &str,
    tree_pubkey: &str,
    leaf_owner: &str,
    new_leaf_owner: &str,
    proof: &LeafProof,
    leaf_index: u32,
    payer_secret_key: &str,
    leaf_owner_secret_key: &str,
) -> (r: Result<Operation, NifError>)
    ensures
        match r {
            Ok(operation) => transfer_prepared(
                tree_pubkey@,
                leaf_owner@,
                new_leaf_owner@,
                proof.root@,
                proof.data_hash@,
                proof.creator_hash@,
                proof.nonce,
                leaf_index,
                payer_secret_key@,
                leaf_owner_secret_key@,
            ) matches Ok(prepared) && operation@ == (OperationModel {
                rpc_url: rpc_url@,
                phase: PhaseModel::AwaitingBlockhash(prepared),
            }),
            Err(e) => transfer_prepared(
                tree_pubkey@,
                leaf_owner@,
                new_leaf_owner@,
                proof.root@,
                proof.data_hash@,
                proof.creator_hash@,
                proof.nonce,
                leaf_index,
                payer_secret_key@,
                leaf_owner_secret_key@,
            ) == Err::<PreparedModel, Failure>(e@),
        },
{
    let tree = match parse_pubkey(tree_pubkey) {
        Ok(key) => key,
        Err(e) => { return Err(e); },
    };
    let owner = match parse_pubkey(leaf_owner) {
        Ok(key) => key,
        Err(e) => { return Err(e); },
    };
    let new_owner = match parse_pubkey(new_leaf_owner) {
        Ok(key) => key,
        Err(e) => { return Err(e); },
    };
    let payer_keypair = match parse_keypair(payer_secret_key) {
        Ok(pair) => pair,
        Err(e) => { return Err(e); },
    };
    let leaf_owner_keypair = match parse_keypair(leaf_owner_secret_key) {
        Ok(pair) => pair,
        Err(e) => { return Err(e); },
    };
    let tree_config = match derive_tree_config(&tree) {
        Ok(address) => address,
        Err(e) => { return Err(e); },
    };
    let instruction = build_transfer_instruction(
        &tree_config,
        &tree,
        &owner,
        &owner,
        &new_owner,
        proof,
        leaf_index,
    );
    let payer = payer_keypair.pubkey();
    let ghost pairs = seq![payer_keypair@, leaf_owner_keypair@];
    let mut signers: Vec<KeyPair> = Vec::new();
    signers.push(payer_keypair);
    signers.push(leaf_owner_keypair);
    proof {
        assert(keypairs_model(signers@) =~= pairs);
    }
    Ok(awaiting_blockhash(rpc_url, instruction, payer, signers))
}

/// What every step keeps: the endpoint stays the same; a finished operation
/// stays finished; and a transaction that is submitted again is the one that
/// was signed, submitted at most five times in all.
pub proof fn lemma_step_keeps_the_plan(state: OperationModel, event: EventModel)
    ensures
        next(state, event).0.rpc_url == state.rpc_url,
        state.phase is Finished ==> next(state, event).0.phase is Finished,
        (state.phase is AwaitingConfirmation && next(state, event).0.phase is AwaitingConfirmation)
            ==> {
            &&& next(state, event).0.phase->transaction == state.phase->transaction
            &&& next(state, event).0.phase->attempts == state.phase->attempts + 1
            &&& next(state, event).0.phase->attempts <= MAX_SUBMIT_ATTEMPTS
        },
{
}

/// A mint whose tree key does not read fails on that key, whatever the other
/// texts hold: nothing is built, and no endpoint is asked.
pub proof fn lemma_mint_refuses_unreadable_tree_key(
    tree_pubkey: Seq<char>,
    leaf_owner: Seq<char>,
    leaf_delegate: Seq<char>,
    metadata_borsh: Seq<char>,
    payer_secret_key: Seq<char>,
    leaf_owner_secret_key: Seq<char>,
)
    requires
        pubkey_from_text(tree_pubkey) is Err,
    ensures
        mint_prepared(
            tree_pubkey,
            leaf_owner,
            leaf_delegate,
            metadata_borsh,
            payer_secret_key,
            leaf_owner_secret_key,
        ) == Err::<PreparedModel, Failure>(invalid_pubkey(pubkey_from_text(tree_pubkey)->Err_0)),
{
}

/// The creation of a tree asks for the signatures of the payer and of the
/// tree creator. With the payer's key pair alone, and a tree creator who is
/// not the payer, the signers are incomplete: the transaction is never signed
/// and never submitted, for want of signers.
pub proof fn lemma_create_tree_needs_both_signers(
    payer: Seq<u8>,
    tree_creator: Seq<u8>,
    tree_config: Seq<u8>,
    merkle_tree: Seq<u8>,
    max_depth: u32,
    max_buffer_size: u32,
    payer_pair: Seq<u8>,
)
    requires
        public_half(payer_pair) == payer,
        tree_creator != payer,
    ensures
        !signers_complete(
            seq![
                create_tree_instruction(
                    payer,
                    tree_creator,
                    tree_config,
                    merkle_tree,
                    max_depth,
                    max_buffer_size,
                ),
            ],
            payer,
            seq![payer_pair],
        ),
        incomplete_complaint(
            seq![
                create_tree_instruction(
                    payer,
                    tree_creator,
                    tree_config,
                    merkle_tree,
                    max_depth,
                    max_buffer_size,
                ),
            ],
            payer,
            seq![payer_pair],
        ) == "not enough signers"@,
{
    let instruction = create_tree_instruction(
        payer,
        tree_creator,
        tree_config,
        merkle_tree,
        max_depth,
        max_buffer_size,
    );
    let instructions = seq![instruction];
    let signers = seq![payer_pair];
    assert(instructions[0].accounts[3].pubkey == tree_creator);
    assert(instructions[0].accounts[3].is_signer);
    assert(is_required_signer(instructions, payer, tree_creator));
    if has_pair(signers, tree_creator) {
        let s: int = choose|s: int| 0 <= s < signers.len() && public_half(#[trigger] signers[s])
            == tree_creator;
        assert(signers[s] == payer_pair);
    }
}

/// Whether some account of the instruction holds the key and is marked as a
/// signer.
pub open spec fn marks_signer(instruction: InstructionModel, key: Seq<u8>) -> bool {
    exists|j: int|
        0 <= j < instruction.accounts.len() && (#[trigger] instruction.accounts[j]).pubkey == key
            && instruction.accounts[j].is_signer
}

/// A transaction of one instruction asks for the signatures of the fee payer
/// and of the accounts that the instruction marks as signers.
pub proof fn lemma_required_signers_of_one(
    instruction: InstructionModel,
    fee_payer: Seq<u8>,
    key: Seq<u8>,
)
    ensures
        is_required_signer(seq![instruction], fee_payer, key) <==> (key == fee_payer
            || marks_signer(instruction, key)),
{
    let instructions = seq![instruction];
    if is_required_signer(instructions, fee_payer, key) && key != fee_payer {
        let (i, j) = choose|i: int, j: int|
            #![trigger instructions[i].accounts[j]]
            0 <= i < instructions.len() && 0 <= j < instructions[i].accounts.len()
                && instructions[i].accounts[j].pubkey == key
                && instructions[i].accounts[j].is_signer;
        assert(instructions[i] == instruction);
        assert(instruction.accounts[j].pubkey == key);
    }
    if marks_signer(instruction, key) {
        let j: int = choose|j: int|
            0 <= j < instruction.accounts.len() && (#[trigger] instruction.accounts[j]).pubkey
                == key && instruction.accounts[j].is_signer;
        assert(instructions[0].accounts[j].pubkey == key && instructions[0].accounts[j].is_signer);
    }
}

/// The creation of a tree is signed exactly where the two key pairs are those
/// of the payer and of the tree creator, in either order.
pub proof fn lemma_create_tree_signers_complete(
    payer: Seq<u8>,
    tree_creator: Seq<u8>,
    tree_config: Seq<u8>,
    merkle_tree: Seq<u8>,
    max_depth: u32,
    max_buffer_size: u32,
    first_pair: Seq<u8>,
    second_pair: Seq<u8>,
)
    ensures
        signers_complete(
            seq![
                create_tree_instruction(
                    payer,
                    tree_creator,
                    tree_config,
                    merkle_tree,
                    max_depth,
                    max_buffer_size,
                ),
            ],
            payer,
            seq![first_pair, second_pair],
        ) <==> ((public_half(first_pair) == payer && public_half(second_pair) == tree_creator) || (
        public_half(first_pair) == tree_creator && public_half(second_pair) == payer)),
{
    let instruction = create_tree_instruction(
        payer,
        tree_creator,
        tree_config,
        merkle_tree,
        max_depth,
        max_buffer_size,
    );
    let instructions = seq![instruction];
    let signers = seq![first_pair, second_pair];
    assert forall|key: Seq<u8>| marks_signer(instruction, key) <==> (key == payer || key
        == tree_creator) by {
        if marks_signer(instruction, key) {
            let j: int = choose|j: int|
                0 <= j < instruction.accounts.len() && (#[trigger] instruction.accounts[j]).pubkey
                    == key && instruction.accounts[j].is_signer;
            assert(j == 2 || j == 3);
        }
        if key == payer {
            assert(instruction.accounts[2].pubkey == key && instruction.accounts[2].is_signer);
        }
        if key == tree_creator {
            assert(instruction.accounts[3].pubkey == key && instruction.accounts[3].is_signer);
        }
    }
    assert forall|key: Seq<u8>|
        is_required_signer(instructions, payer, key) <==> (key == payer || key
            == tree_creator) by {
        lemma_required_signers_of_one(instruction, payer, key);
    }
    assert forall|key: Seq<u8>|
        has_pair(signers, key) <==> (public_half(first_pair) == key || public_half(second_pair)
            == key) by {
        if has_pair(signers, key) {
            let s: int = choose|s: int| 0 <= s < signers.len() && public_half(#[trigger] signers[s])
                == key;
            assert(s == 0 || s == 1);
        }
        if public_half(first_pair) == key {
            assert(public_half(signers[0]) == key);
        }
        if public_half(second_pair) == key {
            assert(public_half(signers[1]) == key);
        }
    }
    if signers_complete(instructions, payer, signers) {
        assert(is_required_signer(instructions, payer, public_half(signers[0])));
        assert(is_required_signer(instructions, payer, public_half(signers[1])));
        assert(is_required_signer(instructions, payer, payer));
        assert(is_required_signer(instructions, payer, tree_creator));
        assert(has_pair(signers, payer));
        assert(has_pair(signers, tree_creator));
    }
    if (public_half(first_pair) == payer && public_half(second_pair) == tree_creator) || (
    public_half(first_pair) == tree_creator && public_half(second_pair) == payer) {
        assert forall|s: int| 0 <= s < signers.len() implies is_required_signer(
            instructions,
            payer,
            public_half(#[trigger] signers[s]),
        ) by {
            assert(s == 0 || s == 1);
        }
        assert(signers_complete(instructions, payer, signers));
    }
}

/// A mint has exactly the signers it asks for: the payer, who is also the
/// tree's authority, is the only one.
pub proof fn lemma_mint_signers_complete(
    tree_config: Seq<u8>,
    tree: Seq<u8>,
    owner: Seq<u8>,
    delegate: Seq<u8>,
    payer_pair: Seq<u8>,
    metadata: Seq<u8>,
)
    ensures
        signers_complete(
            seq![
                mint_instruction(
                    tree_config,
                    owner,
                    delegate,
                    tree,
                    public_half(payer_pair),
                    public_half(payer_pair),
                    metadata,
                ),
            ],
            public_half(payer_pair),
            seq![payer_pair],
        ),
{
    let payer = public_half(payer_pair);
    let instruction = mint_instruction(
        tree_config,
        owner,
        delegate,
        tree,
        payer,
        payer,
        metadata,
    );
    let instructions = seq![instruction];
    let signers = seq![payer_pair];
    assert(public_half(signers[0]) == payer);
    assert forall|key: Seq<u8>| #[trigger]
        is_required_signer(instructions, payer, key) implies has_pair(signers, key) by {
        lemma_required_signers_of_one(instruction, payer, key);
        if marks_signer(instruction, key) {
            let j: int = choose|j: int|
                0 <= j < instruction.accounts.len() && (#[trigger] instruction.accounts[j]).pubkey
                    == key && instruction.accounts[j].is_signer;
            assert(j == 4 || j == 5);
        }
    }
}

/// A transfer is signed exactly where the second key pair is that of the
/// leaf's owner.
pub proof fn lemma_transfer_signers_complete(
    tree_config: Seq<u8>,
    tree: Seq<u8>,
    owner: Seq<u8>,
    new_owner: Seq<u8>,
    root: Seq<u8>,
    data_hash: Seq<u8>,
    creator_hash: Seq<u8>,
    nonce: u64,
    leaf_index: u32,
    payer_pair: Seq<u8>,
    owner_pair: Seq<u8>,
)
    ensures
        signers_complete(
            seq![
                transfer_instruction(
                    tree_config,
                    tree,
                    owner,
                    owner,
                    new_owner,
                    root,
                    data_hash,
                    creator_hash,
                    nonce,
                    leaf_index,
                ),
            ],
            public_half(payer_pair),
            seq![payer_pair, owner_pair],
        ) <==> public_half(owner_pair) == owner,
{
    let payer = public_half(payer_pair);
    let instruction = transfer_instruction(
        tree_config,
        tree,
        owner,
        owner,
        new_owner,
        root,
        data_hash,
        creator_hash,
        nonce,
        leaf_index,
    );
    let instructions = seq![instruction];
    let signers = seq![payer_pair, owner_pair];
    assert forall|key: Seq<u8>| marks_signer(instruction, key) <==> key == owner by {
        if marks_signer(instruction, key) {
            let j: int = choose|j: int|
                0 <= j < instruction.accounts.len() && (#[trigger] instruction.accounts[j]).pubkey
                    == key && instruction.accounts[j].is_signer;
            assert(j == 1);
        }
        if key == owner {
            assert(instruction.accounts[1].pubkey == key && instruction.accounts[1].is_signer);
        }
    }
    assert forall|key: Seq<u8>|
        is_required_signer(instructions, payer, key) <==> (key == payer || key == owner) by {
        lemma_required_signers_of_one(instruction, payer, key);
    }
    assert forall|key: Seq<u8>|
        has_pair(signers, key) <==> (payer == key || public_half(owner_pair) == key) by {
        if has_pair(signers, key) {
            let s: int = choose|s: int| 0 <= s < signers.len() && public_half(#[trigger] signers[s])
                == key;
            assert(s == 0 || s == 1);
        }
        if payer == key {
            assert(public_half(signers[0]) == key);
        }
        if public_half(owner_pair) == key {
            assert(public_half(signers[1]) == key);
        }
    }
    if signers_complete(instructions, payer, signers) {
        assert(is_required_signer(instructions, payer, public_half(signers[1])));
        assert(is_required_signer(instructions, payer, owner));
        assert(has_pair(signers, owner));
    }
    if public_half(owner_pair) == owner {
        assert forall|s: int| 0 <= s < signers.len() implies is_required_signer(
            instructions,
            payer,
            public_half(#[trigger] signers[s]),
        ) by {
            assert(s == 0 || s == 1);
        }
        assert(signers_complete(instructions, payer, signers));
    }
}

} // verus!
