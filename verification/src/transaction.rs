//! The transaction assembler and signer: instructions, a fee payer, the
//! signing key pairs and a recent blockhash to a signed envelope.

use crate::error::{ErrorKind, Failure, NifError};
use crate::instruction::{Instruction, InstructionModel};
use crate::keys::{KeyPair, PublicKey};
use solana_sdk::message::Message;
use solana_sdk::signature::Keypair;
use vstd::pervasive::unreached;
use vstd::seq_lib::seq_to_set_is_finite;
use vstd::set_lib::lemma_len_subset;
use vstd::prelude::*;
use vstd::string::*;

verus! {

/// Most distinct keys, programs and fee payer included, that one message may
/// refer to.
pub const MAX_ACCOUNT_KEYS: usize = 255;

/// Most bytes that the payload of one instruction may hold.
pub const MAX_PAYLOAD_BYTES: usize = 65535;

/// Most items that a list of the message's wire form may hold: it counts them
/// in 16 bits. This bounds the instructions of a message and the account
/// references of each instruction.
pub const MAX_LIST_COUNT: usize = 65535;

/// A signed transaction: one signature per required signer, in the order in
/// which the message lists the signers, and the message in its wire form.
#[derive(Debug)]
pub struct Transaction {
    pub signatures: Vec<[u8; 64]>,
    pub message: Vec<u8>,
}

/// The mathematical model of a `Transaction`.
pub ghost struct TransactionModel {
    pub signatures: Seq<Seq<u8>>,
    pub message: Seq<u8>,
}

impl View for Transaction {
    type V = TransactionModel;

    open spec fn view(&self) -> TransactionModel {
        TransactionModel {
            signatures: Seq::new(self.signatures@.len(), |i: int| self.signatures@[i]@),
            message: self.message@,
        }
    }
}

/// A list of instructions as the list of their models.
pub open spec fn instructions_model(instructions: Seq<Instruction>) -> Seq<InstructionModel> {
    Seq::new(instructions.len(), |i: int| instructions[i]@)
}

/// A list of public keys as the list of their bytes.
pub open spec fn keys_model(keys: Seq<PublicKey>) -> Seq<Seq<u8>> {
    Seq::new(keys.len(), |i: int| keys[i]@)
}

/// A list of key pairs as the list of their bytes.
pub open spec fn keypairs_model(signers: Seq<KeyPair>) -> Seq<Seq<u8>> {
    Seq::new(signers.len(), |i: int| signers[i]@)
}

/// The public half of a key pair given by its bytes.
pub open spec fn public_half(pair: Seq<u8>) -> Seq<u8> {
    pair.subrange(32, 64)
}

/// Whether the message built from the instructions and the fee payer asks for
/// the signature of the given key: the fee payer's always, and that of every
/// account that some instruction marks as a signer.
pub open spec fn is_required_signer(
    instructions: Seq<InstructionModel>,
    fee_payer: Seq<u8>,
    key: Seq<u8>,
) -> bool {
    key == fee_payer || exists|i: int, j: int|
        #![trigger instructions[i].accounts[j]]
        0 <= i < instructions.len() && 0 <= j < instructions[i].accounts.len()
            && instructions[i].accounts[j].pubkey == key && instructions[i].accounts[j].is_signer
}

/// Whether one of the key pairs holds the given public key.
pub open spec fn has_pair(signers: Seq<Seq<u8>>, key: Seq<u8>) -> bool {
    exists|s: int| 0 <= s < signers.len() && public_half(#[trigger] signers[s]) == key
}

/// Whether the key pairs are the signers of a message with the given signer
/// keys: each pair's key is among them, and each of them has its pair.
pub open spec fn keys_match(keys: Seq<Seq<u8>>, signers: Seq<Seq<u8>>) -> bool {
    &&& forall|s: int|
        0 <= s < signers.len() ==> keys.contains(public_half(#[trigger] signers[s]))
    &&& forall|k: int| 0 <= k < keys.len() ==> has_pair(signers, #[trigger] keys[k])
}

/// The signer's complaint about key pairs that do not match the signer keys:
/// a pair whose key is not among them is a mismatch; without such a pair, a
/// signature is missing.
pub open spec fn mismatch_complaint(keys: Seq<Seq<u8>>, signers: Seq<Seq<u8>>) -> Seq<char> {
    if forall|s: int| 0 <= s < signers.len() ==> keys.contains(public_half(#[trigger] signers[s])) {
        "not enough signers"@
    } else {
        "keypair-pubkey mismatch"@
    }
}

/// The signer's complaint about key pairs that are not the signers that the
/// message asks for: a pair that is not asked for is a mismatch; without such
/// a pair, a signature is missing.
pub open spec fn incomplete_complaint(
    instructions: Seq<InstructionModel>,
    fee_payer: Seq<u8>,
    signers: Seq<Seq<u8>>,
) -> Seq<char> {
    if forall|s: int|
        0 <= s < signers.len() ==> is_required_signer(
            instructions,
            fee_payer,
            public_half(#[trigger] signers[s]),
        ) {
        "not enough signers"@
    } else {
        "keypair-pubkey mismatch"@
    }
}

/// Whether the key pairs are the signers that the message asks for: each of
/// them is asked for, and each key asked for has its pair among them.
pub open spec fn signers_complete(
    instructions: Seq<InstructionModel>,
    fee_payer: Seq<u8>,
    signers: Seq<Seq<u8>>,
) -> bool {
    &&& forall|s: int|
        0 <= s < signers.len() ==> is_required_signer(
            instructions,
            fee_payer,
            public_half(#[trigger] signers[s]),
        )
    &&& forall|key: Seq<u8>| #[trigger]
        is_required_signer(instructions, fee_payer, key) ==> has_pair(signers, key)
}

/// The keys of the accounts of an instruction, in their order.
pub open spec fn account_keys_of(instruction: InstructionModel) -> Seq<Seq<u8>> {
    Seq::new(instruction.accounts.len(), |j: int| instruction.accounts[j].pubkey)
}

/// Every key that a message of the instructions and the fee payer refers to,
/// as often as it is referred to: the fee payer, then for each instruction
/// its program and its accounts.
pub open spec fn referenced_keys(instructions: Seq<InstructionModel>, fee_payer: Seq<u8>) -> Seq<
    Seq<u8>,
>
    decreases instructions.len(),
{
    if instructions.len() == 0 {
        seq![fee_payer]
    } else {
        referenced_keys(instructions.drop_last(), fee_payer) + seq![instructions.last().program_id]
            + account_keys_of(instructions.last())
    }
}

/// Whether the distinct keys that the instructions and the fee payer refer
/// to fit one message.
pub open spec fn accounts_fit(instructions: Seq<InstructionModel>, fee_payer: Seq<u8>) -> bool {
    referenced_keys(instructions, fee_payer).to_set().len() <= MAX_ACCOUNT_KEYS
}

/// Whether the payload of each instruction fits the message's wire form,
/// which counts its bytes in 16 bits.
pub open spec fn payloads_fit(instructions: Seq<InstructionModel>) -> bool {
    forall|i: int|
        0 <= i < instructions.len() ==> (#[trigger] instructions[i]).data.len()
            <= MAX_PAYLOAD_BYTES
}

/// Whether the message's wire form can count the instructions and the
/// account references of each instruction: at most 65535 of either.
pub open spec fn counts_fit(instructions: Seq<InstructionModel>) -> bool {
    &&& instructions.len() <= MAX_LIST_COUNT
    &&& forall|i: int|
        0 <= i < instructions.len() ==> (#[trigger] instructions[i]).accounts.len()
            <= MAX_LIST_COUNT
}

/// Whether the instructions and the fee payer fit one message.
pub open spec fn fits_one_message(instructions: Seq<InstructionModel>, fee_payer: Seq<u8>) -> bool {
    counts_fit(instructions) && accounts_fit(instructions, fee_payer) && payloads_fit(instructions)
}

/// Why instructions do not fit one message, where they do not.
pub open spec fn message_refusal(instructions: Seq<InstructionModel>, fee_payer: Seq<u8>) -> Option<
    Seq<char>,
> {
    if !counts_fit(instructions) {
        Some("too many instructions or account references for one transaction"@)
    } else if !accounts_fit(instructions, fee_payer) {
        Some("too many accounts for one transaction"@)
    } else if !payloads_fit(instructions) {
        Some("instruction payload is too long for one transaction"@)
    } else {
        None
    }
}

/// The wire form of the message built from the instructions and the fee
/// payer, before a blockhash is set.
pub uninterp spec fn spec_message(instructions: Seq<InstructionModel>, fee_payer: Seq<u8>) -> Seq<
    u8,
>;

/// The keys whose signatures the message held by the bytes asks for, in the
/// message's order; nothing where the bytes hold no message, or one that
/// lists fewer keys than it asks signatures for.
pub uninterp spec fn spec_message_signers(message: Seq<u8>) -> Option<Seq<Seq<u8>>>;

/// What signing the message held by the bytes gives: the signed transaction,
/// or the signer's complaint.
pub uninterp spec fn spec_signed(
    message: Seq<u8>,
    signers: Seq<Seq<u8>>,
    recent_blockhash: Seq<u8>,
) -> Result<TransactionModel, Seq<char>>;

/// Whether the bytes hold a message that lists each signer key once, and whose
/// signer keys are those that the instructions and the fee payer require.
pub open spec fn asks_for_required_signers(
    message: Seq<u8>,
    instructions: Seq<InstructionModel>,
    fee_payer: Seq<u8>,
) -> bool {
    &&& spec_message_signers(message) matches Some(keys)
    &&& keys.no_duplicates()
    &&& forall|key: Seq<u8>| #[trigger]
        keys.contains(key) <==> is_required_signer(instructions, fee_payer, key)
}

/// Whether a complaint is the one that the key pairs call for, where the
/// bytes hold a message.
pub open spec fn complaint_fits(message: Seq<u8>, signers: Seq<Seq<u8>>, reason: Seq<char>) -> bool {
    spec_message_signers(message) matches Some(keys) ==> reason == mismatch_complaint(
        keys,
        signers,
    )
}

/// Whether the bytes hold a message that lists each signer key once, and the
/// key pairs are its signers.
pub open spec fn signable(message: Seq<u8>, signers: Seq<Seq<u8>>) -> bool {
    &&& spec_message_signers(message) matches Some(keys)
    &&& keys.no_duplicates()
    &&& keys_match(keys, signers)
}

/// What assembling and signing gives.
pub open spec fn signed(
    instructions: Seq<InstructionModel>,
    fee_payer: Seq<u8>,
    signers: Seq<Seq<u8>>,
    recent_blockhash: Seq<u8>,
) -> Result<TransactionModel, Seq<char>> {
    spec_signed(spec_message(instructions, fee_payer), signers, recent_blockhash)
}

/// Calls `Message::new` on the instructions and the fee payer, and
/// `serialize` on the message.
///
/// Trusted: the result is the message's wire form. The message lists each key
/// once, and asks for the signature of the fee payer and of every account
/// that an instruction marks as a signer, and of no other. Building the
/// message gives up where one kind of account has more than 255 keys, which
/// more than 255 keys in all are needed for. Writing it gives up where it
/// holds more than 65535 instructions, or where an instruction holds more
/// than 65535 account references or more than 65535 bytes of payload. None
/// of these is admitted.
#[verifier::external_body]
fn outside_message(instructions: &Vec<Instruction>, fee_payer: &PublicKey) -> (message: Vec<u8>)
    requires
        fits_one_message(instructions_model(instructions@), fee_payer@),
    ensures
        message@ == spec_message(instructions_model(instructions@), fee_payer@),
        spec_message_signers(message@) is Some,
        asks_for_required_signers(message@, instructions_model(instructions@), fee_payer@),
{
    let ixs: Vec<_> = instructions.iter().map(|ix| solana_sdk::instruction::Instruction::new_with_bytes(
        ix.program_id.bytes.into(), &ix.data, ix.accounts.iter().map(|a| solana_sdk::instruction::AccountMeta {
            pubkey: a.pubkey.bytes.into(), is_signer: a.is_signer, is_writable: a.is_writable,
        }).collect())).collect();
    Message::new(&ixs, Some(&fee_payer.bytes.into())).serialize()
}

/// Reads the message with `bincode::deserialize` and hands out the keys of
/// `Message::signer_keys`, where `get_signing_keypair_positions` finds that
/// the message lists as many keys as it asks signatures for.
///
/// Trusted: the result is the list of the message's signer keys, and nothing
/// where the bytes hold no message or the message lists too few keys.
#[verifier::external_body]
fn outside_signer_keys(message: &[u8]) -> (r: Option<Vec<PublicKey>>)
    ensures
        match r {
            Some(keys) => spec_message_signers(message@) == Some(keys_model(keys@)),
            None => spec_message_signers(message@) is None,
        },
{
    let message: Message = bincode::deserialize(message).ok()?;
    let keys = message.signer_keys().iter().map(|k| PublicKey { bytes: k.to_bytes() }).collect();
    solana_sdk::transaction::Transaction::new_unsigned(message)
        .get_signing_keypair_positions(&[]).ok().map(|_| keys)
}

/// Reads the message with `bincode::deserialize`, then calls
/// `Transaction::new_unsigned` on it and `try_sign` on the transaction with
/// the key pairs and the blockhash.
///
/// Trusted: the result is the signer's, or the text of the error. Signing
/// succeeds exactly where the bytes hold a message that lists each signer key
/// once and the key pairs are its signers. It first refuses a pair whose key
/// is not among the message's signer keys, as a mismatch; then a transaction
/// in which a signer key is left without a signature, as not enough signers.
#[verifier::external_body]
fn outside_sign(message: &[u8], signers: &Vec<KeyPair>, recent_blockhash: &[u8; 32]) -> (r: Result<
    Transaction,
    String,
>)
    ensures
        r is Ok <==> signable(message@, keypairs_model(signers@)),
        r matches Err(reason) ==> complaint_fits(message@, keypairs_model(signers@), reason@),
        match r {
            Ok(tx) => spec_signed(message@, keypairs_model(signers@), recent_blockhash@) == Ok::<
                TransactionModel,
                Seq<char>,
            >(tx@),
            Err(reason) => spec_signed(message@, keypairs_model(signers@), recent_blockhash@)
                == Err::<TransactionModel, Seq<char>>(reason@),
        },
{
    let message: Message = bincode::deserialize(message).map_err(|e| e.to_string())?;
    let pairs: Vec<_> = signers.iter().map(|p| Keypair::from_bytes(&p.bytes).unwrap()).collect();
    let mut tx = solana_sdk::transaction::Transaction::new_unsigned(message);
    tx.try_sign(&pairs.iter().collect::<Vec<_>>(), (*recent_blockhash).into())
        .map_err(|e| e.to_string())?;
    Ok(Transaction { signatures: tx.signatures.iter().map(|s| (*s).into()).collect(), message: tx.message_data() })
}

/// Whether the message's wire form can count the instructions and the
/// account references of each instruction.
pub fn counts_fit_one_message(instructions: &Vec<Instruction>) -> (fits: bool)
    ensures
        fits == counts_fit(instructions_model(instructions@)),
{
    if instructions.len() > MAX_LIST_COUNT {
        return false;
    }
    let mut i: usize = 0;
    while i < instructions.len()
        invariant
            i <= instructions.len(),
            instructions@.len() <= MAX_LIST_COUNT,
            forall|j: int|
                0 <= j < i ==> (#[trigger] instructions_model(instructions@)[j]).accounts.len()
                    <= MAX_LIST_COUNT,
        decreases instructions.len() - i,
    {
        if instructions[i].accounts.len() > MAX_LIST_COUNT {
            proof {
                assert(instructions_model(instructions@)[i as int].accounts.len()
                    > MAX_LIST_COUNT);
            }
            return false;
        }
        i += 1;
    }
    true
}

/// Why the instructions do not fit one message with the fee payer, where they
/// do not.
pub fn refuse_oversize(instructions: &Vec<Instruction>, fee_payer: &PublicKey) -> (r: Option<
    NifError,
>)
    ensures
        match r {
            Some(e) => message_refusal(instructions_model(instructions@), fee_payer@) is Some
                && e@ == (Failure {
                kind: ErrorKind::InstructionError,
                detail: message_refusal(instructions_model(instructions@), fee_payer@)->Some_0,
            }),
            None => fits_one_message(instructions_model(instructions@), fee_payer@),
        },
{
    if !counts_fit_one_message(instructions) {
        return Some(
            NifError::InstructionError(
                "too many instructions or account references for one transaction".to_owned(),
            ),
        );
    }
    if !accounts_fit_one_message(instructions, fee_payer) {
        return Some(
            NifError::InstructionError("too many accounts for one transaction".to_owned()),
        );
    }
    if !payloads_fit_one_message(instructions) {
        return Some(
            NifError::InstructionError(
                "instruction payload is too long for one transaction".to_owned(),
            ),
        );
    }
    None
}

/// Whether the payload of each instruction fits the message's wire form.
pub fn payloads_fit_one_message(instructions: &Vec<Instruction>) -> (fits: bool)
    ensures
        fits == payloads_fit(instructions_model(instructions@)),
{
    let mut i: usize = 0;
    while i < instructions.len()
        invariant
            i <= instructions.len(),
            forall|j: int|
                0 <= j < i ==> (#[trigger] instructions_model(instructions@)[j]).data.len()
                    <= MAX_PAYLOAD_BYTES,
        decreases instructions.len() - i,
    {
        if instructions[i].data.len() > MAX_PAYLOAD_BYTES {
            proof {
                assert(instructions_model(instructions@)[i as int].data.len() > MAX_PAYLOAD_BYTES);
            }
            return false;
        }
        i += 1;
    }
    true
}

/// Lists every key that a message of the instructions and the fee payer
/// refers to.
fn collect_keys(instructions: &Vec<Instruction>, fee_payer: &PublicKey) -> (all: Vec<PublicKey>)
    ensures
        keys_model(all@) == referenced_keys(instructions_model(instructions@), fee_payer@),
{
    let ghost model = instructions_model(instructions@);
    let mut all: Vec<PublicKey> = Vec::new();
    all.push(*fee_payer);
    let mut i: usize = 0;
    proof {
        assert(model.take(0) =~= Seq::<InstructionModel>::empty());
        assert(keys_model(all@) =~= seq![fee_payer@]);
    }
    while i < instructions.len()
        invariant
            i <= instructions.len(),
            model == instructions_model(instructions@),
            keys_model(all@) == referenced_keys(model.take(i as int), fee_payer@),
        decreases instructions.len() - i,
    {
        let ghost before = keys_model(all@);
        let ghost current = model[i as int];
        proof {
            assert(model.take(i as int + 1).drop_last() =~= model.take(i as int));
            assert(model.take(i as int + 1).last() == current);
            assert(current == instructions@[i as int]@);
        }
        all.push(instructions[i].program_id);
        proof {
            assert(keys_model(all@) =~= before + seq![current.program_id] + account_keys_of(
                current,
            ).take(0));
        }
        let mut j: usize = 0;
        while j < instructions[i].accounts.len()
            invariant
                i < instructions.len(),
                j <= instructions@[i as int].accounts@.len(),
                current == instructions@[i as int]@,
                keys_model(all@) == before + seq![current.program_id] + account_keys_of(
                    current,
                ).take(j as int),
            decreases instructions[i as int].accounts.len() - j,
        {
            let ghost so_far = keys_model(all@);
            all.push(instructions[i].accounts[j].pubkey);
            proof {
                assert(account_keys_of(current)[j as int] == instructions@[i as int].accounts@[j as int].pubkey@);
                assert(keys_model(all@) =~= so_far.push(account_keys_of(current)[j as int]));
                assert(account_keys_of(current).take(j as int + 1) =~= account_keys_of(
                    current,
                ).take(j as int).push(account_keys_of(current)[j as int]));
                assert(keys_model(all@) =~= before + seq![current.program_id] + account_keys_of(
                    current,
                ).take(j as int + 1));
            }
            j += 1;
        }
        proof {
            assert(account_keys_of(current).take(j as int) =~= account_keys_of(current));
        }
        i += 1;
    }
    proof {
        assert(model.take(i as int) =~= model);
    }
    all
}

/// A list with one more item holds what the list held, and the item.
proof fn lemma_push_contains(list: Seq<Seq<u8>>, item: Seq<u8>, key: Seq<u8>)
    ensures
        list.push(item).contains(key) <==> (list.contains(key) || key == item),
{
    if list.contains(key) {
        let at: int = choose|at: int| 0 <= at < list.len() && list[at] == key;
        assert(list.push(item)[at] == key);
    }
    if key == item {
        assert(list.push(item)[list.len() as int] == key);
    }
}

/// A list without repeats stays without repeats when an item that it does not
/// hold is added.
proof fn lemma_push_keeps_distinct(list: Seq<Seq<u8>>, item: Seq<u8>)
    requires
        list.no_duplicates(),
        !list.contains(item),
    ensures
        list.push(item).no_duplicates(),
{
}

/// What a prefix of a list holds, the list holds.
proof fn lemma_take_contains(list: Seq<Seq<u8>>, n: int, key: Seq<u8>)
    requires
        0 <= n <= list.len(),
        list.take(n).contains(key),
    ensures
        list.contains(key),
{
    let prefix = list.take(n);
    let at: int = choose|at: int| 0 <= at < prefix.len() && prefix[at] == key;
    assert(list[at] == key);
}

/// Whether the list holds the key.
fn holds_key(keys: &Vec<PublicKey>, key: &PublicKey) -> (found: bool)
    ensures
        found == keys_model(keys@).contains(key@),
{
    let mut i: usize = 0;
    while i < keys.len()
        invariant
            i <= keys.len(),
            forall|j: int| 0 <= j < i ==> keys_model(keys@)[j] != key@,
        decreases keys.len() - i,
    {
        if keys[i].same_as(key) {
            proof {
                assert(keys_model(keys@)[i as int] == key@);
            }
            return true;
        }
        i += 1;
    }
    false
}

/// Whether the distinct keys that the instructions and the fee payer refer
/// to fit one message.
pub fn accounts_fit_one_message(instructions: &Vec<Instruction>, fee_payer: &PublicKey) -> (fits:
    bool)
    ensures
        fits == accounts_fit(instructions_model(instructions@), fee_payer@),
{
    let all = collect_keys(instructions, fee_payer);
    let ghost every = keys_model(all@);
    let mut seen: Vec<PublicKey> = Vec::new();
    let mut k: usize = 0;
    proof {
        assert(every.take(0) =~= Seq::<Seq<u8>>::empty());
    }
    while k < all.len()
        invariant
            k <= all.len(),
            every == keys_model(all@),
            every == referenced_keys(instructions_model(instructions@), fee_payer@),
            seen@.len() <= MAX_ACCOUNT_KEYS,
            keys_model(seen@).no_duplicates(),
            forall|key: Seq<u8>|
                keys_model(seen@).contains(key) <==> every.take(k as int).contains(key),
        decreases all.len() - k,
    {
        let ghost before = keys_model(seen@);
        proof {
            assert(every.take(k as int + 1) =~= every.take(k as int).push(every[k as int]));
        }
        if !holds_key(&seen, &all[k]) {
            seen.push(all[k]);
            proof {
                assert(keys_model(seen@) =~= before.push(every[k as int]));
                assert forall|key: Seq<u8>|
                    keys_model(seen@).contains(key) <==> every.take(k as int + 1).contains(
                        key,
                    ) by {
                    lemma_push_contains(before, every[k as int], key);
                    lemma_push_contains(every.take(k as int), every[k as int], key);
                }
                lemma_push_keeps_distinct(before, every[k as int]);
            }
            if seen.len() > MAX_ACCOUNT_KEYS {
                proof {
                    let distinct = keys_model(seen@);
                    distinct.unique_seq_to_set();
                    seq_to_set_is_finite(every);
                    assert forall|key: Seq<u8>| distinct.to_set().contains(key) implies every.to_set().contains(
                        key,
                    ) by {
                        lemma_take_contains(every, k as int + 1, key);
                    }
                    lemma_len_subset(distinct.to_set(), every.to_set());
                }
                return false;
            }
        } else {
            proof {
                assert forall|key: Seq<u8>|
                    keys_model(seen@).contains(key) <==> every.take(k as int + 1).contains(
                        key,
                    ) by {
                    lemma_push_contains(every.take(k as int), every[k as int], key);
                }
            }
        }
        k += 1;
    }
    proof {
        let distinct = keys_model(seen@);
        assert(every.take(k as int) =~= every);
        distinct.unique_seq_to_set();
        assert(distinct.to_set() =~= every.to_set());
    }
    true
}

/// The keys whose signatures a transaction of the instructions with the
/// given fee payer needs, each once, in the order in which the signatures
/// stand in the signed transaction.
///
/// Fails with `InstructionError` where the instructions do not fit one
/// message: more than 65535 instructions, or account references or payload
/// bytes in one instruction, or more than 255 distinct keys.
pub fn required_signers(instructions: &Vec<Instruction>, fee_payer: &PublicKey) -> (r: Result<
    Vec<PublicKey>,
    NifError,
>)
    ensures
        match r {
            Ok(keys) => {
                &&& fits_one_message(instructions_model(instructions@), fee_payer@)
                &&& spec_message_signers(
                    spec_message(instructions_model(instructions@), fee_payer@),
                ) == Some(keys_model(keys@))
                &&& keys_model(keys@).no_duplicates()
                &&& forall|key: Seq<u8>| #[trigger]
                    keys_model(keys@).contains(key) <==> is_required_signer(
                        instructions_model(instructions@),
                        fee_payer@,
                        key,
                    )
            },
            Err(e) => message_refusal(instructions_model(instructions@), fee_payer@) is Some && e@ == (Failure {
                kind: ErrorKind::InstructionError,
                detail: message_refusal(instructions_model(instructions@), fee_payer@)->Some_0,
            }),
        },
{
    match refuse_oversize(instructions, fee_payer) {
        Some(e) => { return Err(e); },
        None => {},
    }
    let message = outside_message(instructions, fee_payer);
    match outside_signer_keys(message.as_slice()) {
        Some(keys) => Ok(keys),
        None => unreached(),
    }
}

/// Builds one message from the instructions with `fee_payer` as its payer,
/// sets the blockhash and signs with every key pair in `signers`, in any
/// order.
///
/// Succeeds exactly where the instructions fit one message and the key pairs
/// are the signers that the message asks for: the fee payer and every account
/// that an instruction marks as a signer. A pair that the message does not
/// ask for fails with `SerializationError` as a mismatch; without such a
/// pair, a missing one fails with `SerializationError` as not enough signers.
/// More than 65535 instructions, or account references or payload bytes in
/// one instruction, or more than 255 distinct keys, fail with
/// `InstructionError`.
pub fn assemble_and_sign(
    instructions: &Vec<Instruction>,
    fee_payer: &PublicKey,
    signers: &Vec<KeyPair>,
    recent_blockhash: &[u8; 32],
) -> (r: Result<Transaction, NifError>)
    ensures
        match r {
            Ok(tx) => {
                &&& fits_one_message(instructions_model(instructions@), fee_payer@)
                &&& signers_complete(
                    instructions_model(instructions@),
                    fee_payer@,
                    keypairs_model(signers@),
                )
                &&& signed(
                    instructions_model(instructions@),
                    fee_payer@,
                    keypairs_model(signers@),
                    recent_blockhash@,
                ) == Ok::<TransactionModel, Seq<char>>(tx@)
            },
            Err(e) => if message_refusal(instructions_model(instructions@), fee_payer@) is Some {
                e@ == (Failure {
                    kind: ErrorKind::InstructionError,
                    detail: message_refusal(instructions_model(instructions@), fee_payer@)->Some_0,
                })
            } else {
                &&& !signers_complete(
                    instructions_model(instructions@),
                    fee_payer@,
                    keypairs_model(signers@),
                )
                &&& e@ == (Failure {
                    kind: ErrorKind::SerializationError,
                    detail: incomplete_complaint(
                        instructions_model(instructions@),
                        fee_payer@,
                        keypairs_model(signers@),
                    ),
                })
                &&& signed(
                    instructions_model(instructions@),
                    fee_payer@,
                    keypairs_model(signers@),
                    recent_blockhash@,
                ) == Err::<TransactionModel, Seq<char>>(e@.detail)
            },
        },
{
    match refuse_oversize(instructions, fee_payer) {
        Some(e) => { return Err(e); },
        None => {},
    }
    let message = outside_message(instructions, fee_payer);
    let r = outside_sign(message.as_slice(), signers, recent_blockhash);
    proof {
        let keys = spec_message_signers(message@)->Some_0;
        lemma_keys_match_is_complete(
            instructions_model(instructions@),
            fee_payer@,
            keys,
            keypairs_model(signers@),
        );
    }
    match r {
        Ok(tx) => Ok(tx),
        Err(reason) => Err(NifError::SerializationError(reason)),
    }
}

/// Where a message's signer keys are exactly the keys that it asks for, the
/// key pairs match the signer keys exactly when they are complete.
pub proof fn lemma_keys_match_is_complete(
    instructions: Seq<InstructionModel>,
    fee_payer: Seq<u8>,
    keys: Seq<Seq<u8>>,
    signers: Seq<Seq<u8>>,
)
    requires
        forall|key: Seq<u8>| #[trigger]
            keys.contains(key) <==> is_required_signer(instructions, fee_payer, key),
    ensures
        keys_match(keys, signers) <==> signers_complete(instructions, fee_payer, signers),
        mismatch_complaint(keys, signers) == incomplete_complaint(instructions, fee_payer, signers),
{
    if forall|s: int| 0 <= s < signers.len() ==> keys.contains(public_half(#[trigger] signers[s])) {
        assert forall|s: int| 0 <= s < signers.len() implies is_required_signer(
            instructions,
            fee_payer,
            public_half(#[trigger] signers[s]),
        ) by {
            assert(keys.contains(public_half(signers[s])));
        }
    }
    if forall|s: int|
        0 <= s < signers.len() ==> is_required_signer(
            instructions,
            fee_payer,
            public_half(#[trigger] signers[s]),
        ) {
        assert forall|s: int| 0 <= s < signers.len() implies keys.contains(
            public_half(#[trigger] signers[s]),
        ) by {
            assert(is_required_signer(instructions, fee_payer, public_half(signers[s])));
        }
    }
    if keys_match(keys, signers) {
        assert forall|s: int| 0 <= s < signers.len() implies is_required_signer(
            instructions,
            fee_payer,
            public_half(#[trigger] signers[s]),
        ) by {
            assert(keys.contains(public_half(signers[s])));
        }
        assert forall|key: Seq<u8>| #[trigger]
            is_required_signer(instructions, fee_payer, key) implies has_pair(signers, key) by {
            assert(keys.contains(key));
            let k: int = choose|k: int| 0 <= k < keys.len() && keys[k] == key;
            assert(has_pair(signers, keys[k]));
        }
    }
    if signers_complete(instructions, fee_payer, signers) {
        assert forall|s: int| 0 <= s < signers.len() implies keys.contains(
            public_half(#[trigger] signers[s]),
        ) by {
            assert(is_required_signer(instructions, fee_payer, public_half(signers[s])));
        }
        assert forall|k: int| 0 <= k < keys.len() implies has_pair(signers, #[trigger] keys[k]) by {
            assert(keys.contains(keys[k]));
            assert(is_required_signer(instructions, fee_payer, keys[k]));
        }
    }
}

/// A key that the message asks for and that no key pair holds leaves the
/// signers incomplete: such a transaction is never signed.
pub proof fn lemma_missing_signer_is_incomplete(
    instructions: Seq<InstructionModel>,
    fee_payer: Seq<u8>,
    signers: Seq<Seq<u8>>,
    key: Seq<u8>,
)
    requires
        is_required_signer(instructions, fee_payer, key),
        forall|s: int| 0 <= s < signers.len() ==> public_half(#[trigger] signers[s]) != key,
    ensures
        !signers_complete(instructions, fee_payer, signers),
{
}

} // verus!
