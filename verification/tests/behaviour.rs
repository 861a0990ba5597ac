use base64::engine::general_purpose::STANDARD;
use base64::Engine;
use borsh::BorshSerialize;
use mplbubblegumnif::document::{
    find_field, is_named_twice, parse_creator_input, parse_metadata_input, read_raw_fields,
};
use mplbubblegumnif::error::{ErrorKind, NifError};
use mplbubblegumnif::instruction::{
    build_create_tree_instruction, build_mint_instruction, build_transfer_instruction,
    derive_tree_config, AccountMeta, Instruction, LeafProof, BUBBLEGUM_PROGRAM_ID, COMPRESSION_PROGRAM_ID,
    CREATE_TREE_DISCRIMINATOR, LOG_WRAPPER_ID, MINT_DISCRIMINATOR, SYSTEM_PROGRAM_ID,
    TRANSFER_DISCRIMINATOR,
};
use mplbubblegumnif::keys::{parse_keypair, parse_pubkey, KeyPair, PublicKey};
use mplbubblegumnif::metadata::{
    accept_in_range, deserialize_metadata_from_borsh, encode_record, parse_metadata_document, record_to_bytes,
    serialize_metadata_to_borsh, Creator, MetadataRecord,
};
use mplbubblegumnif::operation::{create_tree_config, transfer, Action, Event, Phase};
use mplbubblegumnif::submission::{find_bytes, next_delay, reports_rate_limit};
use mplbubblegumnif::transaction::{
    accounts_fit_one_message, assemble_and_sign, counts_fit_one_message,
    payloads_fit_one_message, refuse_oversize, required_signers, Transaction,
};
use solana_sdk::message::Message;
use solana_sdk::signature::{Keypair, Signature};
use solana_sdk::signer::Signer;

fn key(fill: u8) -> PublicKey {
    PublicKey::new([fill; 32])
}

fn pair_of(outside: &Keypair) -> KeyPair {
    parse_keypair(&outside.to_base58_string()).unwrap()
}

fn key_of(outside: &Keypair) -> PublicKey {
    PublicKey::new(outside.pubkey().to_bytes())
}

fn flags(ix: &Instruction) -> Vec<([u8; 32], bool, bool)> {
    ix.accounts.iter().map(|a: &AccountMeta| (a.pubkey.bytes, a.is_signer, a.is_writable)).collect()
}

fn sample_record() -> MetadataRecord {
    MetadataRecord {
        name: "Test NFT".to_string(),
        symbol: "TNFT".to_string(),
        uri: "https://example.com/nft.json".to_string(),
        seller_fee_basis_points: 500,
        creators: vec![Creator { address: key(1), verified: false, share: 100 }],
        primary_sale_happened: false,
        is_mutable: true,
    }
}

fn sample_record_bytes() -> Vec<u8> {
    let mut bytes = Vec::new();
    for text in ["Test NFT", "TNFT", "https://example.com/nft.json"] {
        bytes.extend_from_slice(&(text.len() as u32).to_le_bytes());
        bytes.extend_from_slice(text.as_bytes());
    }
    bytes.extend_from_slice(&[0xf4, 0x01]);
    bytes.extend_from_slice(&[0, 1]);
    bytes.extend_from_slice(&[0, 0, 0, 0, 0]);
    bytes.extend_from_slice(&[1, 0, 0, 0]);
    bytes.extend_from_slice(&[1u8; 32]);
    bytes.extend_from_slice(&[0, 100]);
    bytes
}

fn verifies(tx: &Transaction) -> bool {
    let message: Message = bincode::deserialize(&tx.message).unwrap();
    let outside = solana_sdk::transaction::Transaction {
        signatures: tx.signatures.iter().map(|s| Signature::from(*s)).collect(),
        message,
    };
    outside.verify().is_ok()
}

#[test]
fn error_text_is_prefix_then_detail() {
    let d = || "detail".to_string();
    assert_eq!(NifError::InvalidPubkey(d()).to_string(), "Invalid Public key: detail");
    assert_eq!(NifError::MissingMetadatafield("name").to_string(), "Missing metadata field: name");
    assert_eq!(NifError::InvalidMetadata(d()).to_string(), "Invalid metadata field: detail");
    assert_eq!(NifError::RpcError(d()).to_string(), "Solana RPC error: detail");
    assert_eq!(NifError::InstructionError(d()).to_string(), "Instruction error: detail");
    assert_eq!(NifError::InvalidKeypair(d()).to_string(), "Invalid keypair: detail");
    assert_eq!(NifError::SerializationError(d()).to_string(), "Serialization error: detail");
    assert_eq!(NifError::RpcError(d()).kind(), ErrorKind::RpcError);
    assert_eq!(NifError::InvalidKeypair(d()).detail(), "detail");
}

#[test]
fn pubkey_text_round_trips() {
    for _ in 0..20 {
        let outside = Keypair::new().pubkey();
        let text = outside.to_string();
        let parsed = parse_pubkey(&text).unwrap();
        assert_eq!(parsed.bytes, outside.to_bytes());
        assert_eq!(parsed.to_string(), text);
    }
    let program = parse_pubkey("BGUMAp9Gq7iTEuizy4pqaxsTyUCBK68MDfK752saRPUY").unwrap();
    assert_eq!(program.bytes, BUBBLEGUM_PROGRAM_ID);
    assert_eq!(PublicKey::new(LOG_WRAPPER_ID).to_string(), "noopb9bkMVfRPU8AsbpTUg8AQkHtKwMYZiFUjNRtMmV");
    assert_eq!(
        PublicKey::new(COMPRESSION_PROGRAM_ID).to_string(),
        "cmtDvXumGCrqC1Age74AVPhSRVXJMd8PJS91L8KbNCK"
    );
    assert_eq!(PublicKey::new(SYSTEM_PROGRAM_ID).to_string(), "11111111111111111111111111111111");
}

#[test]
fn pubkey_text_is_refused_with_its_reason() {
    let reason = |text: &str| match parse_pubkey(text) {
        Err(NifError::InvalidPubkey(reason)) => reason,
        other => panic!("expected InvalidPubkey, got {:?}", other.map(|k| k.bytes)),
    };
    assert_eq!(reason("invalid_pubkey"), "Invalid Base58 string");
    assert_eq!(reason("0OIl"), "Invalid Base58 string");
    assert_eq!(reason("abc"), "String is the wrong size");
    assert_eq!(reason(""), "String is the wrong size");
    assert_eq!(reason(&"1".repeat(45)), "String is the wrong size");
    assert_eq!(reason(&"1".repeat(31)), "String is the wrong size");
    assert_eq!(reason(&"é".repeat(23)), "String is the wrong size");
    assert_eq!(reason(&"é".repeat(22)), "Invalid Base58 string");
}

#[test]
fn public_keys_compare_by_bytes() {
    assert!(key(3).same_as(&key(3)));
    assert!(!key(3).same_as(&key(4)));
    let mut bytes = [3u8; 32];
    bytes[31] = 4;
    assert!(!key(3).same_as(&PublicKey::new(bytes)));
}

#[test]
fn keypair_holds_the_derived_public_key() {
    let outside = Keypair::new();
    let pair = pair_of(&outside);
    assert_eq!(pair.pubkey().bytes, outside.pubkey().to_bytes());
}

#[test]
fn keypair_text_is_refused_without_echo() {
    let outside = Keypair::new();
    let mut forged = outside.to_bytes();
    forged[63] ^= 1;
    let secrets = [
        "invalid_key".to_string(),
        String::new(),
        "abc".to_string(),
        outside.pubkey().to_string(),
        solana_sdk::bs58::encode(forged).into_string(),
        solana_sdk::bs58::encode([outside.to_bytes().as_slice(), &[0u8]].concat()).into_string(),
    ];
    for secret in secrets {
        match parse_keypair(&secret) {
            Err(NifError::InvalidKeypair(detail)) => assert_eq!(detail, "Invalid secret key"),
            _ => panic!("expected InvalidKeypair"),
        }
    }
}

#[test]
fn create_tree_instruction_is_exact() {
    let ix = build_create_tree_instruction(&key(1), &key(2), &key(3), &key(4), 14, 2048);
    assert_eq!(ix.program_id.bytes, BUBBLEGUM_PROGRAM_ID);
    assert_eq!(
        flags(&ix),
        vec![
            ([3; 32], false, true),
            ([4; 32], false, true),
            ([1; 32], true, true),
            ([2; 32], true, false),
            (LOG_WRAPPER_ID, false, false),
            (COMPRESSION_PROGRAM_ID, false, false),
            (SYSTEM_PROGRAM_ID, false, false),
        ]
    );
    let mut data = CREATE_TREE_DISCRIMINATOR.to_vec();
    data.extend_from_slice(&[14, 0, 0, 0, 0, 8, 0, 0, 0]);
    assert_eq!(ix.data, data);

    let wide = build_create_tree_instruction(&key(1), &key(2), &key(3), &key(4), u32::MAX, 0x01020304);
    assert_eq!(wide.data[8..], [255, 255, 255, 255, 4, 3, 2, 1, 0]);
}

#[test]
fn mint_instruction_is_exact() {
    let ix = build_mint_instruction(&key(1), &key(2), &key(3), &key(4), &key(5), &sample_record())
        .unwrap();
    assert_eq!(ix.program_id.bytes, BUBBLEGUM_PROGRAM_ID);
    assert_eq!(
        flags(&ix),
        vec![
            ([1; 32], false, true),
            ([3; 32], false, false),
            ([4; 32], false, false),
            ([2; 32], false, true),
            ([5; 32], true, false),
            ([5; 32], true, false),
            (LOG_WRAPPER_ID, false, false),
            (COMPRESSION_PROGRAM_ID, false, false),
            (SYSTEM_PROGRAM_ID, false, false),
        ]
    );
    let mut data = MINT_DISCRIMINATOR.to_vec();
    data.extend_from_slice(&sample_record_bytes());
    assert_eq!(ix.data, data);
}

#[test]
fn transfer_instruction_is_exact() {
    let proof = LeafProof { root: [9; 32], data_hash: [8; 32], creator_hash: [7; 32], nonce: 0x0102030405060708 };
    let ix = build_transfer_instruction(&key(1), &key(2), &key(3), &key(4), &key(5), &proof, u32::MAX);
    assert_eq!(ix.program_id.bytes, BUBBLEGUM_PROGRAM_ID);
    assert_eq!(
        flags(&ix),
        vec![
            ([1; 32], false, false),
            ([3; 32], true, false),
            ([4; 32], false, false),
            ([5; 32], false, false),
            ([2; 32], false, true),
            (LOG_WRAPPER_ID, false, false),
            (COMPRESSION_PROGRAM_ID, false, false),
            (SYSTEM_PROGRAM_ID, false, false),
        ]
    );
    let mut data = TRANSFER_DISCRIMINATOR.to_vec();
    data.extend_from_slice(&[9; 32]);
    data.extend_from_slice(&[8; 32]);
    data.extend_from_slice(&[7; 32]);
    data.extend_from_slice(&[8, 7, 6, 5, 4, 3, 2, 1]);
    data.extend_from_slice(&[255, 255, 255, 255]);
    assert_eq!(ix.data, data);
}

#[test]
fn record_bytes_follow_the_protocol_layout() {
    assert_eq!(record_to_bytes(&sample_record()).unwrap(), sample_record_bytes());
    let text = encode_record(&sample_record()).unwrap();
    assert_eq!(text, STANDARD.encode(sample_record_bytes()));
    assert_eq!(
        text,
        "CAAAAFRlc3QgTkZUBAAAAFRORlQcAAAAaHR0cHM6Ly9leGFtcGxlLmNvbS9uZnQuanNvbvQBAAEAAAAAAAEAAAAB\
         AQEBAQEBAQEBAQEBAQEBAQEBAQEBAQEBAQEBAQEBAQBk"
    );
    let record = deserialize_metadata_from_borsh(&text).unwrap();
    assert_eq!(record.name, "Test NFT");
    assert_eq!(record.creators[0].address.bytes, [1; 32]);
}

#[test]
fn documents_in_both_forms_give_the_same_record() {
    let object = r#"{"is_mutable":true,"name":"A","symbol":"B","uri":"C","extra":[1,{"x":null}],
        "seller_fee_basis_points":10000,"primary_sale_happened":true,
        "creators":[{"share":100,"address":"11111111111111111111111111111111","verified":true},
                    ["11111111111111111111111111111112",false,0]]}"#;
    let array = r#"["A","B","C",10000,
        [["11111111111111111111111111111111",true,100],
         {"address":"11111111111111111111111111111112","verified":false,"share":0}],true,true]"#;
    for text in [object, array] {
        let record = parse_metadata_document(text).unwrap();
        assert_eq!(record.name, "A");
        assert_eq!(record.symbol, "B");
        assert_eq!(record.uri, "C");
        assert_eq!(record.seller_fee_basis_points, 10000);
        assert!(record.primary_sale_happened);
        assert!(record.is_mutable);
        assert_eq!(record.creators.len(), 2);
        assert_eq!(record.creators[0].address.bytes, [0; 32]);
        assert!(record.creators[0].verified);
        assert_eq!(record.creators[0].share, 100);
        let mut one = [0u8; 32];
        one[31] = 1;
        assert_eq!(record.creators[1].address.bytes, one);
        assert!(!record.creators[1].verified);
        assert_eq!(record.creators[1].share, 0);
    }
    assert_eq!(serialize_metadata_to_borsh(object).unwrap(), serialize_metadata_to_borsh(array).unwrap());
}

#[test]
fn creators_may_be_left_out_or_null() {
    let without = r#"{"name":"A","symbol":"B","uri":"C","seller_fee_basis_points":0,
        "primary_sale_happened":false,"is_mutable":false}"#;
    let null = r#"{"name":"A","symbol":"B","uri":"C","seller_fee_basis_points":0,
        "creators": null ,"primary_sale_happened":false,"is_mutable":false}"#;
    let empty = r#"{"name":"A","symbol":"B","uri":"C","seller_fee_basis_points":0,
        "creators":[],"primary_sale_happened":false,"is_mutable":false}"#;
    assert!(parse_metadata_input(without).unwrap().creators.is_none());
    assert!(parse_metadata_input(null).unwrap().creators.is_none());
    assert_eq!(parse_metadata_input(empty).unwrap().creators.unwrap().len(), 0);
    let text = serialize_metadata_to_borsh(without).unwrap();
    assert_eq!(text, serialize_metadata_to_borsh(null).unwrap());
    assert_eq!(text, serialize_metadata_to_borsh(empty).unwrap());
    assert_eq!(deserialize_metadata_from_borsh(&text).unwrap().creators.len(), 0);
}

#[test]
fn raw_fields_are_found_by_name_or_place() {
    let names = ["b", "a", "c"];
    let raw = read_raw_fields(r#" { "a" : [1, 2] , "b" : "x" } "#, &names).unwrap();
    assert_eq!(raw, vec![Some("\"x\"".to_string()), Some("[1, 2]".to_string()), None]);
    let raw = read_raw_fields(r#"[1, null, {"k": 2}]"#, &names).unwrap();
    assert_eq!(
        raw,
        vec![Some("1".to_string()), Some("null".to_string()), Some("{\"k\": 2}".to_string())]
    );
    assert_eq!(read_raw_fields("[1, 2]", &names).unwrap_err(), "invalid length: too few elements");
    assert_eq!(read_raw_fields("[1, 2, 3, 4]", &names).unwrap_err(), "trailing characters");
    assert!(read_raw_fields("12", &names).is_err());
    assert!(read_raw_fields("{\"a\": }", &names).is_err());
}

#[test]
fn creator_documents_need_all_three_fields() {
    let creator = parse_creator_input(r#"{"address":"x","verified":true,"share":255}"#).unwrap();
    assert_eq!(creator.address, "x");
    assert!(creator.verified);
    assert_eq!(creator.share, 255);
    assert_eq!(
        parse_creator_input(r#"{"address":"x","share":1}"#).unwrap_err(),
        "missing field `verified`"
    );
    assert!(parse_creator_input(r#"{"address":"x","verified":true,"share":256}"#).is_err());
    assert!(parse_creator_input(r#"{"address":1,"verified":true,"share":1}"#).is_err());
    assert!(parse_creator_input(r#"{"address":"x","verified":"yes","share":1}"#).is_err());
}

#[test]
fn unreadable_documents_are_invalid_metadata() {
    let detail = |text: &str| match serialize_metadata_to_borsh(text) {
        Err(NifError::InvalidMetadata(detail)) => detail,
        other => panic!("expected InvalidMetadata, got {:?}", other),
    };
    assert!(detail("not a json string").starts_with("JSON parse error: "));
    assert!(detail("").starts_with("JSON parse error: "));
    assert!(detail("{").starts_with("JSON parse error: "));
    assert_eq!(
        detail(r#"{"symbol":"B","uri":"C","seller_fee_basis_points":0,
            "primary_sale_happened":false,"is_mutable":false}"#),
        "JSON parse error: missing field `name`"
    );
    assert_eq!(
        detail(r#"{"name":"A","symbol":"B","uri":"C","seller_fee_basis_points":0,
            "primary_sale_happened":false}"#),
        "JSON parse error: missing field `is_mutable`"
    );
    assert!(detail(r#"{"name":1,"symbol":"B","uri":"C","seller_fee_basis_points":0,
            "primary_sale_happened":false,"is_mutable":false}"#)
        .starts_with("JSON parse error: invalid type"));
    assert!(detail(r#"{"name":"A","symbol":"B","uri":"C","seller_fee_basis_points":65536,
            "primary_sale_happened":false,"is_mutable":false}"#)
        .starts_with("JSON parse error: "));
    assert!(detail(r#"{"name":"A","symbol":"B","uri":"C","seller_fee_basis_points":5.0,
            "primary_sale_happened":false,"is_mutable":false}"#)
        .starts_with("JSON parse error: "));
    assert!(detail(r#"{"name":"A","symbol":"B","uri":"C","seller_fee_basis_points":0,
            "creators":{"address":"x"},"primary_sale_happened":false,"is_mutable":false}"#)
        .starts_with("JSON parse error: "));
    assert_eq!(detail(r#"["A","B","C",0,null,false]"#), "JSON parse error: invalid length: too few elements");
    assert_eq!(
        detail(r#"["A","B","C",0,null,false,false,0]"#),
        "JSON parse error: trailing characters"
    );
}

#[test]
fn fields_out_of_range_are_invalid_metadata() {
    let document = |fee: u32, share: u32, address: &str| {
        format!(
            r#"{{"name":"A","symbol":"B","uri":"C","seller_fee_basis_points":{},
                "creators":[{{"address":"{}","verified":false,"share":{}}}],
                "primary_sale_happened":false,"is_mutable":false}}"#,
            fee, address, share
        )
    };
    let good = "11111111111111111111111111111111";
    assert!(serialize_metadata_to_borsh(&document(10000, 100, good)).is_ok());
    match serialize_metadata_to_borsh(&document(10001, 100, good)) {
        Err(NifError::InvalidMetadata(d)) => assert_eq!(d, "seller_fee_basis_points is out of range"),
        other => panic!("unexpected: {:?}", other),
    }
    match serialize_metadata_to_borsh(&document(10000, 101, good)) {
        Err(NifError::InvalidMetadata(d)) => assert_eq!(d, "creator share is out of range"),
        other => panic!("unexpected: {:?}", other),
    }
    match serialize_metadata_to_borsh(&document(10000, 101, "invalid_pubkey")) {
        Err(NifError::InvalidMetadata(d)) => assert_eq!(d, "creator share is out of range"),
        other => panic!("unexpected: {:?}", other),
    }
    match serialize_metadata_to_borsh(&document(10000, 100, "invalid_pubkey")) {
        Err(NifError::InvalidPubkey(d)) => assert_eq!(d, "Invalid Base58 string"),
        other => panic!("unexpected: {:?}", other),
    }
    match serialize_metadata_to_borsh(&document(10000, 100, "abc")) {
        Err(NifError::InvalidPubkey(d)) => assert_eq!(d, "String is the wrong size"),
        other => panic!("unexpected: {:?}", other),
    }
}

#[test]
fn deserialize_refuses_what_is_no_record() {
    let detail = |text: &str| match deserialize_metadata_from_borsh(text) {
        Err(NifError::InvalidMetadata(detail)) => detail,
        other => panic!("expected InvalidMetadata, got {:?}", other),
    };
    assert!(detail("not_a_valid_borsh_base64_string").starts_with("Base64 decode error: "));
    assert!(detail("AQID").starts_with("Borsh deserialize error: "));
    assert!(detail("").starts_with("Borsh deserialize error: "));
    let mut trailing = sample_record_bytes();
    trailing.push(0);
    assert!(detail(&STANDARD.encode(trailing)).starts_with("Borsh deserialize error: "));

    let args = |fee: u16, share: u8| mpl_bubblegum::types::MetadataArgs {
        name: "A".to_string(),
        symbol: "B".to_string(),
        uri: "C".to_string(),
        seller_fee_basis_points: fee,
        primary_sale_happened: true,
        is_mutable: false,
        edition_nonce: Some(3),
        token_standard: Some(mpl_bubblegum::types::TokenStandard::NonFungible),
        collection: None,
        uses: None,
        token_program_version: mpl_bubblegum::types::TokenProgramVersion::Token2022,
        creators: vec![mpl_bubblegum::types::Creator {
            address: [5u8; 32].into(),
            verified: true,
            share,
        }],
    };
    let text = |fee: u16, share: u8| STANDARD.encode(args(fee, share).try_to_vec().unwrap());
    let record = deserialize_metadata_from_borsh(&text(10000, 100)).unwrap();
    assert_eq!(record.name, "A");
    assert_eq!(record.seller_fee_basis_points, 10000);
    assert!(record.primary_sale_happened);
    assert!(!record.is_mutable);
    assert_eq!(record.creators[0].address.bytes, [5; 32]);
    assert!(record.creators[0].verified);
    assert_eq!(record.creators[0].share, 100);
    assert_eq!(detail(&text(10001, 100)), "Borsh deserialize error: a field is out of range");
    assert_eq!(detail(&text(10000, 101)), "Borsh deserialize error: a field is out of range");
}

#[test]
fn signing_needs_exactly_the_required_signers() {
    let payer = Keypair::new();
    let creator = Keypair::new();
    let stranger = Keypair::new();
    let ix = vec![build_create_tree_instruction(
        &key_of(&payer),
        &key_of(&creator),
        &key(3),
        &key(4),
        14,
        2048,
    )];
    let blockhash = [9u8; 32];

    for signers in [
        vec![pair_of(&payer), pair_of(&creator)],
        vec![pair_of(&creator), pair_of(&payer)],
        vec![pair_of(&creator), pair_of(&payer), pair_of(&creator)],
    ] {
        let tx = assemble_and_sign(&ix, &key_of(&payer), &signers, &blockhash).unwrap();
        assert_eq!(tx.signatures.len(), 2);
        assert!(verifies(&tx));
        let message: Message = bincode::deserialize(&tx.message).unwrap();
        assert_eq!(message.recent_blockhash.to_bytes(), blockhash);
        assert_eq!(message.account_keys[0], payer.pubkey());
        assert_eq!(message.account_keys[1], creator.pubkey());
        assert_eq!(tx.signatures[0], <[u8; 64]>::from(payer.sign_message(&tx.message)));
        assert_eq!(tx.signatures[1], <[u8; 64]>::from(creator.sign_message(&tx.message)));
    }

    let reason = |signers: Vec<KeyPair>| match assemble_and_sign(&ix, &key_of(&payer), &signers, &blockhash) {
        Err(NifError::SerializationError(reason)) => reason,
        other => panic!("expected SerializationError, got {:?}", other),
    };
    assert_eq!(reason(vec![pair_of(&payer)]), "not enough signers");
    assert_eq!(reason(vec![pair_of(&payer), pair_of(&payer)]), "not enough signers");
    assert_eq!(reason(vec![]), "not enough signers");
    assert_eq!(
        reason(vec![pair_of(&payer), pair_of(&creator), pair_of(&stranger)]),
        "keypair-pubkey mismatch"
    );
}

#[test]
fn signing_refuses_more_keys_than_one_message_holds() {
    let payer = Keypair::new();
    let fee_payer = key_of(&payer);
    let instruction = |from: usize, n: usize| Instruction {
        program_id: key(200),
        accounts: (from..from + n)
            .map(|i| {
                let mut bytes = [0u8; 32];
                bytes[0] = (i % 256) as u8;
                bytes[1] = (i / 256) as u8;
                bytes[2] = 1;
                AccountMeta { pubkey: PublicKey::new(bytes), is_signer: false, is_writable: false }
            })
            .collect(),
        data: vec![],
    };
    let signers = vec![pair_of(&payer)];
    let fitting = [
        vec![],
        vec![instruction(0, 253)],
        vec![instruction(0, 100), instruction(100, 153)],
        vec![instruction(0, 253), instruction(0, 253), instruction(50, 100)],
    ];
    for instructions in fitting {
        assert!(accounts_fit_one_message(&instructions, &fee_payer));
        assert!(verifies(&assemble_and_sign(&instructions, &fee_payer, &signers, &[0; 32]).unwrap()));
    }
    let crowded = [
        vec![instruction(0, 254)],
        vec![instruction(0, 100), instruction(100, 154)],
        vec![instruction(0, 1000)],
    ];
    for instructions in crowded {
        assert!(!accounts_fit_one_message(&instructions, &fee_payer));
        match assemble_and_sign(&instructions, &fee_payer, &signers, &[0; 32]) {
            Err(NifError::InstructionError(detail)) => {
                assert_eq!(detail, "too many accounts for one transaction")
            }
            other => panic!("expected InstructionError, got {:?}", other),
        }
    }
}

#[test]
fn create_tree_with_the_payer_alone_is_never_submitted() {
    let payer = Keypair::new();
    let creator = Keypair::new();
    let operation = create_tree_config(
        "http://localhost:8899",
        &payer.pubkey().to_string(),
        &creator.pubkey().to_string(),
        &Keypair::new().pubkey().to_string(),
        14,
        2048,
        &payer.to_base58_string(),
        &payer.to_base58_string(),
    )
    .unwrap();
    let (operation, action) = operation.advance(Event::Blockhash(Ok([1; 32])));
    assert!(matches!(operation.phase, Phase::Finished));
    match action {
        Action::Finish(Err(NifError::SerializationError(reason))) => {
            assert_eq!(reason, "not enough signers")
        }
        other => panic!("unexpected: {:?}", other),
    }
}

#[test]
fn transfer_must_be_signed_by_the_named_owner() {
    let payer = Keypair::new();
    let owner = Keypair::new();
    let other = Keypair::new();
    let start = |owner_secret: &Keypair| {
        transfer(
            "http://localhost:8899",
            &Keypair::new().pubkey().to_string(),
            &owner.pubkey().to_string(),
            &Keypair::new().pubkey().to_string(),
            &LeafProof { root: [1; 32], data_hash: [2; 32], creator_hash: [3; 32], nonce: 4 },
            5,
            &payer.to_base58_string(),
            &owner_secret.to_base58_string(),
        )
        .unwrap()
    };
    let (operation, action) = start(&owner).advance(Event::Blockhash(Ok([1; 32])));
    assert!(matches!(action, Action::Submit { delay_seconds: 0 }));
    match operation.phase {
        Phase::AwaitingConfirmation { transaction, attempts, retry_delay_seconds } => {
            assert_eq!(attempts, 1);
            assert_eq!(retry_delay_seconds, 2);
            assert!(verifies(&transaction));
        }
        _ => panic!("expected a signed transaction"),
    }
    let (_, action) = start(&other).advance(Event::Blockhash(Ok([1; 32])));
    match action {
        Action::Finish(Err(NifError::SerializationError(reason))) => {
            assert_eq!(reason, "keypair-pubkey mismatch")
        }
        other => panic!("unexpected: {:?}", other),
    }
}

fn submitted_operation() -> mplbubblegumnif::operation::Operation {
    let payer = Keypair::new();
    let owner = Keypair::new();
    let operation = transfer(
        "http://localhost:8899",
        &Keypair::new().pubkey().to_string(),
        &owner.pubkey().to_string(),
        &Keypair::new().pubkey().to_string(),
        &LeafProof { root: [1; 32], data_hash: [2; 32], creator_hash: [3; 32], nonce: 4 },
        0,
        &payer.to_base58_string(),
        &owner.to_base58_string(),
    )
    .unwrap();
    assert_eq!(operation.rpc_url, "http://localhost:8899");
    assert!(matches!(operation.phase, Phase::AwaitingBlockhash(_)));
    let (operation, action) = operation.advance(Event::Blockhash(Ok([1; 32])));
    assert!(matches!(action, Action::Submit { delay_seconds: 0 }));
    operation
}

#[test]
fn endpoint_failures_end_the_operation_with_their_message() {
    let payer = Keypair::new();
    let operation = create_tree_config(
        "http://localhost:8899",
        &payer.pubkey().to_string(),
        &payer.pubkey().to_string(),
        &Keypair::new().pubkey().to_string(),
        14,
        2048,
        &payer.to_base58_string(),
        &payer.to_base58_string(),
    )
    .unwrap();
    let (operation, action) = operation.advance(Event::Blockhash(Err("connection refused".to_string())));
    assert!(matches!(operation.phase, Phase::Finished));
    match action {
        Action::Finish(Err(NifError::RpcError(message))) => assert_eq!(message, "connection refused"),
        other => panic!("unexpected: {:?}", other),
    }

    let (operation, action) =
        submitted_operation().advance(Event::Confirmation(Err("account not found".to_string())));
    assert!(matches!(operation.phase, Phase::Finished));
    match action {
        Action::Finish(Err(NifError::RpcError(message))) => assert_eq!(message, "account not found"),
        other => panic!("unexpected: {:?}", other),
    }

    let (operation, action) = submitted_operation().advance(Event::Confirmation(Ok("5sig".to_string())));
    assert!(matches!(operation.phase, Phase::Finished));
    assert!(matches!(action, Action::Finish(Ok(id)) if id == "5sig"));
}

#[test]
fn rate_limited_submissions_are_repeated_with_doubled_waits() {
    let mut operation = submitted_operation();
    for expected in [2u64, 4, 8, 16] {
        let (next, action) =
            operation.advance(Event::Confirmation(Err("429: rate limit exceeded".to_string())));
        match action {
            Action::Submit { delay_seconds } => assert_eq!(delay_seconds, expected),
            other => panic!("unexpected: {:?}", other),
        }
        assert!(matches!(next.phase, Phase::AwaitingConfirmation { .. }));
        operation = next;
    }
    let (operation, action) =
        operation.advance(Event::Confirmation(Err("429: rate limit exceeded".to_string())));
    assert!(matches!(operation.phase, Phase::Finished));
    match action {
        Action::Finish(Err(NifError::RpcError(message))) => assert_eq!(message, "429: rate limit exceeded"),
        other => panic!("unexpected: {:?}", other),
    }
}

#[test]
fn answers_out_of_turn_end_the_operation() {
    let (operation, action) = submitted_operation().advance(Event::Blockhash(Ok([2; 32])));
    assert!(matches!(operation.phase, Phase::Finished));
    match action {
        Action::Finish(Err(NifError::InstructionError(detail))) => assert_eq!(detail, "unexpected event"),
        other => panic!("unexpected: {:?}", other),
    }
    let (operation, action) = operation.advance(Event::Confirmation(Ok("x".to_string())));
    assert!(matches!(operation.phase, Phase::Finished));
    assert!(matches!(action, Action::Finish(Err(NifError::InstructionError(_)))));
}

#[test]
fn submission_policy_helpers() {
    assert!(reports_rate_limit("rate limit"));
    assert!(reports_rate_limit("HTTP 429: rate limit hit"));
    assert!(!reports_rate_limit("Rate Limit"));
    assert!(!reports_rate_limit("rate limi"));
    assert!(!reports_rate_limit(""));
    assert!(find_bytes(b"abcabd", b"abd"));
    assert!(find_bytes(b"abc", b""));
    assert!(find_bytes(b"", b""));
    assert!(!find_bytes(b"", b"a"));
    assert!(!find_bytes(b"abcabc", b"abd"));
    assert!(find_bytes(b"abc", b"abc"));
    assert!(!find_bytes(b"ab", b"abc"));
    assert_eq!(next_delay(0), 0);
    assert_eq!(next_delay(2), 4);
    assert_eq!(next_delay(u64::MAX / 2), u64::MAX - 1);
    assert_eq!(next_delay(u64::MAX / 2 + 1), u64::MAX);
    assert_eq!(next_delay(u64::MAX), u64::MAX);
}

#[test]
fn fields_are_looked_up_by_their_first_entry() {
    let entry = |k: &str, v: &str| (k.to_string(), v.to_string());
    let entries = vec![entry("a", "1"), entry("b", "2"), entry("a", "3")];
    assert_eq!(find_field(&entries, "a"), Some("1".to_string()));
    assert_eq!(find_field(&entries, "b"), Some("2".to_string()));
    assert_eq!(find_field(&entries, "c"), None);
    assert_eq!(find_field(&vec![], "a"), None);
}

#[test]
fn decoded_records_out_of_range_are_refused() {
    let accepted = accept_in_range(sample_record()).unwrap();
    assert_eq!(accepted.name, "Test NFT");
    assert_eq!(accepted.creators[0].share, 100);

    let mut record = sample_record();
    record.seller_fee_basis_points = 10000;
    assert!(accept_in_range(record).is_ok());

    let mut record = sample_record();
    record.seller_fee_basis_points = 10001;
    assert!(matches!(accept_in_range(record), Err(NifError::InvalidMetadata(_))));

    let mut record = sample_record();
    record.creators.push(Creator { address: key(2), verified: true, share: 101 });
    assert!(matches!(accept_in_range(record), Err(NifError::InvalidMetadata(_))));
}

#[test]
fn signing_refuses_a_payload_that_the_message_cannot_hold() {
    let payer = Keypair::new();
    let instruction = |n: usize| Instruction { program_id: key(200), accounts: vec![], data: vec![7; n] };
    let signers = vec![pair_of(&payer)];
    assert!(payloads_fit_one_message(&vec![instruction(65535), instruction(0)]));
    assert!(!payloads_fit_one_message(&vec![instruction(0), instruction(65536)]));
    assert!(verifies(&assemble_and_sign(&vec![instruction(65535)], &key_of(&payer), &signers, &[0; 32]).unwrap()));
    for long in [vec![instruction(65536)], vec![instruction(1), instruction(70000)]] {
        match assemble_and_sign(&long, &key_of(&payer), &signers, &[0; 32]) {
            Err(NifError::InstructionError(detail)) => {
                assert_eq!(detail, "instruction payload is too long for one transaction")
            }
            other => panic!("expected InstructionError, got {:?}", other),
        }
        assert!(matches!(required_signers(&long, &key_of(&payer)), Err(NifError::InstructionError(_))));
    }
}

#[test]
fn required_signers_are_the_payer_and_the_marked_accounts() {
    let payer = Keypair::new();
    let creator = Keypair::new();
    let ix = vec![build_create_tree_instruction(&key_of(&payer), &key_of(&creator), &key(3), &key(4), 14, 2048)];
    let keys: Vec<[u8; 32]> = required_signers(&ix, &key_of(&payer)).unwrap().iter().map(|k| k.bytes).collect();
    assert_eq!(keys, vec![payer.pubkey().to_bytes(), creator.pubkey().to_bytes()]);
    let keys: Vec<[u8; 32]> = required_signers(&ix, &key(9)).unwrap().iter().map(|k| k.bytes).collect();
    assert_eq!(keys.len(), 3);
    assert_eq!(keys[0], [9; 32]);
    assert!(keys.contains(&payer.pubkey().to_bytes()) && keys.contains(&creator.pubkey().to_bytes()));
    let keys = required_signers(&vec![], &key(9)).unwrap();
    assert_eq!(keys.len(), 1);
    assert_eq!(keys[0].bytes, [9; 32]);
}

#[test]
fn tree_configuration_is_derived_from_the_merkle_account() {
    for _ in 0..5 {
        let tree = Keypair::new().pubkey();
        let expected = mpl_bubblegum::accounts::TreeConfig::find_pda(&tree).0;
        let derived = derive_tree_config(&PublicKey::new(tree.to_bytes())).unwrap();
        assert_eq!(derived.bytes, expected.to_bytes());
        assert_ne!(derived.bytes, tree.to_bytes());
    }
}

#[test]
fn operations_address_the_tree_and_its_derived_configuration() {
    let payer = Keypair::new();
    let creator = Keypair::new();
    let owner = Keypair::new();
    let tree = Keypair::new().pubkey();
    let config = mpl_bubblegum::accounts::TreeConfig::find_pda(&tree).0.to_bytes();
    let first = |operation: mplbubblegumnif::operation::Operation| match operation.phase {
        Phase::AwaitingBlockhash(prepared) => {
            assert_eq!(prepared.instructions.len(), 1);
            (flags(&prepared.instructions[0]), prepared.instructions[0].data.clone(), prepared.fee_payer.bytes)
        }
        _ => panic!("expected a built transaction"),
    };

    let (accounts, _, fee_payer) = first(
        create_tree_config(
            "u",
            &payer.pubkey().to_string(),
            &creator.pubkey().to_string(),
            &tree.to_string(),
            14,
            2048,
            &payer.to_base58_string(),
            &creator.to_base58_string(),
        )
        .unwrap(),
    );
    assert_eq!(accounts[0], (config, false, true));
    assert_eq!(accounts[1], (tree.to_bytes(), false, true));
    assert_eq!(accounts[2], (payer.pubkey().to_bytes(), true, true));
    assert_eq!(accounts[3], (creator.pubkey().to_bytes(), true, false));
    assert_eq!(fee_payer, payer.pubkey().to_bytes());

    let proof = LeafProof { root: [1; 32], data_hash: [2; 32], creator_hash: [3; 32], nonce: 0x0807060504030201 };
    let (accounts, data, fee_payer) = first(
        transfer(
            "u",
            &tree.to_string(),
            &owner.pubkey().to_string(),
            &creator.pubkey().to_string(),
            &proof,
            u32::MAX,
            &payer.to_base58_string(),
            &owner.to_base58_string(),
        )
        .unwrap(),
    );
    assert_eq!(accounts[0], (config, false, false));
    assert_eq!(accounts[1], (owner.pubkey().to_bytes(), true, false));
    assert_eq!(accounts[2], (owner.pubkey().to_bytes(), false, false));
    assert_eq!(accounts[3], (creator.pubkey().to_bytes(), false, false));
    assert_eq!(accounts[4], (tree.to_bytes(), false, true));
    assert_eq!(fee_payer, payer.pubkey().to_bytes());
    assert_eq!(data[8..40], [1; 32]);
    assert_eq!(data[40..72], [2; 32]);
    assert_eq!(data[72..104], [3; 32]);
    assert_eq!(data[104..112], [1, 2, 3, 4, 5, 6, 7, 8]);
    assert_eq!(data[112..116], [255; 4]);

    let metadata = encode_record(&sample_record()).unwrap();
    let (accounts, data, fee_payer) = first(
        mplbubblegumnif::operation::mint_v1(
            "u",
            &tree.to_string(),
            &owner.pubkey().to_string(),
            &creator.pubkey().to_string(),
            &metadata,
            &payer.to_base58_string(),
            &owner.to_base58_string(),
        )
        .unwrap(),
    );
    assert_eq!(accounts[0], (config, false, true));
    assert_eq!(accounts[1], (owner.pubkey().to_bytes(), false, false));
    assert_eq!(accounts[2], (creator.pubkey().to_bytes(), false, false));
    assert_eq!(accounts[3], (tree.to_bytes(), false, true));
    assert_eq!(accounts[4], (payer.pubkey().to_bytes(), true, false));
    assert_eq!(accounts[5], (payer.pubkey().to_bytes(), true, false));
    assert_eq!(fee_payer, payer.pubkey().to_bytes());
    assert_eq!(data[8..], sample_record_bytes()[..]);
}

#[test]
fn reserved_fields_are_always_written_as_absent() {
    let text = serialize_metadata_to_borsh(
        r#"{"name":"A","symbol":"B","uri":"C","seller_fee_basis_points":1,
            "primary_sale_happened":true,"is_mutable":true,
            "edition_nonce":7,"token_standard":"NonFungible","uses":{"total":1},
            "collection":{"verified":true,"key":"11111111111111111111111111111111"},
            "token_program_version":"Token2022"}"#,
    )
    .unwrap();
    let bytes = STANDARD.decode(&text).unwrap();
    assert_eq!(bytes, [
        1, 0, 0, 0, b'A', 1, 0, 0, 0, b'B', 1, 0, 0, 0, b'C', 1, 0, 1, 1, 0, 0, 0, 0, 0, 0, 0, 0, 0,
    ]);
    let args = <mpl_bubblegum::types::MetadataArgs as borsh::BorshDeserialize>::try_from_slice(&bytes).unwrap();
    assert_eq!(args.edition_nonce, None);
    assert_eq!(args.token_standard, None);
    assert_eq!(args.collection, None);
    assert_eq!(args.uses, None);
    assert_eq!(args.token_program_version, mpl_bubblegum::types::TokenProgramVersion::Original);
}

#[test]
fn the_text_of_any_key_reads_back_as_that_key() {
    let mut samples = vec![[0u8; 32], [255u8; 32], [1u8; 32]];
    let mut mixed = [0u8; 32];
    for (i, byte) in mixed.iter_mut().enumerate() {
        *byte = (i * 37 % 256) as u8;
    }
    samples.push(mixed);
    let mut leading = [0u8; 32];
    leading[31] = 1;
    samples.push(leading);
    for bytes in samples {
        let text = PublicKey::new(bytes).to_string();
        assert!(text.len() <= 44);
        assert_eq!(text, solana_sdk::bs58::encode(bytes).into_string());
        assert_eq!(parse_pubkey(&text).unwrap().bytes, bytes);
    }
}

#[test]
fn signing_refuses_more_instructions_than_the_message_can_count() {
    let payer = Keypair::new();
    let fee_payer = key_of(&payer);
    let signers = vec![pair_of(&payer)];
    let bare = |n: usize| -> Vec<Instruction> {
        (0..n).map(|_| Instruction { program_id: fee_payer, accounts: vec![], data: vec![] }).collect()
    };
    assert!(counts_fit_one_message(&bare(65535)));
    assert!(refuse_oversize(&bare(65535), &fee_payer).is_none());
    let tx = assemble_and_sign(&bare(65535), &fee_payer, &signers, &[0; 32]).unwrap();
    assert!(verifies(&tx));

    for n in [65536, 70000] {
        assert!(!counts_fit_one_message(&bare(n)));
        match assemble_and_sign(&bare(n), &fee_payer, &signers, &[0; 32]) {
            Err(NifError::InstructionError(detail)) => {
                assert_eq!(detail, "too many instructions or account references for one transaction")
            }
            other => panic!("expected InstructionError, got {:?}", other),
        }
        assert!(matches!(required_signers(&bare(n), &fee_payer), Err(NifError::InstructionError(_))));
    }
}

#[test]
fn signing_refuses_more_account_references_than_the_message_can_count() {
    let payer = Keypair::new();
    let fee_payer = key_of(&payer);
    let signers = vec![pair_of(&payer)];
    let repeated = |n: usize| {
        vec![Instruction {
            program_id: key(200),
            accounts: vec![AccountMeta { pubkey: key(9), is_signer: false, is_writable: true }; n],
            data: vec![],
        }]
    };
    assert!(counts_fit_one_message(&repeated(65535)));
    let tx = assemble_and_sign(&repeated(65535), &fee_payer, &signers, &[0; 32]).unwrap();
    assert!(verifies(&tx));

    assert!(!counts_fit_one_message(&repeated(65536)));
    match refuse_oversize(&repeated(65536), &fee_payer) {
        Some(NifError::InstructionError(detail)) => {
            assert_eq!(detail, "too many instructions or account references for one transaction")
        }
        other => panic!("expected InstructionError, got {:?}", other),
    }
    assert!(matches!(
        assemble_and_sign(&repeated(65536), &fee_payer, &signers, &[0; 32]),
        Err(NifError::InstructionError(_))
    ));
}

#[test]
fn a_field_named_twice_is_refused() {
    let detail = |text: &str| match serialize_metadata_to_borsh(text) {
        Err(NifError::InvalidMetadata(detail)) => detail,
        other => panic!("expected InvalidMetadata, got {:?}", other),
    };
    assert_eq!(
        detail(r#"{"name":"A","symbol":"B","uri":"C","seller_fee_basis_points":0,
            "primary_sale_happened":false,"is_mutable":false,"name":"Z"}"#),
        "JSON parse error: duplicate field `name`"
    );
    assert_eq!(
        detail(r#"{"is_mutable":true,"name":"A","symbol":"B","uri":"C","seller_fee_basis_points":0,
            "primary_sale_happened":false,"is_mutable":true}"#),
        "JSON parse error: duplicate field `is_mutable`"
    );
    assert_eq!(
        detail(r#"{"name":"A","symbol":"B","uri":"C","seller_fee_basis_points":0,
            "creators":[{"address":"11111111111111111111111111111111","share":1,"verified":true,"share":2}],
            "primary_sale_happened":false,"is_mutable":false}"#),
        "JSON parse error: duplicate field `share`"
    );
    let repeated_unknown = serialize_metadata_to_borsh(
        r#"{"extra":1,"name":"A","symbol":"B","uri":"C","seller_fee_basis_points":0,
            "primary_sale_happened":false,"is_mutable":false,"extra":{"name":"Z"},"extra":null}"#,
    )
    .unwrap();
    let plain = serialize_metadata_to_borsh(
        r#"{"name":"A","symbol":"B","uri":"C","seller_fee_basis_points":0,
            "primary_sale_happened":false,"is_mutable":false}"#,
    )
    .unwrap();
    assert_eq!(repeated_unknown, plain);
}

#[test]
fn entries_keep_the_order_and_the_repeats_of_the_text() {
    let entry = |k: &str, v: &str| (k.to_string(), v.to_string());
    let entries = vec![entry("b", "1"), entry("a", "2"), entry("b", "3"), entry("c", "4")];
    assert!(is_named_twice(&entries, "b"));
    assert!(!is_named_twice(&entries, "a"));
    assert!(!is_named_twice(&entries, "z"));
    assert!(!is_named_twice(&vec![], "a"));
    let names = ["b", "a"];
    assert_eq!(read_raw_fields(r#"{"b":1,"a":2,"b":3}"#, &names).unwrap_err(), "duplicate field `b`");
    assert_eq!(
        read_raw_fields(r#"{"z":0,"b":1,"z":9,"a":2}"#, &names).unwrap(),
        vec![Some("1".to_string()), Some("2".to_string())]
    );
    assert!(read_raw_fields(r#"{"b":1,"a":2} x"#, &names).is_err());
    assert!(read_raw_fields(r#"{"b":1,"a":}"#, &names).is_err());
}
