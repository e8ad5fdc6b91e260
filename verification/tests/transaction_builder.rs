use solana_keypair::{Keypair, Signer};
use solana_low_latency::transaction_builder::{build_v0_transaction, TransactionBuildError};
use solana_message::{
    v0::Message as MessageV0, AccountMeta, AddressLookupTableAccount, Instruction, VersionedMessage,
};
use solana_pubkey::Pubkey;
use solana_transaction::versioned::VersionedTransaction;

fn simple_instruction(program_id: Pubkey, account: Pubkey) -> Instruction {
    Instruction {
        program_id,
        accounts: vec![AccountMeta {
            pubkey: account,
            is_signer: false,
            is_writable: false,
        }],
        data: vec![1],
    }
}

fn get_v0_message(transaction: &VersionedTransaction) -> &MessageV0 {
    match &transaction.message {
        VersionedMessage::V0(message) => message,
        _ => panic!("expected v0 message"),
    }
}

#[test]
fn builds_v0_transaction() {
    let payer = Keypair::new();
    let blockhash = solana_hash::Hash::new_unique();

    let instruction = simple_instruction(Pubkey::new_unique(), Pubkey::new_unique());

    let transaction = build_v0_transaction(&payer, vec![instruction], blockhash, vec![]).unwrap();

    assert!(matches!(transaction.message, VersionedMessage::V0(_)));

    assert!(transaction.version() == solana_transaction::versioned::TransactionVersion::Number(0));
}

#[test]
fn preserves_recent_blockhash() {
    let payer = Keypair::new();
    let blockhash = solana_hash::Hash::new_unique();

    let instruction = simple_instruction(Pubkey::new_unique(), Pubkey::new_unique());

    let transaction = build_v0_transaction(&payer, vec![instruction], blockhash, vec![]).unwrap();

    let message = get_v0_message(&transaction);

    assert_eq!(message.recent_blockhash, blockhash);
}

#[test]
fn includes_expected_signer() {
    let payer = Keypair::new();
    let payer_pubkey = payer.pubkey();

    let instruction = simple_instruction(Pubkey::new_unique(), Pubkey::new_unique());

    let transaction =
        build_v0_transaction(&payer, vec![instruction], solana_hash::Hash::new_unique(), vec![]).unwrap();

    let message = get_v0_message(&transaction);

    assert!(message.account_keys.contains(&payer_pubkey));
}

#[test]
fn compiles_multiple_instructions() {
    let payer = Keypair::new();

    let ix1 = simple_instruction(Pubkey::new_unique(), Pubkey::new_unique());

    let ix2 = simple_instruction(Pubkey::new_unique(), Pubkey::new_unique());

    let transaction =
        build_v0_transaction(&payer, vec![ix1, ix2], solana_hash::Hash::new_unique(), vec![]).unwrap();

    let message = get_v0_message(&transaction);

    assert_eq!(message.instructions.len(), 2);
}

#[test]
fn builds_with_lookup_table() {
    let payer = Keypair::new();

    let account_a = Pubkey::new_unique();

    let instruction = simple_instruction(Pubkey::new_unique(), account_a);

    let lookup_table = AddressLookupTableAccount {
        key: Pubkey::new_unique(),
        addresses: vec![account_a],
    };

    let transaction = build_v0_transaction(
        &payer,
        vec![instruction],
        solana_hash::Hash::new_unique(),
        vec![lookup_table],
    )
    .unwrap();

    let message = get_v0_message(&transaction);

    println!("{:?}", message);

    assert!(!message.address_table_lookups.is_empty());
}

#[test]
fn lookup_reduces_inline_account_keys() {
    let payer = Keypair::new();

    let account_a = Pubkey::new_unique();
    let program_id = Pubkey::new_unique();
    let blockhash = solana_hash::Hash::new_unique();

    let instruction = simple_instruction(program_id, account_a);

    let without_alt =
        build_v0_transaction(&payer, vec![instruction.clone()], blockhash, vec![]).unwrap();

    let lookup_table = AddressLookupTableAccount {
        key: Pubkey::new_unique(),
        addresses: vec![account_a],
    };

    let with_alt =
        build_v0_transaction(&payer, vec![instruction], blockhash, vec![lookup_table]).unwrap();

    let without_alt_message = get_v0_message(&without_alt);
    let with_alt_message = get_v0_message(&with_alt);

    println!("{:?}", without_alt_message);
    println!("{:?}", with_alt_message);
    assert!(with_alt_message.account_keys.len() < without_alt_message.account_keys.len());
}

#[test]
fn signs_with_payer_as_first_key() {
    let payer = Keypair::new();
    let transaction = build_v0_transaction(
        &payer,
        vec![simple_instruction(Pubkey::new_unique(), Pubkey::new_unique())],
        solana_hash::Hash::new_unique(),
        vec![],
    )
    .unwrap();
    let message = get_v0_message(&transaction);
    assert_eq!(message.account_keys[0], payer.pubkey());
    assert_eq!(transaction.signatures.len(), 1);
}

#[test]
fn unsigned_required_signer_fails_to_sign() {
    let payer = Keypair::new();
    let other_signer = Pubkey::new_unique();
    let instruction = Instruction {
        program_id: Pubkey::new_unique(),
        accounts: vec![AccountMeta::new(other_signer, true)],
        data: vec![],
    };
    let result = build_v0_transaction(&payer, vec![instruction], solana_hash::Hash::new_unique(), vec![]);
    assert!(matches!(result, Err(TransactionBuildError::Sign(_))));
}

#[test]
fn too_many_accounts_fail_to_compile() {
    let payer = Keypair::new();
    let accounts: Vec<AccountMeta> = (0..300).map(|_| AccountMeta::new_readonly(Pubkey::new_unique(), false)).collect();
    let instruction = Instruction {
        program_id: Pubkey::new_unique(),
        accounts,
        data: vec![],
    };
    let result = build_v0_transaction(&payer, vec![instruction], solana_hash::Hash::new_unique(), vec![]);
    assert!(matches!(result, Err(TransactionBuildError::Compile(_))));
}

#[test]
fn building_is_deterministic() {
    let payer = Keypair::new();
    let blockhash = solana_hash::Hash::new_unique();
    let instruction = simple_instruction(Pubkey::new_unique(), Pubkey::new_unique());
    let first = build_v0_transaction(&payer, vec![instruction.clone()], blockhash, vec![]).unwrap();
    let second = build_v0_transaction(&payer, vec![instruction], blockhash, vec![]).unwrap();
    assert_eq!(first, second);
    assert_eq!(first.signatures.len(), 1);
}

#[test]
fn oversized_instruction_data_is_an_encode_error() {
    let payer = Keypair::new();
    let instruction = Instruction {
        program_id: Pubkey::new_unique(),
        accounts: vec![],
        data: vec![7; 70_000],
    };
    let result = build_v0_transaction(&payer, vec![instruction], solana_hash::Hash::new_unique(), vec![]);
    assert!(matches!(result, Err(TransactionBuildError::Encode(_))));
}
