use kora_fees::address::{addr_eq, Address};
use kora_fees::error::KoraError;
use kora_fees::fees::{
    ata_creation_candidates, ata_creation_fee, checked_total_fee, estimate_fee_from_parts,
    max_prioritization_fee, AccountLookup, FeeComponents,
};
use kora_fees::transaction::{Instruction, Message};
use solana_sdk::program_pack::Pack;
use solana_sdk::pubkey::Pubkey;
use solana_sdk::rent::Rent;
use spl_associated_token_account::get_associated_token_address;

fn addr(pk: &Pubkey) -> Address {
    Address::new(pk.to_bytes())
}

const TOKEN_ACCOUNT_RENT: u64 = 2_039_280;

#[test]
fn empty_prioritization_fees_yield_zero() {
    let fees: Vec<u64> = vec![];
    assert_eq!(max_prioritization_fee(&fees), 0);
}

#[test]
fn priority_fee_is_maximum_observed() {
    assert_eq!(max_prioritization_fee(&vec![3, 9, 2]), 9);
    assert_eq!(max_prioritization_fee(&vec![5]), 5);
    assert_eq!(max_prioritization_fee(&vec![7, 7, 1]), 7);
    assert_eq!(max_prioritization_fee(&vec![0, 0]), 0);
}

#[test]
fn total_fee_is_sum_of_components() {
    assert_eq!(checked_total_fee(1_000, 2_000, 39).unwrap(), 3_039);
    assert_eq!(checked_total_fee(0, 0, 0).unwrap(), 0);
}

#[test]
fn total_fee_order_does_not_matter() {
    let (a, b, c) = (5_000u64, 300u64, TOKEN_ACCOUNT_RENT);
    let expected = a + b + c;
    for (x, y, z) in [(a, b, c), (a, c, b), (b, a, c), (b, c, a), (c, a, b), (c, b, a)] {
        assert_eq!(checked_total_fee(x, y, z).unwrap(), expected);
    }
}

#[test]
fn total_fee_overflow_is_internal_error() {
    let r = checked_total_fee(u64::MAX, 1, 0);
    assert!(matches!(r, Err(KoraError::InternalError(_))));
    let r = checked_total_fee(u64::MAX / 2, u64::MAX / 2, 3);
    assert!(matches!(r, Err(KoraError::InternalError(_))));
}

#[test]
fn fee_components_total_matches_free_function() {
    let parts = FeeComponents { base_fee: 10, priority_fee: 20, account_creation_fee: 30 };
    assert_eq!(parts.total().unwrap(), 60);
}

#[test]
fn message_without_instructions_has_no_candidates() {
    let msg = Message { account_keys: vec![addr(&Pubkey::new_unique())], instructions: vec![] };
    assert!(ata_creation_candidates(&msg).unwrap().is_empty());
}

#[test]
fn message_without_ata_instructions_has_no_candidates() {
    let keys = vec![addr(&Pubkey::new_unique()), addr(&Pubkey::new_unique())];
    let msg = Message {
        account_keys: keys,
        instructions: vec![
            Instruction { program_id_index: 0, accounts: vec![1], data: vec![1, 2, 3] },
            Instruction { program_id_index: 1, accounts: vec![], data: vec![] },
        ],
    };
    assert!(ata_creation_candidates(&msg).unwrap().is_empty());
}

#[test]
fn matching_ata_instruction_is_a_candidate() {
    let payer = Pubkey::new_unique();
    let owner = Pubkey::new_unique();
    let mint = Pubkey::new_unique();
    let ata = get_associated_token_address(&owner, &mint);
    let keys = vec![
        addr(&payer),
        addr(&ata),
        addr(&owner),
        addr(&mint),
        addr(&spl_associated_token_account::id()),
    ];
    let msg = Message {
        account_keys: keys,
        instructions: vec![Instruction {
            program_id_index: 4,
            accounts: vec![0, 1, 2, 3],
            data: vec![],
        }],
    };
    let candidates = ata_creation_candidates(&msg).unwrap();
    assert_eq!(candidates.len(), 1);
    assert_eq!(candidates[0].bytes, ata.to_bytes());
}

#[test]
fn mismatched_ata_address_is_never_a_candidate() {
    let payer = Pubkey::new_unique();
    let owner = Pubkey::new_unique();
    let mint = Pubkey::new_unique();
    // The stated ATA (operand 1) is the payer's key, not the derived address.
    let keys = vec![
        addr(&payer),
        addr(&payer),
        addr(&owner),
        addr(&mint),
        addr(&spl_associated_token_account::id()),
    ];
    let msg = Message {
        account_keys: keys,
        instructions: vec![Instruction {
            program_id_index: 4,
            accounts: vec![0, 1, 2, 3],
            data: vec![],
        }],
    };
    assert!(ata_creation_candidates(&msg).unwrap().is_empty());
}

#[test]
fn out_of_bounds_program_index_is_invalid_transaction() {
    let msg = Message {
        account_keys: vec![addr(&Pubkey::new_unique())],
        instructions: vec![Instruction { program_id_index: 3, accounts: vec![], data: vec![] }],
    };
    assert!(matches!(ata_creation_candidates(&msg), Err(KoraError::InvalidTransaction(_))));
}

#[test]
fn short_ata_instruction_is_invalid_transaction() {
    let msg = Message {
        account_keys: vec![addr(&spl_associated_token_account::id())],
        instructions: vec![Instruction { program_id_index: 0, accounts: vec![0], data: vec![] }],
    };
    assert!(matches!(ata_creation_candidates(&msg), Err(KoraError::InvalidTransaction(_))));
}

#[test]
fn out_of_bounds_operand_is_invalid_transaction() {
    let msg = Message {
        account_keys: vec![addr(&spl_associated_token_account::id())],
        instructions: vec![Instruction {
            program_id_index: 0,
            accounts: vec![0, 9, 0, 0],
            data: vec![],
        }],
    };
    assert!(matches!(ata_creation_candidates(&msg), Err(KoraError::InvalidTransaction(_))));
}

#[test]
fn no_missing_accounts_means_no_surcharge() {
    assert_eq!(ata_creation_fee(&vec![]).unwrap(), 0);
    assert_eq!(ata_creation_fee(&vec![AccountLookup::Exists, AccountLookup::Exists]).unwrap(), 0);
}

#[test]
fn surcharge_is_rent_per_missing_account() {
    assert_eq!(ata_creation_fee(&vec![AccountLookup::NotFound]).unwrap(), TOKEN_ACCOUNT_RENT);
    let lookups =
        vec![AccountLookup::Exists, AccountLookup::NotFound, AccountLookup::NotFound];
    assert_eq!(ata_creation_fee(&lookups).unwrap(), 2 * TOKEN_ACCOUNT_RENT);
}

#[test]
fn surcharge_matches_chain_rent_parameters() {
    let expected = Rent::default().minimum_balance(spl_token::state::Account::LEN);
    assert_eq!(ata_creation_fee(&vec![AccountLookup::NotFound]).unwrap(), expected);
}

#[test]
fn failed_lookup_fails_the_whole_estimate() {
    let lookups = vec![
        AccountLookup::NotFound,
        AccountLookup::Failed(String::from("connection reset")),
    ];
    let r = ata_creation_fee(&lookups);
    match r {
        Err(KoraError::RpcError(msg)) => assert_eq!(msg, "connection reset"),
        other => panic!("expected RpcError, got {:?}", other),
    }
    let r = estimate_fee_from_parts(5_000, &vec![100], &lookups);
    assert!(matches!(r, Err(KoraError::RpcError(_))));
}

#[test]
fn estimate_composes_the_three_components() {
    let lookups = vec![AccountLookup::NotFound];
    let r = estimate_fee_from_parts(5_000, &vec![100, 300, 200], &lookups).unwrap();
    assert_eq!(r, 5_000 + 300 + TOKEN_ACCOUNT_RENT);
}

#[test]
fn estimate_with_no_data_is_base_fee_alone() {
    assert_eq!(estimate_fee_from_parts(5_000, &vec![], &vec![]).unwrap(), 5_000);
}

#[test]
fn estimate_overflow_is_internal_error() {
    let r = estimate_fee_from_parts(u64::MAX, &vec![1], &vec![]);
    assert!(matches!(r, Err(KoraError::InternalError(_))));
}

#[test]
fn address_equality_is_byte_equality() {
    let a = Pubkey::new_unique();
    let b = Pubkey::new_unique();
    assert!(addr_eq(&addr(&a), &addr(&a)));
    assert!(!addr_eq(&addr(&a), &addr(&b)));
}
