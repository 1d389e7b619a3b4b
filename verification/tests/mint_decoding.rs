use kora_fees::error::KoraError;
use kora_fees::mint::{decode_mint, MINT_RECORD_LEN};
use solana_sdk::program_option::COption;
use solana_sdk::program_pack::Pack;
use solana_sdk::pubkey::Pubkey;
use spl_token::state::Mint;

fn packed_mint(decimals: u8) -> Vec<u8> {
    let mint = Mint {
        mint_authority: COption::Some(Pubkey::new_unique()),
        supply: 1_000_000,
        decimals,
        is_initialized: true,
        freeze_authority: COption::None,
    };
    let mut data = vec![0u8; Mint::LEN];
    Mint::pack(mint, &mut data).unwrap();
    data
}

#[test]
fn valid_mint_bytes_decode_to_their_decimals() {
    for decimals in [0u8, 6, 9, 255] {
        let data = packed_mint(decimals);
        assert_eq!(data.len(), MINT_RECORD_LEN);
        assert_eq!(decode_mint(&data).unwrap().decimals, decimals);
    }
}

#[test]
fn uninitialized_mint_is_invalid_transaction() {
    // Well-formed length, but the initialized flag is 0: semantically invalid.
    let data = vec![0u8; MINT_RECORD_LEN];
    assert!(matches!(decode_mint(&data), Err(KoraError::InvalidTransaction(_))));
}

#[test]
fn bad_authority_tag_is_invalid_transaction() {
    let mut data = packed_mint(6);
    data[0] = 7;
    assert!(matches!(decode_mint(&data), Err(KoraError::InvalidTransaction(_))));
    let mut data = packed_mint(6);
    data[47] = 1;
    assert!(matches!(decode_mint(&data), Err(KoraError::InvalidTransaction(_))));
}

#[test]
fn wrong_length_is_invalid_transaction() {
    let mut data = packed_mint(6);
    data.pop();
    assert!(matches!(decode_mint(&data), Err(KoraError::InvalidTransaction(_))));
    let data = vec![0u8; MINT_RECORD_LEN + 1];
    assert!(matches!(decode_mint(&data), Err(KoraError::InvalidTransaction(_))));
}

#[test]
fn mint_decode_failure_is_never_an_rpc_error() {
    let data = vec![0u8; MINT_RECORD_LEN];
    match decode_mint(&data) {
        Err(KoraError::RpcError(_)) => panic!("decode failure must not be an RpcError"),
        Err(KoraError::InvalidTransaction(_)) => {},
        other => panic!("expected InvalidTransaction, got {:?}", other),
    }
}

#[test]
fn error_message_is_preserved() {
    let e = KoraError::RpcError(String::from("timeout talking to the chain"));
    assert_eq!(e.message(), "timeout talking to the chain");
    let e = KoraError::OracleError(String::from("price feed empty"));
    assert_eq!(e.message(), "price feed empty");
}
