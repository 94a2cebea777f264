use std::str::FromStr;

use anchor_lang::AnchorSerialize;
use basket_token::{
    check_custody, jupiter_v6_id, swap_instruction, AccountMeta, BasketError, CustodyAccount,
    Pubkey, RouteSwapParams, TokenInfo, JUPITER_V6_ID, ROUTE_SWAP_TAG,
};

fn key(n: u8) -> Pubkey {
    Pubkey::new_from_array([n; 32])
}

fn accounts(count: usize) -> Vec<AccountMeta> {
    (0..count)
        .map(|i| AccountMeta {
            pubkey: key(i as u8),
            is_signer: i % 5 == 0,
            is_writable: i % 2 == 0,
        })
        .collect()
}

#[test]
fn route_swap_data_is_tag_amount_quote_slippage() {
    let mut quote = [0u8; 32];
    for (i, byte) in quote.iter_mut().enumerate() {
        *byte = 0xa0 + i as u8;
    }
    let params =
        RouteSwapParams { in_amount: 0x0102_0304_0506_0708, quote_id: quote, slippage_bps: 0x0a0b };
    let data = params.instruction_data();
    assert_eq!(data.len(), 43);
    assert_eq!(data[0], 4);
    assert_eq!(&data[1..9], &[8, 7, 6, 5, 4, 3, 2, 1]);
    assert_eq!(&data[9..41], &quote[..]);
    assert_eq!(&data[41..43], &[0x0b, 0x0a]);
}

#[test]
fn route_swap_data_of_small_numbers() {
    let params = RouteSwapParams { in_amount: 1, quote_id: [0u8; 32], slippage_bps: 100 };
    let mut expected = vec![4u8, 1, 0, 0, 0, 0, 0, 0, 0];
    expected.extend_from_slice(&[0u8; 32]);
    expected.extend_from_slice(&[100, 0]);
    assert_eq!(params.instruction_data(), expected);
}

#[test]
fn route_swap_data_of_largest_numbers() {
    let params =
        RouteSwapParams { in_amount: u64::MAX, quote_id: [0xff; 32], slippage_bps: u16::MAX };
    let mut expected = vec![4u8];
    expected.extend_from_slice(&[0xff; 42]);
    assert_eq!(params.instruction_data(), expected);
}

#[test]
fn route_swap_data_is_what_the_serializer_writes_for_the_fields() {
    let params = RouteSwapParams { in_amount: 987_654_321, quote_id: [7u8; 32], slippage_bps: 250 };
    let written = (ROUTE_SWAP_TAG, params.in_amount, params.quote_id, params.slippage_bps)
        .try_to_vec()
        .unwrap();
    assert_eq!(params.instruction_data(), written);
}

#[test]
fn venue_address_is_the_published_one() {
    let published =
        solana_program::pubkey::Pubkey::from_str("JUP6LkbZbjS1jKKwapdHNy74zcZ3tLUZoi5QNyVTaV4")
            .unwrap();
    assert_eq!(JUPITER_V6_ID, published.to_bytes());
    assert_eq!(jupiter_v6_id().to_bytes(), published.to_bytes());
}

#[test]
fn default_key_is_all_zero_as_the_host_has_it() {
    assert_eq!(Pubkey::default().to_bytes(), [0u8; 32]);
    assert_eq!(
        Pubkey::default().to_bytes(),
        solana_program::pubkey::Pubkey::default().to_bytes()
    );
}

#[test]
fn keys_are_equal_when_all_bytes_are() {
    let mut bytes = [3u8; 32];
    assert_eq!(Pubkey::new_from_array(bytes), key(3));
    bytes[31] = 4;
    assert_ne!(Pubkey::new_from_array(bytes), key(3));
    bytes[31] = 3;
    bytes[0] = 0;
    assert_ne!(Pubkey::new_from_array(bytes), key(3));
}

#[test]
fn swap_instruction_takes_the_block_of_the_leg() {
    let supplied = accounts(36);
    let params = RouteSwapParams { in_amount: 5, quote_id: [1u8; 32], slippage_bps: 9 };
    let call = swap_instruction(&supplied, 1, &params).unwrap();
    assert_eq!(call.program_id, jupiter_v6_id());
    assert_eq!(call.data, params.instruction_data());
    assert_eq!(call.accounts.len(), 12);
    for (i, meta) in call.accounts.iter().enumerate() {
        assert_eq!(meta.pubkey, supplied[12 + i].pubkey);
        assert_eq!(meta.is_signer, supplied[12 + i].is_signer);
        assert_eq!(meta.is_writable, supplied[12 + i].is_writable);
    }
}

#[test]
fn swap_instruction_needs_the_whole_block() {
    let params = RouteSwapParams { in_amount: 5, quote_id: [1u8; 32], slippage_bps: 9 };
    assert!(swap_instruction(&accounts(11), 0, &params).is_none());
    assert!(swap_instruction(&accounts(12), 0, &params).is_some());
    assert!(swap_instruction(&accounts(23), 1, &params).is_none());
    assert!(swap_instruction(&accounts(24), 1, &params).is_some());
    assert!(swap_instruction(&accounts(24), 2, &params).is_none());
    assert!(swap_instruction(&accounts(0), usize::MAX, &params).is_none());
}

#[test]
fn custody_must_hold_the_asset_and_belong_to_the_vault() {
    let token = TokenInfo { mint: key(1), weight: 50, token_account: Pubkey::default() };
    let vault = key(9);
    let good = CustodyAccount { mint: key(1), owner: key(9), amount: 10 };
    assert_eq!(check_custody(&good, &token, &vault), Ok(()));
    let wrong_mint = CustodyAccount { mint: key(2), owner: key(9), amount: 10 };
    assert_eq!(check_custody(&wrong_mint, &token, &vault), Err(BasketError::InvalidTokenMint));
    let wrong_owner = CustodyAccount { mint: key(1), owner: key(8), amount: 10 };
    assert_eq!(check_custody(&wrong_owner, &token, &vault), Err(BasketError::InvalidTokenOwner));
    let both_wrong = CustodyAccount { mint: key(2), owner: key(8), amount: 10 };
    assert_eq!(check_custody(&both_wrong, &token, &vault), Err(BasketError::InvalidTokenMint));
}
