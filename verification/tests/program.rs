use basket_token::{
    add_token, deposit, initialize, jupiter_v6_id, AccountMeta, AddToken, BasketState,
    CustodyAccount, Deposit, DepositAction, DepositEvent, DepositProgress, DepositStep, Initialize,
    Pubkey,
};

fn key(n: u8) -> Pubkey {
    Pubkey::new_from_array([n; 32])
}

fn initialize_basket(payer: Pubkey) -> BasketState {
    let mut ctx = Initialize { basket: BasketState::default(), authority: payer, bump: 255 };
    initialize(&mut ctx, 10).unwrap();
    ctx.basket
}

/// The accounts of one leg after another: a source, the custody account,
/// and ten more that the venue asks for.
fn create_mock_jupiter_accounts(num_pairs: usize) -> Vec<AccountMeta> {
    let mut accounts = Vec::new();
    for pair in 0..num_pairs {
        for slot in 0..12 {
            accounts.push(AccountMeta {
                pubkey: key((100 + pair * 12 + slot) as u8),
                is_signer: false,
                is_writable: true,
            });
        }
    }
    accounts
}

/// A venue that credits the custody account with the quantity it is told
/// to take in.
fn process_jupiter_instruction(data: &[u8], custody: &mut CustodyAccount) {
    let mut amount = [0u8; 8];
    amount.copy_from_slice(&data[1..9]);
    custody.amount += u64::from_le_bytes(amount);
}

#[test]
fn test_initialize() {
    let payer = key(1);
    let basket_state = initialize_basket(payer);
    assert_eq!(basket_state.authority, payer);
    assert_eq!(basket_state.tokens.len(), 0);
    assert_eq!(basket_state.total_supply, 0);
}

#[test]
fn test_add_token() {
    let payer = key(1);
    let token_mint = key(2);
    let mut ctx = AddToken { basket: initialize_basket(payer), authority: payer };
    add_token(&mut ctx, token_mint, 50).unwrap();
    let basket_state = ctx.basket;
    assert_eq!(basket_state.tokens.len(), 1);
    assert_eq!(basket_state.tokens[0].mint, token_mint);
    assert_eq!(basket_state.tokens[0].weight, 50);
}

#[test]
fn test_deposit() {
    let payer = key(1);
    let basket_pda = key(9);
    let token1 = key(2);
    let token2 = key(3);
    let mut registry = AddToken { basket: initialize_basket(payer), authority: payer };
    add_token(&mut registry, token1, 50).unwrap();
    add_token(&mut registry, token2, 50).unwrap();

    let mut user_lamports: u64 = 2_000_000_000;
    let mut basket_lamports: u64 = 0;
    let mut user_basket_token: u64 = 0;
    let mut custody = vec![
        CustodyAccount { mint: token1, owner: basket_pda, amount: 1_000_000_000 },
        CustodyAccount { mint: token2, owner: basket_pda, amount: 1_000_000_000 },
    ];

    let deposit_amount: u64 = 1_000_000_000;
    let jupiter_quote = [0u8; 32];
    let slippage_bps: u16 = 100;
    let minimum_token_amounts: Vec<u64> = vec![100_000_000, 100_000_000];
    let mut ctx = Deposit {
        basket: registry.basket,
        basket_key: basket_pda,
        remaining_accounts: create_mock_jupiter_accounts(2),
    };

    let mut progress = DepositProgress::start();
    let mut event = DepositEvent::Begin;
    let mut legs = 0;
    loop {
        let (next, action) = deposit(
            &mut ctx,
            deposit_amount,
            jupiter_quote,
            slippage_bps,
            &minimum_token_amounts,
            progress,
            event,
        );
        progress = next;
        event = match action {
            DepositAction::Transfer { amount } => {
                user_lamports -= amount;
                basket_lamports += amount;
                DepositEvent::Transferred
            }
            DepositAction::Mint { amount } => {
                user_basket_token += amount;
                DepositEvent::Minted
            }
            DepositAction::ReadCustody { leg, account } => {
                assert_eq!(account, leg * 12 + 1);
                DepositEvent::Custody(custody[leg])
            }
            DepositAction::Swap { leg, instruction } => {
                assert_eq!(instruction.program_id, jupiter_v6_id());
                assert_eq!(instruction.accounts.len(), 12);
                process_jupiter_instruction(&instruction.data, &mut custody[leg]);
                legs += 1;
                DepositEvent::Swapped { balance: custody[leg].amount }
            }
            DepositAction::Complete => break,
            other => panic!("the deposit did not go through: {:?}", other),
        };
    }

    assert_eq!(user_basket_token, deposit_amount);
    assert_eq!(ctx.basket.total_supply, deposit_amount);
    assert_eq!(user_lamports, 1_000_000_000);
    assert_eq!(basket_lamports, deposit_amount);
    assert_eq!(legs, 2);
    assert_eq!(custody[0].amount, 2_000_000_000);
    assert_eq!(custody[1].amount, 2_000_000_000);
    assert_eq!(progress.step, DepositStep::Done);
    assert!(!ctx.basket.reentrancy_guard);
}
