use basket_token::{
    abandon_deposit, deposit, jupiter_v6_id, AccountMeta, BasketError, BasketState,
    CustodyAccount, Deposit, DepositAction, DepositEvent, DepositProgress, DepositStep, Pubkey,
    RouteSwapParams, TokenInfo, MINIMUM_DEPOSIT,
};

const VAULT: u8 = 9;

fn key(n: u8) -> Pubkey {
    Pubkey::new_from_array([n; 32])
}

fn accounts(count: usize) -> Vec<AccountMeta> {
    (0..count)
        .map(|i| AccountMeta {
            pubkey: key(100 + i as u8),
            is_signer: false,
            is_writable: i % 2 == 1,
        })
        .collect()
}

/// A vault with `legs` constituents of assets 20, 21, ..., and as many
/// accounts as given.
fn vault(legs: u8, supplied: usize) -> Deposit {
    let mut basket = BasketState::default();
    basket.authority = key(1);
    basket.max_tokens = 10;
    basket.total_supply = 500;
    for n in 0..legs {
        basket.tokens.push(TokenInfo {
            mint: key(20 + n),
            weight: 10,
            token_account: Pubkey::default(),
        });
    }
    Deposit { basket, basket_key: key(VAULT), remaining_accounts: accounts(supplied) }
}

fn custody(leg: u8, amount: u64) -> CustodyAccount {
    CustodyAccount { mint: key(20 + leg), owner: key(VAULT), amount }
}

const QUOTE: [u8; 32] = [5u8; 32];
const BPS: u16 = 75;

fn step(
    ctx: &mut Deposit,
    amount: u64,
    mins: &Vec<u64>,
    progress: DepositProgress,
    event: DepositEvent,
) -> (DepositProgress, DepositAction) {
    deposit(ctx, amount, QUOTE, BPS, mins, progress, event)
}

fn begin(ctx: &mut Deposit, amount: u64, mins: &Vec<u64>) -> (DepositProgress, DepositAction) {
    step(ctx, amount, mins, DepositProgress::start(), DepositEvent::Begin)
}

/// Takes an admitted deposit up to the reading of the first custody
/// account.
fn to_first_leg(ctx: &mut Deposit, amount: u64, mins: &Vec<u64>) -> DepositProgress {
    let (progress, action) = begin(ctx, amount, mins);
    assert!(matches!(action, DepositAction::Transfer { amount: a } if a == amount));
    let (progress, action) = step(ctx, amount, mins, progress, DepositEvent::Transferred);
    assert!(matches!(action, DepositAction::Mint { amount: a } if a == amount));
    let (progress, action) = step(ctx, amount, mins, progress, DepositEvent::Minted);
    assert!(matches!(action, DepositAction::ReadCustody { leg: 0, account: 1 }));
    progress
}

fn assert_untouched(ctx: &Deposit) {
    assert_eq!(ctx.basket.total_supply, 500);
    assert!(!ctx.basket.reentrancy_guard);
}

#[test]
fn deposit_one_below_the_floor_is_refused() {
    let mut ctx = vault(1, 12);
    let (progress, action) = begin(&mut ctx, MINIMUM_DEPOSIT - 1, &vec![0]);
    assert!(matches!(action, DepositAction::Abort(BasketError::InsufficientDeposit)));
    assert_eq!(progress.step, DepositStep::Failed);
    assert_untouched(&ctx);
    let (_, action) = begin(&mut ctx, 0, &vec![0]);
    assert!(matches!(action, DepositAction::Abort(BasketError::InsufficientDeposit)));
}

#[test]
fn deposit_of_the_floor_is_admitted() {
    let mut ctx = vault(1, 12);
    let (progress, action) = begin(&mut ctx, MINIMUM_DEPOSIT, &vec![0]);
    assert!(matches!(action, DepositAction::Transfer { amount: 10_000_000 }));
    assert_eq!(progress.step, DepositStep::Funding);
    assert_eq!(progress.supply_before, 500);
    assert!(ctx.basket.reentrancy_guard);
    assert_eq!(ctx.basket.total_supply, 500);
}

#[test]
fn deposit_needs_a_minimum_for_each_leg() {
    for mins in [vec![], vec![0], vec![0, 0, 0]] {
        let mut ctx = vault(2, 24);
        let (progress, action) = begin(&mut ctx, MINIMUM_DEPOSIT, &mins);
        assert!(matches!(action, DepositAction::Abort(BasketError::InvalidTokenCount)));
        assert_eq!(progress.step, DepositStep::Failed);
        assert_untouched(&ctx);
    }
}

#[test]
fn deposit_needs_twelve_accounts_for_each_leg() {
    for supplied in [0, 12, 35, 37, 48] {
        let mut ctx = vault(3, supplied);
        let (progress, action) = begin(&mut ctx, MINIMUM_DEPOSIT, &vec![0, 0, 0]);
        assert!(matches!(action, DepositAction::Abort(BasketError::InvalidAccountCount)));
        assert_eq!(progress.step, DepositStep::Failed);
        assert_untouched(&ctx);
    }
    let mut ctx = vault(3, 36);
    let (_, action) = begin(&mut ctx, MINIMUM_DEPOSIT, &vec![0, 0, 0]);
    assert!(matches!(action, DepositAction::Transfer { .. }));
}

#[test]
fn deposit_is_refused_while_paused() {
    let mut ctx = vault(1, 12);
    ctx.basket.paused = true;
    let (_, action) = begin(&mut ctx, MINIMUM_DEPOSIT, &vec![0]);
    assert!(matches!(action, DepositAction::Abort(BasketError::ProgramPaused)));
    assert_untouched(&ctx);
}

#[test]
fn deposit_is_refused_while_the_lock_is_held() {
    let mut ctx = vault(1, 12);
    let mins = vec![0];
    let (outer, action) = begin(&mut ctx, MINIMUM_DEPOSIT, &mins);
    assert!(matches!(action, DepositAction::Transfer { .. }));
    let (inner, action) = begin(&mut ctx, MINIMUM_DEPOSIT, &mins);
    assert!(matches!(action, DepositAction::Abort(BasketError::ReentrancyDetected)));
    assert_eq!(inner.step, DepositStep::Failed);
    assert!(ctx.basket.reentrancy_guard);
    assert_eq!(ctx.basket.total_supply, 500);
    let (_, action) = step(&mut ctx, MINIMUM_DEPOSIT, &mins, outer, DepositEvent::Transferred);
    assert!(matches!(action, DepositAction::Mint { .. }));
}

#[test]
fn deposit_objections_come_in_order() {
    let mut ctx = vault(2, 0);
    ctx.basket.paused = true;
    ctx.basket.reentrancy_guard = true;
    let (_, action) = begin(&mut ctx, 0, &vec![]);
    assert!(matches!(action, DepositAction::Abort(BasketError::ProgramPaused)));
    ctx.basket.paused = false;
    let (_, action) = begin(&mut ctx, 0, &vec![]);
    assert!(matches!(action, DepositAction::Abort(BasketError::ReentrancyDetected)));
    ctx.basket.reentrancy_guard = false;
    let (_, action) = begin(&mut ctx, 0, &vec![]);
    assert!(matches!(action, DepositAction::Abort(BasketError::InsufficientDeposit)));
    let (_, action) = begin(&mut ctx, MINIMUM_DEPOSIT, &vec![]);
    assert!(matches!(action, DepositAction::Abort(BasketError::InvalidTokenCount)));
    let (_, action) = begin(&mut ctx, MINIMUM_DEPOSIT, &vec![0, 0]);
    assert!(matches!(action, DepositAction::Abort(BasketError::InvalidAccountCount)));
}

#[test]
fn deposit_counts_the_claim_tokens_before_the_legs() {
    let mut ctx = vault(2, 24);
    let mins = vec![1, 1];
    let (progress, _) = begin(&mut ctx, 20_000_000, &mins);
    assert_eq!(ctx.basket.total_supply, 500);
    let (progress, action) = step(&mut ctx, 20_000_000, &mins, progress, DepositEvent::Transferred);
    assert!(matches!(action, DepositAction::Mint { amount: 20_000_000 }));
    assert_eq!(progress.step, DepositStep::Minting);
    assert_eq!(ctx.basket.total_supply, 20_000_500);
    assert!(ctx.basket.reentrancy_guard);
}

#[test]
fn deposit_that_overflows_the_supply_is_given_up() {
    let mut ctx = vault(1, 12);
    ctx.basket.total_supply = u64::MAX - MINIMUM_DEPOSIT + 1;
    let mins = vec![0];
    let (progress, _) = begin(&mut ctx, MINIMUM_DEPOSIT, &mins);
    let (progress, action) =
        step(&mut ctx, MINIMUM_DEPOSIT, &mins, progress, DepositEvent::Transferred);
    assert!(matches!(action, DepositAction::Abort(BasketError::MathOverflow)));
    assert_eq!(progress.step, DepositStep::Failed);
    assert_eq!(ctx.basket.total_supply, u64::MAX - MINIMUM_DEPOSIT + 1);
    assert!(!ctx.basket.reentrancy_guard);

    ctx.basket.total_supply = u64::MAX - MINIMUM_DEPOSIT;
    let (progress, _) = begin(&mut ctx, MINIMUM_DEPOSIT, &mins);
    let (_, action) = step(&mut ctx, MINIMUM_DEPOSIT, &mins, progress, DepositEvent::Transferred);
    assert!(matches!(action, DepositAction::Mint { .. }));
    assert_eq!(ctx.basket.total_supply, u64::MAX);
}

#[test]
fn deposit_offers_the_venue_what_the_custody_account_holds() {
    let mut ctx = vault(2, 24);
    let mins = vec![10, 10];
    let amount = 30_000_000;
    let progress = to_first_leg(&mut ctx, amount, &mins);
    let (progress, action) =
        step(&mut ctx, amount, &mins, progress, DepositEvent::Custody(custody(0, 777)));
    assert_eq!(progress.step, DepositStep::Swapping { leg: 0, baseline: 777 });
    let instruction = match action {
        DepositAction::Swap { leg: 0, instruction } => instruction,
        other => panic!("no swap: {:?}", other),
    };
    assert_eq!(instruction.program_id, jupiter_v6_id());
    assert_eq!(
        instruction.data,
        RouteSwapParams { in_amount: 777, quote_id: QUOTE, slippage_bps: BPS }.instruction_data()
    );
    assert_eq!(instruction.data[0], 4);
    assert_eq!(&instruction.data[1..9], &777u64.to_le_bytes());
    assert_eq!(&instruction.data[9..41], &QUOTE[..]);
    assert_eq!(&instruction.data[41..43], &BPS.to_le_bytes());
    assert_eq!(instruction.accounts.len(), 12);
    for (i, meta) in instruction.accounts.iter().enumerate() {
        assert_eq!(meta.pubkey, key(100 + i as u8));
        assert_eq!(meta.is_writable, i % 2 == 1);
        assert!(!meta.is_signer);
    }

    let (progress, action) =
        step(&mut ctx, amount, &mins, progress, DepositEvent::Swapped { balance: 787 });
    assert!(matches!(action, DepositAction::ReadCustody { leg: 1, account: 13 }));
    let (_, action) = step(&mut ctx, amount, &mins, progress, DepositEvent::Custody(custody(1, 5)));
    let instruction = match action {
        DepositAction::Swap { leg: 1, instruction } => instruction,
        other => panic!("no swap: {:?}", other),
    };
    assert_eq!(instruction.accounts.len(), 12);
    for (i, meta) in instruction.accounts.iter().enumerate() {
        assert_eq!(meta.pubkey, key(112 + i as u8));
    }
    assert_eq!(&instruction.data[1..9], &5u64.to_le_bytes());
}

#[test]
fn deposit_goes_through_leg_by_leg() {
    let mut ctx = vault(2, 24);
    let mins = vec![10, 20];
    let amount = 30_000_000;
    let progress = to_first_leg(&mut ctx, amount, &mins);
    let (progress, _) =
        step(&mut ctx, amount, &mins, progress, DepositEvent::Custody(custody(0, 100)));
    let (progress, action) =
        step(&mut ctx, amount, &mins, progress, DepositEvent::Swapped { balance: 110 });
    assert!(matches!(action, DepositAction::ReadCustody { leg: 1, account: 13 }));
    assert_eq!(progress.step, DepositStep::Custody { leg: 1 });
    let (progress, _) =
        step(&mut ctx, amount, &mins, progress, DepositEvent::Custody(custody(1, 0)));
    assert_eq!(progress.step, DepositStep::Swapping { leg: 1, baseline: 0 });
    assert!(ctx.basket.reentrancy_guard);
    let (progress, action) =
        step(&mut ctx, amount, &mins, progress, DepositEvent::Swapped { balance: 20 });
    assert!(matches!(action, DepositAction::Complete));
    assert_eq!(progress.step, DepositStep::Done);
    assert_eq!(ctx.basket.total_supply, 500 + amount);
    assert!(!ctx.basket.reentrancy_guard);
    assert_eq!(ctx.basket.tokens.len(), 2);
}

#[test]
fn deposit_into_an_empty_basket_has_no_legs() {
    let mut ctx = vault(0, 0);
    let mins = vec![];
    let (progress, _) = begin(&mut ctx, MINIMUM_DEPOSIT, &mins);
    let (progress, _) = step(&mut ctx, MINIMUM_DEPOSIT, &mins, progress, DepositEvent::Transferred);
    let (progress, action) = step(&mut ctx, MINIMUM_DEPOSIT, &mins, progress, DepositEvent::Minted);
    assert!(matches!(action, DepositAction::Complete));
    assert_eq!(progress.step, DepositStep::Done);
    assert_eq!(ctx.basket.total_supply, 500 + MINIMUM_DEPOSIT);
    assert!(!ctx.basket.reentrancy_guard);
}

#[test]
fn deposit_leg_below_its_minimum_undoes_everything() {
    let mut ctx = vault(2, 24);
    let mins = vec![10, 20];
    let amount = 30_000_000;
    let progress = to_first_leg(&mut ctx, amount, &mins);
    let (progress, _) =
        step(&mut ctx, amount, &mins, progress, DepositEvent::Custody(custody(0, 100)));
    let (progress, _) =
        step(&mut ctx, amount, &mins, progress, DepositEvent::Swapped { balance: 110 });
    let (progress, _) =
        step(&mut ctx, amount, &mins, progress, DepositEvent::Custody(custody(1, 50)));
    assert_eq!(ctx.basket.total_supply, 500 + amount);
    let (progress, action) =
        step(&mut ctx, amount, &mins, progress, DepositEvent::Swapped { balance: 69 });
    assert!(matches!(action, DepositAction::Abort(BasketError::SlippageExceeded)));
    assert_eq!(progress.step, DepositStep::Failed);
    assert_untouched(&ctx);
    let (after, action) =
        step(&mut ctx, amount, &mins, progress, DepositEvent::Swapped { balance: 70 });
    assert!(matches!(action, DepositAction::Unexpected));
    assert_eq!(after, progress);
    assert_untouched(&ctx);
}

#[test]
fn deposit_leg_of_exactly_its_minimum_passes() {
    let mut ctx = vault(1, 12);
    let mins = vec![10];
    let progress = to_first_leg(&mut ctx, MINIMUM_DEPOSIT, &mins);
    let (progress, _) =
        step(&mut ctx, MINIMUM_DEPOSIT, &mins, progress, DepositEvent::Custody(custody(0, 100)));
    let (_, action) =
        step(&mut ctx, MINIMUM_DEPOSIT, &mins, progress, DepositEvent::Swapped { balance: 110 });
    assert!(matches!(action, DepositAction::Complete));
    let mut ctx = vault(1, 12);
    let progress = to_first_leg(&mut ctx, MINIMUM_DEPOSIT, &mins);
    let (progress, _) =
        step(&mut ctx, MINIMUM_DEPOSIT, &mins, progress, DepositEvent::Custody(custody(0, 100)));
    let (_, action) =
        step(&mut ctx, MINIMUM_DEPOSIT, &mins, progress, DepositEvent::Swapped { balance: 109 });
    assert!(matches!(action, DepositAction::Abort(BasketError::SlippageExceeded)));
}

#[test]
fn deposit_leg_that_lost_balance_is_an_overflow() {
    let mut ctx = vault(1, 12);
    let mins = vec![0];
    let progress = to_first_leg(&mut ctx, MINIMUM_DEPOSIT, &mins);
    let (progress, _) =
        step(&mut ctx, MINIMUM_DEPOSIT, &mins, progress, DepositEvent::Custody(custody(0, 100)));
    let (progress, action) =
        step(&mut ctx, MINIMUM_DEPOSIT, &mins, progress, DepositEvent::Swapped { balance: 99 });
    assert!(matches!(action, DepositAction::Abort(BasketError::MathOverflow)));
    assert_eq!(progress.step, DepositStep::Failed);
    assert_untouched(&ctx);
}

#[test]
fn deposit_checks_the_custody_account() {
    let mins = vec![0];
    let mut ctx = vault(1, 12);
    let progress = to_first_leg(&mut ctx, MINIMUM_DEPOSIT, &mins);
    let wrong_mint = CustodyAccount { mint: key(21), owner: key(VAULT), amount: 1 };
    let (progress, action) =
        step(&mut ctx, MINIMUM_DEPOSIT, &mins, progress, DepositEvent::Custody(wrong_mint));
    assert!(matches!(action, DepositAction::Abort(BasketError::InvalidTokenMint)));
    assert_eq!(progress.step, DepositStep::Failed);
    assert_untouched(&ctx);

    let mut ctx = vault(1, 12);
    let progress = to_first_leg(&mut ctx, MINIMUM_DEPOSIT, &mins);
    let wrong_owner = CustodyAccount { mint: key(20), owner: key(1), amount: 1 };
    let (_, action) =
        step(&mut ctx, MINIMUM_DEPOSIT, &mins, progress, DepositEvent::Custody(wrong_owner));
    assert!(matches!(action, DepositAction::Abort(BasketError::InvalidTokenOwner)));
    assert_untouched(&ctx);
}

#[test]
fn deposit_ignores_a_report_that_answers_nothing() {
    let mut ctx = vault(1, 12);
    let mins = vec![0];
    let start = DepositProgress::start();
    for event in [
        DepositEvent::Transferred,
        DepositEvent::Minted,
        DepositEvent::Custody(custody(0, 1)),
        DepositEvent::Swapped { balance: 1 },
    ] {
        let (progress, action) = step(&mut ctx, MINIMUM_DEPOSIT, &mins, start, event);
        assert!(matches!(action, DepositAction::Unexpected));
        assert_eq!(progress, start);
        assert_untouched(&ctx);
    }
    let (funding, _) = begin(&mut ctx, MINIMUM_DEPOSIT, &mins);
    for event in [DepositEvent::Begin, DepositEvent::Minted, DepositEvent::Swapped { balance: 1 }] {
        let (progress, action) = step(&mut ctx, MINIMUM_DEPOSIT, &mins, funding, event);
        assert!(matches!(action, DepositAction::Unexpected));
        assert_eq!(progress, funding);
        assert!(ctx.basket.reentrancy_guard);
        assert_eq!(ctx.basket.total_supply, 500);
    }
}

#[test]
fn deposit_ignores_progress_that_is_not_its_own() {
    let mut ctx = vault(1, 12);
    let mins = vec![0];
    let stray = DepositProgress { step: DepositStep::Custody { leg: 1 }, supply_before: 3 };
    let (progress, action) =
        step(&mut ctx, MINIMUM_DEPOSIT, &mins, stray, DepositEvent::Custody(custody(0, 1)));
    assert!(matches!(action, DepositAction::Unexpected));
    assert_eq!(progress, stray);
    assert_untouched(&ctx);
    let stray = DepositProgress {
        step: DepositStep::Swapping { leg: usize::MAX, baseline: 0 },
        supply_before: 3,
    };
    let (_, action) =
        step(&mut ctx, MINIMUM_DEPOSIT, &mins, stray, DepositEvent::Swapped { balance: 1 });
    assert!(matches!(action, DepositAction::Unexpected));
    let mut short = vault(1, 11);
    let stray = DepositProgress { step: DepositStep::Minting, supply_before: 3 };
    let (_, action) = step(&mut short, MINIMUM_DEPOSIT, &mins, stray, DepositEvent::Minted);
    assert!(matches!(action, DepositAction::Unexpected));
    assert_untouched(&short);
}

#[test]
fn deposit_that_is_over_takes_no_more_reports() {
    let mut ctx = vault(0, 0);
    let mins = vec![];
    let (progress, _) = begin(&mut ctx, MINIMUM_DEPOSIT, &mins);
    let (progress, _) = step(&mut ctx, MINIMUM_DEPOSIT, &mins, progress, DepositEvent::Transferred);
    let (done, _) = step(&mut ctx, MINIMUM_DEPOSIT, &mins, progress, DepositEvent::Minted);
    for event in [DepositEvent::Begin, DepositEvent::Transferred, DepositEvent::Minted] {
        let (progress, action) = step(&mut ctx, MINIMUM_DEPOSIT, &mins, done, event);
        assert!(matches!(action, DepositAction::Unexpected));
        assert_eq!(progress, done);
        assert_eq!(ctx.basket.total_supply, 500 + MINIMUM_DEPOSIT);
    }
}

#[test]
fn deposit_given_up_from_outside_is_undone() {
    let mut ctx = vault(1, 12);
    let mins = vec![0];
    let progress = to_first_leg(&mut ctx, MINIMUM_DEPOSIT, &mins);
    let (progress, _) =
        step(&mut ctx, MINIMUM_DEPOSIT, &mins, progress, DepositEvent::Custody(custody(0, 100)));
    assert_eq!(ctx.basket.total_supply, 500 + MINIMUM_DEPOSIT);
    assert!(ctx.basket.reentrancy_guard);
    let after = abandon_deposit(&mut ctx, progress);
    assert_eq!(after.step, DepositStep::Failed);
    assert_untouched(&ctx);
    let (_, action) = begin(&mut ctx, MINIMUM_DEPOSIT, &mins);
    assert!(matches!(action, DepositAction::Transfer { .. }));
}

#[test]
fn deposit_that_is_not_under_way_cannot_be_given_up() {
    let mut ctx = vault(0, 0);
    let mins = vec![];
    let start = DepositProgress::start();
    assert_eq!(abandon_deposit(&mut ctx, start), start);
    assert_untouched(&ctx);
    let (progress, _) = begin(&mut ctx, MINIMUM_DEPOSIT, &mins);
    let (progress, _) = step(&mut ctx, MINIMUM_DEPOSIT, &mins, progress, DepositEvent::Transferred);
    let (done, _) = step(&mut ctx, MINIMUM_DEPOSIT, &mins, progress, DepositEvent::Minted);
    assert_eq!(abandon_deposit(&mut ctx, done), done);
    assert_eq!(ctx.basket.total_supply, 500 + MINIMUM_DEPOSIT);
    let mut ctx = vault(1, 12);
    ctx.basket.reentrancy_guard = true;
    let (failed, _) = begin(&mut ctx, MINIMUM_DEPOSIT, &vec![0]);
    assert_eq!(abandon_deposit(&mut ctx, failed), failed);
    assert!(ctx.basket.reentrancy_guard);
}
