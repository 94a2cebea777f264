use basket_token::{with_reentrancy_guard, BasketError, BasketState, ReentrancyGuard};

#[test]
fn guard_runs_the_work_and_gives_the_lock_back() {
    let mut basket = BasketState::default();
    let result = with_reentrancy_guard(&mut basket, || Ok::<u32, BasketError>(41 + 1));
    assert_eq!(result, Ok(42));
    assert!(!basket.reentrancy_guard);
}

#[test]
fn guard_gives_the_lock_back_when_the_work_fails() {
    let mut basket = BasketState::default();
    let result = with_reentrancy_guard(&mut basket, || {
        Err::<u32, BasketError>(BasketError::SlippageExceeded)
    });
    assert_eq!(result, Err(BasketError::SlippageExceeded));
    assert!(!basket.reentrancy_guard);
    let again = with_reentrancy_guard(&mut basket, || Ok::<u32, BasketError>(7));
    assert_eq!(again, Ok(7));
}

#[test]
fn guard_refuses_when_the_lock_is_held() {
    let mut basket = BasketState::default();
    basket.reentrancy_guard = true;
    let mut ran = false;
    let result = with_reentrancy_guard(&mut basket, || {
        ran = true;
        Ok::<u32, BasketError>(1)
    });
    assert_eq!(result, Err(BasketError::ReentrancyDetected));
    assert!(!ran);
    assert!(basket.reentrancy_guard);
}

#[test]
fn enter_takes_the_lock_once() {
    let mut basket = BasketState::default();
    basket.total_supply = 5;
    let guard = ReentrancyGuard::enter(&mut basket).unwrap();
    assert!(basket.reentrancy_guard);
    assert_eq!(
        ReentrancyGuard::enter(&mut basket).err(),
        Some(BasketError::ReentrancyDetected)
    );
    assert!(basket.reentrancy_guard);
    guard.exit(&mut basket);
    assert!(!basket.reentrancy_guard);
    assert_eq!(basket.total_supply, 5);
    assert!(ReentrancyGuard::enter(&mut basket).is_ok());
}
