use sadl_contracts::circuit_breaker::{BreakerError, CircuitBreaker};
use sadl_contracts::identity::{contains_identity, Identity};
use sadl_contracts::rate_limit::{cooldown_elapsed, within_rate_cap, DailyWindow};

#[test]
fn cooldown_boundaries() {
    assert!(!cooldown_elapsed(86_399, 0, 86_400));
    assert!(cooldown_elapsed(86_400, 0, 86_400));
    assert!(!cooldown_elapsed(i64::MIN, i64::MAX, 1));
    assert!(cooldown_elapsed(i64::MAX, i64::MAX - 5, 5));
}

#[test]
fn static_rate_cap() {
    assert!(within_rate_cap(10, 10));
    assert!(!within_rate_cap(11, 10));
}

#[test]
fn window_resets_lazily() {
    let mut w = DailyWindow { total: 900, last_reset: 1_000 };
    assert!(w.check_admits(1_000 + 86_399, 100, 1_000));
    assert!(!w.check_admits(1_000 + 86_399, 101, 1_000));
    assert!(w.check_admits(1_000 + 86_400, 1_000, 1_000));
    w.roll(50_000);
    assert_eq!(w, DailyWindow { total: 900, last_reset: 1_000 });
    w.commit(200_000, 30);
    assert_eq!(w, DailyWindow { total: 30, last_reset: 200_000 });
    w.commit(200_001, 70);
    assert_eq!(w, DailyWindow { total: 100, last_reset: 200_000 });
}

#[test]
fn breaker_gates() {
    let admin = Identity::new(1, 2, 3, 4);
    let other = Identity::new(1, 2, 3, 5);
    let mut b = CircuitBreaker::new(admin);
    assert_eq!(b.require_unpaused(), Ok(()));
    assert_eq!(b.set_paused(other, true), Err(BreakerError::Unauthorized));
    assert_eq!(b.set_paused(admin, true), Ok(()));
    assert_eq!(b.require_unpaused(), Err(BreakerError::ContractPaused));
    assert_eq!(b.require_admin(other), Err(BreakerError::Unauthorized));
    assert_eq!(b.rotate_admin(admin, other), Ok(()));
    assert_eq!(b.require_admin(other), Ok(()));
    assert_eq!(b, CircuitBreaker { paused: true, emergency_admin: other });
}

#[test]
fn identity_membership() {
    let list = vec![Identity::new(1, 0, 0, 0), Identity::new(0, 0, 0, 1)];
    assert!(contains_identity(&list, Identity::new(0, 0, 0, 1)));
    assert!(!contains_identity(&list, Identity::new(0, 0, 1, 0)));
    assert!(!contains_identity(&Vec::new(), Identity::new(0, 0, 0, 0)));
}
