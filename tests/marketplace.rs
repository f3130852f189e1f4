use medilock::{ContributionKey, ErrorCode, Ledger, PoolKey, Pubkey};

fn key(n: u128) -> Pubkey {
    Pubkey { high: 0, low: n }
}

fn pool_of_two() -> (Ledger, PoolKey) {
    let mut l = Ledger::initialize();
    let pk = l
        .add_pool(key(1), 4, "glucose".to_string(), "CGM traces".to_string(), 10, 2)
        .unwrap();
    (l, pk)
}

#[test]
fn scenario_pool_fills_then_refuses() {
    let (mut l, pk) = pool_of_two();
    let c1 = l.contribute(key(11), pk, 100).unwrap();
    assert_eq!(c1.id, 0);
    assert!(!c1.paid);
    assert_eq!(l.get_pool(pk).unwrap().collected, 1);
    let c2 = l.contribute(key(12), pk, 200).unwrap();
    assert_eq!(c2.id, 1);
    assert_eq!(l.get_pool(pk).unwrap().collected, 2);
    assert_eq!(l.contribute(key(13), pk, 300).unwrap_err(), ErrorCode::PoolFull);
    assert_eq!(l.get_pool(pk).unwrap().collected, 2);
    let missing = ContributionKey { pool: pk, record_id: 300, contributor: key(13) };
    assert_eq!(l.get_contribution(missing), None);
}

#[test]
fn scenario_withdraw_pays_once() {
    let (mut l, pk) = pool_of_two();
    l.contribute(key(11), pk, 100).unwrap();
    assert_eq!(l.fund_escrow(key(1), pk, 25), Ok(25));
    let ck = ContributionKey { pool: pk, record_id: 100, contributor: key(11) };
    let paid = l.withdraw(key(11), ck).unwrap();
    assert!(paid.paid);
    assert!(l.get_contribution(ck).unwrap().paid);
    assert_eq!(l.balance_of(key(11)), 10);
    assert_eq!(l.escrow_of(pk), 15);
    assert_eq!(l.withdraw(key(11), ck).unwrap_err(), ErrorCode::AlreadyPaid);
    assert_eq!(l.balance_of(key(11)), 10);
    assert_eq!(l.escrow_of(pk), 15);
}

#[test]
fn withdraw_by_someone_else_is_refused() {
    let (mut l, pk) = pool_of_two();
    l.contribute(key(11), pk, 100).unwrap();
    l.fund_escrow(key(1), pk, 100).unwrap();
    let ck = ContributionKey { pool: pk, record_id: 100, contributor: key(11) };
    assert_eq!(l.withdraw(key(12), ck).unwrap_err(), ErrorCode::UnauthorizedAccess);
    assert!(!l.get_contribution(ck).unwrap().paid);
    assert_eq!(l.balance_of(key(12)), 0);
    assert_eq!(l.escrow_of(pk), 100);
}

#[test]
fn withdraw_without_escrow_leaves_contribution_unpaid() {
    let (mut l, pk) = pool_of_two();
    l.contribute(key(11), pk, 100).unwrap();
    l.fund_escrow(key(1), pk, 9).unwrap();
    let ck = ContributionKey { pool: pk, record_id: 100, contributor: key(11) };
    assert_eq!(l.withdraw(key(11), ck).unwrap_err(), ErrorCode::InsufficientEscrow);
    assert!(!l.get_contribution(ck).unwrap().paid);
    assert_eq!(l.balance_of(key(11)), 0);
    assert_eq!(l.escrow_of(pk), 9);
}

#[test]
fn withdraw_of_missing_contribution() {
    let (mut l, pk) = pool_of_two();
    let ck = ContributionKey { pool: pk, record_id: 1, contributor: key(11) };
    assert_eq!(l.withdraw(key(11), ck).unwrap_err(), ErrorCode::NotFound);
}

#[test]
fn payout_that_would_overflow_balance_is_refused() {
    let mut l = Ledger::initialize();
    let big = l.add_pool(key(1), 1, "a".to_string(), "b".to_string(), u64::MAX, 1).unwrap();
    let small = l.add_pool(key(1), 2, "c".to_string(), "d".to_string(), 1, 1).unwrap();
    l.contribute(key(11), big, 1).unwrap();
    l.contribute(key(11), small, 2).unwrap();
    l.fund_escrow(key(1), big, u64::MAX).unwrap();
    l.fund_escrow(key(1), small, 1).unwrap();
    l.withdraw(key(11), ContributionKey { pool: big, record_id: 1, contributor: key(11) }).unwrap();
    assert_eq!(l.balance_of(key(11)), u64::MAX);
    let ck = ContributionKey { pool: small, record_id: 2, contributor: key(11) };
    assert_eq!(l.withdraw(key(11), ck).unwrap_err(), ErrorCode::BalanceOverflow);
    assert!(!l.get_contribution(ck).unwrap().paid);
    assert_eq!(l.escrow_of(small), 1);
}

#[test]
fn escrow_is_funded_by_its_creator_only() {
    let (mut l, pk) = pool_of_two();
    assert_eq!(l.fund_escrow(key(2), pk, 5).unwrap_err(), ErrorCode::UnauthorizedAccess);
    assert_eq!(l.fund_escrow(key(1), pk, 5), Ok(5));
    assert_eq!(l.fund_escrow(key(1), pk, 7), Ok(12));
    assert_eq!(l.fund_escrow(key(1), pk, u64::MAX).unwrap_err(), ErrorCode::BalanceOverflow);
    assert_eq!(l.escrow_of(pk), 12);
    let other = PoolKey { creator: key(1), id: 99 };
    assert_eq!(l.fund_escrow(key(1), other, 5).unwrap_err(), ErrorCode::NotFound);
}

#[test]
fn pool_keys_are_unique_per_creator() {
    let (mut l, pk) = pool_of_two();
    assert_eq!(
        l.add_pool(key(1), 4, "x".to_string(), "y".to_string(), 1, 1).unwrap_err(),
        ErrorCode::AlreadyExists
    );
    let other = l.add_pool(key(2), 4, "x".to_string(), "y".to_string(), 3, 5).unwrap();
    assert_ne!(other, pk);
    let pool = l.get_pool(pk).unwrap();
    assert_eq!(pool.name, "glucose");
    assert_eq!(pool.description, "CGM traces");
    assert_eq!(pool.price_per_record, 10);
    assert_eq!(pool.total_needed, 2);
    assert_eq!(pool.collected, 0);
    assert_eq!(pool.creator, key(1));
    assert_eq!(pool.id, 4);
}

#[test]
fn same_record_cannot_be_contributed_twice() {
    let (mut l, pk) = pool_of_two();
    l.contribute(key(11), pk, 100).unwrap();
    assert_eq!(l.contribute(key(11), pk, 100).unwrap_err(), ErrorCode::AlreadyExists);
    assert_eq!(l.get_pool(pk).unwrap().collected, 1);
    let missing = PoolKey { creator: key(2), id: 4 };
    assert_eq!(l.contribute(key(11), missing, 100).unwrap_err(), ErrorCode::NotFound);
}

#[test]
fn pool_name_and_description_are_bounded() {
    let mut l = Ledger::initialize();
    assert_eq!(
        l.add_pool(key(1), 1, "n".repeat(65), "d".to_string(), 1, 1).unwrap_err(),
        ErrorCode::InvalidState
    );
    assert_eq!(
        l.add_pool(key(1), 1, "n".to_string(), "d".repeat(201), 1, 1).unwrap_err(),
        ErrorCode::InvalidState
    );
    assert!(l.get_pool(PoolKey { creator: key(1), id: 1 }).is_none());
    let pk = l.add_pool(key(1), 1, "n".repeat(64), "d".repeat(200), 1, 1).unwrap();
    assert_eq!(l.get_pool(pk).unwrap().description, "d".repeat(200));
}

#[test]
fn run_of_contributions_stops_at_capacity() {
    let mut l = Ledger::initialize();
    let pk = l.add_pool(key(1), 1, "n".to_string(), "d".to_string(), 1, 3).unwrap();
    let mut ok = 0;
    for i in 0..5u64 {
        match l.contribute(key(100 + i as u128), pk, i) {
            Ok(c) => {
                assert_eq!(c.id, ok);
                ok += 1;
            }
            Err(e) => assert_eq!(e, ErrorCode::PoolFull),
        }
    }
    assert_eq!(ok, 3);
    assert_eq!(l.get_pool(pk).unwrap().collected, 3);
}
