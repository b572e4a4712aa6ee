use simple_token::{AccountId, SimpleToken, TokenError, Transfer};

fn acct(n: u8) -> AccountId {
    AccountId([n; 32])
}

fn owner() -> AccountId {
    acct(1)
}

fn fresh() -> SimpleToken {
    SimpleToken::new(owner())
}

#[test]
fn new_ledger_is_empty() {
    let t = fresh();
    assert_eq!(t.balance_of(acct(2)), 0);
    assert_eq!(t.balance_of(owner()), 0);
    assert_eq!(t.allowance(acct(2), acct(3)), 0);
}

#[test]
fn mint_by_owner_credits_balance() {
    let mut t = fresh();
    let ev = t.mint(owner(), acct(2), 500).unwrap();
    assert_eq!(ev.to.0, acct(2).0);
    assert_eq!(ev.amount, 500);
    assert_eq!(t.balance_of(acct(2)), 500);
    t.mint(owner(), acct(2), 250).unwrap();
    assert_eq!(t.balance_of(acct(2)), 750);
    assert_eq!(t.balance_of(acct(3)), 0);
}

#[test]
fn mint_saturates_at_max() {
    let mut t = fresh();
    t.mint(owner(), acct(2), u128::MAX - 5).unwrap();
    t.mint(owner(), acct(2), 10).unwrap();
    assert_eq!(t.balance_of(acct(2)), u128::MAX);
}

#[test]
fn mint_by_non_owner_is_unauthorized() {
    let mut t = fresh();
    t.mint(owner(), acct(2), 100).unwrap();
    let r = t.mint(acct(2), acct(2), 100);
    assert!(matches!(r, Err(TokenError::Unauthorized)));
    assert_eq!(t.balance_of(acct(2)), 100);
}

#[test]
fn burn_reduces_own_balance() {
    let mut t = fresh();
    t.mint(owner(), acct(2), 100).unwrap();
    let ev = t.burn(acct(2), 30).unwrap();
    assert_eq!(ev.from.0, acct(2).0);
    assert_eq!(ev.amount, 30);
    assert_eq!(t.balance_of(acct(2)), 70);
}

#[test]
fn burn_over_balance_fails() {
    let mut t = fresh();
    t.mint(owner(), acct(2), 100).unwrap();
    let r = t.burn(acct(2), 101);
    assert!(matches!(r, Err(TokenError::InsufficientBalance)));
    assert_eq!(t.balance_of(acct(2)), 100);
}

#[test]
fn transfer_moves_and_conserves() {
    let mut t = fresh();
    t.mint(owner(), acct(2), 100).unwrap();
    t.mint(owner(), acct(3), 7).unwrap();
    let ev = t.transfer(acct(2), acct(3), 40).unwrap();
    assert_eq!(ev.from.0, acct(2).0);
    assert_eq!(ev.to.0, acct(3).0);
    assert_eq!(ev.amount, 40);
    assert_eq!(t.balance_of(acct(2)), 60);
    assert_eq!(t.balance_of(acct(3)), 47);
    assert_eq!(t.balance_of(acct(2)) + t.balance_of(acct(3)), 107);
}

#[test]
fn transfer_to_self_keeps_balance() {
    let mut t = fresh();
    t.mint(owner(), acct(2), 100).unwrap();
    t.transfer(acct(2), acct(2), 60).unwrap();
    assert_eq!(t.balance_of(acct(2)), 100);
}

#[test]
fn transfer_saturates_recipient() {
    let mut t = fresh();
    t.mint(owner(), acct(2), 100).unwrap();
    t.mint(owner(), acct(3), u128::MAX - 1).unwrap();
    t.transfer(acct(2), acct(3), 10).unwrap();
    assert_eq!(t.balance_of(acct(2)), 90);
    assert_eq!(t.balance_of(acct(3)), u128::MAX);
}

#[test]
fn transfer_over_balance_fails_unchanged() {
    let mut t = fresh();
    t.mint(owner(), acct(2), 100).unwrap();
    t.mint(owner(), acct(3), 5).unwrap();
    let r = t.transfer(acct(2), acct(3), 101);
    assert!(matches!(r, Err(TokenError::InsufficientBalance)));
    assert_eq!(t.balance_of(acct(2)), 100);
    assert_eq!(t.balance_of(acct(3)), 5);
}

#[test]
fn approve_overwrites_not_adds() {
    let mut t = fresh();
    let ev = t.approve(acct(2), acct(4), 50).unwrap();
    assert_eq!(ev.owner.0, acct(2).0);
    assert_eq!(ev.spender.0, acct(4).0);
    assert_eq!(ev.amount, 50);
    t.approve(acct(2), acct(4), 20).unwrap();
    assert_eq!(t.allowance(acct(2), acct(4)), 20);
    assert_eq!(t.allowance(acct(4), acct(2)), 0);
}

#[test]
fn approve_beyond_balance_is_allowed() {
    let mut t = fresh();
    assert!(t.approve(acct(2), acct(4), 1_000_000).is_ok());
    assert_eq!(t.allowance(acct(2), acct(4)), 1_000_000);
}

#[test]
fn transfer_from_consumes_allowance() {
    let mut t = fresh();
    t.mint(owner(), acct(2), 100).unwrap();
    t.approve(acct(2), acct(4), 60).unwrap();
    let ev = t.transfer_from(acct(4), acct(2), acct(3), 25).unwrap();
    assert_eq!(ev.from.0, acct(2).0);
    assert_eq!(ev.to.0, acct(3).0);
    assert_eq!(ev.amount, 25);
    assert_eq!(t.allowance(acct(2), acct(4)), 35);
    assert_eq!(t.balance_of(acct(2)), 75);
    assert_eq!(t.balance_of(acct(3)), 25);
}

#[test]
fn transfer_from_over_allowance_fails() {
    let mut t = fresh();
    t.mint(owner(), acct(2), 100).unwrap();
    t.approve(acct(2), acct(4), 10).unwrap();
    let r = t.transfer_from(acct(4), acct(2), acct(3), 11);
    assert!(matches!(r, Err(TokenError::AllowanceExceeded)));
    assert_eq!(t.allowance(acct(2), acct(4)), 10);
    assert_eq!(t.balance_of(acct(2)), 100);
    assert_eq!(t.balance_of(acct(3)), 0);
}

#[test]
fn transfer_from_checks_allowance_before_balance() {
    let mut t = fresh();
    t.mint(owner(), acct(2), 5).unwrap();
    t.approve(acct(2), acct(4), 10).unwrap();
    let r = t.transfer_from(acct(4), acct(2), acct(3), 20);
    assert!(matches!(r, Err(TokenError::AllowanceExceeded)));
    let r = t.transfer_from(acct(4), acct(2), acct(3), 8);
    assert!(matches!(r, Err(TokenError::InsufficientBalance)));
    assert_eq!(t.allowance(acct(2), acct(4)), 10);
    assert_eq!(t.balance_of(acct(2)), 5);
}

#[test]
fn pause_blocks_transfers() {
    let mut t = fresh();
    t.mint(owner(), acct(2), 100).unwrap();
    t.approve(acct(2), acct(4), 100).unwrap();
    t.set_paused(owner(), true).unwrap();
    assert!(matches!(t.transfer(acct(2), acct(3), 1), Err(TokenError::Paused)));
    assert!(matches!(t.transfer(acct(2), acct(3), 1000), Err(TokenError::Paused)));
    assert!(matches!(
        t.transfer_from(acct(4), acct(2), acct(3), 1),
        Err(TokenError::Paused)
    ));
    assert_eq!(t.balance_of(acct(2)), 100);
    t.set_paused(owner(), false).unwrap();
    assert!(t.transfer(acct(2), acct(3), 1).is_ok());
}

#[test]
fn pause_does_not_block_mint_or_burn() {
    let mut t = fresh();
    t.set_paused(owner(), true).unwrap();
    assert!(t.mint(owner(), acct(2), 10).is_ok());
    assert!(t.burn(acct(2), 4).is_ok());
    assert_eq!(t.balance_of(acct(2)), 6);
}

#[test]
fn set_paused_by_non_owner_is_unauthorized() {
    let mut t = fresh();
    t.mint(owner(), acct(2), 100).unwrap();
    assert!(matches!(t.set_paused(acct(2), true), Err(TokenError::Unauthorized)));
    assert!(t.transfer(acct(2), acct(3), 1).is_ok());
}

#[test]
fn blacklist_blocks_sender_and_recipient() {
    let mut t = fresh();
    t.mint(owner(), acct(2), 100).unwrap();
    t.mint(owner(), acct(5), 100).unwrap();
    t.approve(acct(2), acct(4), 100).unwrap();
    t.approve(acct(5), acct(4), 100).unwrap();
    t.set_blacklist(owner(), acct(5), true).unwrap();
    assert!(matches!(t.transfer(acct(5), acct(2), 1), Err(TokenError::Blacklisted)));
    assert!(matches!(t.transfer(acct(2), acct(5), 1), Err(TokenError::Blacklisted)));
    assert!(matches!(
        t.transfer_from(acct(4), acct(5), acct(2), 1),
        Err(TokenError::Blacklisted)
    ));
    assert!(matches!(
        t.transfer_from(acct(4), acct(2), acct(5), 1),
        Err(TokenError::Blacklisted)
    ));
    assert!(t.transfer(acct(2), acct(3), 1).is_ok());
    t.set_blacklist(owner(), acct(5), false).unwrap();
    assert!(t.transfer(acct(5), acct(2), 1).is_ok());
    assert_eq!(t.balance_of(acct(5)), 99);
}

#[test]
fn pause_is_reported_before_blacklist() {
    let mut t = fresh();
    t.mint(owner(), acct(2), 100).unwrap();
    t.set_blacklist(owner(), acct(2), true).unwrap();
    t.set_paused(owner(), true).unwrap();
    assert!(matches!(t.transfer(acct(2), acct(3), 1), Err(TokenError::Paused)));
}

#[test]
fn set_blacklist_by_non_owner_is_unauthorized() {
    let mut t = fresh();
    t.mint(owner(), acct(2), 100).unwrap();
    assert!(matches!(
        t.set_blacklist(acct(3), acct(2), true),
        Err(TokenError::Unauthorized)
    ));
    assert!(t.transfer(acct(2), acct(3), 1).is_ok());
}

#[test]
fn full_scenario() {
    let o = owner();
    let (a, b, c, d) = (acct(10), acct(11), acct(12), acct(13));
    let mut t = SimpleToken::new(o);
    t.mint(o, a, 1000).unwrap();
    assert_eq!(t.balance_of(a), 1000);
    t.transfer(a, b, 400).unwrap();
    assert_eq!(t.balance_of(a), 600);
    assert_eq!(t.balance_of(b), 400);
    t.approve(a, c, 200).unwrap();
    assert_eq!(t.allowance(a, c), 200);
    t.transfer_from(c, a, d, 150).unwrap();
    assert_eq!(t.allowance(a, c), 50);
    assert_eq!(t.balance_of(a), 450);
    assert_eq!(t.balance_of(d), 150);
}

#[test]
fn batch_transfer_partial_commit() {
    let (a, b, z) = (acct(10), acct(11), acct(12));
    let mut t = fresh();
    t.mint(owner(), a, 250).unwrap();
    let mut events: Vec<Transfer> = Vec::new();
    let r = t.batch_transfer(a, vec![b, z], vec![100, 100000], &mut events);
    assert!(matches!(r, Err(TokenError::InsufficientBalance)));
    assert_eq!(t.balance_of(b), 100);
    assert_eq!(t.balance_of(z), 0);
    assert_eq!(t.balance_of(a), 150);
    assert_eq!(events.len(), 1);
    assert_eq!(events[0].to.0, b.0);
    assert_eq!(events[0].amount, 100);
}

#[test]
fn batch_transfer_all_succeed() {
    let (a, b, z) = (acct(10), acct(11), acct(12));
    let mut t = fresh();
    t.mint(owner(), a, 300).unwrap();
    let mut events: Vec<Transfer> = Vec::new();
    assert!(t.batch_transfer(a, vec![b, z, b], vec![10, 20, 30], &mut events).is_ok());
    assert_eq!(t.balance_of(a), 240);
    assert_eq!(t.balance_of(b), 40);
    assert_eq!(t.balance_of(z), 20);
    assert_eq!(events.len(), 3);
    assert_eq!(events[2].amount, 30);
}

#[test]
fn batch_transfer_length_mismatch_touches_nothing() {
    let (a, b, z) = (acct(10), acct(11), acct(12));
    let mut t = fresh();
    t.mint(owner(), a, 300).unwrap();
    let mut events: Vec<Transfer> = Vec::new();
    let r = t.batch_transfer(a, vec![b, z], vec![10], &mut events);
    assert!(matches!(r, Err(TokenError::LengthMismatch)));
    assert_eq!(t.balance_of(a), 300);
    assert_eq!(t.balance_of(b), 0);
    assert!(events.is_empty());
}

#[test]
fn batch_transfer_empty_succeeds() {
    let mut t = fresh();
    let mut events: Vec<Transfer> = Vec::new();
    assert!(t.batch_transfer(acct(10), vec![], vec![], &mut events).is_ok());
    assert!(events.is_empty());
}

#[test]
fn batch_transfer_stops_at_blacklisted() {
    let (a, b, x, z) = (acct(10), acct(11), acct(14), acct(12));
    let mut t = fresh();
    t.mint(owner(), a, 300).unwrap();
    t.set_blacklist(owner(), x, true).unwrap();
    let mut events: Vec<Transfer> = Vec::new();
    let r = t.batch_transfer(a, vec![b, x, z], vec![10, 10, 10], &mut events);
    assert!(matches!(r, Err(TokenError::Blacklisted)));
    assert_eq!(t.balance_of(a), 290);
    assert_eq!(t.balance_of(z), 0);
    assert_eq!(events.len(), 1);
}

#[test]
fn owner_stays_after_operations() {
    let mut t = fresh();
    t.mint(owner(), acct(2), 100).unwrap();
    t.transfer(acct(2), owner(), 50).unwrap();
    t.approve(owner(), acct(2), 10).unwrap();
    t.set_paused(owner(), false).unwrap();
    assert!(matches!(t.mint(acct(2), acct(2), 1), Err(TokenError::Unauthorized)));
    assert!(t.mint(owner(), acct(3), 1).is_ok());
}

#[test]
fn supply_moves_only_by_mint_and_burn() {
    let mut t = fresh();
    t.mint(owner(), acct(2), 100).unwrap();
    t.mint(owner(), acct(3), 50).unwrap();
    t.transfer(acct(2), acct(3), 30).unwrap();
    t.approve(acct(3), acct(4), 20).unwrap();
    t.transfer_from(acct(4), acct(3), acct(5), 20).unwrap();
    let total = |t: &SimpleToken| (2..6).map(|n| t.balance_of(acct(n))).sum::<u128>();
    assert_eq!(total(&t), 150);
    t.burn(acct(3), 15).unwrap();
    assert_eq!(total(&t), 135);
}
