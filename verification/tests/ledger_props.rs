//! Scenarios over the ledger store itself: the event rules of each mutator,
//! the typed failures, and concrete instances of the cross-call laws.

use wazero::{settle_withdraw, Approval, Event, Ledger, LedgerError, Transfer, Wazero};

const A: u128 = 10;
const B: u128 = 11;
const C: u128 = 12;

fn transfer_event(from: Option<u128>, to: Option<u128>, value: u128) -> Event {
    Event::Transfer(Transfer { from, to, value })
}

fn approval_event(owner: u128, spender: u128, amount: u128) -> Event {
    Event::Approval(Approval { owner, spender, amount })
}

#[test]
fn fresh_ledger_reads_zero() {
    let l = Ledger::empty();
    assert_eq!(l.total_supply(), 0);
    assert_eq!(l.balance_of(A), 0);
    assert_eq!(l.allowance(A, B), 0);
}

#[test]
fn mint_credits_supply_and_emits_one_event() {
    let mut l = Ledger::empty();
    let events = l.mint(A, 100).unwrap();
    assert_eq!(l.total_supply(), 100);
    assert_eq!(l.balance_of(A), 100);
    assert_eq!(events, vec![transfer_event(None, Some(A), 100)]);
}

#[test]
fn mint_of_zero_changes_nothing_and_emits_nothing() {
    let mut l = Ledger::empty();
    l.mint(A, 100).unwrap();
    let events = l.mint(A, 0).unwrap();
    assert_eq!(l.total_supply(), 100);
    assert_eq!(l.balance_of(A), 100);
    assert_eq!(events, Vec::new());
}

#[test]
fn mint_overflow_fails_and_changes_nothing() {
    let mut l = Ledger::empty();
    l.mint(A, u128::MAX - 5).unwrap();
    assert_eq!(l.mint(B, 6), Err(LedgerError::Overflow));
    assert_eq!(l.total_supply(), u128::MAX - 5);
    assert_eq!(l.balance_of(A), u128::MAX - 5);
    assert_eq!(l.balance_of(B), 0);
    // The remaining headroom still fits.
    assert!(l.mint(B, 5).is_ok());
    assert_eq!(l.total_supply(), u128::MAX);
}

#[test]
fn burn_more_than_balance_fails_and_changes_nothing() {
    let mut l = Ledger::empty();
    l.mint(A, 100).unwrap();
    assert_eq!(l.burn(A, 101), Err(LedgerError::InsufficientBalance));
    assert_eq!(l.total_supply(), 100);
    assert_eq!(l.balance_of(A), 100);
}

#[test]
fn burn_debits_supply_and_emits_one_event() {
    let mut l = Ledger::empty();
    l.mint(A, 100).unwrap();
    let events = l.burn(A, 40).unwrap();
    assert_eq!(l.total_supply(), 60);
    assert_eq!(l.balance_of(A), 60);
    assert_eq!(events, vec![transfer_event(Some(A), None, 40)]);
}

#[test]
fn burn_of_zero_changes_nothing_and_emits_nothing() {
    let mut l = Ledger::empty();
    l.mint(A, 100).unwrap();
    let events = l.burn(A, 0).unwrap();
    assert_eq!(l.total_supply(), 100);
    assert_eq!(l.balance_of(A), 100);
    assert_eq!(events, Vec::new());
}

#[test]
fn transfer_moves_balance_and_keeps_supply() {
    let mut l = Ledger::empty();
    l.mint(A, 100).unwrap();
    let events = l.transfer(A, B, 50).unwrap();
    assert_eq!(l.balance_of(A), 50);
    assert_eq!(l.balance_of(B), 50);
    assert_eq!(l.total_supply(), 100);
    assert_eq!(events, vec![transfer_event(Some(A), Some(B), 50)]);
}

#[test]
fn transfer_of_zero_still_checks_and_emits() {
    let mut l = Ledger::empty();
    l.mint(A, 100).unwrap();
    let events = l.transfer(A, B, 0).unwrap();
    assert_eq!(l.balance_of(A), 100);
    assert_eq!(l.balance_of(B), 0);
    assert_eq!(events, vec![transfer_event(Some(A), Some(B), 0)]);
}

#[test]
fn transfer_to_self_is_observable_noop() {
    let mut l = Ledger::empty();
    l.mint(A, 100).unwrap();
    let events = l.transfer(A, A, 30).unwrap();
    assert_eq!(l.balance_of(A), 100);
    assert_eq!(l.total_supply(), 100);
    assert_eq!(events, vec![transfer_event(Some(A), Some(A), 30)]);
}

#[test]
fn transfer_more_than_balance_fails() {
    let mut l = Ledger::empty();
    l.mint(A, 100).unwrap();
    assert_eq!(l.transfer(A, B, 101), Err(LedgerError::InsufficientBalance));
    assert_eq!(l.balance_of(A), 100);
    assert_eq!(l.balance_of(B), 0);
}

#[test]
fn approved_spender_moves_owner_balance() {
    let mut l = Ledger::empty();
    l.mint(A, 100).unwrap();
    l.approve(A, B, 30).unwrap();
    let events = l.transfer_from(B, A, C, 30).unwrap();
    assert_eq!(l.balance_of(A), 70);
    assert_eq!(l.balance_of(C), 30);
    assert_eq!(l.allowance(A, B), 0);
    // One Transfer, no Approval.
    assert_eq!(events, vec![transfer_event(Some(A), Some(C), 30)]);
}

#[test]
fn transfer_from_without_allowance_fails() {
    let mut l = Ledger::empty();
    l.mint(A, 100).unwrap();
    l.approve(A, B, 20).unwrap();
    assert_eq!(l.transfer_from(B, A, C, 21), Err(LedgerError::InsufficientAllowance));
    assert_eq!(l.balance_of(A), 100);
    assert_eq!(l.allowance(A, B), 20);
}

#[test]
fn transfer_from_without_balance_fails() {
    let mut l = Ledger::empty();
    l.mint(A, 10).unwrap();
    l.approve(A, B, 50).unwrap();
    assert_eq!(l.transfer_from(B, A, C, 11), Err(LedgerError::InsufficientBalance));
    assert_eq!(l.balance_of(A), 10);
    assert_eq!(l.allowance(A, B), 50);
}

#[test]
fn approve_replaces_and_always_emits() {
    let mut l = Ledger::empty();
    let ev1 = l.approve(A, B, 30).unwrap();
    assert_eq!(l.allowance(A, B), 30);
    assert_eq!(ev1, vec![approval_event(A, B, 30)]);
    // Approving zero still emits.
    let ev2 = l.approve(A, B, 0).unwrap();
    assert_eq!(l.allowance(A, B), 0);
    assert_eq!(ev2, vec![approval_event(A, B, 0)]);
}

#[test]
fn approve_twice_lands_on_same_value_with_equal_events() {
    let mut l = Ledger::empty();
    let ev1 = l.approve(A, B, 30).unwrap();
    let first = l.allowance(A, B);
    let ev2 = l.approve(A, B, 30).unwrap();
    assert_eq!(l.allowance(A, B), first);
    assert_eq!(l.allowance(A, B), 30);
    assert_eq!(ev1, ev2);
    assert_eq!(ev1, vec![approval_event(A, B, 30)]);
}

#[test]
fn allowance_deltas_accumulate_and_emit_new_total() {
    let mut l = Ledger::empty();
    let ev1 = l.increase_allowance(A, B, 30).unwrap();
    assert_eq!(ev1, vec![approval_event(A, B, 30)]);
    let ev2 = l.increase_allowance(A, B, 12).unwrap();
    assert_eq!(ev2, vec![approval_event(A, B, 42)]);
    let ev3 = l.decrease_allowance(A, B, 2).unwrap();
    assert_eq!(ev3, vec![approval_event(A, B, 40)]);
    assert_eq!(l.allowance(A, B), 40);
}

#[test]
fn decrease_allowance_below_zero_fails_unchanged() {
    let mut l = Ledger::empty();
    l.increase_allowance(A, B, 30).unwrap();
    assert_eq!(l.decrease_allowance(A, B, 31), Err(LedgerError::InsufficientAllowance));
    assert_eq!(l.allowance(A, B), 30);
}

#[test]
fn increase_allowance_overflow_fails_unchanged() {
    let mut l = Ledger::empty();
    l.increase_allowance(A, B, u128::MAX).unwrap();
    assert_eq!(l.increase_allowance(A, B, 1), Err(LedgerError::Overflow));
    assert_eq!(l.allowance(A, B), u128::MAX);
}

#[test]
fn deposit_then_withdraw_restores_state() {
    let mut w = Wazero::new();
    w.deposit(A, 500).unwrap();
    let supply_before = w.total_supply();
    let balance_before = w.balance_of(A);

    w.deposit(A, 77).unwrap();
    let events = w.withdraw(A, 77).unwrap();
    settle_withdraw(events, true).unwrap();

    assert_eq!(w.total_supply(), supply_before);
    assert_eq!(w.balance_of(A), balance_before);
}

#[test]
fn rejected_payout_reports_withdraw_failed_after_burn() {
    let mut w = Wazero::new();
    w.deposit(A, 100).unwrap();
    let events = w.withdraw(A, 60).unwrap();
    // The native payout is rejected: the call fails, yet the burn stays.
    assert_eq!(settle_withdraw(events, false), Err(LedgerError::WithdrawFailed));
    assert_eq!(w.balance_of(A), 40);
    assert_eq!(w.total_supply(), 40);
}

#[test]
fn supply_matches_sum_of_balances_across_operations() {
    let mut l = Ledger::empty();
    l.mint(A, 100).unwrap();
    l.mint(B, 50).unwrap();
    l.transfer(A, C, 25).unwrap();
    l.approve(A, B, 10).unwrap();
    l.transfer_from(B, A, B, 10).unwrap();
    l.burn(B, 5).unwrap();
    let sum = l.balance_of(A) + l.balance_of(B) + l.balance_of(C);
    assert_eq!(l.total_supply(), sum);
    assert_eq!(l.total_supply(), 145);
}
