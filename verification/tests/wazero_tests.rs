//! The contract-level scenarios: construction, metadata, deposits and
//! withdrawals, with the host's part (caller identity, attached value,
//! native custody, event sink) played by the test itself.

use wazero::{settle_withdraw, AccountId, Event, EventLog, LedgerError, Transfer, Wazero};

const ALICE: AccountId = 1;
const BOB: AccountId = 2;

fn assert_transfer(event: &Event, from: Option<AccountId>, to: Option<AccountId>, value: u128) {
    if let Event::Transfer(Transfer { from: f, to: t, value: v }) = event {
        assert_eq!(*f, from, "Transfer event: 'from' mismatch");
        assert_eq!(*t, to, "Transfer event: 'to' mismatch");
        assert_eq!(*v, value, "Transfer event: 'value' mismatch");
    } else {
        panic!("Event is not Transfer")
    }
}

/// Creates a new contract whose total supply was deposited by `caller`,
/// recording the events as the host would.
fn init_supply(caller: AccountId, amount: u128, log: &mut EventLog) -> Wazero {
    let mut contract = Wazero::new();
    let events = contract.deposit(caller, amount).unwrap();
    log.record(events);
    contract
}

fn drain(log: &EventLog) -> Vec<Event> {
    let mut out = Vec::new();
    let mut i: usize = 0;
    while i < log.len() {
        out.push(log.get(i));
        i += 1;
    }
    out
}

#[test]
fn constructor_works() {
    let contract = Wazero::new();
    assert_eq!(contract.total_supply(), 0);
}

#[test]
fn metadata_is_correct() {
    let contract = Wazero::new();
    assert_eq!(contract.token_name(), Some(String::from("WrappedAZERO")));
    assert_eq!(contract.token_symbol(), Some(String::from("wAZERO")));
    assert_eq!(contract.token_decimals(), 12);
}

#[test]
fn deposit_works() {
    let mut contract = Wazero::new();
    let amount = 100;

    assert_eq!(contract.total_supply(), 0);
    assert_eq!(contract.balance_of(ALICE), 0);

    assert!(contract.deposit(ALICE, amount).is_ok());

    assert_eq!(contract.total_supply(), amount);
    assert_eq!(contract.balance_of(ALICE), amount);
}

#[test]
fn deposit_emits_event() {
    let mut contract = Wazero::new();
    let amount = 100;

    let events = contract.deposit(ALICE, amount).unwrap();

    assert_eq!(events.len(), 1);
    assert_transfer(&events[0], None, Some(ALICE), amount);
}

#[test]
fn deposit_of_0_emits_no_event() {
    let mut contract = Wazero::new();

    let events = contract.deposit(ALICE, 0).unwrap();

    assert_eq!(events.len(), 0);
}

#[test]
fn multiple_deposit_works_and_emits_events() {
    let mut contract = Wazero::new();
    let mut log = EventLog::new();
    let amount = 100;

    assert_eq!(contract.total_supply(), 0);
    assert_eq!(contract.balance_of(ALICE), 0);
    assert_eq!(contract.balance_of(BOB), 0);

    let events = contract.deposit(ALICE, amount).unwrap();
    log.record(events);

    assert_eq!(contract.total_supply(), amount);
    assert_eq!(contract.balance_of(ALICE), amount);
    assert_eq!(contract.balance_of(BOB), 0);

    let events = contract.deposit(BOB, 2 * amount).unwrap();
    log.record(events);

    assert_eq!(contract.total_supply(), 3 * amount);
    assert_eq!(contract.balance_of(ALICE), amount);
    assert_eq!(contract.balance_of(BOB), 2 * amount);

    let events = drain(&log);
    assert_eq!(events.len(), 2);
    assert_transfer(&events[0], None, Some(ALICE), amount);
    assert_transfer(&events[1], None, Some(BOB), 2 * amount);
}

#[test]
fn withdraw_works() {
    let amount = 100;
    let mut log = EventLog::new();
    let mut contract = init_supply(ALICE, 3 * amount, &mut log);

    assert_eq!(contract.total_supply(), 3 * amount);
    assert_eq!(contract.balance_of(ALICE), 3 * amount);

    // The host's native custody: ALICE's native funds before and after.
    let old_native: u128 = 1_000;
    let events = contract.withdraw(ALICE, amount).unwrap();
    // The payout primitive accepts, so the events are released.
    let events = settle_withdraw(events, true).unwrap();
    log.record(events);
    let new_native = old_native + amount;

    assert_eq!(contract.total_supply(), 2 * amount);
    assert_eq!(contract.balance_of(ALICE), 2 * amount);
    assert_eq!(new_native - old_native, amount);
}

#[test]
fn withdraw_emits_event() {
    let amount = 100;
    let mut log = EventLog::new();
    let mut contract = init_supply(ALICE, 3 * amount, &mut log);

    let events = contract.withdraw(ALICE, amount).unwrap();
    let events = settle_withdraw(events, true).unwrap();
    log.record(events);

    let events = drain(&log);
    assert_eq!(events.len(), 2);
    assert_transfer(&events[0], None, Some(ALICE), 3 * amount);
    assert_transfer(&events[1], Some(ALICE), None, amount);
}

#[test]
fn withdraw_of_0_emits_no_event() {
    let amount = 100;
    let mut log = EventLog::new();
    let mut contract = init_supply(ALICE, amount, &mut log);

    let events = contract.withdraw(ALICE, 0).unwrap();
    let events = settle_withdraw(events, true).unwrap();
    log.record(events);

    let events = drain(&log);
    assert_eq!(events.len(), 1);
    assert_transfer(&events[0], None, Some(ALICE), amount);
}

#[test]
fn withdraw_too_much_fails() {
    let amount = 100;
    let mut log = EventLog::new();
    let mut contract = init_supply(ALICE, amount, &mut log);

    assert_eq!(contract.withdraw(ALICE, amount + 1), Err(LedgerError::InsufficientBalance));
}

#[test]
fn multiple_withdraw_works_and_emits_events() {
    let amount = 100;
    let mut log = EventLog::new();
    let mut contract = init_supply(ALICE, 5 * amount, &mut log);

    let events = contract.transfer(ALICE, BOB, 2 * amount).unwrap();
    log.record(events);

    // The host's native custody before the withdrawals.
    let old_alice: u128 = 1_000;
    let old_bob: u128 = 2_000;

    let events = contract.withdraw(ALICE, 2 * amount).unwrap();
    let events = settle_withdraw(events, true).unwrap();
    log.record(events);
    let new_alice = old_alice + 2 * amount;

    let events = contract.withdraw(BOB, amount).unwrap();
    let events = settle_withdraw(events, true).unwrap();
    log.record(events);
    let new_bob = old_bob + amount;

    assert_eq!(contract.total_supply(), 2 * amount);
    assert_eq!(contract.balance_of(ALICE), amount);
    assert_eq!(contract.balance_of(BOB), amount);
    assert_eq!(new_alice - old_alice, 2 * amount);
    assert_eq!(new_bob - old_bob, amount);

    let events = drain(&log);
    assert_eq!(events.len(), 4);
    assert_transfer(&events[0], None, Some(ALICE), 5 * amount);
    assert_transfer(&events[1], Some(ALICE), Some(BOB), 2 * amount);
    assert_transfer(&events[2], Some(ALICE), None, 2 * amount);
    assert_transfer(&events[3], Some(BOB), None, amount);
}
