//! Laws that hold of the ledger across calls, proved from the operations'
//! contracts and the well-formedness invariant.

use vstd::prelude::*;

use crate::assoc::bal_sum;
use crate::events::{approval_event, AccountId, Event};
use crate::ledger::{
    allowances_unchanged, approve_ok, balances_unchanged, burn_ok, mint_ok, Ledger,
};

verus! {

/// Between completed calls the total-supply counter equals a full
/// re-summation of every balance entry. This is part of well-formedness,
/// which `Ledger::empty` establishes and every mutator preserves.
pub proof fn lemma_supply_matches_balance_sum(l: Ledger)
    requires
        l.wf(),
    ensures
        l.supply() == bal_sum(l.balances@),
{
}

/// No balance or allowance is ever negative: amounts are unsigned, so every
/// readable value is at least zero.
pub proof fn lemma_amounts_never_negative(l: Ledger)
    ensures
        forall|a: AccountId| l.bal(a) >= 0,
        forall|o: AccountId, s: AccountId| l.alw(o, s) >= 0,
{
}

/// Setting the same allowance twice lands on the same value both times and
/// emits two identical `Approval` events.
pub proof fn lemma_repeated_approve_agrees(
    l0: Ledger,
    l1: Ledger,
    l2: Ledger,
    owner: AccountId,
    spender: AccountId,
    amount: u128,
    ev1: Seq<Event>,
    ev2: Seq<Event>,
)
    requires
        approve_ok(l0, l1, owner, spender, amount, ev1),
        approve_ok(l1, l2, owner, spender, amount, ev2),
    ensures
        l1.alw(owner, spender) == amount,
        l2.alw(owner, spender) == amount,
        ev1 == seq![approval_event(owner, spender, amount)],
        ev2 == ev1,
{
}

/// After a deposit of `amount`, the depositor's balance covers a withdrawal
/// of the same amount.
pub proof fn lemma_deposit_enables_withdraw(
    l0: Ledger,
    l1: Ledger,
    caller: AccountId,
    amount: u128,
    ev: Seq<Event>,
)
    requires
        mint_ok(l0, l1, caller, amount, ev),
    ensures
        l1.bal(caller) >= amount,
{
}

/// A deposit of `amount` followed by a withdrawal of `amount` by the same
/// caller returns every balance, every allowance and the total supply to
/// their pre-deposit values.
pub proof fn lemma_deposit_then_withdraw_restores(
    l0: Ledger,
    l1: Ledger,
    l2: Ledger,
    caller: AccountId,
    amount: u128,
    ev1: Seq<Event>,
    ev2: Seq<Event>,
)
    requires
        mint_ok(l0, l1, caller, amount, ev1),
        burn_ok(l1, l2, caller, amount, ev2),
    ensures
        balances_unchanged(l0, l2),
        l2.supply() == l0.supply(),
        allowances_unchanged(l0, l2),
{
    assert forall|a: AccountId| l2.bal(a) == l0.bal(a) by {
        assert(l1.bal(a) == l0.bal(a) + (if a == caller { amount as int } else { 0 }));
        assert(l2.bal(a) == l1.bal(a) - (if a == caller { amount as int } else { 0 }));
    }
    assert forall|o: AccountId, s: AccountId| l2.alw(o, s) == l0.alw(o, s) by {
        assert(l1.alw(o, s) == l0.alw(o, s));
        assert(l2.alw(o, s) == l1.alw(o, s));
    }
}

} // verus!
