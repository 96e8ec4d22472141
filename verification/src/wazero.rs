//! The wrapped-token contract surface: the seven caller-facing operations,
//! the metadata constants, and the bridge that couples native-currency
//! custody to ledger mint/burn.
//!
//! Caller identity, the value attached to a deposit, the native payout
//! primitive and the event sink are collaborators the host supplies; every
//! operation takes them (or their outcome) as plain values and returns the
//! ordered events the sink must receive.

use vstd::prelude::*;
use vstd::string::StringExecFns;

use crate::errors::LedgerError;
use crate::events::{AccountId, Event};
use crate::ledger::{
    approve_ok, burn_ok, mint_ok, transfer_from_ok, transfer_ok, Ledger,
};

verus! {

/// The wrapped-token contract: a ledger bridged 1:1 to escrowed native
/// currency.
pub struct Wazero {
    pub data: Ledger,
}

impl Wazero {
    /// Well-formedness of the underlying ledger; established by `new` and
    /// preserved by every operation.
    pub open spec fn wf(self) -> bool {
        self.data.wf()
    }

    /// A fresh contract: zero supply, no balances, no allowances.
    pub fn new() -> (r: Self)
        ensures
            r.wf(),
            r.data.supply() == 0,
            forall|a: AccountId| r.data.bal(a) == 0,
            forall|o: AccountId, s: AccountId| r.data.alw(o, s) == 0,
    {
        Wazero { data: Ledger::empty() }
    }

    /// The token's display name.
    pub fn token_name(&self) -> (r: Option<String>)
        ensures
            r matches Some(s) && s@ == "WrappedAZERO"@,
    {
        Some(String::from_str("WrappedAZERO"))
    }

    /// The token's ticker symbol.
    pub fn token_symbol(&self) -> (r: Option<String>)
        ensures
            r matches Some(s) && s@ == "wAZERO"@,
    {
        Some(String::from_str("wAZERO"))
    }

    /// How many decimal places amounts carry.
    pub fn token_decimals(&self) -> (r: u8)
        ensures
            r == 12,
    {
        12
    }

    /// The total-supply counter.
    pub fn total_supply(&self) -> (r: u128)
        ensures
            r == self.data.supply(),
    {
        self.data.total_supply()
    }

    /// The balance of `owner`.
    pub fn balance_of(&self, owner: AccountId) -> (r: u128)
        requires
            self.wf(),
        ensures
            r == self.data.bal(owner),
    {
        self.data.balance_of(owner)
    }

    /// The allowance `owner` grants `spender`.
    pub fn allowance(&self, owner: AccountId, spender: AccountId) -> (r: u128)
        requires
            self.wf(),
        ensures
            r == self.data.alw(owner, spender),
    {
        self.data.allowance(owner, spender)
    }

    /// Records a deposit: the attached native value, already in the
    /// system's custody when this runs, is minted onto the caller's
    /// balance. Fails only when the supply counter would overflow.
    pub fn deposit(&mut self, caller: AccountId, attached: u128) -> (r: Result<
        Vec<Event>,
        LedgerError,
    >)
        requires
            old(self).wf(),
        ensures
            final(self).wf(),
            r is Ok <==> old(self).data.supply() + attached <= u128::MAX,
            (r matches Ok(ev) ==> mint_ok(old(self).data, final(self).data, caller, attached, ev@)),
            (r matches Err(e) ==> e == LedgerError::Overflow && *final(self) == *old(self)),
    {
        self.data.mint(caller, attached)
    }

    /// The ledger half of a withdrawal: burns `value` from the caller's
    /// balance. The host must then attempt the native payout and hand its
    /// outcome to `settle_withdraw`; the burn stays committed even if that
    /// payout fails.
    pub fn withdraw(&mut self, caller: AccountId, value: u128) -> (r: Result<
        Vec<Event>,
        LedgerError,
    >)
        requires
            old(self).wf(),
        ensures
            final(self).wf(),
            r is Ok <==> old(self).data.bal(caller) >= value,
            (r matches Ok(ev) ==> burn_ok(old(self).data, final(self).data, caller, value, ev@)),
            (r matches Err(e) ==> e == LedgerError::InsufficientBalance && *final(self) == *old(
                self,
            )),
    {
        self.data.burn(caller, value)
    }

    /// Moves `value` from the caller's balance to `to`.
    pub fn transfer(&mut self, caller: AccountId, to: AccountId, value: u128) -> (r: Result<
        Vec<Event>,
        LedgerError,
    >)
        requires
            old(self).wf(),
        ensures
            final(self).wf(),
            r is Ok <==> old(self).data.bal(caller) >= value,
            (r matches Ok(ev) ==> transfer_ok(
                old(self).data,
                final(self).data,
                caller,
                to,
                value,
                ev@,
            )),
            (r matches Err(e) ==> e == LedgerError::InsufficientBalance && *final(self) == *old(
                self,
            )),
    {
        self.data.transfer(caller, to, value)
    }

    /// Spends the caller's allowance from `from` to move `value` to `to`.
    pub fn transfer_from(
        &mut self,
        caller: AccountId,
        from: AccountId,
        to: AccountId,
        value: u128,
    ) -> (r: Result<Vec<Event>, LedgerError>)
        requires
            old(self).wf(),
        ensures
            final(self).wf(),
            r is Ok <==> old(self).data.alw(from, caller) >= value && old(self).data.bal(from)
                >= value,
            (r matches Ok(ev) ==> transfer_from_ok(
                old(self).data,
                final(self).data,
                caller,
                from,
                to,
                value,
                ev@,
            )),
            (r matches Err(e) ==> *final(self) == *old(self) && e == (
                if old(self).data.alw(from, caller) < value {
                    LedgerError::InsufficientAllowance
                } else {
                    LedgerError::InsufficientBalance
                }
            )),
    {
        self.data.transfer_from(caller, from, to, value)
    }

    /// Sets the allowance the caller grants `spender` to `value`.
    pub fn approve(&mut self, caller: AccountId, spender: AccountId, value: u128) -> (r: Result<
        Vec<Event>,
        LedgerError,
    >)
        requires
            old(self).wf(),
        ensures
            final(self).wf(),
            r is Ok,
            (r matches Ok(ev) ==> approve_ok(
                old(self).data,
                final(self).data,
                caller,
                spender,
                value,
                ev@,
            )),
    {
        self.data.approve(caller, spender, value)
    }

    /// Raises the allowance the caller grants `spender` by `delta`.
    pub fn increase_allowance(
        &mut self,
        caller: AccountId,
        spender: AccountId,
        delta: u128,
    ) -> (r: Result<Vec<Event>, LedgerError>)
        requires
            old(self).wf(),
        ensures
            final(self).wf(),
            r is Ok <==> old(self).data.alw(caller, spender) + delta <= u128::MAX,
            (r matches Ok(ev) ==> approve_ok(
                old(self).data,
                final(self).data,
                caller,
                spender,
                (old(self).data.alw(caller, spender) + delta) as u128,
                ev@,
            )),
            (r matches Err(e) ==> e == LedgerError::Overflow && *final(self) == *old(self)),
    {
        self.data.increase_allowance(caller, spender, delta)
    }

    /// Lowers the allowance the caller grants `spender` by `delta`.
    pub fn decrease_allowance(
        &mut self,
        caller: AccountId,
        spender: AccountId,
        delta: u128,
    ) -> (r: Result<Vec<Event>, LedgerError>)
        requires
            old(self).wf(),
        ensures
            final(self).wf(),
            r is Ok <==> old(self).data.alw(caller, spender) >= delta,
            (r matches Ok(ev) ==> approve_ok(
                old(self).data,
                final(self).data,
                caller,
                spender,
                (old(self).data.alw(caller, spender) - delta) as u128,
                ev@,
            )),
            (r matches Err(e) ==> e == LedgerError::InsufficientAllowance && *final(self) == *old(
                self,
            )),
    {
        self.data.decrease_allowance(caller, spender, delta)
    }
}

/// Settles a withdrawal after the host attempted the native payout: a
/// successful payout releases the burn's events to the sink; a rejected one
/// turns the call into `WithdrawFailed` (the burn stays committed — an
/// ordering hazard inherited from the bridge's design).
pub fn settle_withdraw(events: Vec<Event>, payout_accepted: bool) -> (r: Result<
    Vec<Event>,
    LedgerError,
>)
    ensures
        payout_accepted ==> r == Ok::<Vec<Event>, LedgerError>(events),
        !payout_accepted ==> r == Err::<Vec<Event>, LedgerError>(LedgerError::WithdrawFailed),
{
    if payout_accepted {
        Ok(events)
    } else {
        Err(LedgerError::WithdrawFailed)
    }
}

} // verus!
