//! The ledger store: balances, allowances and the total-supply counter,
//! together with the six accounting mutators.
//!
//! Every mutator either fully commits its change and returns the ordered
//! events it produced, or returns a typed error and leaves the ledger
//! byte-for-byte unchanged.

use vstd::prelude::*;
use vstd::pervasive::VecAdditionalExecFns;

use crate::assoc::{
    alw_keys_unique, alw_lookup, bal_keys_unique, bal_lookup, bal_sum, lemma_alw_lookup_absent,
    lemma_alw_lookup_at, lemma_alw_lookup_push, lemma_alw_lookup_update, lemma_bal_lookup_absent,
    lemma_bal_lookup_at, lemma_bal_lookup_le_sum, lemma_bal_lookup_push, lemma_bal_lookup_update,
    lemma_bal_sum_push, lemma_bal_sum_update,
};
use crate::errors::LedgerError;
use crate::events::{approval_event, transfer_event, AccountId, Event, Transfer, Approval};

verus! {

/// The balance/allowance/total-supply store.
pub struct Ledger {
    /// One `(account, amount)` entry per account with recorded balance.
    pub balances: Vec<(u128, u128)>,
    /// One `(owner, spender, amount)` entry per granted allowance.
    pub allowances: Vec<(u128, u128, u128)>,
    /// Maintained incrementally; equal to the sum of all balances.
    pub total_supply: u128,
}

impl Ledger {
    /// The balance of `a`; zero for accounts never credited.
    pub open spec fn bal(self, a: AccountId) -> u128 {
        bal_lookup(self.balances@, a)
    }

    /// The allowance `o` grants `s`; zero if never granted.
    pub open spec fn alw(self, o: AccountId, s: AccountId) -> u128 {
        alw_lookup(self.allowances@, o, s)
    }

    /// The total-supply counter.
    pub open spec fn supply(self) -> u128 {
        self.total_supply
    }

    /// Well-formedness: keys are unique in both maps, and the supply counter
    /// equals a full re-summation of the balances.
    pub open spec fn wf(self) -> bool {
        &&& bal_keys_unique(self.balances@)
        &&& alw_keys_unique(self.allowances@)
        &&& self.total_supply == bal_sum(self.balances@)
    }

    /// An empty ledger: no balances, no allowances, zero supply.
    pub fn empty() -> (r: Self)
        ensures
            r.wf(),
            r.supply() == 0,
            forall|a: AccountId| r.bal(a) == 0,
            forall|o: AccountId, s: AccountId| r.alw(o, s) == 0,
    {
        let r = Ledger { balances: Vec::new(), allowances: Vec::new(), total_supply: 0 };
        proof {
            assert(r.balances@.len() == 0);
            assert(r.allowances@.len() == 0);
            assert(forall|a: AccountId| r.bal(a) == 0);
            assert(forall|o: AccountId, s: AccountId| r.alw(o, s) == 0);
        }
        r
    }

    /// The total-supply counter, read without failure or side effect.
    pub fn total_supply(&self) -> (r: u128)
        ensures
            r == self.supply(),
    {
        self.total_supply
    }

    /// The balance of `owner`, read without failure or side effect.
    pub fn balance_of(&self, owner: AccountId) -> (r: u128)
        requires
            self.wf(),
        ensures
            r == self.bal(owner),
    {
        bal_get(&self.balances, owner)
    }

    /// The allowance `owner` grants `spender`, read without failure or side
    /// effect.
    pub fn allowance(&self, owner: AccountId, spender: AccountId) -> (r: u128)
        requires
            self.wf(),
        ensures
            r == self.alw(owner, spender),
    {
        alw_get(&self.allowances, owner, spender)
    }

    /// Creates `amount` new tokens for `to`. A zero amount is a no-op that
    /// emits nothing; otherwise one `Transfer` from no account is emitted.
    /// Fails with `Overflow`, changing nothing, exactly when the supply
    /// counter would exceed its width.
    pub fn mint(&mut self, to: AccountId, amount: u128) -> (r: Result<Vec<Event>, LedgerError>)
        requires
            old(self).wf(),
        ensures
            final(self).wf(),
            r is Ok <==> old(self).supply() + amount <= u128::MAX,
            (r matches Ok(ev) ==> mint_ok(*old(self), *final(self), to, amount, ev@)),
            (r matches Err(e) ==> e == LedgerError::Overflow && *final(self) == *old(self)),
    {
        if amount == 0 {
            let ev: Vec<Event> = Vec::new();
            proof {
                assert(ev@ =~= Seq::<Event>::empty());
            }
            return Ok(ev);
        }
        if amount > u128::MAX - self.total_supply {
            return Err(LedgerError::Overflow);
        }
        let cur = bal_get(&self.balances, to);
        proof {
            lemma_bal_lookup_le_sum(self.balances@, to);
        }
        bal_set(&mut self.balances, to, cur + amount);
        self.total_supply = self.total_supply + amount;
        let mut ev: Vec<Event> = Vec::new();
        ev.push(Event::Transfer(Transfer { from: None, to: Some(to), value: amount }));
        proof {
            assert(ev@ =~= seq![transfer_event(None, Some(to), amount)]);
        }
        Ok(ev)
    }

    /// Destroys `amount` tokens of `from`. A zero amount is a no-op that
    /// emits nothing; otherwise one `Transfer` to no account is emitted.
    /// Fails with `InsufficientBalance`, changing nothing, exactly when
    /// `from` holds less than `amount`.
    pub fn burn(&mut self, from: AccountId, amount: u128) -> (r: Result<Vec<Event>, LedgerError>)
        requires
            old(self).wf(),
        ensures
            final(self).wf(),
            r is Ok <==> old(self).bal(from) >= amount,
            (r matches Ok(ev) ==> burn_ok(*old(self), *final(self), from, amount, ev@)),
            (r matches Err(e) ==> e == LedgerError::InsufficientBalance && *final(self) == *old(self)),
    {
        if amount == 0 {
            let ev: Vec<Event> = Vec::new();
            proof {
                assert(ev@ =~= Seq::<Event>::empty());
            }
            return Ok(ev);
        }
        let cur = bal_get(&self.balances, from);
        if cur < amount {
            return Err(LedgerError::InsufficientBalance);
        }
        proof {
            lemma_bal_lookup_le_sum(self.balances@, from);
        }
        bal_set(&mut self.balances, from, cur - amount);
        self.total_supply = self.total_supply - amount;
        let mut ev: Vec<Event> = Vec::new();
        ev.push(Event::Transfer(Transfer { from: Some(from), to: None, value: amount }));
        proof {
            assert(ev@ =~= seq![transfer_event(Some(from), None, amount)]);
        }
        Ok(ev)
    }

    /// Moves `amount` from `from` to `to` without touching the supply. The
    /// balance check applies and one `Transfer` is emitted even when the
    /// amount is zero or the two accounts coincide. Fails with
    /// `InsufficientBalance`, changing nothing, exactly when `from` holds
    /// less than `amount`.
    pub fn transfer(&mut self, from: AccountId, to: AccountId, amount: u128) -> (r: Result<
        Vec<Event>,
        LedgerError,
    >)
        requires
            old(self).wf(),
        ensures
            final(self).wf(),
            r is Ok <==> old(self).bal(from) >= amount,
            (r matches Ok(ev) ==> transfer_ok(*old(self), *final(self), from, to, amount, ev@)),
            (r matches Err(e) ==> e == LedgerError::InsufficientBalance && *final(self) == *old(self)),
    {
        let cur = bal_get(&self.balances, from);
        if cur < amount {
            return Err(LedgerError::InsufficientBalance);
        }
        bal_set(&mut self.balances, from, cur - amount);
        let cur_to = bal_get(&self.balances, to);
        proof {
            lemma_bal_lookup_le_sum(self.balances@, to);
        }
        bal_set(&mut self.balances, to, cur_to + amount);
        let mut ev: Vec<Event> = Vec::new();
        ev.push(Event::Transfer(Transfer { from: Some(from), to: Some(to), value: amount }));
        proof {
            assert(ev@ =~= seq![transfer_event(Some(from), Some(to), amount)]);
        }
        Ok(ev)
    }

    /// Spends `caller`'s allowance from `from` to move `amount` to `to`. The
    /// allowance is checked before the balance, the allowance is reduced by
    /// the amount moved, and exactly one `Transfer` (never an `Approval`) is
    /// emitted. A failed check changes nothing.
    pub fn transfer_from(
        &mut self,
        caller: AccountId,
        from: AccountId,
        to: AccountId,
        amount: u128,
    ) -> (r: Result<Vec<Event>, LedgerError>)
        requires
            old(self).wf(),
        ensures
            final(self).wf(),
            r is Ok <==> old(self).alw(from, caller) >= amount && old(self).bal(from) >= amount,
            (r matches Ok(ev) ==> transfer_from_ok(
                *old(self),
                *final(self),
                caller,
                from,
                to,
                amount,
                ev@,
            )),
            (r matches Err(e) ==> *final(self) == *old(self) && e == (
                if old(self).alw(from, caller) < amount {
                    LedgerError::InsufficientAllowance
                } else {
                    LedgerError::InsufficientBalance
                }
            )),
    {
        let granted = alw_get(&self.allowances, from, caller);
        if granted < amount {
            return Err(LedgerError::InsufficientAllowance);
        }
        let cur = bal_get(&self.balances, from);
        if cur < amount {
            return Err(LedgerError::InsufficientBalance);
        }
        alw_set(&mut self.allowances, from, caller, granted - amount);
        bal_set(&mut self.balances, from, cur - amount);
        let cur_to = bal_get(&self.balances, to);
        proof {
            lemma_bal_lookup_le_sum(self.balances@, to);
        }
        bal_set(&mut self.balances, to, cur_to + amount);
        let mut ev: Vec<Event> = Vec::new();
        ev.push(Event::Transfer(Transfer { from: Some(from), to: Some(to), value: amount }));
        proof {
            assert(ev@ =~= seq![transfer_event(Some(from), Some(to), amount)]);
        }
        Ok(ev)
    }

    /// Replaces the allowance `owner` grants `spender` with `amount` and
    /// emits one `Approval`, even when the amount is unchanged or zero.
    /// Never fails.
    pub fn approve(&mut self, owner: AccountId, spender: AccountId, amount: u128) -> (r: Result<
        Vec<Event>,
        LedgerError,
    >)
        requires
            old(self).wf(),
        ensures
            final(self).wf(),
            r is Ok,
            (r matches Ok(ev) ==> approve_ok(*old(self), *final(self), owner, spender, amount, ev@)),
    {
        alw_set(&mut self.allowances, owner, spender, amount);
        let mut ev: Vec<Event> = Vec::new();
        ev.push(Event::Approval(Approval { owner, spender, amount }));
        proof {
            assert(ev@ =~= seq![approval_event(owner, spender, amount)]);
        }
        Ok(ev)
    }

    /// Adds `delta` to the allowance `owner` grants `spender` and emits one
    /// `Approval` carrying the new total. Fails with `Overflow`, changing
    /// nothing, exactly when the sum would exceed the integer width.
    pub fn increase_allowance(
        &mut self,
        owner: AccountId,
        spender: AccountId,
        delta: u128,
    ) -> (r: Result<Vec<Event>, LedgerError>)
        requires
            old(self).wf(),
        ensures
            final(self).wf(),
            r is Ok <==> old(self).alw(owner, spender) + delta <= u128::MAX,
            (r matches Ok(ev) ==> approve_ok(
                *old(self),
                *final(self),
                owner,
                spender,
                (old(self).alw(owner, spender) + delta) as u128,
                ev@,
            )),
            (r matches Err(e) ==> e == LedgerError::Overflow && *final(self) == *old(self)),
    {
        let cur = alw_get(&self.allowances, owner, spender);
        if delta > u128::MAX - cur {
            return Err(LedgerError::Overflow);
        }
        let total = cur + delta;
        alw_set(&mut self.allowances, owner, spender, total);
        let mut ev: Vec<Event> = Vec::new();
        ev.push(Event::Approval(Approval { owner, spender, amount: total }));
        proof {
            assert(ev@ =~= seq![approval_event(owner, spender, total)]);
        }
        Ok(ev)
    }

    /// Subtracts `delta` from the allowance `owner` grants `spender` and
    /// emits one `Approval` carrying the new total. Fails with
    /// `InsufficientAllowance`, changing nothing, exactly when less than
    /// `delta` is granted.
    pub fn decrease_allowance(
        &mut self,
        owner: AccountId,
        spender: AccountId,
        delta: u128,
    ) -> (r: Result<Vec<Event>, LedgerError>)
        requires
            old(self).wf(),
        ensures
            final(self).wf(),
            r is Ok <==> old(self).alw(owner, spender) >= delta,
            (r matches Ok(ev) ==> approve_ok(
                *old(self),
                *final(self),
                owner,
                spender,
                (old(self).alw(owner, spender) - delta) as u128,
                ev@,
            )),
            (r matches Err(e) ==> e == LedgerError::InsufficientAllowance && *final(self) == *old(
                self,
            )),
    {
        let cur = alw_get(&self.allowances, owner, spender);
        if cur < delta {
            return Err(LedgerError::InsufficientAllowance);
        }
        let total = cur - delta;
        alw_set(&mut self.allowances, owner, spender, total);
        let mut ev: Vec<Event> = Vec::new();
        ev.push(Event::Approval(Approval { owner, spender, amount: total }));
        proof {
            assert(ev@ =~= seq![approval_event(owner, spender, total)]);
        }
        Ok(ev)
    }
}

/// Every balance is as before the call.
pub open spec fn balances_unchanged(pre: Ledger, post: Ledger) -> bool {
    forall|a: AccountId| post.bal(a) == pre.bal(a)
}

/// Every allowance is as before the call.
pub open spec fn allowances_unchanged(pre: Ledger, post: Ledger) -> bool {
    forall|o: AccountId, s: AccountId| post.alw(o, s) == pre.alw(o, s)
}

/// What a successful `mint(to, amount)` does: `amount` appears on `to`'s
/// balance and on the supply, nothing else moves, and the event list is
/// empty for a zero amount and a single mint `Transfer` otherwise.
pub open spec fn mint_ok(
    pre: Ledger,
    post: Ledger,
    to: AccountId,
    amount: u128,
    events: Seq<Event>,
) -> bool {
    &&& post.supply() == pre.supply() + amount
    &&& forall|a: AccountId|
        post.bal(a) == pre.bal(a) + (if a == to { amount as int } else { 0 })
    &&& allowances_unchanged(pre, post)
    &&& events == (if amount == 0 {
        Seq::<Event>::empty()
    } else {
        seq![transfer_event(None, Some(to), amount)]
    })
}

/// What a successful `burn(from, amount)` does: `amount` leaves `from`'s
/// balance and the supply, nothing else moves, and the event list is empty
/// for a zero amount and a single burn `Transfer` otherwise.
pub open spec fn burn_ok(
    pre: Ledger,
    post: Ledger,
    from: AccountId,
    amount: u128,
    events: Seq<Event>,
) -> bool {
    &&& post.supply() == pre.supply() - amount
    &&& forall|a: AccountId|
        post.bal(a) == pre.bal(a) - (if a == from { amount as int } else { 0 })
    &&& allowances_unchanged(pre, post)
    &&& events == (if amount == 0 {
        Seq::<Event>::empty()
    } else {
        seq![transfer_event(Some(from), None, amount)]
    })
}

/// What a successful `transfer(from, to, amount)` does: the amount moves
/// between the two balances (a wash when they coincide), the supply and the
/// allowances stay, and exactly one `Transfer` is emitted.
pub open spec fn transfer_ok(
    pre: Ledger,
    post: Ledger,
    from: AccountId,
    to: AccountId,
    amount: u128,
    events: Seq<Event>,
) -> bool {
    &&& post.supply() == pre.supply()
    &&& forall|a: AccountId|
        post.bal(a) == pre.bal(a) - (if a == from { amount as int } else { 0 }) + (
        if a == to { amount as int } else { 0 })
    &&& allowances_unchanged(pre, post)
    &&& events == seq![transfer_event(Some(from), Some(to), amount)]
}

/// What a successful `transfer_from(caller, from, to, amount)` does: the
/// same balance move as `transfer(from, to, amount)`, the allowance `from`
/// grants `caller` reduced by the amount, and exactly one `Transfer` — no
/// `Approval` — emitted.
pub open spec fn transfer_from_ok(
    pre: Ledger,
    post: Ledger,
    caller: AccountId,
    from: AccountId,
    to: AccountId,
    amount: u128,
    events: Seq<Event>,
) -> bool {
    &&& post.supply() == pre.supply()
    &&& forall|a: AccountId|
        post.bal(a) == pre.bal(a) - (if a == from { amount as int } else { 0 }) + (
        if a == to { amount as int } else { 0 })
    &&& forall|o: AccountId, s: AccountId|
        post.alw(o, s) == (if o == from && s == caller {
            pre.alw(o, s) - amount
        } else {
            pre.alw(o, s) as int
        })
    &&& events == seq![transfer_event(Some(from), Some(to), amount)]
}

/// What a successful allowance write does: the allowance `owner` grants
/// `spender` becomes `amount`, nothing else moves, and exactly one
/// `Approval` carrying `amount` is emitted.
pub open spec fn approve_ok(
    pre: Ledger,
    post: Ledger,
    owner: AccountId,
    spender: AccountId,
    amount: u128,
    events: Seq<Event>,
) -> bool {
    &&& post.supply() == pre.supply()
    &&& balances_unchanged(pre, post)
    &&& forall|o: AccountId, s: AccountId|
        post.alw(o, s) == (if o == owner && s == spender {
            amount
        } else {
            pre.alw(o, s)
        })
    &&& events == seq![approval_event(owner, spender, amount)]
}

/// The stored balance of `k`, by scanning for its unique entry.
fn bal_get(v: &Vec<(u128, u128)>, k: u128) -> (r: u128)
    requires
        bal_keys_unique(v@),
    ensures
        r == bal_lookup(v@, k),
{
    let n = v.len();
    let mut i: usize = 0;
    while i < n
        invariant
            n == v@.len(),
            0 <= i <= n,
            bal_keys_unique(v@),
            forall|j: int| 0 <= j < i ==> v@[j].0 != k,
        decreases n - i,
    {
        if v[i].0 == k {
            proof {
                lemma_bal_lookup_at(v@, i as int);
            }
            return v[i].1;
        }
        i += 1;
    }
    proof {
        lemma_bal_lookup_absent(v@, k);
    }
    0
}

/// Writes `val` as the balance of `k`, replacing its entry or appending one.
fn bal_set(v: &mut Vec<(u128, u128)>, k: u128, val: u128)
    requires
        bal_keys_unique(old(v)@),
    ensures
        bal_keys_unique(final(v)@),
        forall|a: u128|
            bal_lookup(final(v)@, a) == (if a == k { val } else { bal_lookup(old(v)@, a) }),
        bal_sum(final(v)@) == bal_sum(old(v)@) - bal_lookup(old(v)@, k) + val,
{
    let n = v.len();
    let mut i: usize = 0;
    while i < n
        invariant
            n == v@.len(),
            0 <= i <= n,
            v@ == old(v)@,
            bal_keys_unique(v@),
            forall|j: int| 0 <= j < i ==> v@[j].0 != k,
        decreases n - i,
    {
        if v[i].0 == k {
            proof {
                lemma_bal_lookup_at(v@, i as int);
                lemma_bal_sum_update(v@, i as int, (k, val));
                assert forall|a: u128|
                    bal_lookup(v@.update(i as int, (k, val)), a) == (if a == k {
                        val
                    } else {
                        bal_lookup(v@, a)
                    }) by {
                    lemma_bal_lookup_update(v@, i as int, (k, val), a);
                }
                assert forall|x: int, y: int|
                    0 <= x < y < v@.update(i as int, (k, val)).len() implies v@.update(
                    i as int,
                    (k, val),
                )[x].0 != v@.update(i as int, (k, val))[y].0 by {
                    assert(v@.update(i as int, (k, val))[x].0 == v@[x].0);
                    assert(v@.update(i as int, (k, val))[y].0 == v@[y].0);
                }
            }
            v.set(i, (k, val));
            return;
        }
        i += 1;
    }
    proof {
        lemma_bal_lookup_absent(v@, k);
        lemma_bal_sum_push(v@, (k, val));
        assert forall|a: u128|
            bal_lookup(v@.push((k, val)), a) == (if a == k {
                val
            } else {
                bal_lookup(v@, a)
            }) by {
            lemma_bal_lookup_push(v@, (k, val), a);
        }
        assert forall|x: int, y: int|
            0 <= x < y < v@.push((k, val)).len() implies v@.push((k, val))[x].0 != v@.push(
            (k, val),
        )[y].0 by {
            if y < v@.len() {
                assert(v@.push((k, val))[x] == v@[x]);
                assert(v@.push((k, val))[y] == v@[y]);
            } else {
                assert(v@.push((k, val))[x] == v@[x]);
                assert(v@.push((k, val))[y] == (k, val));
            }
        }
    }
    v.push((k, val));
}

/// The stored allowance of `(o, sp)`, by scanning for its unique entry.
fn alw_get(v: &Vec<(u128, u128, u128)>, o: u128, sp: u128) -> (r: u128)
    requires
        alw_keys_unique(v@),
    ensures
        r == alw_lookup(v@, o, sp),
{
    let n = v.len();
    let mut i: usize = 0;
    while i < n
        invariant
            n == v@.len(),
            0 <= i <= n,
            alw_keys_unique(v@),
            forall|j: int| 0 <= j < i ==> !(v@[j].0 == o && v@[j].1 == sp),
        decreases n - i,
    {
        if v[i].0 == o && v[i].1 == sp {
            proof {
                lemma_alw_lookup_at(v@, i as int);
            }
            return v[i].2;
        }
        i += 1;
    }
    proof {
        lemma_alw_lookup_absent(v@, o, sp);
    }
    0
}

/// Writes `val` as the allowance of `(o, sp)`, replacing its entry or
/// appending one.
fn alw_set(v: &mut Vec<(u128, u128, u128)>, o: u128, sp: u128, val: u128)
    requires
        alw_keys_unique(old(v)@),
    ensures
        alw_keys_unique(final(v)@),
        forall|x: u128, y: u128|
            alw_lookup(final(v)@, x, y) == (if x == o && y == sp {
                val
            } else {
                alw_lookup(old(v)@, x, y)
            }),
{
    let n = v.len();
    let mut i: usize = 0;
    while i < n
        invariant
            n == v@.len(),
            0 <= i <= n,
            v@ == old(v)@,
            alw_keys_unique(v@),
            forall|j: int| 0 <= j < i ==> !(v@[j].0 == o && v@[j].1 == sp),
        decreases n - i,
    {
        if v[i].0 == o && v[i].1 == sp {
            proof {
                assert forall|x: u128, y: u128|
                    alw_lookup(v@.update(i as int, (o, sp, val)), x, y) == (if x == o && y == sp {
                        val
                    } else {
                        alw_lookup(v@, x, y)
                    }) by {
                    lemma_alw_lookup_update(v@, i as int, (o, sp, val), x, y);
                }
                assert forall|x: int, y: int|
                    0 <= x < y < v@.update(i as int, (o, sp, val)).len() implies !(v@.update(
                    i as int,
                    (o, sp, val),
                )[x].0 == v@.update(i as int, (o, sp, val))[y].0 && v@.update(
                    i as int,
                    (o, sp, val),
                )[x].1 == v@.update(i as int, (o, sp, val))[y].1) by {
                    if x != i && y != i {
                        assert(v@.update(i as int, (o, sp, val))[x] == v@[x]);
                        assert(v@.update(i as int, (o, sp, val))[y] == v@[y]);
                    }
                }
            }
            v.set(i, (o, sp, val));
            return;
        }
        i += 1;
    }
    proof {
        lemma_alw_lookup_absent(v@, o, sp);
        assert forall|x: u128, y: u128|
            alw_lookup(v@.push((o, sp, val)), x, y) == (if x == o && y == sp {
                val
            } else {
                alw_lookup(v@, x, y)
            }) by {
            lemma_alw_lookup_push(v@, (o, sp, val), x, y);
        }
        assert forall|x: int, y: int|
            0 <= x < y < v@.push((o, sp, val)).len() implies !(v@.push((o, sp, val))[x].0 == v@.push(
            (o, sp, val),
        )[y].0 && v@.push((o, sp, val))[x].1 == v@.push((o, sp, val))[y].1) by {
            if y < v@.len() {
                assert(v@.push((o, sp, val))[x] == v@[x]);
                assert(v@.push((o, sp, val))[y] == v@[y]);
            } else {
                assert(v@.push((o, sp, val))[x] == v@[x]);
                assert(v@.push((o, sp, val))[y] == (o, sp, val));
            }
        }
    }
    v.push((o, sp, val));
}

} // verus!
