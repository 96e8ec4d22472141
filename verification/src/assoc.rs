//! The mathematical model of the two ledger maps.
//!
//! Balances are modelled as a sequence of `(account, amount)` pairs with
//! pairwise-distinct accounts, allowances as a sequence of
//! `(owner, spender, amount)` triples with pairwise-distinct key pairs.
//! An absent key denotes amount zero.

use vstd::prelude::*;

verus! {

/// The balance stored for account `k`: the amount beside the first (and,
/// under `bal_keys_unique`, only) occurrence of `k`, or zero if absent.
pub open spec fn bal_lookup(s: Seq<(u128, u128)>, k: u128) -> u128
    decreases s.len(),
{
    if s.len() == 0 {
        0
    } else if s[0].0 == k {
        s[0].1
    } else {
        bal_lookup(s.drop_first(), k)
    }
}

/// No account occurs twice among the balance entries.
pub open spec fn bal_keys_unique(s: Seq<(u128, u128)>) -> bool {
    forall|i: int, j: int| 0 <= i < j < s.len() ==> s[i].0 != s[j].0
}

/// The sum of all stored balances.
pub open spec fn bal_sum(s: Seq<(u128, u128)>) -> int
    decreases s.len(),
{
    if s.len() == 0 {
        0
    } else {
        s[0].1 + bal_sum(s.drop_first())
    }
}

/// The allowance stored for the key pair `(o, sp)`, or zero if absent.
pub open spec fn alw_lookup(s: Seq<(u128, u128, u128)>, o: u128, sp: u128) -> u128
    decreases s.len(),
{
    if s.len() == 0 {
        0
    } else if s[0].0 == o && s[0].1 == sp {
        s[0].2
    } else {
        alw_lookup(s.drop_first(), o, sp)
    }
}

/// No `(owner, spender)` pair occurs twice among the allowance entries.
pub open spec fn alw_keys_unique(s: Seq<(u128, u128, u128)>) -> bool {
    forall|i: int, j: int|
        0 <= i < j < s.len() ==> !(s[i].0 == s[j].0 && s[i].1 == s[j].1)
}

pub proof fn lemma_bal_lookup_at(s: Seq<(u128, u128)>, i: int)
    requires
        bal_keys_unique(s),
        0 <= i < s.len(),
    ensures
        bal_lookup(s, s[i].0) == s[i].1,
    decreases s.len(),
{
    if i > 0 {
        assert(s[0].0 != s[i].0);
        assert(bal_keys_unique(s.drop_first())) by {
            assert forall|x: int, y: int|
                0 <= x < y < s.drop_first().len() implies s.drop_first()[x].0 != s.drop_first()[y].0 by {
                assert(s.drop_first()[x] == s[x + 1]);
                assert(s.drop_first()[y] == s[y + 1]);
            }
        }
        lemma_bal_lookup_at(s.drop_first(), i - 1);
        assert(s.drop_first()[i - 1] == s[i]);
    }
}

pub proof fn lemma_bal_lookup_absent(s: Seq<(u128, u128)>, k: u128)
    requires
        forall|i: int| 0 <= i < s.len() ==> s[i].0 != k,
    ensures
        bal_lookup(s, k) == 0,
    decreases s.len(),
{
    if s.len() > 0 {
        assert(forall|i: int| 0 <= i < s.drop_first().len() ==> s.drop_first()[i] == s[i + 1]);
        lemma_bal_lookup_absent(s.drop_first(), k);
    }
}

pub proof fn lemma_bal_sum_nonneg(s: Seq<(u128, u128)>)
    ensures
        bal_sum(s) >= 0,
    decreases s.len(),
{
    if s.len() > 0 {
        lemma_bal_sum_nonneg(s.drop_first());
    }
}

pub proof fn lemma_bal_lookup_le_sum(s: Seq<(u128, u128)>, k: u128)
    ensures
        bal_lookup(s, k) <= bal_sum(s),
    decreases s.len(),
{
    if s.len() > 0 {
        lemma_bal_sum_nonneg(s.drop_first());
        lemma_bal_lookup_le_sum(s.drop_first(), k);
    }
}

pub proof fn lemma_bal_sum_update(s: Seq<(u128, u128)>, i: int, p: (u128, u128))
    requires
        0 <= i < s.len(),
    ensures
        bal_sum(s.update(i, p)) == bal_sum(s) - s[i].1 + p.1,
    decreases s.len(),
{
    if i == 0 {
        assert(s.update(0, p).drop_first() =~= s.drop_first());
    } else {
        assert(s.update(i, p).drop_first() =~= s.drop_first().update(i - 1, p));
        lemma_bal_sum_update(s.drop_first(), i - 1, p);
    }
}

pub proof fn lemma_bal_sum_push(s: Seq<(u128, u128)>, p: (u128, u128))
    ensures
        bal_sum(s.push(p)) == bal_sum(s) + p.1,
    decreases s.len(),
{
    assert(s.push(p).len() == s.len() + 1);
    assert(bal_sum(s.push(p)) == s.push(p)[0].1 + bal_sum(s.push(p).drop_first()));
    if s.len() == 0 {
        assert(s.push(p)[0] == p);
        assert(s.push(p).drop_first() =~= Seq::<(u128, u128)>::empty());
        assert(bal_sum(s.push(p).drop_first()) == 0);
        assert(bal_sum(s) == 0);
    } else {
        assert(s.push(p)[0] == s[0]);
        assert(s.push(p).drop_first() =~= s.drop_first().push(p));
        lemma_bal_sum_push(s.drop_first(), p);
        assert(bal_sum(s) == s[0].1 + bal_sum(s.drop_first()));
    }
}

/// Updating the entry at `i` in place, keeping its key, rewrites the balance
/// of that key and no other.
pub proof fn lemma_bal_lookup_update(s: Seq<(u128, u128)>, i: int, p: (u128, u128), k: u128)
    requires
        bal_keys_unique(s),
        0 <= i < s.len(),
        p.0 == s[i].0,
    ensures
        bal_lookup(s.update(i, p), k) == if k == p.0 {
            p.1
        } else {
            bal_lookup(s, k)
        },
    decreases s.len(),
{
    if i == 0 {
        assert(s.update(0, p).drop_first() =~= s.drop_first());
    } else {
        assert(s.update(i, p).drop_first() =~= s.drop_first().update(i - 1, p));
        assert(bal_keys_unique(s.drop_first())) by {
            assert forall|x: int, y: int|
                0 <= x < y < s.drop_first().len() implies s.drop_first()[x].0 != s.drop_first()[y].0 by {
                assert(s.drop_first()[x] == s[x + 1]);
                assert(s.drop_first()[y] == s[y + 1]);
            }
        }
        assert(s.drop_first()[i - 1] == s[i]);
        lemma_bal_lookup_update(s.drop_first(), i - 1, p, k);
        assert(s[0].0 != s[i].0);
    }
}

/// Appending an entry whose key is absent gives that key its amount and
/// leaves every other balance as it was.
pub proof fn lemma_bal_lookup_push(s: Seq<(u128, u128)>, p: (u128, u128), k: u128)
    requires
        forall|i: int| 0 <= i < s.len() ==> s[i].0 != p.0,
    ensures
        bal_lookup(s.push(p), k) == if k == p.0 {
            p.1
        } else {
            bal_lookup(s, k)
        },
    decreases s.len(),
{
    assert(s.push(p).len() == s.len() + 1);
    if s.len() == 0 {
        assert(s.push(p)[0] == p);
        assert(s.push(p).drop_first() =~= Seq::<(u128, u128)>::empty());
        if k == p.0 {
            assert(bal_lookup(s.push(p), k) == p.1);
        } else {
            assert(bal_lookup(s.push(p), k) == bal_lookup(s.push(p).drop_first(), k));
            assert(bal_lookup(s.push(p).drop_first(), k) == 0);
        }
    } else {
        assert(s.push(p)[0] == s[0]);
        assert(s.push(p).drop_first() =~= s.drop_first().push(p));
        assert(forall|i: int| 0 <= i < s.drop_first().len() ==> s.drop_first()[i] == s[i + 1]);
        lemma_bal_lookup_push(s.drop_first(), p, k);
        if s[0].0 == k {
            assert(bal_lookup(s.push(p), k) == s[0].1);
            assert(bal_lookup(s, k) == s[0].1);
        } else {
            assert(bal_lookup(s.push(p), k) == bal_lookup(s.drop_first().push(p), k));
            assert(bal_lookup(s, k) == bal_lookup(s.drop_first(), k));
        }
    }
}

pub proof fn lemma_alw_lookup_at(s: Seq<(u128, u128, u128)>, i: int)
    requires
        alw_keys_unique(s),
        0 <= i < s.len(),
    ensures
        alw_lookup(s, s[i].0, s[i].1) == s[i].2,
    decreases s.len(),
{
    if i > 0 {
        assert(!(s[0].0 == s[i].0 && s[0].1 == s[i].1));
        assert(alw_keys_unique(s.drop_first())) by {
            assert forall|x: int, y: int|
                0 <= x < y < s.drop_first().len() implies !(s.drop_first()[x].0 == s.drop_first()[y].0
                && s.drop_first()[x].1 == s.drop_first()[y].1) by {
                assert(s.drop_first()[x] == s[x + 1]);
                assert(s.drop_first()[y] == s[y + 1]);
            }
        }
        lemma_alw_lookup_at(s.drop_first(), i - 1);
        assert(s.drop_first()[i - 1] == s[i]);
    }
}

pub proof fn lemma_alw_lookup_absent(s: Seq<(u128, u128, u128)>, o: u128, sp: u128)
    requires
        forall|i: int| 0 <= i < s.len() ==> !(s[i].0 == o && s[i].1 == sp),
    ensures
        alw_lookup(s, o, sp) == 0,
    decreases s.len(),
{
    if s.len() > 0 {
        assert(forall|i: int| 0 <= i < s.drop_first().len() ==> s.drop_first()[i] == s[i + 1]);
        lemma_alw_lookup_absent(s.drop_first(), o, sp);
    }
}

/// Updating the entry at `i` in place, keeping its key pair, rewrites that
/// pair's allowance and no other.
pub proof fn lemma_alw_lookup_update(
    s: Seq<(u128, u128, u128)>,
    i: int,
    p: (u128, u128, u128),
    o: u128,
    sp: u128,
)
    requires
        alw_keys_unique(s),
        0 <= i < s.len(),
        p.0 == s[i].0,
        p.1 == s[i].1,
    ensures
        alw_lookup(s.update(i, p), o, sp) == if o == p.0 && sp == p.1 {
            p.2
        } else {
            alw_lookup(s, o, sp)
        },
    decreases s.len(),
{
    if i == 0 {
        assert(s.update(0, p).drop_first() =~= s.drop_first());
    } else {
        assert(s.update(i, p).drop_first() =~= s.drop_first().update(i - 1, p));
        assert(alw_keys_unique(s.drop_first())) by {
            assert forall|x: int, y: int|
                0 <= x < y < s.drop_first().len() implies !(s.drop_first()[x].0 == s.drop_first()[y].0
                && s.drop_first()[x].1 == s.drop_first()[y].1) by {
                assert(s.drop_first()[x] == s[x + 1]);
                assert(s.drop_first()[y] == s[y + 1]);
            }
        }
        assert(s.drop_first()[i - 1] == s[i]);
        lemma_alw_lookup_update(s.drop_first(), i - 1, p, o, sp);
        assert(!(s[0].0 == s[i].0 && s[0].1 == s[i].1));
    }
}

/// Appending an entry whose key pair is absent gives that pair its amount and
/// leaves every other allowance as it was.
pub proof fn lemma_alw_lookup_push(
    s: Seq<(u128, u128, u128)>,
    p: (u128, u128, u128),
    o: u128,
    sp: u128,
)
    requires
        forall|i: int| 0 <= i < s.len() ==> !(s[i].0 == p.0 && s[i].1 == p.1),
    ensures
        alw_lookup(s.push(p), o, sp) == if o == p.0 && sp == p.1 {
            p.2
        } else {
            alw_lookup(s, o, sp)
        },
    decreases s.len(),
{
    assert(s.push(p).len() == s.len() + 1);
    if s.len() == 0 {
        assert(s.push(p)[0] == p);
        assert(s.push(p).drop_first() =~= Seq::<(u128, u128, u128)>::empty());
        if o == p.0 && sp == p.1 {
            assert(alw_lookup(s.push(p), o, sp) == p.2);
        } else {
            assert(alw_lookup(s.push(p), o, sp) == alw_lookup(s.push(p).drop_first(), o, sp));
            assert(alw_lookup(s.push(p).drop_first(), o, sp) == 0);
        }
    } else {
        assert(s.push(p)[0] == s[0]);
        assert(s.push(p).drop_first() =~= s.drop_first().push(p));
        assert(forall|i: int| 0 <= i < s.drop_first().len() ==> s.drop_first()[i] == s[i + 1]);
        lemma_alw_lookup_push(s.drop_first(), p, o, sp);
        if s[0].0 == o && s[0].1 == sp {
            assert(alw_lookup(s.push(p), o, sp) == s[0].2);
            assert(alw_lookup(s, o, sp) == s[0].2);
        } else {
            assert(alw_lookup(s.push(p), o, sp) == alw_lookup(s.drop_first().push(p), o, sp));
            assert(alw_lookup(s, o, sp) == alw_lookup(s.drop_first(), o, sp));
        }
    }
}

} // verus!
