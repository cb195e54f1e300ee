//! The token ledger: per-account balances and the total supply.
//!
//! The ledger keeps one entry per account that ever received tokens and a
//! running total, with the invariant that the total always equals the sum of
//! all balances. Minting and burning maintain that invariant.

use vstd::prelude::*;

use crate::AccountId;
use crate::Balance;
use crate::Error;

verus! {

/// The sum of all balances recorded in `s`.
pub open spec fn sum(s: Seq<(AccountId, Balance)>) -> int
    decreases s.len(),
{
    if s.len() == 0 {
        0
    } else {
        s[0].1 + sum(s.skip(1))
    }
}

/// The balance of `a` in `s`: the sum of the values of every entry keyed by `a`.
pub open spec fn bal_in(s: Seq<(AccountId, Balance)>, a: AccountId) -> int
    decreases s.len(),
{
    if s.len() == 0 {
        0
    } else {
        (if s[0].0 == a {
            s[0].1 as int
        } else {
            0
        }) + bal_in(s.skip(1), a)
    }
}

/// No two entries share an account.
pub open spec fn unique_keys(s: Seq<(AccountId, Balance)>) -> bool {
    forall|i: int, j: int| 0 <= i < j < s.len() ==> s[i].0 != s[j].0
}

/// Every balance is at least zero and at most the sum of all balances.
pub proof fn lemma_bal_le_sum(s: Seq<(AccountId, Balance)>, a: AccountId)
    ensures
        0 <= bal_in(s, a) <= sum(s),
    decreases s.len(),
{
    if s.len() > 0 {
        lemma_bal_le_sum(s.skip(1), a);
    }
}

/// Appending an entry adds its value to the sum.
pub proof fn lemma_sum_push(s: Seq<(AccountId, Balance)>, e: (AccountId, Balance))
    ensures
        sum(s.push(e)) == sum(s) + e.1,
    decreases s.len(),
{
    if s.len() == 0 {
        assert(s.push(e).skip(1) =~= Seq::<(AccountId, Balance)>::empty());
        assert(s.push(e)[0] == e);
        assert(sum(Seq::<(AccountId, Balance)>::empty()) == 0);
    } else {
        assert(s.push(e).skip(1) =~= s.skip(1).push(e));
        lemma_sum_push(s.skip(1), e);
        assert(s.push(e)[0] == s[0]);
    }
}

/// Appending an entry adds its value to the key's balance and no other.
pub proof fn lemma_bal_push(s: Seq<(AccountId, Balance)>, e: (AccountId, Balance), a: AccountId)
    ensures
        bal_in(s.push(e), a) == bal_in(s, a) + (if e.0 == a {
            e.1 as int
        } else {
            0
        }),
    decreases s.len(),
{
    if s.len() == 0 {
        assert(s.push(e).skip(1) =~= Seq::<(AccountId, Balance)>::empty());
        assert(s.push(e)[0] == e);
        assert(bal_in(Seq::<(AccountId, Balance)>::empty(), a) == 0);
    } else {
        assert(s.push(e).skip(1) =~= s.skip(1).push(e));
        lemma_bal_push(s.skip(1), e, a);
        assert(s.push(e)[0] == s[0]);
    }
}

/// Replacing the entry at `i` shifts the sum by the difference of the values.
pub proof fn lemma_sum_update(s: Seq<(AccountId, Balance)>, i: int, v: (AccountId, Balance))
    requires
        0 <= i < s.len(),
    ensures
        sum(s.update(i, v)) == sum(s) - s[i].1 + v.1,
    decreases s.len(),
{
    if i == 0 {
        assert(s.update(0, v).skip(1) =~= s.skip(1));
    } else {
        assert(s.update(i, v).skip(1) =~= s.skip(1).update(i - 1, v));
        lemma_sum_update(s.skip(1), i - 1, v);
    }
}

/// Replacing the entry at `i` shifts each key's balance by what that entry
/// contributed to it before and contributes after.
pub proof fn lemma_bal_update(
    s: Seq<(AccountId, Balance)>,
    i: int,
    v: (AccountId, Balance),
    a: AccountId,
)
    requires
        0 <= i < s.len(),
    ensures
        bal_in(s.update(i, v), a) == bal_in(s, a) - (if s[i].0 == a {
            s[i].1 as int
        } else {
            0
        }) + (if v.0 == a {
            v.1 as int
        } else {
            0
        }),
    decreases s.len(),
{
    if i == 0 {
        assert(s.update(0, v).skip(1) =~= s.skip(1));
    } else {
        assert(s.update(i, v).skip(1) =~= s.skip(1).update(i - 1, v));
        lemma_bal_update(s.skip(1), i - 1, v, a);
    }
}

/// An account that no entry is keyed by has balance zero.
pub proof fn lemma_bal_absent(s: Seq<(AccountId, Balance)>, a: AccountId)
    requires
        forall|j: int| 0 <= j < s.len() ==> s[j].0 != a,
    ensures
        bal_in(s, a) == 0,
    decreases s.len(),
{
    if s.len() > 0 {
        assert(forall|j: int| 0 <= j < s.skip(1).len() ==> s.skip(1)[j].0 != a);
        lemma_bal_absent(s.skip(1), a);
    }
}

/// With unique keys, the balance of the account at entry `i` is that entry's value.
pub proof fn lemma_bal_unique(s: Seq<(AccountId, Balance)>, i: int)
    requires
        unique_keys(s),
        0 <= i < s.len(),
    ensures
        bal_in(s, s[i].0) == s[i].1,
    decreases s.len(),
{
    let a = s[i].0;
    if i == 0 {
        assert(forall|j: int| 0 <= j < s.skip(1).len() ==> s.skip(1)[j].0 != a);
        lemma_bal_absent(s.skip(1), a);
    } else {
        assert(unique_keys(s.skip(1)));
        assert(s.skip(1)[i - 1] == s[i]);
        lemma_bal_unique(s.skip(1), i - 1);
        assert(s[0].0 != a);
    }
}

/// Per-account balances and the total supply, with the invariant that the
/// total equals the sum of all balances.
pub struct Ledger {
    /// One `(account, balance)` entry per account that ever received tokens.
    pub entries: Vec<(AccountId, Balance)>,
    /// The total supply.
    pub total: Balance,
}

impl Ledger {
    /// The balance of `a`: zero until something is minted to it.
    pub open spec fn bal(self, a: AccountId) -> int {
        bal_in(self.entries@, a)
    }

    /// Well-formedness: accounts appear at most once, and the recorded total
    /// equals the sum of all balances.
    pub open spec fn wf(self) -> bool {
        &&& unique_keys(self.entries@)
        &&& self.total == sum(self.entries@)
    }

    /// An empty ledger: no supply, every balance zero.
    pub fn new() -> (r: Ledger)
        ensures
            r.wf(),
            r.total == 0,
            forall|b: AccountId| r.bal(b) == 0,
    {
        Ledger { entries: Vec::new(), total: 0 }
    }

    /// The index of the entry keyed by `account`, if one exists.
    fn index_of(&self, account: AccountId) -> (r: Option<usize>)
        ensures
            match r {
                Some(i) => i < self.entries@.len() && self.entries@[i as int].0 == account,
                None => forall|j: int| 0 <= j < self.entries@.len() ==> self.entries@[j].0 != account,
            },
    {
        let n = self.entries.len();
        let mut i: usize = 0;
        while i < n
            invariant
                i <= n,
                n == self.entries@.len(),
                forall|j: int| 0 <= j < i ==> self.entries@[j].0 != account,
            decreases n - i,
        {
            if self.entries[i].0 == account {
                return Some(i);
            }
            i = i + 1;
        }
        None
    }

    /// The total supply.
    pub fn total_supply(&self) -> (r: Balance)
        ensures
            r == self.total,
    {
        self.total
    }

    /// The balance of `account`.
    pub fn balance_of(&self, account: AccountId) -> (r: Balance)
        requires
            self.wf(),
        ensures
            r == self.bal(account),
    {
        match self.index_of(account) {
            Some(i) => {
                proof {
                    lemma_bal_unique(self.entries@, i as int);
                }
                self.entries[i].1
            },
            None => {
                proof {
                    lemma_bal_absent(self.entries@, account);
                }
                0
            },
        }
    }

    /// Creates `amount` new tokens for `account`: its balance and the total
    /// supply grow by exactly `amount`; every other balance is unchanged.
    pub fn mint(&mut self, account: AccountId, amount: Balance)
        requires
            old(self).wf(),
            old(self).total + amount <= Balance::MAX,
        ensures
            final(self).wf(),
            final(self).total == old(self).total + amount,
            final(self).bal(account) == old(self).bal(account) + amount,
            forall|b: AccountId| b != account ==> final(self).bal(b) == old(self).bal(b),
    {
        let ghost s0 = self.entries@;
        match self.index_of(account) {
            Some(i) => {
                proof {
                    lemma_bal_unique(s0, i as int);
                    lemma_bal_le_sum(s0, account);
                }
                let old_v = self.entries[i].1;
                let new_v = old_v + amount;
                self.entries.set(i, (account, new_v));
                proof {
                    lemma_sum_update(s0, i as int, (account, new_v));
                    assert forall|b: AccountId| bal_in(self.entries@, b) == bal_in(s0, b)
                        - (if s0[i as int].0 == b { s0[i as int].1 as int } else { 0 })
                        + (if account == b { new_v as int } else { 0 }) by {
                        lemma_bal_update(s0, i as int, (account, new_v), b);
                    }
                    assert forall|p: int, q: int|
                        0 <= p < q < self.entries@.len() implies self.entries@[p].0
                        != self.entries@[q].0 by {
                        assert(s0[p].0 != s0[q].0);
                    }
                }
                self.total = self.total + amount;
            },
            None => {
                proof {
                    lemma_bal_absent(s0, account);
                    lemma_sum_push(s0, (account, amount));
                    assert forall|b: AccountId| bal_in(s0.push((account, amount)), b) == bal_in(
                        s0,
                        b,
                    ) + (if account == b { amount as int } else { 0 }) by {
                        lemma_bal_push(s0, (account, amount), b);
                    }
                }
                self.entries.push((account, amount));
                proof {
                    assert forall|p: int, q: int|
                        0 <= p < q < self.entries@.len() implies self.entries@[p].0
                        != self.entries@[q].0 by {
                        if q < s0.len() {
                            assert(s0[p].0 != s0[q].0);
                        } else {
                            assert(self.entries@[q].0 == account);
                            assert(s0[p].0 != account);
                        }
                    }
                }
                self.total = self.total + amount;
            },
        }
    }

    /// Destroys `amount` tokens of `account` if its balance covers them: the
    /// balance and the total supply shrink by exactly `amount`. Fails with
    /// `InsufficientBalance`, changing nothing, when the balance is short.
    pub fn burn(&mut self, account: AccountId, amount: Balance) -> (r: Result<(), Error>)
        requires
            old(self).wf(),
        ensures
            final(self).wf(),
            r is Ok <==> old(self).bal(account) >= amount,
            r is Ok ==> {
                &&& final(self).total == old(self).total - amount
                &&& final(self).bal(account) == old(self).bal(account) - amount
                &&& forall|b: AccountId| b != account ==> final(self).bal(b) == old(self).bal(b)
            },
            r is Err ==> r == Err::<(), Error>(Error::InsufficientBalance) && *final(self) == *old(
                self,
            ),
    {
        let ghost s0 = self.entries@;
        match self.index_of(account) {
            Some(i) => {
                proof {
                    lemma_bal_unique(s0, i as int);
                    lemma_bal_le_sum(s0, account);
                }
                let old_v = self.entries[i].1;
                if old_v < amount {
                    return Err(Error::InsufficientBalance);
                }
                let new_v = old_v - amount;
                self.entries.set(i, (account, new_v));
                proof {
                    lemma_sum_update(s0, i as int, (account, new_v));
                    assert forall|b: AccountId| bal_in(self.entries@, b) == bal_in(s0, b)
                        - (if s0[i as int].0 == b { s0[i as int].1 as int } else { 0 })
                        + (if account == b { new_v as int } else { 0 }) by {
                        lemma_bal_update(s0, i as int, (account, new_v), b);
                    }
                    assert forall|p: int, q: int|
                        0 <= p < q < self.entries@.len() implies self.entries@[p].0
                        != self.entries@[q].0 by {
                        assert(s0[p].0 != s0[q].0);
                    }
                }
                self.total = self.total - amount;
                Ok(())
            },
            None => {
                proof {
                    lemma_bal_absent(s0, account);
                }
                if amount == 0 {
                    Ok(())
                } else {
                    Err(Error::InsufficientBalance)
                }
            },
        }
    }
}

} // verus!
