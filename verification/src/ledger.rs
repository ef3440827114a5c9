//! The balance ledger: a mapping from account identifier to unsigned balance
//! together with the total supply, with deposit, withdraw and transfer
//! primitives under checked arithmetic.
//!
//! The central invariant, [`Ledger::wf`], states that the balances always sum
//! to the stored total supply; every operation preserves it.

use vstd::prelude::*;

use crate::errors::TokenError;

verus! {

/// Sum of the balances held in a sequence of ledger entries.
pub open spec fn sum_balances(s: Seq<(String, u128)>) -> int
    decreases s.len(),
{
    if s.len() == 0 {
        0
    } else {
        sum_balances(s.drop_last()) + s.last().1
    }
}

/// No two entries name the same account.
pub open spec fn unique_keys(s: Seq<(String, u128)>) -> bool {
    forall|i: int, j: int|
        #![trigger s[i].0@, s[j].0@]
        0 <= i < j < s.len() ==> s[i].0@ != s[j].0@
}

pub proof fn lemma_sum_push(s: Seq<(String, u128)>, p: (String, u128))
    ensures
        sum_balances(s.push(p)) == sum_balances(s) + p.1,
{
    assert(s.push(p).drop_last() =~= s);
}

pub proof fn lemma_sum_update(s: Seq<(String, u128)>, i: int, p: (String, u128))
    requires
        0 <= i < s.len(),
    ensures
        sum_balances(s.update(i, p)) == sum_balances(s) - s[i].1 + p.1,
    decreases s.len(),
{
    if i == s.len() - 1 {
        assert(s.update(i, p).drop_last() =~= s.drop_last());
    } else {
        lemma_sum_update(s.drop_last(), i, p);
        assert(s.update(i, p).drop_last() =~= s.drop_last().update(i, p));
        assert(s.update(i, p).last() == s.last());
    }
}

pub proof fn lemma_sum_remove(s: Seq<(String, u128)>, i: int)
    requires
        0 <= i < s.len(),
    ensures
        sum_balances(s.remove(i)) == sum_balances(s) - s[i].1,
    decreases s.len(),
{
    if i == s.len() - 1 {
        assert(s.remove(i) =~= s.drop_last());
    } else {
        lemma_sum_remove(s.drop_last(), i);
        assert(s.remove(i).drop_last() =~= s.drop_last().remove(i));
        assert(s.remove(i).last() == s.last());
    }
}

pub proof fn lemma_sum_nonneg(s: Seq<(String, u128)>)
    ensures
        sum_balances(s) >= 0,
    decreases s.len(),
{
    if s.len() > 0 {
        lemma_sum_nonneg(s.drop_last());
    }
}

/// Each single balance is bounded by the sum of all balances.
pub proof fn lemma_sum_element_bound(s: Seq<(String, u128)>, i: int)
    requires
        0 <= i < s.len(),
    ensures
        s[i].1 <= sum_balances(s),
    decreases s.len(),
{
    if i == s.len() - 1 {
        lemma_sum_nonneg(s.drop_last());
    } else {
        lemma_sum_element_bound(s.drop_last(), i);
    }
}

/// Two distinct balances together are bounded by the sum of all balances.
pub proof fn lemma_sum_two_element_bound(s: Seq<(String, u128)>, i: int, j: int)
    requires
        0 <= i < j < s.len(),
    ensures
        s[i].1 + s[j].1 <= sum_balances(s),
    decreases s.len(),
{
    if j == s.len() - 1 {
        lemma_sum_element_bound(s.drop_last(), i);
    } else {
        lemma_sum_two_element_bound(s.drop_last(), i, j);
    }
}

/// The outcome `register` owes: rejected exactly when the account already
/// has an entry.
pub open spec fn spec_register_check(pre: Ledger, a: Seq<char>) -> Result<(), TokenError> {
    if pre.spec_registered(a) {
        Err(TokenError::AlreadyRegistered)
    } else {
        Ok(())
    }
}

/// The outcome `deposit` owes: the account must be registered and the new
/// total supply must stay within the 128-bit bound.
pub open spec fn spec_deposit_check(pre: Ledger, a: Seq<char>, amount: u128) -> Result<
    (),
    TokenError,
> {
    if !pre.spec_registered(a) {
        Err(TokenError::NotRegistered)
    } else if pre.total + amount > u128::MAX {
        Err(TokenError::Overflow)
    } else {
        Ok(())
    }
}

/// The outcome `withdraw` owes: the account must be registered and hold at
/// least the requested amount.
pub open spec fn spec_withdraw_check(pre: Ledger, a: Seq<char>, amount: u128) -> Result<
    (),
    TokenError,
> {
    if !pre.spec_registered(a) {
        Err(TokenError::NotRegistered)
    } else if amount > pre.spec_balance(a) {
        Err(TokenError::InsufficientBalance)
    } else {
        Ok(())
    }
}

/// The outcome `unregister` owes: on success it reports the removed balance.
pub open spec fn spec_unregister_check(pre: Ledger, a: Seq<char>, force: bool) -> Result<
    u128,
    TokenError,
> {
    if !pre.spec_registered(a) {
        Err(TokenError::NotRegistered)
    } else if pre.spec_balance(a) != 0 && !force {
        Err(TokenError::NonZeroBalance)
    } else {
        Ok(pre.spec_balance(a))
    }
}

/// The outcome `transfer` owes, with the checks in their fixed order; all of
/// them happen before any mutation.
pub open spec fn spec_transfer_check(pre: Ledger, s: Seq<char>, r: Seq<char>, amount: u128) -> Result<
    (),
    TokenError,
> {
    if s == r {
        Err(TokenError::SelfTransfer)
    } else if amount == 0 {
        Err(TokenError::ZeroAmount)
    } else if !pre.spec_registered(s) {
        Err(TokenError::NotRegistered)
    } else if amount > pre.spec_balance(s) {
        Err(TokenError::InsufficientBalance)
    } else if !pre.spec_registered(r) {
        Err(TokenError::ReceiverNotRegistered)
    } else {
        Ok(())
    }
}

/// Every account keeps its registration status.
pub open spec fn registered_preserved(pre: Ledger, post: Ledger) -> bool {
    forall|a: Seq<char>| post.spec_registered(a) == pre.spec_registered(a)
}

/// Every account outside `except` keeps its balance.
pub open spec fn balances_preserved_except(pre: Ledger, post: Ledger, except: Set<Seq<char>>) -> bool {
    forall|a: Seq<char>|
        !except.contains(a) ==> post.spec_balance(a) == pre.spec_balance(a)
}

/// What a successful transfer does: it moves exactly `amount` from `s` to
/// `r`, touches no other account, and conserves the total supply.
pub open spec fn transfer_effect(pre: Ledger, post: Ledger, s: Seq<char>, r: Seq<char>, amount: u128) -> bool {
    &&& post.spec_balance(s) == pre.spec_balance(s) - amount
    &&& post.spec_balance(r) == pre.spec_balance(r) + amount
    &&& balances_preserved_except(pre, post, set![s, r])
    &&& registered_preserved(pre, post)
    &&& post.total == pre.total
}

/// What a successful deposit does: it mints `amount` onto `a`'s balance and
/// onto the total supply.
pub open spec fn deposit_effect(pre: Ledger, post: Ledger, a: Seq<char>, amount: u128) -> bool {
    &&& post.spec_balance(a) == pre.spec_balance(a) + amount
    &&& balances_preserved_except(pre, post, set![a])
    &&& registered_preserved(pre, post)
    &&& post.total == pre.total + amount
}

/// What a successful withdrawal does: it burns `amount` from `a`'s balance
/// and from the total supply.
pub open spec fn withdraw_effect(pre: Ledger, post: Ledger, a: Seq<char>, amount: u128) -> bool {
    &&& post.spec_balance(a) == pre.spec_balance(a) - amount
    &&& balances_preserved_except(pre, post, set![a])
    &&& registered_preserved(pre, post)
    &&& post.total == pre.total - amount
}

/// What a successful registration does: a fresh zero-balance entry for `a`,
/// everything else untouched.
pub open spec fn register_effect(pre: Ledger, post: Ledger, a: Seq<char>) -> bool {
    &&& post.spec_registered(a)
    &&& post.spec_balance(a) == 0
    &&& balances_preserved_except(pre, post, set![a])
    &&& forall|b: Seq<char>| b != a ==> post.spec_registered(b) == pre.spec_registered(b)
    &&& post.total == pre.total
}

/// What a successful unregistration does: `a`'s entry is gone and whatever
/// balance it held is burned from the total supply.
pub open spec fn unregister_effect(pre: Ledger, post: Ledger, a: Seq<char>) -> bool {
    &&& !post.spec_registered(a)
    &&& balances_preserved_except(pre, post, set![a])
    &&& forall|b: Seq<char>| b != a ==> post.spec_registered(b) == pre.spec_registered(b)
    &&& post.total == pre.total - pre.spec_balance(a)
}

/// The balance ledger: one entry per registered account, and the total supply.
pub struct Ledger {
    /// One entry per registered account: its identifier and its balance.
    pub accounts: Vec<(String, u128)>,
    /// The aggregate of all balances.
    pub total: u128,
}

impl Ledger {
    /// Whether the account has a ledger entry.
    pub open spec fn spec_registered(self, a: Seq<char>) -> bool {
        exists|i: int| 0 <= i < self.accounts@.len() && self.accounts@[i].0@ == a
    }

    /// The index of the account's ledger entry (meaningful under `wf`).
    pub open spec fn key_index(self, a: Seq<char>) -> int {
        choose|i: int| 0 <= i < self.accounts@.len() && self.accounts@[i].0@ == a
    }

    /// The account's balance; zero for an unregistered account.
    pub open spec fn spec_balance(self, a: Seq<char>) -> u128 {
        if self.spec_registered(a) {
            self.accounts@[self.key_index(a)].1
        } else {
            0
        }
    }

    /// Well-formedness: accounts are unique and the balances sum to the
    /// stored total supply.
    pub open spec fn wf(self) -> bool {
        &&& unique_keys(self.accounts@)
        &&& sum_balances(self.accounts@) == self.total
    }

    /// The entry at a valid index is the one the account maps to.
    pub proof fn lemma_entry(self, i: int)
        requires
            unique_keys(self.accounts@),
            0 <= i < self.accounts@.len(),
        ensures
            self.spec_registered(self.accounts@[i].0@),
            self.key_index(self.accounts@[i].0@) == i,
            self.spec_balance(self.accounts@[i].0@) == self.accounts@[i].1,
    {
        let a = self.accounts@[i].0@;
        assert(self.spec_registered(a));
        let j = self.key_index(a);
        if j < i {
            assert(self.accounts@[j].0@ != self.accounts@[i].0@);
        } else if j > i {
            assert(self.accounts@[i].0@ != self.accounts@[j].0@);
        }
    }

    /// Replacing the balance at entry `i` leaves every other account's
    /// registration and balance untouched.
    proof fn lemma_update_preserves(pre: Ledger, post: Ledger, i: int, v: u128)
        requires
            unique_keys(pre.accounts@),
            0 <= i < pre.accounts@.len(),
            post.accounts@ == pre.accounts@.update(i, (pre.accounts@[i].0, v)),
        ensures
            unique_keys(post.accounts@),
            registered_preserved(pre, post),
            post.spec_balance(pre.accounts@[i].0@) == v,
            balances_preserved_except(pre, post, set![pre.accounts@[i].0@]),
    {
        let a = pre.accounts@[i].0@;
        assert(forall|k: int|
            0 <= k < post.accounts@.len() ==> post.accounts@[k].0 == pre.accounts@[k].0);
        assert forall|b: Seq<char>| post.spec_registered(b) == pre.spec_registered(b) by {
            if pre.spec_registered(b) {
                let k = pre.key_index(b);
                assert(post.accounts@[k].0@ == b);
            }
            if post.spec_registered(b) {
                let k = post.key_index(b);
                assert(pre.accounts@[k].0@ == b);
            }
        }
        post.lemma_entry(i);
        assert forall|b: Seq<char>|
            !set![a].contains(b) implies post.spec_balance(b) == pre.spec_balance(b) by {
            if pre.spec_registered(b) {
                let k = pre.key_index(b);
                pre.lemma_entry(k);
                post.lemma_entry(k);
            }
        }
    }

    /// Removing entry `i` leaves every other account's registration and
    /// balance untouched, and unregisters exactly its account.
    proof fn lemma_remove_preserves(pre: Ledger, post: Ledger, i: int)
        requires
            unique_keys(pre.accounts@),
            0 <= i < pre.accounts@.len(),
            post.accounts@ == pre.accounts@.remove(i),
        ensures
            unique_keys(post.accounts@),
            !post.spec_registered(pre.accounts@[i].0@),
            forall|b: Seq<char>|
                b != pre.accounts@[i].0@ ==> post.spec_registered(b) == pre.spec_registered(b),
            balances_preserved_except(pre, post, set![pre.accounts@[i].0@]),
    {
        let a = pre.accounts@[i].0@;
        let n = pre.accounts@.len() as int;
        assert forall|k: int, l: int|
            #![trigger post.accounts@[k].0@, post.accounts@[l].0@]
            0 <= k < l < n - 1 implies post.accounts@[k].0@ != post.accounts@[l].0@ by {
            let k2 = if k < i { k } else { k + 1 };
            let l2 = if l < i { l } else { l + 1 };
            assert(post.accounts@[k] == pre.accounts@[k2]);
            assert(post.accounts@[l] == pre.accounts@[l2]);
            assert(pre.accounts@[k2].0@ != pre.accounts@[l2].0@);
        }
        if post.spec_registered(a) {
            let k = post.key_index(a);
            let k2 = if k < i { k } else { k + 1 };
            assert(post.accounts@[k] == pre.accounts@[k2]);
            if k2 < i {
                assert(pre.accounts@[k2].0@ != pre.accounts@[i].0@);
            } else {
                assert(pre.accounts@[i].0@ != pre.accounts@[k2].0@);
            }
        }
        assert forall|b: Seq<char>|
            b != a implies post.spec_registered(b) == pre.spec_registered(b) by {
            if pre.spec_registered(b) {
                let k = pre.key_index(b);
                let k2 = if k < i { k } else { k - 1 };
                assert(k != i);
                assert(post.accounts@[k2] == pre.accounts@[k]);
                assert(post.spec_registered(b));
            }
            if post.spec_registered(b) {
                let k = post.key_index(b);
                let k2 = if k < i { k } else { k + 1 };
                assert(post.accounts@[k] == pre.accounts@[k2]);
                assert(pre.spec_registered(b));
            }
        }
        assert forall|b: Seq<char>|
            !set![a].contains(b) implies post.spec_balance(b) == pre.spec_balance(b) by {
            if pre.spec_registered(b) {
                let k = pre.key_index(b);
                pre.lemma_entry(k);
                let k2 = if k < i { k } else { k - 1 };
                assert(k != i);
                assert(post.accounts@[k2] == pre.accounts@[k]);
                post.lemma_entry(k2);
            }
        }
    }

    /// An empty ledger with zero total supply.
    pub fn new() -> (r: Ledger)
        ensures
            r.wf(),
            r.total == 0,
            forall|a: Seq<char>| !r.spec_registered(a),
    {
        Ledger { accounts: Vec::new(), total: 0 }
    }

    /// The index of the account's entry, if it has one.
    fn find_index(&self, account_id: &String) -> (r: Option<usize>)
        ensures
            match r {
                Some(i) => i < self.accounts@.len() && self.accounts@[i as int].0@ == account_id@,
                None => !self.spec_registered(account_id@),
            },
    {
        let n = self.accounts.len();
        let mut i: usize = 0;
        while i < n
            invariant
                n == self.accounts@.len(),
                i <= n,
                forall|j: int| 0 <= j < i ==> self.accounts@[j].0@ != account_id@,
            decreases n - i,
        {
            if self.accounts[i].0 == *account_id {
                return Some(i);
            }
            i += 1;
        }
        None
    }

    /// Whether the account has a ledger entry.  Query only.
    pub fn is_registered(&self, account_id: &String) -> (r: bool)
        ensures
            r == self.spec_registered(account_id@),
    {
        match self.find_index(account_id) {
            Some(_) => true,
            None => false,
        }
    }

    /// The account's balance; zero for an unregistered account.  Query only:
    /// it never mutates and never fails.
    pub fn balance_of(&self, account_id: &String) -> (r: u128)
        requires
            self.wf(),
        ensures
            r == self.spec_balance(account_id@),
    {
        match self.find_index(account_id) {
            Some(i) => {
                proof {
                    self.lemma_entry(i as int);
                }
                self.accounts[i].1
            },
            None => 0,
        }
    }

    /// The stored total supply.  Query only.
    pub fn total_supply(&self) -> (r: u128)
        ensures
            r == self.total,
    {
        self.total
    }

    /// Creates a zero-balance entry for the account; rejected with
    /// `AlreadyRegistered` if one exists.
    pub fn register(&mut self, account_id: &String) -> (r: Result<(), TokenError>)
        requires
            old(self).wf(),
        ensures
            final(self).wf(),
            r == spec_register_check(*old(self), account_id@),
            r is Err ==> *final(self) == *old(self),
            r is Ok ==> register_effect(*old(self), *final(self), account_id@),
    {
        let ghost pre = *self;
        match self.find_index(account_id) {
            Some(_) => Err(TokenError::AlreadyRegistered),
            None => {
                self.accounts.push((account_id.clone(), 0));
                proof {
                    let post = *self;
                    let a = account_id@;
                    let n = pre.accounts@.len() as int;
                    lemma_sum_push(pre.accounts@, post.accounts@[n]);
                    assert(post.accounts@[n].0@ == a);
                    assert forall|k: int, l: int|
                        #![trigger post.accounts@[k].0@, post.accounts@[l].0@]
                        0 <= k < l < n + 1 implies post.accounts@[k].0@
                        != post.accounts@[l].0@ by {
                        if l < n {
                            assert(pre.accounts@[k].0@ != pre.accounts@[l].0@);
                        } else {
                            assert(pre.accounts@[k].0@ != a);
                        }
                    }
                    post.lemma_entry(n);
                    assert forall|b: Seq<char>|
                        b != a implies post.spec_registered(b) == pre.spec_registered(b) by {
                        if pre.spec_registered(b) {
                            let k = pre.key_index(b);
                            assert(post.accounts@[k].0@ == b);
                        }
                        if post.spec_registered(b) {
                            let k = post.key_index(b);
                            assert(k != n);
                            assert(pre.accounts@[k].0@ == b);
                        }
                    }
                    assert forall|b: Seq<char>|
                        !set![a].contains(b) implies post.spec_balance(b) == pre.spec_balance(
                        b,
                    ) by {
                        if pre.spec_registered(b) {
                            let k = pre.key_index(b);
                            pre.lemma_entry(k);
                            post.lemma_entry(k);
                        }
                    }
                }
                Ok(())
            },
        }
    }

    /// Removes the account's entry.  A nonzero balance is rejected with
    /// `NonZeroBalance` unless `force` is set; if forced, the removed balance
    /// is burned from the total supply.  On success returns the removed
    /// balance.
    pub fn unregister(&mut self, account_id: &String, force: bool) -> (r: Result<u128, TokenError>)
        requires
            old(self).wf(),
        ensures
            final(self).wf(),
            r == spec_unregister_check(*old(self), account_id@, force),
            r is Err ==> *final(self) == *old(self),
            r is Ok ==> unregister_effect(*old(self), *final(self), account_id@),
    {
        let ghost pre = *self;
        let i: usize = match self.find_index(account_id) {
            None => {
                return Err(TokenError::NotRegistered);
            },
            Some(i) => i,
        };
        proof {
            pre.lemma_entry(i as int);
        }
        let balance: u128 = self.accounts[i].1;
        if balance != 0 && !force {
            return Err(TokenError::NonZeroBalance);
        }
        let removed = self.accounts.remove(i);
        proof {
            lemma_sum_remove(pre.accounts@, i as int);
            lemma_sum_element_bound(pre.accounts@, i as int);
        }
        self.total = self.total - balance;
        proof {
            Ledger::lemma_remove_preserves(pre, *self, i as int);
        }
        Ok(removed.1)
    }

    /// Increases the account's balance and the total supply by `amount`;
    /// rejected with `Overflow` if the total supply would pass the 128-bit
    /// bound.
    pub fn deposit(&mut self, account_id: &String, amount: u128) -> (r: Result<(), TokenError>)
        requires
            old(self).wf(),
        ensures
            final(self).wf(),
            r == spec_deposit_check(*old(self), account_id@, amount),
            r is Err ==> *final(self) == *old(self),
            r is Ok ==> deposit_effect(*old(self), *final(self), account_id@, amount),
    {
        let ghost pre = *self;
        let i: usize = match self.find_index(account_id) {
            None => {
                return Err(TokenError::NotRegistered);
            },
            Some(i) => i,
        };
        proof {
            pre.lemma_entry(i as int);
        }
        let new_total: u128 = match self.total.checked_add(amount) {
            None => {
                return Err(TokenError::Overflow);
            },
            Some(t) => t,
        };
        let balance: u128 = self.accounts[i].1;
        proof {
            lemma_sum_element_bound(pre.accounts@, i as int);
        }
        self.accounts[i].1 = balance + amount;
        self.total = new_total;
        proof {
            lemma_sum_update(pre.accounts@, i as int, self.accounts@[i as int]);
            Ledger::lemma_update_preserves(pre, *self, i as int, (balance + amount) as u128);
        }
        Ok(())
    }

    /// Decreases the account's balance and the total supply by `amount`;
    /// rejected with `InsufficientBalance` if the balance does not cover it.
    pub fn withdraw(&mut self, account_id: &String, amount: u128) -> (r: Result<(), TokenError>)
        requires
            old(self).wf(),
        ensures
            final(self).wf(),
            r == spec_withdraw_check(*old(self), account_id@, amount),
            r is Err ==> *final(self) == *old(self),
            r is Ok ==> withdraw_effect(*old(self), *final(self), account_id@, amount),
    {
        let ghost pre = *self;
        let i: usize = match self.find_index(account_id) {
            None => {
                return Err(TokenError::NotRegistered);
            },
            Some(i) => i,
        };
        proof {
            pre.lemma_entry(i as int);
        }
        let balance: u128 = self.accounts[i].1;
        if amount > balance {
            return Err(TokenError::InsufficientBalance);
        }
        proof {
            lemma_sum_element_bound(pre.accounts@, i as int);
        }
        self.accounts[i].1 = balance - amount;
        self.total = self.total - amount;
        proof {
            lemma_sum_update(pre.accounts@, i as int, self.accounts@[i as int]);
            Ledger::lemma_update_preserves(pre, *self, i as int, (balance - amount) as u128);
        }
        Ok(())
    }

    /// Atomically withdraws `amount` from the sender and deposits it to the
    /// receiver.  All checks happen before any mutation, so a rejected
    /// transfer leaves the ledger unchanged; the total supply is conserved.
    pub fn transfer(&mut self, sender_id: &String, receiver_id: &String, amount: u128) -> (r:
        Result<(), TokenError>)
        requires
            old(self).wf(),
        ensures
            final(self).wf(),
            r == spec_transfer_check(*old(self), sender_id@, receiver_id@, amount),
            r is Err ==> *final(self) == *old(self),
            r is Ok ==> transfer_effect(
                *old(self),
                *final(self),
                sender_id@,
                receiver_id@,
                amount,
            ),
    {
        let ghost pre = *self;
        if *sender_id == *receiver_id {
            return Err(TokenError::SelfTransfer);
        }
        if amount == 0 {
            return Err(TokenError::ZeroAmount);
        }
        let si: usize = match self.find_index(sender_id) {
            None => {
                return Err(TokenError::NotRegistered);
            },
            Some(i) => i,
        };
        proof {
            pre.lemma_entry(si as int);
        }
        let sender_balance: u128 = self.accounts[si].1;
        if amount > sender_balance {
            return Err(TokenError::InsufficientBalance);
        }
        let ri: usize = match self.find_index(receiver_id) {
            None => {
                return Err(TokenError::ReceiverNotRegistered);
            },
            Some(i) => i,
        };
        proof {
            pre.lemma_entry(ri as int);
            assert(si != ri);
            if si < ri {
                lemma_sum_two_element_bound(pre.accounts@, si as int, ri as int);
            } else {
                lemma_sum_two_element_bound(pre.accounts@, ri as int, si as int);
            }
        }
        let receiver_balance: u128 = self.accounts[ri].1;
        self.accounts[si].1 = sender_balance - amount;
        let ghost mid = *self;
        proof {
            lemma_sum_update(pre.accounts@, si as int, mid.accounts@[si as int]);
            Ledger::lemma_update_preserves(pre, mid, si as int, (sender_balance - amount) as u128);
        }
        self.accounts[ri].1 = receiver_balance + amount;
        proof {
            let post = *self;
            lemma_sum_update(mid.accounts@, ri as int, post.accounts@[ri as int]);
            Ledger::lemma_update_preserves(
                mid,
                post,
                ri as int,
                (receiver_balance + amount) as u128,
            );
            mid.lemma_entry(si as int);
            mid.lemma_entry(ri as int);
            assert(post.spec_balance(sender_id@) == sender_balance - amount);
            assert forall|a: Seq<char>|
                !set![sender_id@, receiver_id@].contains(a) implies post.spec_balance(a)
                == pre.spec_balance(a) by {
                assert(mid.spec_balance(a) == pre.spec_balance(a));
                assert(post.spec_balance(a) == mid.spec_balance(a));
            }
        }
        Ok(())
    }
}

} // verus!
