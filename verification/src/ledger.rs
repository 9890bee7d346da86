//! A model of the host currency ledger that the settlement core issues into.
//!
//! The host guarantees a single-writer, always-succeeding issuance sink; the
//! ledger here records one balance per account so that issuance can be stated
//! and checked precisely.

use vstd::prelude::*;
use crate::account::{AccountId, Balance};

verus! {

/// Saturating addition on balances: issuance caps at the largest
/// representable balance instead of overflowing.
pub open spec fn sat_add(a: Balance, b: Balance) -> Balance {
    if a + b > u128::MAX {
        u128::MAX
    } else {
        (a + b) as Balance
    }
}

/// Whether some entry of `s` belongs to the account whose identifier bytes
/// are `k`.
pub open spec fn has_account(s: Seq<(AccountId, Balance)>, k: Seq<u8>) -> bool {
    exists|j: int| 0 <= j < s.len() && (#[trigger] s[j]).0@ == k
}

/// The index of the entry belonging to `k`; meaningful only when
/// `has_account(s, k)` holds.
pub open spec fn account_index(s: Seq<(AccountId, Balance)>, k: Seq<u8>) -> int {
    choose|j: int| 0 <= j < s.len() && (#[trigger] s[j]).0@ == k
}

/// The balance recorded for `k`: the stored amount when an entry is present,
/// zero otherwise.
pub open spec fn bal_of(s: Seq<(AccountId, Balance)>, k: Seq<u8>) -> Balance {
    if has_account(s, k) {
        s[account_index(s, k)].1
    } else {
        0
    }
}

/// The currency ledger: an association list holding at most one entry per
/// account.
pub struct Ledger {
    pub accounts: Vec<(AccountId, Balance)>,
}

impl Ledger {
    /// Every account appears at most once.
    pub open spec fn wf(self) -> bool {
        forall|i: int, j: int|
            0 <= i < j < self.accounts@.len() ==> (#[trigger] self.accounts@[i]).0@ != (
            #[trigger] self.accounts@[j]).0@
    }

    /// The balance the ledger records for the account with identifier
    /// bytes `k`.
    pub open spec fn balance_of(self, k: Seq<u8>) -> Balance {
        bal_of(self.accounts@, k)
    }

    /// An empty ledger: every balance is zero.
    pub fn new() -> (r: Ledger)
        ensures
            r.wf(),
            forall|k: Seq<u8>| #[trigger] r.balance_of(k) == 0,
    {
        Ledger { accounts: Vec::new() }
    }

    /// Reads the balance of `who`.
    pub fn balance(&self, who: &AccountId) -> (r: Balance)
        requires
            self.wf(),
        ensures
            r == self.balance_of(who@),
    {
        let n = self.accounts.len();
        let mut i: usize = 0;
        while i < n
            invariant
                self.wf(),
                n == self.accounts@.len(),
                i <= n,
                forall|k2: int| 0 <= k2 < i ==> (#[trigger] self.accounts@[k2]).0@ != who@,
            decreases n - i,
        {
            let entry = self.accounts[i];
            if entry.0.eq_account(who) {
                proof {
                    let s = self.accounts@;
                    assert(s[i as int].0@ == who@);
                    assert(has_account(s, who@));
                    let j0 = account_index(s, who@);
                    if j0 < i as int {
                        assert(s[j0].0@ != s[i as int].0@);
                    } else if j0 > i as int {
                        assert(s[i as int].0@ != s[j0].0@);
                    }
                    assert(j0 == i as int);
                }
                return entry.1;
            }
            i += 1;
        }
        proof {
            if has_account(self.accounts@, who@) {
                let j0 = account_index(self.accounts@, who@);
                assert(self.accounts@[j0].0@ != who@);
            }
        }
        0
    }

    /// Creates `amount` of new balance for `who`: the account's balance grows
    /// by exactly `amount` (saturating at the type's maximum), and no other
    /// account's balance changes.
    pub fn deposit_creating(&mut self, who: &AccountId, amount: Balance)
        requires
            old(self).wf(),
        ensures
            final(self).wf(),
            final(self).balance_of(who@) == sat_add(old(self).balance_of(who@), amount),
            forall|k: Seq<u8>|
                k != who@ ==> #[trigger] final(self).balance_of(k) == old(self).balance_of(k),
    {
        let n = self.accounts.len();
        let mut i: usize = 0;
        while i < n
            invariant
                *self == *old(self),
                self.wf(),
                n == self.accounts@.len(),
                i <= n,
                forall|k2: int| 0 <= k2 < i ==> (#[trigger] self.accounts@[k2]).0@ != who@,
            decreases n - i,
        {
            let entry = self.accounts[i];
            if entry.0.eq_account(who) {
                let nb = if amount > u128::MAX - entry.1 {
                    u128::MAX
                } else {
                    entry.1 + amount
                };
                self.accounts.set(i, (entry.0, nb));
                proof {
                    let s_old = old(self).accounts@;
                    let s_new = self.accounts@;
                    let iw = i as int;
                    assert(s_new == s_old.update(iw, (s_old[iw].0, nb)));
                    assert(forall|x: int|
                        0 <= x < s_new.len() ==> (#[trigger] s_new[x]).0 == s_old[x].0);
                    assert(nb == sat_add(bal_of(s_old, who@), amount)) by {
                        assert(s_old[iw].0@ == who@);
                        assert(has_account(s_old, who@));
                        let j0 = account_index(s_old, who@);
                        if j0 < iw {
                            assert(s_old[j0].0@ != s_old[iw].0@);
                        } else if j0 > iw {
                            assert(s_old[iw].0@ != s_old[j0].0@);
                        }
                        assert(j0 == iw);
                    }
                    assert(bal_of(s_new, who@) == nb) by {
                        assert(s_new[iw].0@ == who@);
                        assert(has_account(s_new, who@));
                        let j1 = account_index(s_new, who@);
                        if j1 < iw {
                            assert(s_old[j1].0@ != s_old[iw].0@);
                        } else if j1 > iw {
                            assert(s_old[iw].0@ != s_old[j1].0@);
                        }
                        assert(j1 == iw);
                    }
                    assert forall|k: Seq<u8>| k != who@ implies #[trigger] bal_of(s_new, k)
                        == bal_of(s_old, k) by {
                        if has_account(s_old, k) {
                            let j1 = account_index(s_old, k);
                            assert(s_new[j1].0@ == k);
                            assert(has_account(s_new, k));
                            let j2 = account_index(s_new, k);
                            assert(s_old[j2].0@ == k);
                            if j1 < j2 {
                                assert(s_old[j1].0@ != s_old[j2].0@);
                            } else if j2 < j1 {
                                assert(s_old[j2].0@ != s_old[j1].0@);
                            }
                            assert(j1 == j2);
                            assert(j1 != iw);
                            assert(s_new[j1].1 == s_old[j1].1);
                        } else {
                            if has_account(s_new, k) {
                                let j2 = account_index(s_new, k);
                                assert(s_old[j2].0@ == k);
                                assert(has_account(s_old, k));
                            }
                        }
                    }
                }
                return;
            }
            i += 1;
        }
        self.accounts.push((*who, amount));
        proof {
            let s_old = old(self).accounts@;
            let s_new = self.accounts@;
            let n_old = s_old.len() as int;
            assert(s_new == s_old.push((*who, amount)));
            assert(forall|x: int| 0 <= x < n_old ==> #[trigger] s_new[x] == s_old[x]);
            assert(s_new[n_old].0@ == who@);
            assert(!has_account(s_old, who@)) by {
                if has_account(s_old, who@) {
                    let j0 = account_index(s_old, who@);
                    assert(s_old[j0].0@ != who@);
                }
            }
            assert(final(self).wf()) by {
                assert forall|x: int, y: int| 0 <= x < y < s_new.len() implies (
                #[trigger] s_new[x]).0@ != (#[trigger] s_new[y]).0@ by {
                    if y < n_old {
                        assert(s_old[x].0@ != s_old[y].0@);
                    } else {
                        assert(s_new[y].0@ == who@);
                        assert(s_new[x].0@ != who@);
                    }
                }
            }
            assert(bal_of(s_new, who@) == amount) by {
                assert(has_account(s_new, who@));
                let j1 = account_index(s_new, who@);
                if j1 < n_old {
                    assert(s_new[j1].0@ != s_new[n_old].0@);
                }
                assert(j1 == n_old);
            }
            assert(sat_add(bal_of(s_old, who@), amount) == amount);
            assert forall|k: Seq<u8>| k != who@ implies #[trigger] bal_of(s_new, k) == bal_of(
                s_old,
                k,
            ) by {
                if has_account(s_old, k) {
                    let j1 = account_index(s_old, k);
                    assert(s_new[j1].0@ == k);
                    assert(has_account(s_new, k));
                    let j2 = account_index(s_new, k);
                    assert(s_new[j2].0@ == k);
                    assert(j2 != n_old);
                    assert(s_old[j2].0@ == k);
                    if j1 < j2 {
                        assert(s_old[j1].0@ != s_old[j2].0@);
                    } else if j2 < j1 {
                        assert(s_old[j2].0@ != s_old[j1].0@);
                    }
                    assert(j1 == j2);
                } else {
                    if has_account(s_new, k) {
                        let j2 = account_index(s_new, k);
                        assert(j2 != n_old);
                        assert(s_old[j2].0@ == k);
                        assert(has_account(s_old, k));
                    }
                }
            }
        }
    }
}

} // verus!
