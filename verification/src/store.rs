//! The session store: the one mutable shared resource of the cache, a mapping
//! from user identifier to that user's account.
//!
//! The store owns every account exclusively. At most one account ever exists
//! per identifier: a lookup for a known identifier returns the existing
//! account and creates nothing, so two callers racing on a cold name (the
//! embedding program serialises them around the store) still end up with a
//! single account. Accounts are never removed; a process restart is the only
//! teardown.

use vstd::prelude::*;

use crate::errors::AuthError;
use crate::session::Account;

verus! {

pub struct SessionStore {
    accounts: Vec<Account>,
}

impl View for SessionStore {
    type V = Seq<Account>;

    closed spec fn view(&self) -> Seq<Account> {
        self.accounts@
    }
}

impl SessionStore {
    /// At most one account per identifier.
    pub open spec fn wf(self) -> bool {
        forall|i: int, j: int|
            0 <= i < j < self@.len() ==> self@[i].identifier@ != self@[j].identifier@
    }

    /// There is an account for this identifier.
    pub open spec fn has_account(self, username: Seq<char>) -> bool {
        exists|i: int| 0 <= i < self@.len() && self@[i].identifier@ == username
    }

    /// An empty store.
    pub fn new() -> (s: SessionStore)
        ensures
            s@.len() == 0,
            s.wf(),
    {
        SessionStore { accounts: Vec::new() }
    }

    /// The number of accounts.
    pub fn len(&self) -> (n: usize)
        ensures
            n == self@.len(),
    {
        self.accounts.len()
    }

    /// The position of the first account whose identifier is `username`.
    pub fn find(&self, username: &str) -> (r: Option<usize>)
        ensures
            r matches Some(i) ==> i < self@.len() && self@[i as int].identifier@ == username@,
            r is None ==> !self.has_account(username@),
    {
        let n = self.accounts.len();
        let mut i: usize = 0;
        while i < n
            invariant
                n == self@.len(),
                0 <= i <= n,
                forall|k: int| 0 <= k < i ==> self@[k].identifier@ != username@,
            decreases n - i,
        {
            if crate::text::str_eq(self.accounts[i].identifier.as_str(), username) {
                return Some(i);
            }
            i += 1;
        }
        None
    }

    /// The account at a position, read-only.
    pub fn account(&self, i: usize) -> (a: &Account)
        requires
            i < self@.len(),
        ensures
            *a == self@[i as int],
    {
        &self.accounts[i]
    }

    /// Exclusive access to the account at a position.
    pub fn account_mut(&mut self, i: usize) -> (a: &mut Account)
        requires
            i < old(self)@.len(),
        ensures
            *a == old(self)@[i as int],
            final(self)@ == old(self)@.update(i as int, *final(a)),
    {
        &mut self.accounts[i]
    }

    /// The position of the account for `username`, creating a fresh account —
    /// empty verifier, fresh session — only when none exists. When the store
    /// already has the identifier, nothing is created and the store is left
    /// exactly as it was, so no identifier ever gains a second account. Fails
    /// only when a fresh session could not be built; the store is then
    /// untouched.
    pub fn get_or_create(&mut self, username: &str) -> (r: Result<usize, AuthError>)
        ensures
            old(self).has_account(username@) ==> *final(self) == *old(self) && (r matches Ok(i)
                && i < final(self)@.len() && final(self)@[i as int].identifier@ == username@),
            !old(self).has_account(username@) ==> match r {
                Ok(i) => {
                    &&& i == old(self)@.len()
                    &&& final(self)@.len() == old(self)@.len() + 1
                    &&& final(self)@.subrange(0, old(self)@.len() as int) == old(self)@
                    &&& final(self)@[i as int].identifier@ == username@
                    &&& final(self)@[i as int].hash_salt is None
                    &&& !final(self)@[i as int].session.authenticated
                },
                Err(e) => *final(self) == *old(self) && e == AuthError::Internal,
            },
            final(self).has_account(username@) <==> r is Ok,
            old(self).wf() ==> final(self).wf(),
    {
        match self.find(username) {
            Some(i) => {
                proof {
                    assert(self.has_account(username@));
                }
                Ok(i)
            },
            None => {
                match Account::new(username) {
                    Ok(account) => {
                        let i = self.accounts.len();
                        self.accounts.push(account);
                        proof {
                            assert(self@.subrange(0, i as int) =~= old(self)@);
                            assert(self@[i as int].identifier@ == username@);
                            if old(self).wf() {
                                assert forall|p: int, q: int|
                                    0 <= p < q < self@.len() implies self@[p].identifier@
                                    != self@[q].identifier@ by {
                                    if q < i as int {
                                        assert(old(self)@[p].identifier@
                                            != old(self)@[q].identifier@);
                                    } else {
                                        assert(self@[p] == old(self)@[p]);
                                        assert(old(self)@[p].identifier@ != username@);
                                    }
                                }
                            }
                        }
                        Ok(i)
                    },
                    Err(e) => Err(e),
                }
            },
        }
    }
}

} // verus!
