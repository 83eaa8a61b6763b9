//! An account store held in memory: one record per identifier.
use vstd::prelude::*;
use crate::account::UserData;

verus! {

/// One stored account: its identifier and its record.
#[derive(Debug)]
pub struct Account {
    pub user_id: String,
    pub data: UserData,
}

/// The map from identifier to record that a list of accounts stands for; a
/// later entry for an identifier hides an earlier one.
pub open spec fn accounts_map(s: Seq<Account>) -> Map<Seq<char>, UserData>
    decreases s.len(),
{
    if s.len() == 0 {
        Map::empty()
    } else {
        accounts_map(s.drop_last()).insert(s.last().user_id@, s.last().data)
    }
}

/// No entry after position `i` has the identifier of the entry at `i`.
pub open spec fn is_last_entry(s: Seq<Account>, i: int) -> bool {
    forall|j: int| i < j < s.len() ==> #[trigger] s[j].user_id@ != s[i].user_id@
}

proof fn lemma_accounts_map_keys(s: Seq<Account>, k: Seq<char>)
    ensures
        accounts_map(s).contains_key(k) <==> exists|i: int| 0 <= i < s.len() && #[trigger] s[i].user_id@ == k,
    decreases s.len(),
{
    if s.len() > 0 {
        let t = s.drop_last();
        lemma_accounts_map_keys(t, k);
        if accounts_map(t).contains_key(k) {
            let i = choose|i: int| 0 <= i < t.len() && #[trigger] t[i].user_id@ == k;
            assert(s[i].user_id@ == k);
        }
        if exists|i: int| 0 <= i < s.len() && #[trigger] s[i].user_id@ == k {
            let i = choose|i: int| 0 <= i < s.len() && #[trigger] s[i].user_id@ == k;
            if i < s.len() - 1 {
                assert(t[i].user_id@ == k);
            }
        }
    }
}

proof fn lemma_accounts_map_at(s: Seq<Account>, i: int)
    requires
        0 <= i < s.len(),
        is_last_entry(s, i),
    ensures
        accounts_map(s).contains_key(s[i].user_id@),
        accounts_map(s)[s[i].user_id@] == s[i].data,
    decreases s.len(),
{
    if i < s.len() - 1 {
        let t = s.drop_last();
        assert(t[i] == s[i]);
        assert(s[s.len() - 1].user_id@ != s[i].user_id@);
        assert forall|j: int| i < j < t.len() implies #[trigger] t[j].user_id@ != t[i].user_id@ by {
            assert(t[j] == s[j]);
        }
        lemma_accounts_map_at(t, i);
    }
}

proof fn lemma_accounts_map_update(s: Seq<Account>, i: int, a: Account)
    requires
        0 <= i < s.len(),
        is_last_entry(s, i),
        a.user_id@ == s[i].user_id@,
    ensures
        accounts_map(s.update(i, a)) == accounts_map(s).insert(a.user_id@, a.data),
    decreases s.len(),
{
    let u = s.update(i, a);
    if i == s.len() - 1 {
        assert(u.drop_last() == s.drop_last());
        assert(accounts_map(u) =~= accounts_map(s).insert(a.user_id@, a.data));
    } else {
        let t = s.drop_last();
        assert(u.drop_last() == t.update(i, a));
        assert(t[i] == s[i]);
        assert forall|j: int| i < j < t.len() implies #[trigger] t[j].user_id@ != t[i].user_id@ by {
            assert(t[j] == s[j]);
        }
        lemma_accounts_map_update(t, i, a);
        assert(s[s.len() - 1].user_id@ != s[i].user_id@);
        assert(accounts_map(u) =~= accounts_map(s).insert(a.user_id@, a.data));
    }
}

/// Account records keyed by identifier, held in memory.
///
/// Each operation on it is a single step on its map of records, so a write is
/// seen by every later read.
pub struct AccountStore {
    accounts: Vec<Account>,
}

impl View for AccountStore {
    type V = Map<Seq<char>, UserData>;

    closed spec fn view(&self) -> Map<Seq<char>, UserData> {
        accounts_map(self.accounts@)
    }
}

impl AccountStore {
    /// A store that holds no account.
    pub fn new() -> (r: AccountStore)
        ensures
            r@ == Map::<Seq<char>, UserData>::empty(),
    {
        AccountStore { accounts: Vec::new() }
    }

    /// The position of the last entry for `user_id`, if there is one.
    fn find(&self, user_id: &str) -> (r: Option<usize>)
        ensures
            match r {
                Some(i) => i < self.accounts@.len() && self.accounts@[i as int].user_id@ == user_id@
                    && is_last_entry(self.accounts@, i as int),
                None => !self@.contains_key(user_id@),
            },
    {
        let key = user_id.to_owned();
        let mut i: usize = self.accounts.len();
        while i > 0
            invariant
                i <= self.accounts@.len(),
                key@ == user_id@,
                forall|j: int| i <= j < self.accounts@.len() ==> self.accounts@[j].user_id@ != key@,
            decreases i,
        {
            i = i - 1;
            if self.accounts[i].user_id == key {
                return Some(i);
            }
        }
        proof {
            lemma_accounts_map_keys(self.accounts@, user_id@);
        }
        None
    }

    /// Whether an account is bound to `user_id`.
    pub fn is_user_bound(&self, user_id: &str) -> (r: bool)
        ensures
            r == self@.contains_key(user_id@),
    {
        match self.find(user_id) {
            Some(i) => {
                proof {
                    lemma_accounts_map_at(self.accounts@, i as int);
                }
                true
            },
            None => false,
        }
    }

    /// The record of `user_id`, or `None` when it is not bound.
    pub fn load_user_data(&self, user_id: &str) -> (r: Option<UserData>)
        ensures
            r == if self@.contains_key(user_id@) {
                Some(self@[user_id@])
            } else {
                None::<UserData>
            },
    {
        match self.find(user_id) {
            Some(i) => {
                proof {
                    lemma_accounts_map_at(self.accounts@, i as int);
                }
                Some(self.accounts[i].data)
            },
            None => None,
        }
    }

    /// Stores `data` as the record of `user_id`, binding it if it was not.
    pub fn save_user_data(&mut self, user_id: &str, data: &UserData)
        ensures
            final(self)@ == old(self)@.insert(user_id@, *data),
    {
        match self.find(user_id) {
            Some(i) => {
                let entry = Account { user_id: self.accounts[i].user_id.clone(), data: *data };
                proof {
                    lemma_accounts_map_update(self.accounts@, i as int, entry);
                }
                self.accounts.set(i, entry);
            },
            None => {
                proof {
                    lemma_accounts_map_keys(self.accounts@, user_id@);
                }
                self.accounts.push(Account { user_id: user_id.to_owned(), data: *data });
                proof {
                    assert(self.accounts@.drop_last() == old(self).accounts@);
                }
            },
        }
    }
}

} // verus!
