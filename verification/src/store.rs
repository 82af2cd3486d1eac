//! The record store: one content-addressed table per namespace, keyed by the
//! 32-byte seed of the record key. Keeping the two namespaces in separate
//! tables realizes the collision-freedom of `addr::derive` structurally: a
//! user key and an issue key can never address the same slot. A create never
//! overwrites an existing record, and every write replaces a whole record at
//! once, so a failed operation leaves the tables untouched.

use vstd::prelude::*;

use crate::types::{ErrorCode, IssueAccount, UserAccount};

verus! {

/// Whether some record in the user table is keyed by `w`.
pub open spec fn has_user_in(users: Seq<UserAccount>, w: Seq<u8>) -> bool {
    exists|i: int| 0 <= i < users.len() && users[i].wallet_address@ == w
}

/// The index of the record keyed by `w`; meaningful when `has_user_in` holds
/// and the table is well-formed, in which case the index is unique.
pub open spec fn user_index_in(users: Seq<UserAccount>, w: Seq<u8>) -> int {
    choose|i: int| 0 <= i < users.len() && users[i].wallet_address@ == w
}

/// The record keyed by `w`.
pub open spec fn user_in(users: Seq<UserAccount>, w: Seq<u8>) -> UserAccount {
    users[user_index_in(users, w)]
}

/// At most one user record per wallet address.
pub open spec fn users_wf(users: Seq<UserAccount>) -> bool {
    forall|i: int, j: int|
        0 <= i < j < users.len() ==> users[i].wallet_address@ != users[j].wallet_address@
}

/// Whether some record in the issue table is keyed by `h`.
pub open spec fn has_issue_in(issues: Seq<IssueAccount>, h: Seq<u8>) -> bool {
    exists|i: int| 0 <= i < issues.len() && issues[i].issue_hash@ == h
}

/// The index of the record keyed by `h`; meaningful when `has_issue_in`
/// holds and the table is well-formed, in which case the index is unique.
pub open spec fn issue_index_in(issues: Seq<IssueAccount>, h: Seq<u8>) -> int {
    choose|i: int| 0 <= i < issues.len() && issues[i].issue_hash@ == h
}

/// The record keyed by `h`.
pub open spec fn issue_in(issues: Seq<IssueAccount>, h: Seq<u8>) -> IssueAccount {
    issues[issue_index_in(issues, h)]
}

/// At most one issue record per issue hash.
pub open spec fn issues_wf(issues: Seq<IssueAccount>) -> bool {
    forall|i: int, j: int|
        0 <= i < j < issues.len() ==> issues[i].issue_hash@ != issues[j].issue_hash@
}

/// In a well-formed table, any index holding key `w` is the index that
/// `user_index_in` names, so lookups are unambiguous.
pub proof fn lemma_user_index_agrees(users: Seq<UserAccount>, w: Seq<u8>, i: int)
    requires
        users_wf(users),
        0 <= i < users.len(),
        users[i].wallet_address@ == w,
    ensures
        has_user_in(users, w),
        user_index_in(users, w) == i,
        user_in(users, w) == users[i],
{
    assert(has_user_in(users, w));
    let k = user_index_in(users, w);
    assert(0 <= k < users.len() && users[k].wallet_address@ == w);
    if k < i {
        assert(users[k].wallet_address@ != users[i].wallet_address@);
    } else if i < k {
        assert(users[i].wallet_address@ != users[k].wallet_address@);
    }
}

/// In a well-formed table, any index holding key `h` is the index that
/// `issue_index_in` names, so lookups are unambiguous.
pub proof fn lemma_issue_index_agrees(issues: Seq<IssueAccount>, h: Seq<u8>, i: int)
    requires
        issues_wf(issues),
        0 <= i < issues.len(),
        issues[i].issue_hash@ == h,
    ensures
        has_issue_in(issues, h),
        issue_index_in(issues, h) == i,
        issue_in(issues, h) == issues[i],
{
    assert(has_issue_in(issues, h));
    let k = issue_index_in(issues, h);
    assert(0 <= k < issues.len() && issues[k].issue_hash@ == h);
    if k < i {
        assert(issues[k].issue_hash@ != issues[i].issue_hash@);
    } else if i < k {
        assert(issues[i].issue_hash@ != issues[k].issue_hash@);
    }
}

/// Appending a record under a fresh key keeps the user table well-formed.
pub proof fn lemma_user_push_wf(users: Seq<UserAccount>, rec: UserAccount)
    requires
        users_wf(users),
        !has_user_in(users, rec.wallet_address@),
    ensures
        users_wf(users.push(rec)),
{
    let nu = users.push(rec);
    assert forall|i: int, j: int| 0 <= i < j < nu.len() implies nu[i].wallet_address@
        != nu[j].wallet_address@ by {
        if j == users.len() {
            assert(nu[i] == users[i]);
            assert(nu[j] == rec);
            if nu[i].wallet_address@ == rec.wallet_address@ {
                assert(has_user_in(users, rec.wallet_address@));
            }
        } else {
            assert(nu[i] == users[i]);
            assert(nu[j] == users[j]);
        }
    }
}

/// Appending a record under a fresh key keeps the issue table well-formed.
pub proof fn lemma_issue_push_wf(issues: Seq<IssueAccount>, rec: IssueAccount)
    requires
        issues_wf(issues),
        !has_issue_in(issues, rec.issue_hash@),
    ensures
        issues_wf(issues.push(rec)),
{
    let ni = issues.push(rec);
    assert forall|i: int, j: int| 0 <= i < j < ni.len() implies ni[i].issue_hash@
        != ni[j].issue_hash@ by {
        if j == issues.len() {
            assert(ni[i] == issues[i]);
            assert(ni[j] == rec);
            if ni[i].issue_hash@ == rec.issue_hash@ {
                assert(has_issue_in(issues, rec.issue_hash@));
            }
        } else {
            assert(ni[i] == issues[i]);
            assert(ni[j] == issues[j]);
        }
    }
}

/// Replacing a record with one carrying the same key keeps the user table
/// well-formed.
pub proof fn lemma_user_update_wf(users: Seq<UserAccount>, i: int, rec: UserAccount)
    requires
        users_wf(users),
        0 <= i < users.len(),
        rec.wallet_address@ == users[i].wallet_address@,
    ensures
        users_wf(users.update(i, rec)),
{
    let nu = users.update(i, rec);
    assert forall|p: int, q: int| 0 <= p < q < nu.len() implies nu[p].wallet_address@
        != nu[q].wallet_address@ by {
        assert(nu[p].wallet_address@ == users[p].wallet_address@);
        assert(nu[q].wallet_address@ == users[q].wallet_address@);
    }
}

/// Replacing a record with one carrying the same key keeps the issue table
/// well-formed.
pub proof fn lemma_issue_update_wf(issues: Seq<IssueAccount>, i: int, rec: IssueAccount)
    requires
        issues_wf(issues),
        0 <= i < issues.len(),
        rec.issue_hash@ == issues[i].issue_hash@,
    ensures
        issues_wf(issues.update(i, rec)),
{
    let ni = issues.update(i, rec);
    assert forall|p: int, q: int| 0 <= p < q < ni.len() implies ni[p].issue_hash@
        != ni[q].issue_hash@ by {
        assert(ni[p].issue_hash@ == issues[p].issue_hash@);
        assert(ni[q].issue_hash@ == issues[q].issue_hash@);
    }
}

/// Compares two 32-byte record seeds.
pub fn key_eq(a: &[u8; 32], b: &[u8; 32]) -> (r: bool)
    ensures
        r == (a@ == b@),
{
    let mut i: usize = 0;
    while i < 32
        invariant
            i <= 32,
            forall|j: int| 0 <= j < i ==> a@[j] == b@[j],
        decreases 32 - i,
    {
        if a[i] != b[i] {
            return false;
        }
        i = i + 1;
    }
    proof {
        assert(a@ =~= b@);
    }
    true
}

/// The registry state: the user table and the issue table.
pub struct CivicState {
    pub users: Vec<UserAccount>,
    pub issues: Vec<IssueAccount>,
}

fn find_user(users: &Vec<UserAccount>, w: &[u8; 32]) -> (r: Option<usize>)
    requires
        users_wf(users@),
    ensures
        match r {
            Some(i) => has_user_in(users@, w@) && i == user_index_in(users@, w@) && i
                < users@.len() && users@[i as int].wallet_address@ == w@,
            None => !has_user_in(users@, w@),
        },
{
    let n = users.len();
    let mut i: usize = 0;
    while i < n
        invariant
            users_wf(users@),
            n == users@.len(),
            i <= n,
            forall|j: int| 0 <= j < i ==> users@[j].wallet_address@ != w@,
        decreases n - i,
    {
        let candidate = &users[i];
        if key_eq(&candidate.wallet_address, w) {
            proof {
                lemma_user_index_agrees(users@, w@, i as int);
            }
            return Some(i);
        }
        i = i + 1;
    }
    None
}

fn find_issue(issues: &Vec<IssueAccount>, h: &[u8; 32]) -> (r: Option<usize>)
    requires
        issues_wf(issues@),
    ensures
        match r {
            Some(i) => has_issue_in(issues@, h@) && i == issue_index_in(issues@, h@) && i
                < issues@.len() && issues@[i as int].issue_hash@ == h@,
            None => !has_issue_in(issues@, h@),
        },
{
    let n = issues.len();
    let mut i: usize = 0;
    while i < n
        invariant
            issues_wf(issues@),
            n == issues@.len(),
            i <= n,
            forall|j: int| 0 <= j < i ==> issues@[j].issue_hash@ != h@,
        decreases n - i,
    {
        let candidate = &issues[i];
        if key_eq(&candidate.issue_hash, h) {
            proof {
                lemma_issue_index_agrees(issues@, h@, i as int);
            }
            return Some(i);
        }
        i = i + 1;
    }
    None
}

impl CivicState {
    /// Both tables hold at most one record per key.
    pub open spec fn wf(self) -> bool {
        users_wf(self.users@) && issues_wf(self.issues@)
    }

    pub open spec fn spec_has_user(self, w: Seq<u8>) -> bool {
        has_user_in(self.users@, w)
    }

    pub open spec fn spec_user(self, w: Seq<u8>) -> UserAccount {
        user_in(self.users@, w)
    }

    pub open spec fn spec_has_issue(self, h: Seq<u8>) -> bool {
        has_issue_in(self.issues@, h)
    }

    pub open spec fn spec_issue(self, h: Seq<u8>) -> IssueAccount {
        issue_in(self.issues@, h)
    }

    /// Creates an empty registry.
    pub fn new() -> (r: CivicState)
        ensures
            r.wf(),
            r.users@.len() == 0,
            r.issues@.len() == 0,
    {
        CivicState { users: Vec::new(), issues: Vec::new() }
    }

    /// Reads the user record under a wallet address.
    pub fn get_user(&self, wallet_address: &[u8; 32]) -> (r: Result<UserAccount, ErrorCode>)
        requires
            self.wf(),
        ensures
            self.spec_has_user(wallet_address@) ==> r == Ok::<UserAccount, ErrorCode>(
                self.spec_user(wallet_address@),
            ),
            !self.spec_has_user(wallet_address@) ==> r == Err::<UserAccount, ErrorCode>(
                ErrorCode::NotFound,
            ),
    {
        match find_user(&self.users, wallet_address) {
            Some(i) => Ok(self.users[i]),
            None => Err(ErrorCode::NotFound),
        }
    }

    /// Reads the issue record under an issue hash.
    pub fn get_issue(&self, issue_hash: &[u8; 32]) -> (r: Result<IssueAccount, ErrorCode>)
        requires
            self.wf(),
        ensures
            self.spec_has_issue(issue_hash@) ==> r == Ok::<IssueAccount, ErrorCode>(
                self.spec_issue(issue_hash@),
            ),
            !self.spec_has_issue(issue_hash@) ==> r == Err::<IssueAccount, ErrorCode>(
                ErrorCode::NotFound,
            ),
    {
        match find_issue(&self.issues, issue_hash) {
            Some(i) => Ok(self.issues[i]),
            None => Err(ErrorCode::NotFound),
        }
    }

    /// Appends a user record; the caller must have ruled out a duplicate
    /// key, so a record is never silently overwritten.
    pub(crate) fn insert_user(&mut self, rec: UserAccount)
        requires
            old(self).wf(),
            !old(self).spec_has_user(rec.wallet_address@),
        ensures
            final(self).wf(),
            final(self).users@ == old(self).users@.push(rec),
            final(self).issues@ == old(self).issues@,
    {
        proof {
            lemma_user_push_wf(self.users@, rec);
        }
        self.users.push(rec);
    }

    /// Appends an issue record; the caller must have ruled out a duplicate
    /// key, so a record is never silently overwritten.
    pub(crate) fn insert_issue(&mut self, rec: IssueAccount)
        requires
            old(self).wf(),
            !old(self).spec_has_issue(rec.issue_hash@),
        ensures
            final(self).wf(),
            final(self).users@ == old(self).users@,
            final(self).issues@ == old(self).issues@.push(rec),
    {
        proof {
            lemma_issue_push_wf(self.issues@, rec);
        }
        self.issues.push(rec);
    }

    /// Replaces the user record under `rec`'s own key, which must exist. The
    /// whole record is written at once, so the update is atomic.
    pub(crate) fn set_user(&mut self, rec: UserAccount)
        requires
            old(self).wf(),
            old(self).spec_has_user(rec.wallet_address@),
        ensures
            final(self).wf(),
            final(self).users@ == old(self).users@.update(
                user_index_in(old(self).users@, rec.wallet_address@),
                rec,
            ),
            final(self).issues@ == old(self).issues@,
    {
        match find_user(&self.users, &rec.wallet_address) {
            Some(i) => {
                proof {
                    lemma_user_update_wf(self.users@, i as int, rec);
                }
                self.users[i] = rec;
            },
            None => {
                proof {
                    assert(false);
                }
            },
        }
    }

    /// Replaces the issue record under `rec`'s own key, which must exist.
    /// The whole record is written at once, so the update is atomic.
    pub(crate) fn set_issue(&mut self, rec: IssueAccount)
        requires
            old(self).wf(),
            old(self).spec_has_issue(rec.issue_hash@),
        ensures
            final(self).wf(),
            final(self).users@ == old(self).users@,
            final(self).issues@ == old(self).issues@.update(
                issue_index_in(old(self).issues@, rec.issue_hash@),
                rec,
            ),
    {
        match find_issue(&self.issues, &rec.issue_hash) {
            Some(i) => {
                proof {
                    lemma_issue_update_wf(self.issues@, i as int, rec);
                }
                self.issues[i] = rec;
            },
            None => {
                proof {
                    assert(false);
                }
            },
        }
    }
}

} // verus!
