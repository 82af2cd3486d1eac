//! Laws of the registry, proved over the operations' spec-level transitions:
//! create-once semantics for both record kinds, the role gate on status
//! updates, the resolved-only precondition and auto-close threshold of
//! verifications, and the atomicity of every failure.

use vstd::prelude::*;

use crate::ops::{
    spec_create_issue, spec_initialize_user, spec_record_verification, spec_record_vote,
    spec_update_issue_status, spec_update_reputation,
};
use crate::store::{
    has_issue_in, has_user_in, issue_in, issue_index_in, issues_wf, lemma_issue_index_agrees,
    lemma_issue_update_wf, lemma_user_index_agrees, lemma_user_update_wf, user_in, user_index_in,
    users_wf,
};
use crate::types::{
    ErrorCode, IssueAccount, IssueCategory, IssueStatus, UserAccount, UserRole, VoteType,
};

verus! {

/// Initializing a user twice under one wallet address: whatever the first
/// call did, the second fails with `AlreadyExists` and leaves both tables —
/// the first record included — exactly as the first call left them.
pub proof fn lemma_initialize_user_create_once(
    users: Seq<UserAccount>,
    issues: Seq<IssueAccount>,
    w: [u8; 32],
    rep1: u32,
    role1: UserRole,
    t1: i64,
    rep2: u32,
    role2: UserRole,
    t2: i64,
)
    ensures
        ({
            let (r1, users1, issues1) = spec_initialize_user(users, issues, w, rep1, role1, t1);
            let (r2, users2, issues2) = spec_initialize_user(users1, issues1, w, rep2, role2, t2);
            &&& r2 == Err::<(), ErrorCode>(ErrorCode::AlreadyExists)
            &&& users2 == users1
            &&& issues2 == issues1
            &&& user_in(users2, w@) == user_in(users1, w@)
        }),
{
    let (r1, users1, issues1) = spec_initialize_user(users, issues, w, rep1, role1, t1);
    if !has_user_in(users, w@) {
        assert(users1[users.len() as int].wallet_address@ == w@);
        assert(has_user_in(users1, w@));
    }
}

/// Creating an issue is idempotent-safe: after a successful `create_issue`
/// for a hash, a second call with the same hash fails with `AlreadyExists`
/// and leaves both tables — the original record's fields included — exactly
/// as the first call left them.
pub proof fn lemma_create_issue_create_once(
    users: Seq<UserAccount>,
    issues: Seq<IssueAccount>,
    h: [u8; 32],
    cat1: IssueCategory,
    pri1: u8,
    rep1: [u8; 32],
    t1: i64,
    cat2: IssueCategory,
    pri2: u8,
    rep2: [u8; 32],
    t2: i64,
)
    requires
        spec_create_issue(users, issues, h, cat1, pri1, rep1, t1).0 is Ok,
    ensures
        ({
            let (r1, users1, issues1) = spec_create_issue(users, issues, h, cat1, pri1, rep1, t1);
            let (r2, users2, issues2) = spec_create_issue(users1, issues1, h, cat2, pri2, rep2, t2);
            &&& r2 == Err::<(), ErrorCode>(ErrorCode::AlreadyExists)
            &&& users2 == users1
            &&& issues2 == issues1
            &&& issue_in(issues2, h@) == issue_in(issues1, h@)
        }),
{
    let (r1, users1, issues1) = spec_create_issue(users, issues, h, cat1, pri1, rep1, t1);
    assert(issues1[issues.len() as int].issue_hash@ == h@);
    assert(has_issue_in(issues1, h@));
}

/// A verification on an issue whose status is not `Resolved` fails with
/// `InvalidStatus` and leaves both tables — the verification counter
/// included — unchanged.
pub proof fn lemma_verification_requires_resolved(
    users: Seq<UserAccount>,
    issues: Seq<IssueAccount>,
    h: [u8; 32],
    verifier: [u8; 32],
    t: i64,
)
    requires
        has_issue_in(issues, h@),
        has_user_in(users, verifier@),
        !(issue_in(issues, h@).status is Resolved),
    ensures
        ({
            let (r, users2, issues2) = spec_record_verification(users, issues, h, verifier, t);
            &&& r == Err::<(), ErrorCode>(ErrorCode::InvalidStatus)
            &&& users2 == users
            &&& issues2 == issues
        }),
{
}

/// One more verification on a resolved issue holding two of them succeeds,
/// sets the counter to three, and closes the issue; the verifier's own
/// counter moves up by one.
pub proof fn lemma_verification_auto_close(
    users: Seq<UserAccount>,
    issues: Seq<IssueAccount>,
    h: [u8; 32],
    verifier: [u8; 32],
    t: i64,
)
    requires
        users_wf(users),
        issues_wf(issues),
        has_issue_in(issues, h@),
        issue_in(issues, h@).status is Resolved,
        issue_in(issues, h@).verifications == 2,
        has_user_in(users, verifier@),
        user_in(users, verifier@).total_verifications < u32::MAX,
    ensures
        ({
            let (r, users2, issues2) = spec_record_verification(users, issues, h, verifier, t);
            &&& r == Ok::<(), ErrorCode>(())
            &&& issue_in(issues2, h@).verifications == 3
            &&& issue_in(issues2, h@).status is Closed
            &&& user_in(users2, verifier@).total_verifications == user_in(
                users,
                verifier@,
            ).total_verifications + 1
        }),
{
    let (r, users2, issues2) = spec_record_verification(users, issues, h, verifier, t);
    let ii = issue_index_in(issues, h@);
    assert(0 <= ii < issues.len() && issues[ii].issue_hash@ == h@);
    lemma_issue_update_wf(issues, ii, issues2[ii]);
    lemma_issue_index_agrees(issues2, h@, ii);
    let vi = user_index_in(users, verifier@);
    assert(0 <= vi < users.len() && users[vi].wallet_address@ == verifier@);
    lemma_user_update_wf(users, vi, users2[vi]);
    lemma_user_index_agrees(users2, verifier@, vi);
}

/// A status update is gated on the caller's role alone: a citizen is turned
/// away with `Unauthorized` and changes nothing, while a government caller
/// sets the status exactly as requested — any status may follow any other —
/// touching nothing on the record but the status and `updated_at`, and no
/// other record at all.
pub proof fn lemma_status_update_role_gate(
    users: Seq<UserAccount>,
    issues: Seq<IssueAccount>,
    h: [u8; 32],
    new_status: IssueStatus,
    caller: [u8; 32],
    t: i64,
)
    requires
        users_wf(users),
        issues_wf(issues),
        has_issue_in(issues, h@),
        has_user_in(users, caller@),
    ensures
        ({
            let (r, users2, issues2) = spec_update_issue_status(
                users,
                issues,
                h,
                new_status,
                caller,
                t,
            );
            let old_iss = issue_in(issues, h@);
            let new_iss = issue_in(issues2, h@);
            &&& user_in(users, caller@).role is Citizen ==> {
                &&& r == Err::<(), ErrorCode>(ErrorCode::Unauthorized)
                &&& users2 == users
                &&& issues2 == issues
            }
            &&& user_in(users, caller@).role is Government ==> {
                &&& r == Ok::<(), ErrorCode>(())
                &&& users2 == users
                &&& new_iss.status == new_status
                &&& new_iss.updated_at == t
                &&& new_iss.issue_hash == old_iss.issue_hash
                &&& new_iss.reporter == old_iss.reporter
                &&& new_iss.category == old_iss.category
                &&& new_iss.priority == old_iss.priority
                &&& new_iss.upvotes == old_iss.upvotes
                &&& new_iss.downvotes == old_iss.downvotes
                &&& new_iss.verifications == old_iss.verifications
                &&& new_iss.created_at == old_iss.created_at
                &&& new_iss.bump == old_iss.bump
                &&& forall|k: int|
                    0 <= k < issues.len() && k != issue_index_in(issues, h@) ==> issues2[k]
                        == issues[k]
            }
        }),
{
    let (r, users2, issues2) = spec_update_issue_status(users, issues, h, new_status, caller, t);
    if user_in(users, caller@).role is Government {
        let ii = issue_index_in(issues, h@);
        assert(0 <= ii < issues.len() && issues[ii].issue_hash@ == h@);
        lemma_issue_update_wf(issues, ii, issues2[ii]);
        lemma_issue_index_agrees(issues2, h@, ii);
    }
}

/// How a user record may lawfully evolve: identity, role, creation time and
/// nonce are fixed at initialization, and the activity counters never
/// decrease. Reputation is externally settable and free to move either way.
pub open spec fn user_evolves(u1: UserAccount, u2: UserAccount) -> bool {
    &&& u2.wallet_address == u1.wallet_address
    &&& u2.role == u1.role
    &&& u2.created_at == u1.created_at
    &&& u2.bump == u1.bump
    &&& u2.total_issues >= u1.total_issues
    &&& u2.total_verifications >= u1.total_verifications
}

/// How an issue record may lawfully evolve: identity, reporter, category,
/// priority, creation time and nonce are fixed at creation, and the three
/// counters never decrease. Status and `updated_at` are free to move.
pub open spec fn issue_evolves(i1: IssueAccount, i2: IssueAccount) -> bool {
    &&& i2.issue_hash == i1.issue_hash
    &&& i2.reporter == i1.reporter
    &&& i2.category == i1.category
    &&& i2.priority == i1.priority
    &&& i2.created_at == i1.created_at
    &&& i2.bump == i1.bump
    &&& i2.upvotes >= i1.upvotes
    &&& i2.downvotes >= i1.downvotes
    &&& i2.verifications >= i1.verifications
}

/// Records are never deleted, and every record that existed before a step
/// still evolves lawfully after it.
pub open spec fn tables_evolve(
    users: Seq<UserAccount>,
    issues: Seq<IssueAccount>,
    users2: Seq<UserAccount>,
    issues2: Seq<IssueAccount>,
) -> bool {
    &&& users2.len() >= users.len()
    &&& issues2.len() >= issues.len()
    &&& forall|k: int| 0 <= k < users.len() ==> user_evolves(users[k], users2[k])
    &&& forall|k: int| 0 <= k < issues.len() ==> issue_evolves(issues[k], issues2[k])
}

/// `initialize_user` deletes nothing and leaves every existing record's
/// fixed fields and counters intact.
pub proof fn lemma_initialize_user_evolves(
    users: Seq<UserAccount>,
    issues: Seq<IssueAccount>,
    w: [u8; 32],
    rep: u32,
    role: UserRole,
    t: i64,
)
    ensures
        ({
            let (r, users2, issues2) = spec_initialize_user(users, issues, w, rep, role, t);
            tables_evolve(users, issues, users2, issues2)
        }),
{
}

/// `create_issue` deletes nothing, never decreases a counter, and changes no
/// field of any user record but the reporter's issue counter.
pub proof fn lemma_create_issue_evolves(
    users: Seq<UserAccount>,
    issues: Seq<IssueAccount>,
    h: [u8; 32],
    category: IssueCategory,
    priority: u8,
    reporter: [u8; 32],
    t: i64,
)
    ensures
        ({
            let (r, users2, issues2) = spec_create_issue(
                users,
                issues,
                h,
                category,
                priority,
                reporter,
                t,
            );
            tables_evolve(users, issues, users2, issues2)
        }),
{
}

/// `record_vote` deletes nothing and never decreases a counter.
pub proof fn lemma_record_vote_evolves(
    users: Seq<UserAccount>,
    issues: Seq<IssueAccount>,
    h: [u8; 32],
    vote_type: VoteType,
    voter: [u8; 32],
    t: i64,
)
    ensures
        ({
            let (r, users2, issues2) = spec_record_vote(users, issues, h, vote_type, voter, t);
            tables_evolve(users, issues, users2, issues2)
        }),
{
}

/// `record_verification` deletes nothing and never decreases a counter.
pub proof fn lemma_record_verification_evolves(
    users: Seq<UserAccount>,
    issues: Seq<IssueAccount>,
    h: [u8; 32],
    verifier: [u8; 32],
    t: i64,
)
    ensures
        ({
            let (r, users2, issues2) = spec_record_verification(users, issues, h, verifier, t);
            tables_evolve(users, issues, users2, issues2)
        }),
{
}

/// `update_issue_status` deletes nothing and touches no field of any record
/// but the target issue's status and `updated_at`.
pub proof fn lemma_update_issue_status_evolves(
    users: Seq<UserAccount>,
    issues: Seq<IssueAccount>,
    h: [u8; 32],
    new_status: IssueStatus,
    caller: [u8; 32],
    t: i64,
)
    ensures
        ({
            let (r, users2, issues2) = spec_update_issue_status(
                users,
                issues,
                h,
                new_status,
                caller,
                t,
            );
            tables_evolve(users, issues, users2, issues2)
        }),
{
}

/// `update_reputation` deletes nothing and touches no field of any record
/// but the target user's reputation.
pub proof fn lemma_update_reputation_evolves(
    users: Seq<UserAccount>,
    issues: Seq<IssueAccount>,
    w: [u8; 32],
    new_rep: u32,
)
    ensures
        ({
            let (r, users2, issues2) = spec_update_reputation(users, issues, w, new_rep);
            tables_evolve(users, issues, users2, issues2)
        }),
{
}

/// A failed `initialize_user` leaves both tables unchanged.
pub proof fn lemma_initialize_user_failure_unchanged(
    users: Seq<UserAccount>,
    issues: Seq<IssueAccount>,
    w: [u8; 32],
    rep: u32,
    role: UserRole,
    t: i64,
)
    ensures
        ({
            let (r, users2, issues2) = spec_initialize_user(users, issues, w, rep, role, t);
            r is Err ==> users2 == users && issues2 == issues
        }),
{
}

/// A failed `create_issue` leaves both tables unchanged: in particular, a
/// reporter counter already at the maximum stays there.
pub proof fn lemma_create_issue_failure_unchanged(
    users: Seq<UserAccount>,
    issues: Seq<IssueAccount>,
    h: [u8; 32],
    category: IssueCategory,
    priority: u8,
    reporter: [u8; 32],
    t: i64,
)
    ensures
        ({
            let (r, users2, issues2) = spec_create_issue(
                users,
                issues,
                h,
                category,
                priority,
                reporter,
                t,
            );
            r is Err ==> users2 == users && issues2 == issues
        }),
{
}

/// A failed `record_vote` leaves both tables unchanged: in particular, a
/// vote counter already at the maximum stays there.
pub proof fn lemma_record_vote_failure_unchanged(
    users: Seq<UserAccount>,
    issues: Seq<IssueAccount>,
    h: [u8; 32],
    vote_type: VoteType,
    voter: [u8; 32],
    t: i64,
)
    ensures
        ({
            let (r, users2, issues2) = spec_record_vote(users, issues, h, vote_type, voter, t);
            r is Err ==> users2 == users && issues2 == issues
        }),
{
}

/// A failed `record_verification` leaves both tables unchanged: in
/// particular, a saturated counter stays at the maximum.
pub proof fn lemma_record_verification_failure_unchanged(
    users: Seq<UserAccount>,
    issues: Seq<IssueAccount>,
    h: [u8; 32],
    verifier: [u8; 32],
    t: i64,
)
    ensures
        ({
            let (r, users2, issues2) = spec_record_verification(users, issues, h, verifier, t);
            r is Err ==> users2 == users && issues2 == issues
        }),
{
}

/// A failed `update_issue_status` leaves both tables unchanged.
pub proof fn lemma_update_issue_status_failure_unchanged(
    users: Seq<UserAccount>,
    issues: Seq<IssueAccount>,
    h: [u8; 32],
    new_status: IssueStatus,
    caller: [u8; 32],
    t: i64,
)
    ensures
        ({
            let (r, users2, issues2) = spec_update_issue_status(
                users,
                issues,
                h,
                new_status,
                caller,
                t,
            );
            r is Err ==> users2 == users && issues2 == issues
        }),
{
}

/// A failed `update_reputation` leaves both tables unchanged.
pub proof fn lemma_update_reputation_failure_unchanged(
    users: Seq<UserAccount>,
    issues: Seq<IssueAccount>,
    w: [u8; 32],
    new_rep: u32,
)
    ensures
        ({
            let (r, users2, issues2) = spec_update_reputation(users, issues, w, new_rep);
            r is Err ==> users2 == users && issues2 == issues
        }),
{
}

} // verus!
