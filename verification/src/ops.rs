//! The six public operations of the registry. Each one derives the target
//! record keys, loads the records it needs, checks the authorization policy,
//! applies the transition with overflow-checked counters, and commits the
//! updated records; on any failure the registry is left unchanged.
//!
//! The exact effect of each operation is a spec-level transition function
//! returning the result and both tables after the call; the executable
//! operation's contract says it realizes that transition.

use vstd::prelude::*;

use crate::addr;
use crate::addr::CANONICAL_NONCE;
use crate::arith::checked_increment;
use crate::auth;
use crate::auth::{Action, permitted};
use crate::store::{
    CivicState, has_issue_in, has_user_in, issue_in, issue_index_in, user_in, user_index_in,
};
use crate::types::{
    ErrorCode, IssueAccount, IssueCategory, IssueStatus, UserAccount, UserRole, VoteType,
};

verus! {

/// Number of verifications at which a resolved issue closes automatically.
pub const VERIFICATION_THRESHOLD: u32 = 3;

/// The effect of `initialize_user`: the result and both tables after the call.
pub open spec fn spec_initialize_user(
    users: Seq<UserAccount>,
    issues: Seq<IssueAccount>,
    user_pubkey: [u8; 32],
    initial_rep: u32,
    role: UserRole,
    now: i64,
) -> (Result<(), ErrorCode>, Seq<UserAccount>, Seq<IssueAccount>) {
    if has_user_in(users, user_pubkey@) {
        (Err(ErrorCode::AlreadyExists), users, issues)
    } else {
        let rec = UserAccount {
            wallet_address: user_pubkey,
            reputation: initial_rep,
            role: role,
            total_issues: 0,
            total_verifications: 0,
            created_at: now,
            bump: CANONICAL_NONCE,
        };
        (Ok(()), users.push(rec), issues)
    }
}

/// Creates the user record for `user_pubkey` with the given reputation and
/// role, all counters zero and `created_at = now`; fails with
/// `AlreadyExists`, leaving the registry unchanged, when the wallet already
/// has a record.
pub fn initialize_user(
    state: &mut CivicState,
    user_pubkey: [u8; 32],
    initial_rep: u32,
    role: UserRole,
    now: i64,
) -> (r: Result<(), ErrorCode>)
    requires
        old(state).wf(),
    ensures
        final(state).wf(),
        ({
            let t = spec_initialize_user(
                old(state).users@,
                old(state).issues@,
                user_pubkey,
                initial_rep,
                role,
                now,
            );
            r == t.0 && final(state).users@ == t.1 && final(state).issues@ == t.2
        }),
{
    match state.get_user(&user_pubkey) {
        Ok(_) => {
            return Err(ErrorCode::AlreadyExists);
        },
        Err(_) => {},
    }
    let (key, nonce) = addr::derive(addr::NS_USER, &user_pubkey);
    let rec = UserAccount {
        wallet_address: key.seed,
        reputation: initial_rep,
        role: role,
        total_issues: 0,
        total_verifications: 0,
        created_at: now,
        bump: nonce,
    };
    state.insert_user(rec);
    Ok(())
}

/// The effect of `create_issue`: the result and both tables after the call.
pub open spec fn spec_create_issue(
    users: Seq<UserAccount>,
    issues: Seq<IssueAccount>,
    issue_hash: [u8; 32],
    category: IssueCategory,
    priority: u8,
    reporter: [u8; 32],
    now: i64,
) -> (Result<(), ErrorCode>, Seq<UserAccount>, Seq<IssueAccount>) {
    if has_issue_in(issues, issue_hash@) {
        (Err(ErrorCode::AlreadyExists), users, issues)
    } else if !has_user_in(users, reporter@) {
        (Err(ErrorCode::NotFound), users, issues)
    } else if user_in(users, reporter@).total_issues == u32::MAX {
        (Err(ErrorCode::Overflow), users, issues)
    } else {
        let rep = user_in(users, reporter@);
        let new_rep = UserAccount {
            wallet_address: rep.wallet_address,
            reputation: rep.reputation,
            role: rep.role,
            total_issues: (rep.total_issues + 1) as u32,
            total_verifications: rep.total_verifications,
            created_at: rep.created_at,
            bump: rep.bump,
        };
        let new_issue = IssueAccount {
            issue_hash: issue_hash,
            reporter: reporter,
            status: IssueStatus::Open,
            category: category,
            priority: priority,
            upvotes: 0,
            downvotes: 0,
            verifications: 0,
            created_at: now,
            updated_at: now,
            bump: CANONICAL_NONCE,
        };
        (
            Ok(()),
            users.update(user_index_in(users, reporter@), new_rep),
            issues.push(new_issue),
        )
    }
}

/// Creates the issue record for `issue_hash` (status `Open`, counters zero,
/// both timestamps `now`) and increments the reporter's issue counter. Fails
/// with `AlreadyExists` on a duplicate hash, `NotFound` when the reporter
/// has no user record, and `Overflow` when the reporter's counter is
/// saturated; any failure leaves the registry unchanged.
pub fn create_issue(
    state: &mut CivicState,
    issue_hash: [u8; 32],
    category: IssueCategory,
    priority: u8,
    reporter: [u8; 32],
    now: i64,
) -> (r: Result<(), ErrorCode>)
    requires
        old(state).wf(),
    ensures
        final(state).wf(),
        ({
            let t = spec_create_issue(
                old(state).users@,
                old(state).issues@,
                issue_hash,
                category,
                priority,
                reporter,
                now,
            );
            r == t.0 && final(state).users@ == t.1 && final(state).issues@ == t.2
        }),
{
    match state.get_issue(&issue_hash) {
        Ok(_) => {
            return Err(ErrorCode::AlreadyExists);
        },
        Err(_) => {},
    }
    let reporter_rec = match state.get_user(&reporter) {
        Ok(u) => u,
        Err(e) => {
            return Err(e);
        },
    };
    match auth::authorize(&reporter_rec, Action::CreateIssue) {
        Ok(_) => {},
        Err(e) => {
            return Err(e);
        },
    }
    let new_total = match checked_increment(reporter_rec.total_issues) {
        Ok(v) => v,
        Err(e) => {
            return Err(e);
        },
    };
    let (key, nonce) = addr::derive(addr::NS_ISSUE, &issue_hash);
    let issue_rec = IssueAccount {
        issue_hash: key.seed,
        reporter: reporter,
        status: IssueStatus::Open,
        category: category,
        priority: priority,
        upvotes: 0,
        downvotes: 0,
        verifications: 0,
        created_at: now,
        updated_at: now,
        bump: nonce,
    };
    let updated_reporter = UserAccount {
        wallet_address: reporter_rec.wallet_address,
        reputation: reporter_rec.reputation,
        role: reporter_rec.role,
        total_issues: new_total,
        total_verifications: reporter_rec.total_verifications,
        created_at: reporter_rec.created_at,
        bump: reporter_rec.bump,
    };
    state.insert_issue(issue_rec);
    state.set_user(updated_reporter);
    Ok(())
}

/// The effect of `record_vote`: the result and both tables after the call.
pub open spec fn spec_record_vote(
    users: Seq<UserAccount>,
    issues: Seq<IssueAccount>,
    issue_hash: [u8; 32],
    vote_type: VoteType,
    voter: [u8; 32],
    now: i64,
) -> (Result<(), ErrorCode>, Seq<UserAccount>, Seq<IssueAccount>) {
    if !has_issue_in(issues, issue_hash@) {
        (Err(ErrorCode::NotFound), users, issues)
    } else if !has_user_in(users, voter@) {
        (Err(ErrorCode::NotFound), users, issues)
    } else {
        let iss = issue_in(issues, issue_hash@);
        let counter = if vote_type is Upvote {
            iss.upvotes
        } else {
            iss.downvotes
        };
        if counter == u32::MAX {
            (Err(ErrorCode::Overflow), users, issues)
        } else {
            let new_iss = IssueAccount {
                issue_hash: iss.issue_hash,
                reporter: iss.reporter,
                status: iss.status,
                category: iss.category,
                priority: iss.priority,
                upvotes: if vote_type is Upvote {
                    (iss.upvotes + 1) as u32
                } else {
                    iss.upvotes
                },
                downvotes: if vote_type is Downvote {
                    (iss.downvotes + 1) as u32
                } else {
                    iss.downvotes
                },
                verifications: iss.verifications,
                created_at: iss.created_at,
                updated_at: now,
                bump: iss.bump,
            };
            (Ok(()), users, issues.update(issue_index_in(issues, issue_hash@), new_iss))
        }
    }
}

/// Increments the up- or downvote counter of the issue under `issue_hash`
/// and refreshes `updated_at`. Any existing user may vote, the reporter
/// included. Fails with `NotFound` when the issue or the voter is missing
/// and with `Overflow` when the counter is saturated; any failure leaves the
/// registry unchanged.
pub fn record_vote(
    state: &mut CivicState,
    issue_hash: [u8; 32],
    vote_type: VoteType,
    voter: [u8; 32],
    now: i64,
) -> (r: Result<(), ErrorCode>)
    requires
        old(state).wf(),
    ensures
        final(state).wf(),
        ({
            let t = spec_record_vote(
                old(state).users@,
                old(state).issues@,
                issue_hash,
                vote_type,
                voter,
                now,
            );
            r == t.0 && final(state).users@ == t.1 && final(state).issues@ == t.2
        }),
{
    let iss = match state.get_issue(&issue_hash) {
        Ok(i) => i,
        Err(e) => {
            return Err(e);
        },
    };
    let voter_rec = match state.get_user(&voter) {
        Ok(u) => u,
        Err(e) => {
            return Err(e);
        },
    };
    match auth::authorize(&voter_rec, Action::RecordVote) {
        Ok(_) => {},
        Err(e) => {
            return Err(e);
        },
    }
    let counter = if vote_type == VoteType::Upvote {
        iss.upvotes
    } else {
        iss.downvotes
    };
    let new_count = match checked_increment(counter) {
        Ok(v) => v,
        Err(e) => {
            return Err(e);
        },
    };
    let new_iss = IssueAccount {
        issue_hash: iss.issue_hash,
        reporter: iss.reporter,
        status: iss.status,
        category: iss.category,
        priority: iss.priority,
        upvotes: if vote_type == VoteType::Upvote {
            new_count
        } else {
            iss.upvotes
        },
        downvotes: if vote_type == VoteType::Downvote {
            new_count
        } else {
            iss.downvotes
        },
        verifications: iss.verifications,
        created_at: iss.created_at,
        updated_at: now,
        bump: iss.bump,
    };
    state.set_issue(new_iss);
    Ok(())
}

/// The effect of `record_verification`: the result and both tables after the
/// call.
pub open spec fn spec_record_verification(
    users: Seq<UserAccount>,
    issues: Seq<IssueAccount>,
    issue_hash: [u8; 32],
    verifier: [u8; 32],
    now: i64,
) -> (Result<(), ErrorCode>, Seq<UserAccount>, Seq<IssueAccount>) {
    if !has_issue_in(issues, issue_hash@) {
        (Err(ErrorCode::NotFound), users, issues)
    } else if !has_user_in(users, verifier@) {
        (Err(ErrorCode::NotFound), users, issues)
    } else if !(issue_in(issues, issue_hash@).status is Resolved) {
        (Err(ErrorCode::InvalidStatus), users, issues)
    } else if issue_in(issues, issue_hash@).verifications == u32::MAX {
        (Err(ErrorCode::Overflow), users, issues)
    } else if user_in(users, verifier@).total_verifications == u32::MAX {
        (Err(ErrorCode::Overflow), users, issues)
    } else {
        let iss = issue_in(issues, issue_hash@);
        let ver = user_in(users, verifier@);
        let new_verifications = (iss.verifications + 1) as u32;
        let new_iss = IssueAccount {
            issue_hash: iss.issue_hash,
            reporter: iss.reporter,
            status: if new_verifications >= VERIFICATION_THRESHOLD {
                IssueStatus::Closed
            } else {
                IssueStatus::Resolved
            },
            category: iss.category,
            priority: iss.priority,
            upvotes: iss.upvotes,
            downvotes: iss.downvotes,
            verifications: new_verifications,
            created_at: iss.created_at,
            updated_at: now,
            bump: iss.bump,
        };
        let new_ver = UserAccount {
            wallet_address: ver.wallet_address,
            reputation: ver.reputation,
            role: ver.role,
            total_issues: ver.total_issues,
            total_verifications: (ver.total_verifications + 1) as u32,
            created_at: ver.created_at,
            bump: ver.bump,
        };
        (
            Ok(()),
            users.update(user_index_in(users, verifier@), new_ver),
            issues.update(issue_index_in(issues, issue_hash@), new_iss),
        )
    }
}

/// Records a government-side verification of a resolved issue: increments
/// the issue's verification counter and the verifier's activity counter,
/// refreshes `updated_at`, and closes the issue once the counter reaches the
/// threshold. Fails with `NotFound` when the issue or the verifier is
/// missing, `InvalidStatus` when the issue is not `Resolved`, and `Overflow`
/// when either counter is saturated; any failure leaves the registry
/// unchanged.
pub fn record_verification(
    state: &mut CivicState,
    issue_hash: [u8; 32],
    verifier: [u8; 32],
    now: i64,
) -> (r: Result<(), ErrorCode>)
    requires
        old(state).wf(),
    ensures
        final(state).wf(),
        ({
            let t = spec_record_verification(
                old(state).users@,
                old(state).issues@,
                issue_hash,
                verifier,
                now,
            );
            r == t.0 && final(state).users@ == t.1 && final(state).issues@ == t.2
        }),
{
    let iss = match state.get_issue(&issue_hash) {
        Ok(i) => i,
        Err(e) => {
            return Err(e);
        },
    };
    let verifier_rec = match state.get_user(&verifier) {
        Ok(u) => u,
        Err(e) => {
            return Err(e);
        },
    };
    match auth::authorize(&verifier_rec, Action::RecordVerification) {
        Ok(_) => {},
        Err(e) => {
            return Err(e);
        },
    }
    if iss.status != IssueStatus::Resolved {
        return Err(ErrorCode::InvalidStatus);
    }
    let new_verifications = match checked_increment(iss.verifications) {
        Ok(v) => v,
        Err(e) => {
            return Err(e);
        },
    };
    let new_total = match checked_increment(verifier_rec.total_verifications) {
        Ok(v) => v,
        Err(e) => {
            return Err(e);
        },
    };
    let new_iss = IssueAccount {
        issue_hash: iss.issue_hash,
        reporter: iss.reporter,
        status: if new_verifications >= VERIFICATION_THRESHOLD {
            IssueStatus::Closed
        } else {
            IssueStatus::Resolved
        },
        category: iss.category,
        priority: iss.priority,
        upvotes: iss.upvotes,
        downvotes: iss.downvotes,
        verifications: new_verifications,
        created_at: iss.created_at,
        updated_at: now,
        bump: iss.bump,
    };
    let new_ver = UserAccount {
        wallet_address: verifier_rec.wallet_address,
        reputation: verifier_rec.reputation,
        role: verifier_rec.role,
        total_issues: verifier_rec.total_issues,
        total_verifications: new_total,
        created_at: verifier_rec.created_at,
        bump: verifier_rec.bump,
    };
    state.set_issue(new_iss);
    state.set_user(new_ver);
    Ok(())
}

/// The effect of `update_issue_status`: the result and both tables after the
/// call.
pub open spec fn spec_update_issue_status(
    users: Seq<UserAccount>,
    issues: Seq<IssueAccount>,
    issue_hash: [u8; 32],
    new_status: IssueStatus,
    caller: [u8; 32],
    now: i64,
) -> (Result<(), ErrorCode>, Seq<UserAccount>, Seq<IssueAccount>) {
    if !has_issue_in(issues, issue_hash@) {
        (Err(ErrorCode::NotFound), users, issues)
    } else if !has_user_in(users, caller@) {
        (Err(ErrorCode::NotFound), users, issues)
    } else if !permitted(user_in(users, caller@).role, Action::UpdateIssueStatus) {
        (Err(ErrorCode::Unauthorized), users, issues)
    } else {
        let iss = issue_in(issues, issue_hash@);
        let new_iss = IssueAccount {
            issue_hash: iss.issue_hash,
            reporter: iss.reporter,
            status: new_status,
            category: iss.category,
            priority: iss.priority,
            upvotes: iss.upvotes,
            downvotes: iss.downvotes,
            verifications: iss.verifications,
            created_at: iss.created_at,
            updated_at: now,
            bump: iss.bump,
        };
        (Ok(()), users, issues.update(issue_index_in(issues, issue_hash@), new_iss))
    }
}

/// Sets the status of the issue under `issue_hash` to exactly `new_status`
/// — no transition graph is enforced, so any status may follow any other —
/// and refreshes `updated_at`. Fails with `NotFound` when the issue or the
/// caller is missing and with `Unauthorized` when the caller's role is not
/// `Government`; any failure leaves the registry unchanged.
pub fn update_issue_status(
    state: &mut CivicState,
    issue_hash: [u8; 32],
    new_status: IssueStatus,
    caller: [u8; 32],
    now: i64,
) -> (r: Result<(), ErrorCode>)
    requires
        old(state).wf(),
    ensures
        final(state).wf(),
        ({
            let t = spec_update_issue_status(
                old(state).users@,
                old(state).issues@,
                issue_hash,
                new_status,
                caller,
                now,
            );
            r == t.0 && final(state).users@ == t.1 && final(state).issues@ == t.2
        }),
{
    let iss = match state.get_issue(&issue_hash) {
        Ok(i) => i,
        Err(e) => {
            return Err(e);
        },
    };
    let caller_rec = match state.get_user(&caller) {
        Ok(u) => u,
        Err(e) => {
            return Err(e);
        },
    };
    match auth::authorize(&caller_rec, Action::UpdateIssueStatus) {
        Ok(_) => {},
        Err(e) => {
            return Err(e);
        },
    }
    let new_iss = IssueAccount {
        issue_hash: iss.issue_hash,
        reporter: iss.reporter,
        status: new_status,
        category: iss.category,
        priority: iss.priority,
        upvotes: iss.upvotes,
        downvotes: iss.downvotes,
        verifications: iss.verifications,
        created_at: iss.created_at,
        updated_at: now,
        bump: iss.bump,
    };
    state.set_issue(new_iss);
    Ok(())
}

/// The effect of `update_reputation`: the result and both tables after the
/// call.
pub open spec fn spec_update_reputation(
    users: Seq<UserAccount>,
    issues: Seq<IssueAccount>,
    wallet_address: [u8; 32],
    new_rep: u32,
) -> (Result<(), ErrorCode>, Seq<UserAccount>, Seq<IssueAccount>) {
    if !has_user_in(users, wallet_address@) {
        (Err(ErrorCode::NotFound), users, issues)
    } else {
        let u = user_in(users, wallet_address@);
        let new_u = UserAccount {
            wallet_address: u.wallet_address,
            reputation: new_rep,
            role: u.role,
            total_issues: u.total_issues,
            total_verifications: u.total_verifications,
            created_at: u.created_at,
            bump: u.bump,
        };
        (Ok(()), users.update(user_index_in(users, wallet_address@), new_u), issues)
    }
}

/// Overwrites the reputation of the user under `wallet_address`; any
/// authenticated caller may do so, with no role or ownership check. Fails
/// with `NotFound` when the user is missing, leaving the registry unchanged.
pub fn update_reputation(
    state: &mut CivicState,
    wallet_address: [u8; 32],
    new_rep: u32,
) -> (r: Result<(), ErrorCode>)
    requires
        old(state).wf(),
    ensures
        final(state).wf(),
        ({
            let t = spec_update_reputation(
                old(state).users@,
                old(state).issues@,
                wallet_address,
                new_rep,
            );
            r == t.0 && final(state).users@ == t.1 && final(state).issues@ == t.2
        }),
{
    let u = match state.get_user(&wallet_address) {
        Ok(u) => u,
        Err(e) => {
            return Err(e);
        },
    };
    let new_u = UserAccount {
        wallet_address: u.wallet_address,
        reputation: new_rep,
        role: u.role,
        total_issues: u.total_issues,
        total_verifications: u.total_verifications,
        created_at: u.created_at,
        bump: u.bump,
    };
    state.set_user(new_u);
    Ok(())
}

} // verus!
