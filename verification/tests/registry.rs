use civicchain::addr;
use civicchain::arith::checked_increment;
use civicchain::auth;
use civicchain::auth::Action;
use civicchain::ops::{
    create_issue, initialize_user, record_verification, record_vote, update_issue_status,
    update_reputation,
};
use civicchain::store::{key_eq, CivicState};
use civicchain::types::{
    ErrorCode, IssueAccount, IssueCategory, IssueStatus, UserAccount, UserRole, VoteType,
};

fn key(tag: u8) -> [u8; 32] {
    let mut k = [0u8; 32];
    k[0] = tag;
    k
}

fn user_of(s: &CivicState, w: &[u8; 32]) -> UserAccount {
    s.get_user(w).expect("user record should exist")
}

fn issue_of(s: &CivicState, h: &[u8; 32]) -> IssueAccount {
    s.get_issue(h).expect("issue record should exist")
}

#[test]
fn checked_increment_counts_up() {
    assert_eq!(checked_increment(0), Ok(1));
    assert_eq!(checked_increment(41), Ok(42));
    assert_eq!(checked_increment(u32::MAX - 1), Ok(u32::MAX));
}

#[test]
fn checked_increment_fails_at_max() {
    assert_eq!(checked_increment(u32::MAX), Err(ErrorCode::Overflow));
}

#[test]
fn derive_is_deterministic_and_namespaced() {
    let seed = key(7);
    let (k1, n1) = addr::derive(addr::NS_USER, &seed);
    let (k2, n2) = addr::derive(addr::NS_USER, &seed);
    assert_eq!(k1, k2);
    assert_eq!(n1, n2);
    assert_eq!(n1, addr::CANONICAL_NONCE);
    let (k3, _) = addr::derive(addr::NS_ISSUE, &seed);
    assert_ne!(k1, k3);
}

#[test]
fn key_eq_compares_all_bytes() {
    let a = key(1);
    let b = key(1);
    let mut c = key(1);
    c[31] = 9;
    assert!(key_eq(&a, &b));
    assert!(!key_eq(&a, &c));
}

#[test]
fn authorize_gates_only_status_updates() {
    let mut s = CivicState::new();
    initialize_user(&mut s, key(1), 0, UserRole::Citizen, 10).unwrap();
    initialize_user(&mut s, key(2), 0, UserRole::Government, 10).unwrap();
    let citizen = user_of(&s, &key(1));
    let gov = user_of(&s, &key(2));
    assert_eq!(
        auth::authorize(&citizen, Action::UpdateIssueStatus),
        Err(ErrorCode::Unauthorized)
    );
    assert_eq!(auth::authorize(&gov, Action::UpdateIssueStatus), Ok(()));
    assert_eq!(auth::authorize(&citizen, Action::CreateIssue), Ok(()));
    assert_eq!(auth::authorize(&citizen, Action::RecordVote), Ok(()));
    assert_eq!(auth::authorize(&citizen, Action::RecordVerification), Ok(()));
    assert_eq!(auth::authorize(&citizen, Action::UpdateReputation), Ok(()));
    assert_eq!(auth::authorize(&citizen, Action::InitializeUser), Ok(()));
}

#[test]
fn initialize_user_sets_all_fields() {
    let mut s = CivicState::new();
    assert_eq!(initialize_user(&mut s, key(1), 7, UserRole::Government, 99), Ok(()));
    let u = user_of(&s, &key(1));
    assert_eq!(u.wallet_address, key(1));
    assert_eq!(u.reputation, 7);
    assert_eq!(u.role, UserRole::Government);
    assert_eq!(u.total_issues, 0);
    assert_eq!(u.total_verifications, 0);
    assert_eq!(u.created_at, 99);
    assert_eq!(u.bump, addr::CANONICAL_NONCE);
}

#[test]
fn initialize_user_twice_fails_and_keeps_first_record() {
    let mut s = CivicState::new();
    assert_eq!(initialize_user(&mut s, key(1), 3, UserRole::Citizen, 50), Ok(()));
    let before = user_of(&s, &key(1));
    assert_eq!(
        initialize_user(&mut s, key(1), 200, UserRole::Government, 60),
        Err(ErrorCode::AlreadyExists)
    );
    let after = user_of(&s, &key(1));
    assert_eq!(before, after);
    assert_eq!(s.users.len(), 1);
}

#[test]
fn get_user_misses_with_not_found() {
    let s = CivicState::new();
    assert_eq!(s.get_user(&key(1)), Err(ErrorCode::NotFound));
    assert_eq!(s.get_issue(&key(1)), Err(ErrorCode::NotFound));
}

#[test]
fn create_issue_sets_all_fields_and_counts_reporter() {
    let mut s = CivicState::new();
    initialize_user(&mut s, key(1), 0, UserRole::Citizen, 10).unwrap();
    assert_eq!(
        create_issue(&mut s, key(9), IssueCategory::Garbage, 4, key(1), 20),
        Ok(())
    );
    let i = issue_of(&s, &key(9));
    assert_eq!(i.issue_hash, key(9));
    assert_eq!(i.reporter, key(1));
    assert_eq!(i.status, IssueStatus::Open);
    assert_eq!(i.category, IssueCategory::Garbage);
    assert_eq!(i.priority, 4);
    assert_eq!(i.upvotes, 0);
    assert_eq!(i.downvotes, 0);
    assert_eq!(i.verifications, 0);
    assert_eq!(i.created_at, 20);
    assert_eq!(i.updated_at, 20);
    assert_eq!(i.bump, addr::CANONICAL_NONCE);
    assert_eq!(user_of(&s, &key(1)).total_issues, 1);
}

#[test]
fn create_issue_twice_fails_and_keeps_original() {
    let mut s = CivicState::new();
    initialize_user(&mut s, key(1), 0, UserRole::Citizen, 10).unwrap();
    initialize_user(&mut s, key(2), 0, UserRole::Citizen, 10).unwrap();
    create_issue(&mut s, key(9), IssueCategory::Pothole, 5, key(1), 20).unwrap();
    let before = issue_of(&s, &key(9));
    assert_eq!(
        create_issue(&mut s, key(9), IssueCategory::Water, 1, key(2), 30),
        Err(ErrorCode::AlreadyExists)
    );
    let after = issue_of(&s, &key(9));
    assert_eq!(before, after);
    // the second reporter's counter did not move either
    assert_eq!(user_of(&s, &key(2)).total_issues, 0);
}

#[test]
fn create_issue_unknown_reporter_fails() {
    let mut s = CivicState::new();
    assert_eq!(
        create_issue(&mut s, key(9), IssueCategory::Other, 0, key(1), 20),
        Err(ErrorCode::NotFound)
    );
    assert_eq!(s.issues.len(), 0);
}

#[test]
fn create_issue_overflow_leaves_counter_at_max() {
    let mut s = CivicState::new();
    initialize_user(&mut s, key(1), 0, UserRole::Citizen, 10).unwrap();
    s.users[0].total_issues = u32::MAX;
    assert_eq!(
        create_issue(&mut s, key(9), IssueCategory::Other, 0, key(1), 20),
        Err(ErrorCode::Overflow)
    );
    assert_eq!(user_of(&s, &key(1)).total_issues, u32::MAX);
    assert_eq!(s.issues.len(), 0);
}

#[test]
fn record_vote_counts_each_direction() {
    let mut s = CivicState::new();
    initialize_user(&mut s, key(1), 0, UserRole::Citizen, 10).unwrap();
    create_issue(&mut s, key(9), IssueCategory::Streetlight, 2, key(1), 20).unwrap();
    assert_eq!(record_vote(&mut s, key(9), VoteType::Upvote, key(1), 21), Ok(()));
    assert_eq!(record_vote(&mut s, key(9), VoteType::Upvote, key(1), 22), Ok(()));
    assert_eq!(record_vote(&mut s, key(9), VoteType::Downvote, key(1), 23), Ok(()));
    let i = issue_of(&s, &key(9));
    assert_eq!(i.upvotes, 2);
    assert_eq!(i.downvotes, 1);
    assert_eq!(i.updated_at, 23);
}

#[test]
fn record_vote_missing_issue_or_voter_fails() {
    let mut s = CivicState::new();
    initialize_user(&mut s, key(1), 0, UserRole::Citizen, 10).unwrap();
    assert_eq!(
        record_vote(&mut s, key(9), VoteType::Upvote, key(1), 21),
        Err(ErrorCode::NotFound)
    );
    create_issue(&mut s, key(9), IssueCategory::Water, 2, key(1), 20).unwrap();
    assert_eq!(
        record_vote(&mut s, key(9), VoteType::Upvote, key(2), 21),
        Err(ErrorCode::NotFound)
    );
    assert_eq!(issue_of(&s, &key(9)).upvotes, 0);
}

#[test]
fn record_vote_overflow_leaves_counter_at_max() {
    let mut s = CivicState::new();
    initialize_user(&mut s, key(1), 0, UserRole::Citizen, 10).unwrap();
    create_issue(&mut s, key(9), IssueCategory::Water, 2, key(1), 20).unwrap();
    s.issues[0].upvotes = u32::MAX;
    assert_eq!(
        record_vote(&mut s, key(9), VoteType::Upvote, key(1), 21),
        Err(ErrorCode::Overflow)
    );
    let i = issue_of(&s, &key(9));
    assert_eq!(i.upvotes, u32::MAX);
    assert_eq!(i.updated_at, 20);
    // the other counter is still free to move
    assert_eq!(record_vote(&mut s, key(9), VoteType::Downvote, key(1), 22), Ok(()));
    assert_eq!(issue_of(&s, &key(9)).downvotes, 1);
}

#[test]
fn record_verification_outside_resolved_fails() {
    let mut s = CivicState::new();
    initialize_user(&mut s, key(1), 0, UserRole::Citizen, 10).unwrap();
    create_issue(&mut s, key(9), IssueCategory::Pothole, 5, key(1), 20).unwrap();
    // status is Open
    assert_eq!(
        record_verification(&mut s, key(9), key(1), 21),
        Err(ErrorCode::InvalidStatus)
    );
    assert_eq!(issue_of(&s, &key(9)).verifications, 0);
    assert_eq!(user_of(&s, &key(1)).total_verifications, 0);
    // Closed issues are rejected the same way
    s.issues[0].status = IssueStatus::Closed;
    assert_eq!(
        record_verification(&mut s, key(9), key(1), 22),
        Err(ErrorCode::InvalidStatus)
    );
}

#[test]
fn record_verification_overflow_leaves_counters_at_max() {
    let mut s = CivicState::new();
    initialize_user(&mut s, key(1), 0, UserRole::Citizen, 10).unwrap();
    create_issue(&mut s, key(9), IssueCategory::Pothole, 5, key(1), 20).unwrap();
    s.issues[0].status = IssueStatus::Resolved;
    s.issues[0].verifications = u32::MAX;
    assert_eq!(
        record_verification(&mut s, key(9), key(1), 21),
        Err(ErrorCode::Overflow)
    );
    assert_eq!(issue_of(&s, &key(9)).verifications, u32::MAX);
    assert_eq!(user_of(&s, &key(1)).total_verifications, 0);
}

#[test]
fn record_verification_verifier_counter_overflow_is_atomic() {
    let mut s = CivicState::new();
    initialize_user(&mut s, key(1), 0, UserRole::Citizen, 10).unwrap();
    create_issue(&mut s, key(9), IssueCategory::Pothole, 5, key(1), 20).unwrap();
    s.issues[0].status = IssueStatus::Resolved;
    s.users[0].total_verifications = u32::MAX;
    assert_eq!(
        record_verification(&mut s, key(9), key(1), 21),
        Err(ErrorCode::Overflow)
    );
    // neither record moved: no partial increment of the issue counter
    assert_eq!(issue_of(&s, &key(9)).verifications, 0);
    assert_eq!(issue_of(&s, &key(9)).status, IssueStatus::Resolved);
    assert_eq!(user_of(&s, &key(1)).total_verifications, u32::MAX);
}

#[test]
fn third_verification_closes_the_issue() {
    let mut s = CivicState::new();
    initialize_user(&mut s, key(1), 0, UserRole::Citizen, 10).unwrap();
    create_issue(&mut s, key(9), IssueCategory::Pothole, 5, key(1), 20).unwrap();
    s.issues[0].status = IssueStatus::Resolved;
    s.issues[0].verifications = 2;
    assert_eq!(record_verification(&mut s, key(9), key(1), 21), Ok(()));
    let i = issue_of(&s, &key(9));
    assert_eq!(i.verifications, 3);
    assert_eq!(i.status, IssueStatus::Closed);
    assert_eq!(i.updated_at, 21);
    assert_eq!(user_of(&s, &key(1)).total_verifications, 1);
    // once closed, further verifications are rejected by the resolved-only rule
    assert_eq!(
        record_verification(&mut s, key(9), key(1), 22),
        Err(ErrorCode::InvalidStatus)
    );
    assert_eq!(issue_of(&s, &key(9)).verifications, 3);
}

#[test]
fn update_issue_status_requires_government() {
    let mut s = CivicState::new();
    initialize_user(&mut s, key(1), 0, UserRole::Citizen, 10).unwrap();
    initialize_user(&mut s, key(2), 0, UserRole::Government, 10).unwrap();
    create_issue(&mut s, key(9), IssueCategory::Garbage, 1, key(1), 20).unwrap();
    assert_eq!(
        update_issue_status(&mut s, key(9), IssueStatus::Resolved, key(1), 21),
        Err(ErrorCode::Unauthorized)
    );
    assert_eq!(issue_of(&s, &key(9)).status, IssueStatus::Open);
    assert_eq!(
        update_issue_status(&mut s, key(9), IssueStatus::Resolved, key(2), 22),
        Ok(())
    );
    let i = issue_of(&s, &key(9));
    assert_eq!(i.status, IssueStatus::Resolved);
    assert_eq!(i.updated_at, 22);
}

#[test]
fn update_issue_status_allows_backward_transitions() {
    let mut s = CivicState::new();
    initialize_user(&mut s, key(1), 0, UserRole::Citizen, 10).unwrap();
    initialize_user(&mut s, key(2), 0, UserRole::Government, 10).unwrap();
    create_issue(&mut s, key(9), IssueCategory::Garbage, 1, key(1), 20).unwrap();
    update_issue_status(&mut s, key(9), IssueStatus::Closed, key(2), 21).unwrap();
    assert_eq!(issue_of(&s, &key(9)).status, IssueStatus::Closed);
    // no transition graph: closed may reopen
    assert_eq!(
        update_issue_status(&mut s, key(9), IssueStatus::Open, key(2), 22),
        Ok(())
    );
    assert_eq!(issue_of(&s, &key(9)).status, IssueStatus::Open);
}

#[test]
fn update_issue_status_missing_records_fail() {
    let mut s = CivicState::new();
    initialize_user(&mut s, key(2), 0, UserRole::Government, 10).unwrap();
    assert_eq!(
        update_issue_status(&mut s, key(9), IssueStatus::Open, key(2), 21),
        Err(ErrorCode::NotFound)
    );
    initialize_user(&mut s, key(1), 0, UserRole::Citizen, 10).unwrap();
    create_issue(&mut s, key(9), IssueCategory::Other, 1, key(1), 20).unwrap();
    assert_eq!(
        update_issue_status(&mut s, key(9), IssueStatus::Open, key(3), 21),
        Err(ErrorCode::NotFound)
    );
}

#[test]
fn update_reputation_overwrites_without_role_check() {
    let mut s = CivicState::new();
    initialize_user(&mut s, key(1), 5, UserRole::Citizen, 10).unwrap();
    assert_eq!(update_reputation(&mut s, key(1), 1000), Ok(()));
    let u = user_of(&s, &key(1));
    assert_eq!(u.reputation, 1000);
    // everything else stays
    assert_eq!(u.role, UserRole::Citizen);
    assert_eq!(u.created_at, 10);
    // reputation may also go down: it is an overwrite, not a counter
    assert_eq!(update_reputation(&mut s, key(1), 0), Ok(()));
    assert_eq!(user_of(&s, &key(1)).reputation, 0);
}

#[test]
fn update_reputation_missing_user_fails() {
    let mut s = CivicState::new();
    assert_eq!(update_reputation(&mut s, key(1), 3), Err(ErrorCode::NotFound));
}

#[test]
fn full_lifecycle_scenario() {
    let mut s = CivicState::new();
    let a = key(1);
    let b = key(2);
    let c = key(3);
    let g = key(4);
    let v1 = key(5);
    let v2 = key(6);
    let v3 = key(7);
    let h = key(9);
    initialize_user(&mut s, a, 0, UserRole::Citizen, 10).unwrap();
    initialize_user(&mut s, b, 0, UserRole::Citizen, 10).unwrap();
    initialize_user(&mut s, c, 0, UserRole::Citizen, 10).unwrap();
    initialize_user(&mut s, g, 0, UserRole::Government, 10).unwrap();
    initialize_user(&mut s, v1, 0, UserRole::Citizen, 10).unwrap();
    initialize_user(&mut s, v2, 0, UserRole::Citizen, 10).unwrap();
    initialize_user(&mut s, v3, 0, UserRole::Citizen, 10).unwrap();

    // A reports a pothole at priority 5
    create_issue(&mut s, h, IssueCategory::Pothole, 5, a, 20).unwrap();
    let i = issue_of(&s, &h);
    assert_eq!(i.status, IssueStatus::Open);
    assert_eq!(i.upvotes, 0);
    assert_eq!(user_of(&s, &a).total_issues, 1);

    // two citizens upvote
    record_vote(&mut s, h, VoteType::Upvote, b, 21).unwrap();
    record_vote(&mut s, h, VoteType::Upvote, c, 22).unwrap();
    assert_eq!(issue_of(&s, &h).upvotes, 2);

    // the government marks it resolved
    update_issue_status(&mut s, h, IssueStatus::Resolved, g, 23).unwrap();
    assert_eq!(issue_of(&s, &h).status, IssueStatus::Resolved);

    // three distinct verifiers confirm; the third closes the issue
    record_verification(&mut s, h, v1, 24).unwrap();
    assert_eq!(issue_of(&s, &h).status, IssueStatus::Resolved);
    record_verification(&mut s, h, v2, 25).unwrap();
    assert_eq!(issue_of(&s, &h).status, IssueStatus::Resolved);
    record_verification(&mut s, h, v3, 26).unwrap();
    let done = issue_of(&s, &h);
    assert_eq!(done.verifications, 3);
    assert_eq!(done.status, IssueStatus::Closed);
    assert_eq!(user_of(&s, &v1).total_verifications, 1);
    assert_eq!(user_of(&s, &v2).total_verifications, 1);
    assert_eq!(user_of(&s, &v3).total_verifications, 1);
}
