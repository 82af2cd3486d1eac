//! Record types and error codes of the registry.

use vstd::prelude::*;

verus! {

/// Classification assigned to a user at creation; it is never changed by any
/// operation, and it gates issue-status updates.
#[derive(Clone, Copy, PartialEq, Eq, Structural, Debug)]
pub enum UserRole {
    Citizen,
    Government,
}

/// Lifecycle stage of an issue. The only programmatically enforced
/// transition is the auto-close once enough verifications arrive; all other
/// transitions are caller-driven.
#[derive(Clone, Copy, PartialEq, Eq, Structural, Debug)]
pub enum IssueStatus {
    Open,
    InProgress,
    Resolved,
    Closed,
}

/// Kind of civic issue being reported.
#[derive(Clone, Copy, PartialEq, Eq, Structural, Debug)]
pub enum IssueCategory {
    Pothole,
    Garbage,
    Streetlight,
    Water,
    Other,
}

/// Direction of a community vote.
#[derive(Clone, Copy, PartialEq, Eq, Structural, Debug)]
pub enum VoteType {
    Upvote,
    Downvote,
}

/// Terminal failure of an operation. A failed operation leaves every record
/// unchanged.
#[derive(Clone, Copy, PartialEq, Eq, Structural, Debug)]
pub enum ErrorCode {
    /// A create was attempted under a key that already holds a record.
    AlreadyExists,
    /// A lookup missed: no record under the given key.
    NotFound,
    /// A counter is saturated and the increment would wrap.
    Overflow,
    /// A verification was attempted on an issue that is not `Resolved`.
    InvalidStatus,
    /// A status update was attempted by a caller without the `Government` role.
    Unauthorized,
}

/// One user record, keyed by the 32-byte wallet address.
#[derive(Clone, Copy, PartialEq, Eq, Debug)]
pub struct UserAccount {
    /// Opaque identity handle; unique key of this record.
    pub wallet_address: [u8; 32],
    /// Externally settable score with no enforced bounds.
    pub reputation: u32,
    /// Set once at initialization, never changed.
    pub role: UserRole,
    /// Increment-only counter of issues this user reported.
    pub total_issues: u32,
    /// Increment-only counter of verifications this user recorded.
    pub total_verifications: u32,
    /// Timestamp set once at creation.
    pub created_at: i64,
    /// Disambiguation nonce from key derivation, fixed at creation.
    pub bump: u8,
}

/// One issue record, keyed by the 32-byte content fingerprint.
#[derive(Clone, Copy, PartialEq, Eq, Debug)]
pub struct IssueAccount {
    /// Content fingerprint; unique key of this record.
    pub issue_hash: [u8; 32],
    /// Wallet address of the reporting user (a lookup reference, not owned data).
    pub reporter: [u8; 32],
    pub status: IssueStatus,
    pub category: IssueCategory,
    /// Unconstrained priority value.
    pub priority: u8,
    /// Increment-only counter.
    pub upvotes: u32,
    /// Increment-only counter.
    pub downvotes: u32,
    /// Increment-only counter; only moves while the issue is `Resolved`.
    pub verifications: u32,
    /// Timestamp set once at creation.
    pub created_at: i64,
    /// Timestamp refreshed on every mutation.
    pub updated_at: i64,
    /// Disambiguation nonce from key derivation, fixed at creation.
    pub bump: u8,
}

} // verus!
