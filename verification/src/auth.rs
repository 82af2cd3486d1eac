//! Authorization policy: a pure check of whether a caller's role permits a
//! requested mutation. Only issue-status updates are role-gated; every other
//! operation is open to any authenticated, existing user.

use vstd::prelude::*;

use crate::types::{ErrorCode, UserAccount, UserRole};

verus! {

/// One of the six mutating operations a caller can request.
#[derive(Clone, Copy, PartialEq, Eq, Structural, Debug)]
pub enum Action {
    InitializeUser,
    CreateIssue,
    RecordVote,
    RecordVerification,
    UpdateIssueStatus,
    UpdateReputation,
}

/// Whether a caller with the given role may perform the action: everything
/// is permitted except an issue-status update by a non-government caller.
pub open spec fn permitted(role: UserRole, action: Action) -> bool {
    action is UpdateIssueStatus ==> role is Government
}

/// Evaluates the authorization policy for a caller and a requested action.
pub fn authorize(caller: &UserAccount, action: Action) -> (r: Result<(), ErrorCode>)
    ensures
        permitted(caller.role, action) ==> r == Ok::<(), ErrorCode>(()),
        !permitted(caller.role, action) ==> r == Err::<(), ErrorCode>(ErrorCode::Unauthorized),
{
    match action {
        Action::UpdateIssueStatus => {
            match caller.role {
                UserRole::Government => Ok(()),
                UserRole::Citizen => Err(ErrorCode::Unauthorized),
            }
        },
        _ => Ok(()),
    }
}

} // verus!
