//! The decisions of the critic use cases.

use vstd::prelude::*;

use super::domain::{ApplicationStatus, CriticApplication};
use super::input::UseCaseError;
use crate::ids::new_id;

verus! {

/// The role an approved application grants.
pub open spec fn critic_role() -> Seq<char> {
    "Critic"@
}

/// A user with an application that is pending or approved cannot apply
/// again; one whose application was rejected can.
pub open spec fn may_apply(existing: Option<CriticApplication>) -> bool {
    match existing {
        Some(a) => a.status == ApplicationStatus::Rejected,
        None => true,
    }
}

/// An application to insert.
pub struct NewApplication {
    pub id: u128,
    pub user_id: u128,
}

/// The application of `user_id` to insert, under a fresh id, given the
/// application the user has already, if any.
pub fn prepare_application(user_id: u128, existing: &Option<CriticApplication>) -> (r: Result<
    NewApplication,
    UseCaseError,
>)
    ensures
        !may_apply(*existing) ==> r matches Err(UseCaseError::AlreadyApplied),
        may_apply(*existing) ==> (r matches Ok(n) && n.user_id == user_id),
{
    match existing {
        Some(a) => match a.status {
            ApplicationStatus::Pending => {
                return Err(UseCaseError::AlreadyApplied);
            },
            ApplicationStatus::Approved => {
                return Err(UseCaseError::AlreadyApplied);
            },
            ApplicationStatus::Rejected => {},
        },
        None => {},
    }
    Ok(NewApplication { id: new_id(), user_id })
}

/// What an admin decides on a pending application.
#[derive(Debug, Clone, Copy, PartialEq, Eq, Structural)]
pub enum ReviewDecision {
    Approve,
    Reject,
}

/// What deciding an application writes: its new status and the admin who
/// decided, and, when it is approved, the role to grant to the applicant.
pub struct ReviewPlan {
    pub application_id: u128,
    pub status: ApplicationStatus,
    pub reviewer_id: u128,
    /// The user and the role to grant.
    pub grant_role: Option<(u128, String)>,
}

/// `p` grants the Critic role to `user_id`.
pub open spec fn grants_critic(p: ReviewPlan, user_id: u128) -> bool {
    match p.grant_role {
        Some(g) => g.0 == user_id && g.1@ == critic_role(),
        None => false,
    }
}

/// The decision of admin `reviewer_id` on application `application_id` (as
/// read, if found): only a pending application is decided on.
pub fn plan_review(
    application_id: u128,
    reviewer_id: u128,
    found: Option<CriticApplication>,
    decision: ReviewDecision,
) -> (r: Result<ReviewPlan, UseCaseError>)
    ensures
        found is None ==> r matches Err(UseCaseError::ApplicationNotFound),
        found matches Some(a) ==> (a.status != ApplicationStatus::Pending ==> r matches Err(
            UseCaseError::AlreadyReviewed,
        )),
        found matches Some(a) ==> (a.status == ApplicationStatus::Pending ==> (r matches Ok(p)
            && p.application_id == application_id && p.reviewer_id == reviewer_id)),
        found matches Some(a) ==> (a.status == ApplicationStatus::Pending
            && decision == ReviewDecision::Approve ==> (r matches Ok(p) && p.status
            == ApplicationStatus::Approved && grants_critic(p, a.user_id))),
        found matches Some(a) ==> (a.status == ApplicationStatus::Pending
            && decision == ReviewDecision::Reject ==> (r matches Ok(p) && p.status
            == ApplicationStatus::Rejected && p.grant_role is None)),
{
    let a = match found {
        None => {
            return Err(UseCaseError::ApplicationNotFound);
        },
        Some(a) => a,
    };
    if a.status != ApplicationStatus::Pending {
        return Err(UseCaseError::AlreadyReviewed);
    }
    match decision {
        ReviewDecision::Approve => Ok(
            ReviewPlan {
                application_id,
                status: ApplicationStatus::Approved,
                reviewer_id,
                grant_role: Some((a.user_id, String::from_str("Critic"))),
            },
        ),
        ReviewDecision::Reject => Ok(
            ReviewPlan { application_id, status: ApplicationStatus::Rejected, reviewer_id, grant_role: None },
        ),
    }
}

} // verus!
