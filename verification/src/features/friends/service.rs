//! The decisions of the friendship use cases.

use vstd::prelude::*;

use super::input::UseCaseError;
use super::output::FriendRequest;
use crate::ids::new_id;

verus! {

/// A friend request to create.
pub struct NewFriendRequest {
    pub id: u128,
    pub sender_id: u128,
    pub receiver_id: u128,
}

/// The request from `sender_id` to `receiver_id` to create, under a fresh
/// id; nobody can send one to themselves.
pub fn prepare_friend_request(sender_id: u128, receiver_id: u128) -> (r: Result<NewFriendRequest, UseCaseError>)
    ensures
        sender_id == receiver_id ==> r matches Err(UseCaseError::CannotFriendYourself),
        sender_id != receiver_id ==> (r matches Ok(n) && n.sender_id == sender_id && n.receiver_id
            == receiver_id),
{
    if sender_id == receiver_id {
        return Err(UseCaseError::CannotFriendYourself);
    }
    Ok(NewFriendRequest { id: new_id(), sender_id, receiver_id })
}

/// The answer to accepting or rejecting a request: the request as it now
/// stands, or `RequestNotFound` when no pending request with that id was
/// received by the user.
pub fn answered_request(updated: Option<FriendRequest>) -> (r: Result<FriendRequest, UseCaseError>)
    ensures
        updated is None ==> r matches Err(UseCaseError::RequestNotFound),
        updated matches Some(q) ==> (r matches Ok(a) && a == q),
{
    match updated {
        Some(q) => Ok(q),
        None => Err(UseCaseError::RequestNotFound),
    }
}

} // verus!
