//! The decisions of the messages use cases: only friends exchange messages,
//! and nobody messages themselves.

use vstd::prelude::*;

use super::input::UseCaseError;
use super::output::MessageType;
use crate::features::friends::UserSummary;
use crate::ids::new_id;

verus! {

/// `other` is among `friends`.
pub open spec fn is_among(friends: Seq<UserSummary>, other: u128) -> bool {
    exists|i: int| 0 <= i < friends.len() && #[trigger] friends[i].id == other
}

/// Whether `other` is among the friends of a user.
pub fn are_friends_in(friends: &Vec<UserSummary>, other: u128) -> (b: bool)
    ensures
        b == is_among(friends@, other),
{
    let mut i: usize = 0;
    while i < friends.len()
        invariant
            i <= friends@.len(),
            forall|k: int| 0 <= k < i ==> #[trigger] friends@[k].id != other,
        decreases friends@.len() - i,
    {
        if friends[i].id == other {
            return true;
        }
        i = i + 1;
    }
    false
}

/// A message to store.
pub struct NewMessage {
    pub id: u128,
    pub sender_id: u128,
    pub receiver_id: u128,
    pub message_type: MessageType,
    pub content: String,
}

/// The first check of a message: nobody messages themselves.
pub fn check_recipient(sender_id: u128, receiver_id: u128) -> (r: Result<(), UseCaseError>)
    ensures
        sender_id == receiver_id ==> r matches Err(UseCaseError::CannotMessageYourself),
        sender_id != receiver_id ==> r is Ok,
{
    if sender_id == receiver_id {
        Err(UseCaseError::CannotMessageYourself)
    } else {
        Ok(())
    }
}

/// The message to store, under a fresh id, once the sender's friends are
/// known: the receiver must be one of them.
pub fn prepare_message(
    sender_id: u128,
    receiver_id: u128,
    sender_friends: &Vec<UserSummary>,
    message_type: MessageType,
    content: String,
) -> (r: Result<NewMessage, UseCaseError>)
    ensures
        sender_id == receiver_id ==> r matches Err(UseCaseError::CannotMessageYourself),
        sender_id != receiver_id && !is_among(sender_friends@, receiver_id) ==> r matches Err(
            UseCaseError::NotFriends,
        ),
        sender_id != receiver_id && is_among(sender_friends@, receiver_id) ==> (r matches Ok(m)
            && m.sender_id == sender_id && m.receiver_id == receiver_id && m.message_type == message_type
            && m.content == content),
{
    if sender_id == receiver_id {
        return Err(UseCaseError::CannotMessageYourself);
    }
    if !are_friends_in(sender_friends, receiver_id) {
        return Err(UseCaseError::NotFriends);
    }
    Ok(NewMessage { id: new_id(), sender_id, receiver_id, message_type, content })
}

/// A conversation is read only between friends.
pub fn check_conversation(user_friends: &Vec<UserSummary>, friend_id: u128) -> (r: Result<(), UseCaseError>)
    ensures
        !is_among(user_friends@, friend_id) ==> r matches Err(UseCaseError::NotFriends),
        is_among(user_friends@, friend_id) ==> r is Ok,
{
    if are_friends_in(user_friends, friend_id) {
        Ok(())
    } else {
        Err(UseCaseError::NotFriends)
    }
}

} // verus!
