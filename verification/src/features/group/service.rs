//! The decisions of the group use cases.

use vstd::prelude::*;

use super::domain::Group;
use super::input::UseCaseError;

verus! {

/// Only the owner of an existing group reads or changes its recipes.
pub fn check_group_owner(user_id: u128, group: &Option<Group>) -> (r: Result<(), UseCaseError>)
    ensures
        group is None ==> r matches Err(UseCaseError::GroupNotFound),
        group matches Some(g) ==> (g.created_by_id != user_id ==> r matches Err(UseCaseError::NotGroupOwner)),
        group matches Some(g) ==> (g.created_by_id == user_id ==> r is Ok),
{
    match group {
        None => Err(UseCaseError::GroupNotFound),
        Some(g) => {
            if g.created_by_id != user_id {
                Err(UseCaseError::NotGroupOwner)
            } else {
                Ok(())
            }
        },
    }
}

/// A new group of `user_id`, under a fresh id; its name must not be empty.
pub fn prepare_group(name: &str, description: Option<String>, user_id: u128) -> (r: Result<Group, UseCaseError>)
    ensures
        name@.len() == 0 ==> r matches Err(UseCaseError::EmptyName),
        name@.len() > 0 ==> (r matches Ok(g) && g.name@ == name@ && g.description == description
            && g.created_by_id == user_id),
{
    if name.is_empty() {
        return Err(UseCaseError::EmptyName);
    }
    Ok(Group::new(String::from_str(name), description, user_id))
}

} // verus!
