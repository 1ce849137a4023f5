//! `POST /groups` creates a group with its creator as member; `GET /groups`
//! lists the groups of the user.

use vstd::prelude::*;

use crate::models::Group;
use crate::routes::{rows_answer, rows_or_fail, DbError, Outcome, Status};
use crate::validate::{check_length, conclude, flag, length_within, note, Field};

verus! {

/// The payload that creates a group; the row inserted into `groups` has the
/// same shape.
pub struct Payload {
    pub display_name: String,
}

/// The body that answers the creation of a group.
pub struct ResultBodyPost {
    pub id: i32,
}

/// The body that answers the listing of groups.
pub struct ResultBodyGet<D> {
    pub groups: Vec<Group<D>>,
}

/// The fields of a group payload that fail their rules: a display name of 3 to
/// 32 characters.
pub open spec fn group_failing(display_name: Seq<char>) -> Seq<Field> {
    flag(Field::DisplayName, length_within(display_name, Some(3), Some(32)))
}

impl Payload {
    /// Validates the payload.
    pub fn validate(&self) -> (verdict: Result<(), Vec<Field>>)
        ensures
            verdict is Ok <==> group_failing(self.display_name@).len() == 0,
            verdict matches Err(fields) ==> fields@ == group_failing(self.display_name@),
            verdict is Ok <==> 3 <= self.display_name@.len() <= 32,
            verdict matches Err(fields) ==> fields@ == seq![Field::DisplayName],
    {
        let mut failing: Vec<Field> = Vec::new();
        note(&mut failing, Field::DisplayName, check_length(self.display_name.as_str(), Some(3), Some(32)));
        proof {
            assert(failing@ =~= group_failing(self.display_name@));
        }
        conclude(failing)
    }
}

/// A group payload is refused exactly when its display name has fewer than 3 or
/// more than 32 characters, and the refusal names the display name.
pub proof fn law_group_name_bounds(display_name: Seq<char>)
    ensures
        group_failing(display_name).len() == 0 <==> 3 <= display_name.len() <= 32,
        group_failing(display_name).len() != 0 ==> group_failing(display_name) == seq![Field::DisplayName],
{
}

/// The row of `users_groups` that makes a user a member of a group.
#[derive(PartialEq, Eq, Structural, Clone, Copy, Debug)]
pub struct NewMembership {
    pub group_id: i32,
    pub user_id: i32,
}

/// What creating a group does once the group's row was inserted (or not): make
/// the creator a member of the new group, or fail with 500.
pub open spec fn membership_after_insert<D>(user_id: i32, inserted: Result<Group<D>, DbError>) -> Result<NewMembership, Status> {
    match inserted {
        Ok(group) => Ok(NewMembership { group_id: group.id, user_id }),
        Err(_) => Err(Status::InternalServerError),
    }
}

/// Decides what creating a group does once the group's row was inserted.
pub fn on_group_inserted<D>(user_id: i32, inserted: &Result<Group<D>, DbError>) -> (next: Result<NewMembership, Status>)
    ensures
        next == membership_after_insert(user_id, *inserted),
        inserted matches Ok(group) ==> next == Ok::<NewMembership, Status>(NewMembership { group_id: group.id, user_id }),
        inserted is Err ==> next == Err::<NewMembership, Status>(Status::InternalServerError),
{
    match inserted {
        Ok(group) => Ok(NewMembership { group_id: group.id, user_id }),
        Err(_) => Err(Status::InternalServerError),
    }
}

/// The answer to the creation of a group once the membership was inserted:
/// the new group's id, or 500.
pub open spec fn created_group_answer(group_id: i32, inserted: Result<usize, DbError>) -> Outcome<ResultBodyPost> {
    match inserted {
        Ok(_) => Outcome::Json(ResultBodyPost { id: group_id }),
        Err(_) => Outcome::Respond(Status::InternalServerError),
    }
}

/// Answers the creation of a group once the membership was inserted.
pub fn on_membership_inserted(group_id: i32, inserted: Result<usize, DbError>) -> (outcome: Outcome<ResultBodyPost>)
    ensures
        outcome == created_group_answer(group_id, inserted),
        inserted is Ok ==> (outcome matches Outcome::Json(body) && body.id == group_id),
        inserted is Err ==> outcome == Outcome::<ResultBodyPost>::Respond(Status::InternalServerError),
{
    match inserted {
        Ok(_) => Outcome::Json(ResultBodyPost { id: group_id }),
        Err(_) => Outcome::Respond(Status::InternalServerError),
    }
}

/// Decides what listing groups does once the ids of the user's groups were
/// selected: select those groups, or fail with 500.
pub fn on_group_ids(found: Result<Vec<i32>, DbError>) -> (next: Result<Vec<i32>, Status>)
    ensures
        next == rows_or_fail(found),
        found matches Ok(ids) ==> next == Ok::<Vec<i32>, Status>(ids),
        found is Err ==> next == Err::<Vec<i32>, Status>(Status::InternalServerError),
{
    match found {
        Ok(ids) => Ok(ids),
        Err(_) => Err(Status::InternalServerError),
    }
}

/// Answers the listing of groups once the groups were selected: the groups
/// (the body is `ResultBodyGet` over them), or 500.
pub fn on_groups_loaded<D>(loaded: Result<Vec<Group<D>>, DbError>) -> (outcome: Outcome<Vec<Group<D>>>)
    ensures
        outcome == rows_answer(loaded),
        loaded matches Ok(groups) ==> outcome == Outcome::Json(groups),
        loaded is Err ==> outcome == Outcome::<Vec<Group<D>>>::Respond(Status::InternalServerError),
{
    match loaded {
        Ok(groups) => Outcome::Json(groups),
        Err(_) => Outcome::Respond(Status::InternalServerError),
    }
}

} // verus!
