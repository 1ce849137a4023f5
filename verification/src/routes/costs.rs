//! `GET /groups/{id}/expenses` lists the costs of a group; `POST` on the same
//! path adds a cost with its quotas. Both answer only members of the group.

use vstd::prelude::*;

use crate::models::{Cost, Quota};
use crate::routes::{DbError, Outcome, Status, Step};
use crate::validate::{check_length, conclude, flag, length_within, note, Field};

verus! {

/// The body that answers the listing of a group's costs.
pub struct ResultBody<A, D> {
    pub expenses: Vec<Cost<A, D>>,
}

/// The body that answers the addition of a cost.
pub struct ResultBodyPost<A, D> {
    pub added_cost: Cost<A, D>,
    pub added_quotas: Vec<Quota<A>>,
}

/// The payload that adds a cost and the quotas that split it.
pub struct Payload<A> {
    pub cost: NewCost<A>,
    pub quotas: Vec<NewQuota<A>>,
}

/// A cost to insert into `costs`.
pub struct NewCost<A> {
    pub group_id: i32,
    pub user_id: i32,
    pub title: String,
    pub description: String,
    pub amount: A,
}

/// A quota to insert into `quotas`.
pub struct NewQuota<A> {
    pub user_id: i32,
    pub cost_id: Option<i32>,
    pub percentage_quota: A,
}

impl<A> Payload<A> {
    /// Validates the payload. Its fields carry no rule of their own, and the
    /// rules of the nested cost and quotas are not applied to it, so every
    /// payload is accepted.
    pub fn validate(&self) -> (verdict: Result<(), Vec<Field>>)
        ensures
            verdict is Ok,
    {
        Ok(())
    }
}

/// The fields of a new cost that fail their rules: a title of 3 to 32
/// characters, an amount of at least 0 (`amount_ok` says whether it is).
pub open spec fn cost_failing(title: Seq<char>, amount_ok: bool) -> Seq<Field> {
    flag(Field::Title, length_within(title, Some(3), Some(32))) + flag(Field::Amount, amount_ok)
}

/// The rules of a new cost: it is accepted exactly when its title has 3 to 32
/// characters and its amount is at least 0; the title is reported exactly when
/// its length is outside 3 to 32, the amount exactly when it is negative.
pub proof fn law_cost_rules(title: Seq<char>, amount_ok: bool)
    ensures
        cost_failing(title, amount_ok).len() == 0 <==> (3 <= title.len() <= 32 && amount_ok),
        cost_failing(title, amount_ok).contains(Field::Title) <==> !(3 <= title.len() <= 32),
        cost_failing(title, amount_ok).contains(Field::Amount) <==> !amount_ok,
{
    lemma_cost_failing(title, amount_ok);
}

proof fn lemma_cost_failing(title: Seq<char>, amount_ok: bool)
    ensures
        cost_failing(title, amount_ok).len() == 0 <==> (3 <= title.len() <= 32 && amount_ok),
        cost_failing(title, amount_ok).contains(Field::Title) <==> !(3 <= title.len() <= 32),
        cost_failing(title, amount_ok).contains(Field::Amount) <==> !amount_ok,
{
    let t = flag(Field::Title, length_within(title, Some(3), Some(32)));
    let a = flag(Field::Amount, amount_ok);
    let f = cost_failing(title, amount_ok);
    assert(f =~= t + a);
    if !(3 <= title.len() <= 32) {
        assert(f[0] == Field::Title);
    } else {
        assert(f =~= a);
    }
    if !amount_ok {
        assert(f[t.len() as int] == Field::Amount);
    } else {
        assert(f =~= t);
    }
}

impl<A> NewCost<A> {
    /// Validates the cost, given whether its amount is at least 0.
    pub fn validate_with(&self, amount_ok: bool) -> (verdict: Result<(), Vec<Field>>)
        ensures
            verdict is Ok <==> cost_failing(self.title@, amount_ok).len() == 0,
            verdict matches Err(fields) ==> fields@ == cost_failing(self.title@, amount_ok),
            verdict is Ok <==> (3 <= self.title@.len() <= 32 && amount_ok),
            verdict matches Err(fields) ==> (fields@.contains(Field::Title) <==> !(3 <= self.title@.len() <= 32)),
            verdict matches Err(fields) ==> (fields@.contains(Field::Amount) <==> !amount_ok),
    {
        let mut failing: Vec<Field> = Vec::new();
        note(&mut failing, Field::Title, check_length(self.title.as_str(), Some(3), Some(32)));
        note(&mut failing, Field::Amount, amount_ok);
        proof {
            assert(failing@ =~= cost_failing(self.title@, amount_ok));
            lemma_cost_failing(self.title@, amount_ok);
        }
        conclude(failing)
    }
}

impl<A> NewQuota<A> {
    /// Validates the quota, given whether its share lies between 0 and 100.
    pub fn validate_with(&self, share_ok: bool) -> (verdict: Result<(), Vec<Field>>)
        ensures
            verdict is Ok <==> share_ok,
            verdict matches Err(fields) ==> fields@ == seq![Field::PercentageQuota],
    {
        let mut failing: Vec<Field> = Vec::new();
        note(&mut failing, Field::PercentageQuota, share_ok);
        conclude(failing)
    }
}

/// What a handler of a group's costs does once it has asked whether the user
/// is a member of the group: go on for a member; 403 for anyone else, and when
/// the query found no row; 500 when it failed otherwise.
pub open spec fn membership_step(is_member: Result<bool, DbError>) -> Step {
    match is_member {
        Ok(true) => Step::Continue,
        Ok(false) => Step::Stop(Status::Forbidden),
        Err(DbError::NotFound) => Step::Stop(Status::Forbidden),
        Err(DbError::Other) => Step::Stop(Status::InternalServerError),
    }
}

/// Decides what a handler of a group's costs does once membership is known.
pub fn on_membership(is_member: Result<bool, DbError>) -> (step: Step)
    ensures
        step == membership_step(is_member),
        is_member == Ok::<bool, DbError>(true) ==> step == Step::Continue,
        is_member == Ok::<bool, DbError>(false) ==> step == Step::Stop(Status::Forbidden),
        is_member == Err::<bool, DbError>(DbError::NotFound) ==> step == Step::Stop(Status::Forbidden),
        is_member == Err::<bool, DbError>(DbError::Other) ==> step == Step::Stop(Status::InternalServerError),
{
    match is_member {
        Ok(true) => Step::Continue,
        Ok(false) => Step::Stop(Status::Forbidden),
        Err(DbError::NotFound) => Step::Stop(Status::Forbidden),
        Err(DbError::Other) => Step::Stop(Status::InternalServerError),
    }
}

/// Decides what adding a cost does once membership is known: insert the
/// payload's cost as it came (its group and user unchanged), keeping its quotas
/// for when the cost's id is known; or answer with the status of the check.
pub fn cost_to_insert<A>(payload: Payload<A>, is_member: Result<bool, DbError>) -> (next: Result<(NewCost<A>, Vec<NewQuota<A>>), Status>)
    ensures
        membership_step(is_member) == Step::Continue ==> next == Ok::<(NewCost<A>, Vec<NewQuota<A>>), Status>(
            (payload.cost, payload.quotas),
        ),
        membership_step(is_member) matches Step::Stop(status) ==> next == Err::<(NewCost<A>, Vec<NewQuota<A>>), Status>(status),
        is_member == Ok::<bool, DbError>(true) ==> next == Ok::<(NewCost<A>, Vec<NewQuota<A>>), Status>(
            (payload.cost, payload.quotas),
        ),
        is_member != Ok::<bool, DbError>(true) ==> next is Err,
{
    match on_membership(is_member) {
        Step::Continue => Ok((payload.cost, payload.quotas)),
        Step::Stop(status) => Err(status),
    }
}

/// The answer to the listing of a group's costs once they were selected: the
/// costs; 403 when the query found no row; 500 when it failed otherwise.
pub open spec fn costs_answer<X>(loaded: Result<X, DbError>) -> Outcome<X> {
    match loaded {
        Ok(costs) => Outcome::Json(costs),
        Err(DbError::NotFound) => Outcome::Respond(Status::Forbidden),
        Err(DbError::Other) => Outcome::Respond(Status::InternalServerError),
    }
}

/// Answers the listing of a group's costs once they were selected (the body is
/// `ResultBody` over them).
pub fn on_costs_loaded<A, D>(loaded: Result<Vec<Cost<A, D>>, DbError>) -> (outcome: Outcome<Vec<Cost<A, D>>>)
    ensures
        outcome == costs_answer(loaded),
        loaded matches Ok(costs) ==> outcome == Outcome::Json(costs),
        loaded == Err::<Vec<Cost<A, D>>, DbError>(DbError::NotFound) ==> outcome == Outcome::<Vec<Cost<A, D>>>::Respond(Status::Forbidden),
        loaded == Err::<Vec<Cost<A, D>>, DbError>(DbError::Other) ==> outcome == Outcome::<Vec<Cost<A, D>>>::Respond(Status::InternalServerError),
{
    match loaded {
        Ok(costs) => Outcome::Json(costs),
        Err(DbError::NotFound) => Outcome::Respond(Status::Forbidden),
        Err(DbError::Other) => Outcome::Respond(Status::InternalServerError),
    }
}

/// The quotas of a payload as they are inserted for the cost `cost_id`: same
/// user and share, linked to the cost.
pub open spec fn quotas_for_cost<A>(quotas: Seq<NewQuota<A>>, cost_id: i32) -> Seq<NewQuota<A>> {
    quotas.map_values(
        |q: NewQuota<A>|
            NewQuota { user_id: q.user_id, cost_id: Some(cost_id), percentage_quota: q.percentage_quota },
    )
}

/// Every quota inserted with a cost refers to that cost, and keeps the user and
/// the share that the payload gave it, in the payload's order.
pub proof fn law_quotas_refer_to_their_cost<A>(quotas: Seq<NewQuota<A>>, cost_id: i32)
    ensures
        quotas_for_cost(quotas, cost_id).len() == quotas.len(),
        forall|i: int| 0 <= i < quotas.len() ==> {
            &&& (#[trigger] quotas_for_cost(quotas, cost_id)[i]).cost_id == Some(cost_id)
            &&& quotas_for_cost(quotas, cost_id)[i].user_id == quotas[i].user_id
            &&& quotas_for_cost(quotas, cost_id)[i].percentage_quota == quotas[i].percentage_quota
        },
{
}

/// Decides what adding a cost does once the cost's row was inserted: insert
/// the payload's quotas linked to the new cost, or fail with 500.
pub fn on_cost_inserted<A: Copy, D>(quotas: &Vec<NewQuota<A>>, inserted: Result<Cost<A, D>, DbError>) -> (next: Result<(Cost<A, D>, Vec<NewQuota<A>>), Status>)
    ensures
        inserted is Err ==> next == Err::<(Cost<A, D>, Vec<NewQuota<A>>), Status>(Status::InternalServerError),
        inserted matches Ok(cost) ==> (next matches Ok((added, linked)) && added == cost
            && linked@ == quotas_for_cost(quotas@, cost.id)),
{
    match inserted {
        Err(_) => Err(Status::InternalServerError),
        Ok(cost) => {
            let mut linked: Vec<NewQuota<A>> = Vec::new();
            let n = quotas.len();
            for i in 0..n
                invariant
                    n == quotas@.len(),
                    linked@ =~= quotas_for_cost(quotas@.take(i as int), cost.id),
            {
                linked.push(
                    NewQuota {
                        user_id: quotas[i].user_id,
                        cost_id: Some(cost.id),
                        percentage_quota: quotas[i].percentage_quota,
                    },
                );
                proof {
                    assert(quotas@.take(i + 1) =~= quotas@.take(i as int).push(quotas@[i as int]));
                }
            }
            proof {
                assert(quotas@.take(n as int) =~= quotas@);
            }
            Ok((cost, linked))
        },
    }
}

/// Answers the addition of a cost once the quotas were inserted: the cost and
/// the quotas as stored, or 500.
pub open spec fn added_cost_answer<A, D>(cost: Cost<A, D>, inserted: Result<Vec<Quota<A>>, DbError>) -> Outcome<ResultBodyPost<A, D>> {
    match inserted {
        Ok(quotas) => Outcome::Json(ResultBodyPost { added_cost: cost, added_quotas: quotas }),
        Err(_) => Outcome::Respond(Status::InternalServerError),
    }
}

/// Adding a cost answers exactly the rows that were stored: the inserted cost,
/// every field as the database returned it, and the inserted quotas; and 500
/// when the quotas could not be inserted.
pub proof fn law_added_cost_answers_the_stored_rows<A, D>(cost: Cost<A, D>, stored: Seq<Quota<A>>, quotas: Vec<Quota<A>>)
    requires
        quotas@ == stored,
    ensures
        added_cost_answer(cost, Ok::<Vec<Quota<A>>, DbError>(quotas)) matches Outcome::Json(body) && {
            &&& body.added_cost == cost
            &&& body.added_cost.id == cost.id
            &&& body.added_cost.group_id == cost.group_id
            &&& body.added_cost.user_id == cost.user_id
            &&& body.added_cost.title == cost.title
            &&& body.added_cost.description == cost.description
            &&& body.added_cost.amount == cost.amount
            &&& body.added_cost.created_at == cost.created_at
            &&& body.added_quotas@ == stored
        },
        forall|e: DbError| added_cost_answer(cost, Err::<Vec<Quota<A>>, DbError>(e))
            == Outcome::<ResultBodyPost<A, D>>::Respond(Status::InternalServerError),
{
}

/// Answers the addition of a cost once the quotas were inserted.
pub fn on_quotas_inserted<A, D>(cost: Cost<A, D>, inserted: Result<Vec<Quota<A>>, DbError>) -> (outcome: Outcome<ResultBodyPost<A, D>>)
    ensures
        outcome == added_cost_answer(cost, inserted),
        inserted matches Ok(stored) ==> (outcome matches Outcome::Json(body) && body.added_cost == cost
            && body.added_quotas == stored),
        inserted is Err ==> outcome == Outcome::<ResultBodyPost<A, D>>::Respond(Status::InternalServerError),
{
    match inserted {
        Ok(quotas) => Outcome::Json(ResultBodyPost { added_cost: cost, added_quotas: quotas }),
        Err(_) => Outcome::Respond(Status::InternalServerError),
    }
}

} // verus!
