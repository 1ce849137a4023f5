//! A model of the tables that the handlers query, and the laws that the
//! handlers' decisions obey over it.
//!
//! Each query of a handler is modelled by what it answers on given tables, as
//! its SQL reads: `select exists(...)`, a filtered `select`, an `insert`. The
//! laws compose the handlers' decisions (the same spec functions that their
//! contracts use) with these answers.

use vstd::prelude::*;

use crate::models::{Cost, Group, User, UserGroup};
use crate::routes::costs::{costs_answer, membership_step};
use crate::routes::groups::{created_group_answer, membership_after_insert, NewMembership, ResultBodyPost};
use crate::routes::login::{login_outcome, LoginOutcome};
use crate::routes::register::inserts_after_lookup;
use crate::routes::{rows_answer, rows_or_fail, DbError, Outcome, Status, Step};
use crate::password::{argon2_accepts, phc_parses};

verus! {

broadcast use vstd::seq_lib::group_seq_properties;

/// The rows of the tables that the handlers read and write.
pub struct Tables<A, D> {
    pub users: Seq<User<D>>,
    pub groups: Seq<Group<D>>,
    pub users_groups: Seq<UserGroup<D>>,
    pub costs: Seq<Cost<A, D>>,
}

/// Whether a user row has the e-mail.
pub open spec fn has_email<D>(email: Seq<char>) -> spec_fn(User<D>) -> bool {
    |u: User<D>| u.email@ == email
}

/// Whether a membership row is the user's.
pub open spec fn membership_of<D>(user_id: i32) -> spec_fn(UserGroup<D>) -> bool {
    |m: UserGroup<D>| m.user_id == user_id
}

/// Whether a cost row belongs to the group.
pub open spec fn cost_in<A, D>(group_id: i32) -> spec_fn(Cost<A, D>) -> bool {
    |c: Cost<A, D>| c.group_id == group_id
}

impl<A, D> Tables<A, D> {
    /// `select exists(users where email = ..)`.
    pub open spec fn email_taken(self, email: Seq<char>) -> bool {
        exists|i: int| 0 <= i < self.users.len() && (#[trigger] self.users[i]).email@ == email
    }

    /// The users with an e-mail, in table order.
    pub open spec fn users_with_email(self, email: Seq<char>) -> Seq<User<D>> {
        self.users.filter(has_email(email))
    }

    /// `select users where email = ..`, first row or none (`.optional()`).
    pub open spec fn user_with_email(self, email: Seq<char>) -> Option<User<D>> {
        let found = self.users_with_email(email);
        if found.len() == 0 {
            None
        } else {
            Some(found[0])
        }
    }

    /// `select exists(users_groups where user_id = .. and group_id = ..)`.
    pub open spec fn is_member(self, user_id: i32, group_id: i32) -> bool {
        exists|i: int|
            0 <= i < self.users_groups.len() && (#[trigger] self.users_groups[i]).user_id == user_id
                && self.users_groups[i].group_id == group_id
    }

    /// `select group_id from users_groups where user_id = ..`.
    pub open spec fn group_ids_of(self, user_id: i32) -> Seq<i32> {
        self.users_groups.filter(membership_of(user_id)).map_values(
            |m: UserGroup<D>| m.group_id,
        )
    }

    /// `select groups where id = any(..)`.
    pub open spec fn groups_with_ids(self, ids: Seq<i32>) -> Seq<Group<D>> {
        self.groups.filter(|g: Group<D>| ids.contains(g.id))
    }

    /// The groups the user is a member of, in table order.
    pub open spec fn groups_of(self, user_id: i32) -> Seq<Group<D>> {
        self.groups.filter(|g: Group<D>| self.is_member(user_id, g.id))
    }

    /// `select costs where group_id = ..`.
    pub open spec fn costs_of(self, group_id: i32) -> Seq<Cost<A, D>> {
        self.costs.filter(cost_in(group_id))
    }

    /// Whether no two users share an e-mail.
    pub open spec fn emails_distinct(self) -> bool {
        forall|i: int, j: int|
            0 <= i < self.users.len() && 0 <= j < self.users.len() && i != j
                ==> (#[trigger] self.users[i]).email@ != (#[trigger] self.users[j]).email@
    }

    /// The schema's keys: every cost's group exists (the foreign key of
    /// `costs.group_id`), and no two groups share an id (the primary key).
    pub open spec fn keys_hold(self) -> bool {
        &&& forall|i: int| 0 <= i < self.costs.len() ==> exists|j: int|
            0 <= j < self.groups.len() && (#[trigger] self.groups[j]).id == (#[trigger] self.costs[i]).group_id
        &&& forall|i: int, j: int|
            0 <= i < self.groups.len() && 0 <= j < self.groups.len() && i != j
                ==> (#[trigger] self.groups[i]).id != (#[trigger] self.groups[j]).id
    }

    /// Whether an id is a fresh group id: no group has it yet.
    pub open spec fn group_id_fresh(self, id: i32) -> bool {
        forall|j: int| 0 <= j < self.groups.len() ==> (#[trigger] self.groups[j]).id != id
    }

    /// The tables after a row was inserted into `users`.
    pub open spec fn with_user(self, user: User<D>) -> Self {
        Tables { users: self.users.push(user), ..self }
    }

    /// The tables after a row was inserted into `groups`.
    pub open spec fn with_group(self, group: Group<D>) -> Self {
        Tables { groups: self.groups.push(group), ..self }
    }

    /// The tables after a row was inserted into `users_groups`.
    pub open spec fn with_membership(self, membership: UserGroup<D>) -> Self {
        Tables { users_groups: self.users_groups.push(membership), ..self }
    }

    /// The tables after a row was inserted into `costs`.
    pub open spec fn with_cost(self, cost: Cost<A, D>) -> Self {
        Tables { costs: self.costs.push(cost), ..self }
    }
}

/// The tables after a registration of the e-mail `email`, whose lookup
/// answered what these tables hold; `user` is the row that `on_email_lookup`
/// then asks to insert (it keeps the payload's e-mail). The row goes in only
/// when the lookup answered that the e-mail is free.
pub open spec fn after_registration<A, D>(tables: Tables<A, D>, email: Seq<char>, user: User<D>) -> Tables<A, D> {
    if inserts_after_lookup(Ok::<bool, DbError>(tables.email_taken(email))) {
        tables.with_user(user)
    } else {
        tables
    }
}

/// What `GET /groups` answers a user on these tables.
pub open spec fn groups_get_run<A, D>(tables: Tables<A, D>, user_id: i32) -> Outcome<Seq<Group<D>>> {
    match rows_or_fail(Ok::<Seq<i32>, DbError>(tables.group_ids_of(user_id))) {
        Err(status) => Outcome::Respond(status),
        Ok(ids) => rows_answer(Ok::<Seq<Group<D>>, DbError>(tables.groups_with_ids(ids))),
    }
}

/// What `GET /groups/{id}/expenses` answers a user on these tables.
pub open spec fn expenses_get_run<A, D>(tables: Tables<A, D>, user_id: i32, group_id: i32) -> Outcome<Seq<Cost<A, D>>> {
    match membership_step(Ok::<bool, DbError>(tables.is_member(user_id, group_id))) {
        Step::Stop(status) => Outcome::Respond(status),
        Step::Continue => costs_answer(Ok::<Seq<Cost<A, D>>, DbError>(tables.costs_of(group_id))),
    }
}

/// A registration is let through for an e-mail that no user has.
pub proof fn law_new_email_is_registered<A, D>(tables: Tables<A, D>, email: Seq<char>)
    requires
        !tables.email_taken(email),
    ensures
        inserts_after_lookup(Ok::<bool, DbError>(tables.email_taken(email))),
{
}

/// Once a registration has inserted a user with an e-mail, a registration with
/// the same e-mail is refused (with 422, as `on_email_lookup` answers when it
/// does not insert).
pub proof fn law_email_registers_once<A, D>(tables: Tables<A, D>, user: User<D>)
    ensures
        tables.with_user(user).email_taken(user.email@),
        !inserts_after_lookup(Ok::<bool, DbError>(tables.with_user(user).email_taken(user.email@))),
{
    let after = tables.with_user(user);
    assert(after.users[after.users.len() - 1] == user);
}

/// Registrations keep e-mails unique: when no two users share an e-mail, none
/// do after a registration, whatever it answered.
pub proof fn law_registration_keeps_emails_distinct<A, D>(tables: Tables<A, D>, email: Seq<char>, user: User<D>)
    requires
        tables.emails_distinct(),
        user.email@ == email,
    ensures
        after_registration(tables, email, user).emails_distinct(),
{
    let after = after_registration(tables, email, user);
    if inserts_after_lookup(Ok::<bool, DbError>(tables.email_taken(user.email@))) {
        let n = tables.users.len();
        assert forall|i: int, j: int|
            0 <= i < after.users.len() && 0 <= j < after.users.len() && i != j
                implies (#[trigger] after.users[i]).email@ != (#[trigger] after.users[j]).email@ by {
            if i < n && j < n {
                assert(after.users[i] == tables.users[i]);
                assert(after.users[j] == tables.users[j]);
            } else if i == n {
                assert(after.users[j] == tables.users[j]);
                if tables.users[j].email@ == user.email@ {
                    assert(tables.email_taken(user.email@));
                }
            } else {
                assert(after.users[i] == tables.users[i]);
                if tables.users[i].email@ == user.email@ {
                    assert(tables.email_taken(user.email@));
                }
            }
        }
    }
}

/// A login with an e-mail that no user has is answered with 401.
pub proof fn law_unknown_email_is_unauthorized<A, D>(tables: Tables<A, D>, email: Seq<char>, password: Seq<u8>)
    requires
        !tables.email_taken(email),
    ensures
        login_outcome(password, Ok::<Option<User<D>>, DbError>(tables.user_with_email(email)))
            == LoginOutcome::Respond(Status::Unauthorized),
{
    let found = tables.users_with_email(email);
    if found.len() > 0 {
        let u = found[0];
        assert(found.contains(u));
        tables.users.lemma_filter_contains_rev(has_email(email), u);
        let i = choose|i: int| 0 <= i < tables.users.len() && tables.users[i] == u;
        assert(tables.users[i].email@ == email);
    }
}

/// A login whose password the stored hash refuses is answered with 401.
pub proof fn law_wrong_password_is_unauthorized<D>(user: User<D>, password: Seq<u8>)
    requires
        phc_parses(user.password@),
        !argon2_accepts(password, user.password@),
    ensures
        login_outcome(password, Ok::<Option<User<D>>, DbError>(Some(user)))
            == LoginOutcome::Respond(Status::Unauthorized),
{
}

/// After a registration stored a user whose e-mail no user had, with the hash
/// that `on_email_lookup` computes (it parses and accepts the password), a
/// login with that e-mail and password opens a session for exactly that user.
pub proof fn law_registered_user_can_log_in<A, D>(tables: Tables<A, D>, user: User<D>, password: Seq<u8>)
    requires
        !tables.email_taken(user.email@),
        phc_parses(user.password@),
        argon2_accepts(password, user.password@),
    ensures
        login_outcome(password, Ok::<Option<User<D>>, DbError>(tables.with_user(user).user_with_email(user.email@)))
            == (LoginOutcome::OpenSession { id: user.id, email: user.email, display_name: user.display_name }),
{
    let email = user.email@;
    let pred = has_email::<D>(email);
    let before = tables.users.filter(pred);
    if before.len() > 0 {
        let u = before[0];
        assert(before.contains(u));
        tables.users.lemma_filter_contains_rev(pred, u);
        let i = choose|i: int| 0 <= i < tables.users.len() && tables.users[i] == u;
        assert(tables.users[i].email@ == email);
    }
    tables.users.lemma_filter_push(user, pred);
    assert(tables.with_user(user).users_with_email(email) =~= seq![user]);
}

/// Listing groups answers exactly the groups the user is a member of.
pub proof fn law_groups_listed_are_the_users<A, D>(tables: Tables<A, D>, user_id: i32)
    ensures
        groups_get_run(tables, user_id) == Outcome::Json::<Seq<Group<D>>>(tables.groups_of(user_id)),
{
    let ids = tables.group_ids_of(user_id);
    let mine = membership_of::<D>(user_id);
    let rows = tables.users_groups.filter(mine);
    assert forall|gid: i32| ids.contains(gid) <==> tables.is_member(user_id, gid) by {
        if ids.contains(gid) {
            let j = choose|j: int| 0 <= j < ids.len() && ids[j] == gid;
            let m = rows[j];
            assert(rows.contains(m));
            tables.users_groups.lemma_filter_contains_rev(mine, m);
            let i = choose|i: int| 0 <= i < tables.users_groups.len() && tables.users_groups[i] == m;
            assert(tables.users_groups[i].user_id == user_id && tables.users_groups[i].group_id == gid);
        }
        if tables.is_member(user_id, gid) {
            let i = choose|i: int|
                0 <= i < tables.users_groups.len() && (#[trigger] tables.users_groups[i]).user_id == user_id
                    && tables.users_groups[i].group_id == gid;
            tables.users_groups.lemma_filter_contains(mine, i);
            let m = tables.users_groups[i];
            let j = choose|j: int| 0 <= j < rows.len() && rows[j] == m;
            assert(ids[j] == gid);
        }
    }
    let by_ids = |g: Group<D>| ids.contains(g.id);
    let by_membership = |g: Group<D>| tables.is_member(user_id, g.id);
    assert(by_ids =~= by_membership);
}

/// After a group was created by a user (its row inserted with a fresh id, then
/// the membership that `on_group_inserted` asks for), the creation answers the
/// group's id and listing the user's groups includes the group.
pub proof fn law_created_group_is_listed<A, D>(tables: Tables<A, D>, group: Group<D>, user_id: i32, created_at: D)
    ensures
        ({
            let membership = membership_after_insert(user_id, Ok::<Group<D>, DbError>(group));
            &&& membership == Ok::<NewMembership, Status>(NewMembership { group_id: group.id, user_id })
            &&& created_group_answer(group.id, Ok::<usize, DbError>(1))
                == Outcome::Json(ResultBodyPost { id: group.id })
            &&& {
                let after = tables.with_group(group).with_membership(
                    UserGroup { group_id: group.id, user_id, created_at },
                );
                groups_get_run(after, user_id) matches Outcome::Json(listed) && listed.contains(group)
            }
        }),
{
    let after = tables.with_group(group).with_membership(UserGroup { group_id: group.id, user_id, created_at });
    law_groups_listed_are_the_users(after, user_id);
    assert(after.users_groups[after.users_groups.len() - 1].user_id == user_id);
    assert(after.is_member(user_id, group.id));
    let last = after.groups.len() - 1;
    assert(after.groups[last] == group);
    after.groups.lemma_filter_contains(|g: Group<D>| after.is_member(user_id, g.id), last);
}

/// Listing a group's costs answers a member exactly the group's costs, and
/// anyone else 403.
pub proof fn law_expenses_only_for_members<A, D>(tables: Tables<A, D>, user_id: i32, group_id: i32)
    ensures
        expenses_get_run(tables, user_id, group_id) == (if tables.is_member(user_id, group_id) {
            Outcome::Json(tables.costs_of(group_id))
        } else {
            Outcome::<Seq<Cost<A, D>>>::Respond(Status::Forbidden)
        }),
{
}

/// A group without costs is listed as empty to its members.
pub proof fn law_group_without_costs_lists_nothing<A, D>(tables: Tables<A, D>, user_id: i32, group_id: i32)
    requires
        tables.is_member(user_id, group_id),
        forall|i: int| 0 <= i < tables.costs.len() ==> (#[trigger] tables.costs[i]).group_id != group_id,
    ensures
        expenses_get_run(tables, user_id, group_id) == Outcome::Json(Seq::<Cost<A, D>>::empty()),
{
    let pred = cost_in::<A, D>(group_id);
    let listed = tables.costs_of(group_id);
    if listed.len() > 0 {
        let c = listed[0];
        assert(listed.contains(c));
        tables.costs.lemma_filter_contains_rev(pred, c);
        let i = choose|i: int| 0 <= i < tables.costs.len() && tables.costs[i] == c;
    }
    assert(listed =~= Seq::<Cost<A, D>>::empty());
}

/// The creator of a new group (its row inserted with a fresh id, then the
/// membership that `on_group_inserted` asks for) is answered an empty list of
/// the group's costs, on tables whose keys hold.
pub proof fn law_new_group_has_no_expenses<A, D>(tables: Tables<A, D>, group: Group<D>, user_id: i32, created_at: D)
    requires
        tables.keys_hold(),
        tables.group_id_fresh(group.id),
    ensures
        membership_after_insert(user_id, Ok::<Group<D>, DbError>(group))
            == Ok::<NewMembership, Status>(NewMembership { group_id: group.id, user_id }),
        expenses_get_run(
            tables.with_group(group).with_membership(UserGroup { group_id: group.id, user_id, created_at }),
            user_id,
            group.id,
        ) == Outcome::Json(Seq::<Cost<A, D>>::empty()),
{
    assert forall|i: int| 0 <= i < tables.costs.len() implies (#[trigger] tables.costs[i]).group_id != group.id by {
        let j = choose|j: int| 0 <= j < tables.groups.len() && (#[trigger] tables.groups[j]).id == tables.costs[i].group_id;
    }
    let after = tables.with_group(group).with_membership(UserGroup { group_id: group.id, user_id, created_at });
    assert(after.users_groups[after.users_groups.len() - 1].user_id == user_id);
    assert(after.is_member(user_id, group.id));
    assert(after.costs == tables.costs);
    law_group_without_costs_lists_nothing(after, user_id, group.id);
}

/// A cost added to a group is listed among the group's costs to its members.
pub proof fn law_added_cost_is_listed<A, D>(tables: Tables<A, D>, cost: Cost<A, D>, user_id: i32)
    requires
        tables.is_member(user_id, cost.group_id),
    ensures
        expenses_get_run(tables.with_cost(cost), user_id, cost.group_id) matches Outcome::Json(listed)
            && listed.contains(cost),
{
    let after = tables.with_cost(cost);
    let last = after.costs.len() - 1;
    assert(after.costs[last] == cost);
    after.costs.lemma_filter_contains(cost_in(cost.group_id), last);
    let i = choose|i: int|
        0 <= i < tables.users_groups.len() && (#[trigger] tables.users_groups[i]).user_id == user_id
            && tables.users_groups[i].group_id == cost.group_id;
    assert(after.users_groups[i] == tables.users_groups[i]);
    assert(after.is_member(user_id, cost.group_id));
}

} // verus!
