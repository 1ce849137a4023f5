//! Rows of the service's tables.
//!
//! Amounts and shares are money and percentages, and dates are calendar days;
//! the logic here never computes with them, so each row is generic in the types
//! that carry them (`A` for amounts and shares, `D` for dates).

use vstd::prelude::*;

verus! {

/// An expense of a group, paid by one user.
pub struct Cost<A, D> {
    pub id: i32,
    pub group_id: i32,
    pub user_id: i32,
    pub title: String,
    pub description: String,
    pub amount: A,
    pub created_at: D,
}

/// The share of a cost that one user owes, in percent.
pub struct Quota<A> {
    pub id: i32,
    pub user_id: i32,
    pub cost_id: i32,
    pub percentage_quota: A,
}

/// A payment made by a user.
pub struct Payment<A, D> {
    pub id: i32,
    pub user_id: i32,
    pub amount: A,
    pub created_at: D,
}

/// The link between a quota and the payment that settles it.
pub struct PaymentQuota {
    pub quota_id: i32,
    pub payment_id: i32,
}

/// A registered user; `password` holds the PHC string of the password's hash.
pub struct User<D> {
    pub id: i32,
    pub email: String,
    pub display_name: String,
    pub password: String,
    pub created_at: D,
}

/// A stored session of a user.
pub struct Session<D> {
    pub id: i32,
    pub user_id: i32,
    pub token: String,
    pub created_at: D,
    pub expires_at: D,
}

/// A group of users who share costs.
pub struct Group<D> {
    pub id: i32,
    pub display_name: String,
    pub created_at: D,
}

/// The membership of a user in a group.
pub struct UserGroup<D> {
    pub group_id: i32,
    pub user_id: i32,
    pub created_at: D,
}

} // verus!
