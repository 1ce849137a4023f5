//! Validation of request payloads.
//!
//! A payload is accepted when every field meets its rule; otherwise the request
//! is refused with status 400 and the failing fields are reported in the order
//! in which the payload declares them.

use vstd::prelude::*;
use validator::{ValidateEmail, ValidateLength};

use crate::routes::{Status, Step};

verus! {

/// A field of a payload that can fail validation.
#[derive(PartialEq, Eq, Structural, Clone, Copy, Debug)]
pub enum Field {
    DisplayName,
    Password,
    Email,
    Title,
    Amount,
    PercentageQuota,
}

/// Whether a text's length in characters lies within the optional bounds.
pub open spec fn length_within(text: Seq<char>, min: Option<u64>, max: Option<u64>) -> bool {
    &&& (min matches Some(m) ==> text.len() >= m)
    &&& (max matches Some(m) ==> text.len() <= m)
}

/// Whether `validator`'s e-mail rule (the HTML5 form of an address) accepts a text.
pub uninterp spec fn email_accepted(text: Seq<char>) -> bool;

/// Calls `ValidateLength::validate_length` of the `validator` crate on a `str`.
/// Its source counts the characters (`chars().count()`) and compares the count
/// with each bound that is given; that is what the contract states.
#[verifier::external_body]
pub(crate) fn check_length(text: &str, min: Option<u64>, max: Option<u64>) -> (ok: bool)
    ensures
        ok == length_within(text@, min, max),
{
    text.validate_length(min, max, None)
}

/// Calls `ValidateEmail::validate_email` of the `validator` crate. The contract
/// names its result `email_accepted`, and states the one short fact that its
/// source shows first: a text without `@` is refused.
#[verifier::external_body]
pub(crate) fn check_email(text: &str) -> (ok: bool)
    ensures
        ok == email_accepted(text@),
        !text@.contains('@') ==> !ok,
{
    text.validate_email()
}

/// The field, as a sequence of one, when its check failed; nothing otherwise.
pub open spec fn flag(field: Field, ok: bool) -> Seq<Field> {
    if ok {
        Seq::empty()
    } else {
        seq![field]
    }
}

/// Adds the field to the list of failing fields when its check failed.
pub(crate) fn note(failing: &mut Vec<Field>, field: Field, ok: bool)
    ensures
        final(failing)@ == old(failing)@ + flag(field, ok),
{
    if !ok {
        failing.push(field);
    }
    proof {
        if ok {
            assert(old(failing)@ + flag(field, ok) =~= old(failing)@);
        }
    }
}

/// The verdict on a payload with these failing fields: `Ok` when there are none.
pub(crate) fn conclude(failing: Vec<Field>) -> (verdict: Result<(), Vec<Field>>)
    ensures
        verdict is Ok <==> failing@.len() == 0,
        verdict matches Err(fields) ==> fields@ == failing@,
{
    if failing.len() == 0 {
        Ok(())
    } else {
        Err(failing)
    }
}

/// What the payload check of a request decides: go on with an accepted
/// payload, or refuse the request with status 400.
pub fn payload_step(verdict: &Result<(), Vec<Field>>) -> (step: Step)
    ensures
        step == (if verdict is Ok { Step::Continue } else { Step::Stop(Status::BadRequest) }),
{
    match verdict {
        Ok(()) => Step::Continue,
        Err(_) => Step::Stop(Status::BadRequest),
    }
}

} // verus!
