//! `POST /user/register`: creates a user with a hashed password, unless the
//! e-mail is taken.

use vstd::prelude::*;
use vstd::utf8::encode_utf8;

use crate::password::{
    argon2_accepts, hash_password, is_default_argon2_phc, max_password_len, phc_parses,
};
use crate::routes::{DbError, Status};
use crate::validate::{
    check_email, check_length, conclude, email_accepted, flag, length_within, note, Field,
};

verus! {

/// The payload of a registration. The row inserted into `users` has the same
/// shape, with the password replaced by its hash.
pub struct Payload {
    pub display_name: String,
    pub password: String,
    pub email: String,
}

/// The fields of a registration payload that fail their rules: a display name
/// of at least 3 characters, a password of at least 10, a valid e-mail.
pub open spec fn register_failing(display_name: Seq<char>, password: Seq<char>, email_ok: bool) -> Seq<Field> {
    flag(Field::DisplayName, length_within(display_name, Some(3), None))
        + flag(Field::Password, length_within(password, Some(10), None))
        + flag(Field::Email, email_ok)
}

impl Payload {
    /// Validates the payload, given whether the e-mail rule accepts its e-mail.
    pub fn validate_with(&self, email_ok: bool) -> (verdict: Result<(), Vec<Field>>)
        ensures
            verdict is Ok <==> register_failing(self.display_name@, self.password@, email_ok).len() == 0,
            verdict matches Err(fields) ==> fields@ == register_failing(
                self.display_name@,
                self.password@,
                email_ok,
            ),
            verdict is Ok <==> (self.display_name@.len() >= 3 && self.password@.len() >= 10 && email_ok),
    {
        let mut failing: Vec<Field> = Vec::new();
        note(&mut failing, Field::DisplayName, check_length(self.display_name.as_str(), Some(3), None));
        note(&mut failing, Field::Password, check_length(self.password.as_str(), Some(10), None));
        note(&mut failing, Field::Email, email_ok);
        proof {
            assert(failing@ =~= register_failing(self.display_name@, self.password@, email_ok));
            law_register_refuses_broken_fields(self.display_name@, self.password@, email_ok);
        }
        conclude(failing)
    }

    /// Validates the payload.
    pub fn validate(&self) -> (verdict: Result<(), Vec<Field>>)
        ensures
            verdict is Ok <==> register_failing(
                self.display_name@,
                self.password@,
                email_accepted(self.email@),
            ).len() == 0,
            verdict matches Err(fields) ==> fields@ == register_failing(
                self.display_name@,
                self.password@,
                email_accepted(self.email@),
            ),
    {
        let email_ok = check_email(self.email.as_str());
        self.validate_with(email_ok)
    }
}

/// A registration payload with a field that breaks its rule (an empty or too
/// short display name or password, a refused e-mail) is refused, and the
/// refusal names that field.
pub proof fn law_register_refuses_broken_fields(display_name: Seq<char>, password: Seq<char>, email_ok: bool)
    ensures
        display_name.len() < 3 ==> register_failing(display_name, password, email_ok).contains(Field::DisplayName),
        password.len() < 10 ==> register_failing(display_name, password, email_ok).contains(Field::Password),
        !email_ok ==> register_failing(display_name, password, email_ok).contains(Field::Email),
        register_failing(display_name, password, email_ok).len() == 0 <==> (display_name.len() >= 3
            && password.len() >= 10 && email_ok),
{
    let failing = register_failing(display_name, password, email_ok);
    let a = flag(Field::DisplayName, length_within(display_name, Some(3), None));
    let b = flag(Field::Password, length_within(password, Some(10), None));
    let c = flag(Field::Email, email_ok);
    assert(failing =~= a + b + c);
    if display_name.len() < 3 {
        assert(failing[0] == Field::DisplayName);
    }
    if password.len() < 10 {
        assert(failing[a.len() as int] == Field::Password);
    }
    if !email_ok {
        assert(failing[(a.len() + b.len()) as int] == Field::Email);
    }
}

/// What registration does once it knows whether the e-mail is taken.
pub enum RegisterAction {
    /// Insert this row into `users`.
    InsertUser(Payload),
    /// Answer with this status.
    Respond(Status),
}

/// Whether registration goes on to insert the user, given the answer to
/// "is this e-mail taken?": only a clear "no" lets it through; a "yes" or a
/// failed query is answered with 422.
pub open spec fn inserts_after_lookup(taken: Result<bool, DbError>) -> bool {
    taken == Ok::<bool, DbError>(false)
}

/// Decides what registration does once the e-mail lookup has answered. When
/// it goes on, the row to insert keeps the display name and e-mail of the
/// payload and holds a fresh Argon2 hash of the password, a default Argon2 PHC
/// string, so it differs from any password that is not itself of that form.
/// Only a password that is hashed must fit Argon2's limit.
pub fn on_email_lookup(payload: Payload, taken: Result<bool, DbError>) -> (action: RegisterAction)
    requires
        inserts_after_lookup(taken) ==> encode_utf8(payload.password@).len() <= max_password_len(),
    ensures
        inserts_after_lookup(taken) ==> (action matches RegisterAction::InsertUser(user) && {
            &&& user.display_name == payload.display_name
            &&& user.email == payload.email
            &&& phc_parses(user.password@)
            &&& argon2_accepts(encode_utf8(payload.password@), user.password@)
            &&& is_default_argon2_phc(user.password@)
            &&& (!is_default_argon2_phc(payload.password@) ==> user.password@ != payload.password@)
        }),
        !inserts_after_lookup(taken) ==> action == RegisterAction::Respond(Status::UnprocessableEntity),
{
    match taken {
        Ok(false) => {
            let hashed = hash_password(payload.password.as_str().as_bytes());
            RegisterAction::InsertUser(
                Payload { display_name: payload.display_name, password: hashed, email: payload.email },
            )
        },
        _ => RegisterAction::Respond(Status::UnprocessableEntity),
    }
}

/// The status of a registration once the insertion has answered.
pub open spec fn status_after_insert(inserted: Result<usize, DbError>) -> Status {
    if inserted is Ok {
        Status::Created
    } else {
        Status::InternalServerError
    }
}

/// Answers a registration once the insertion has answered: 201 when the row
/// went in, 500 otherwise.
pub fn on_user_inserted(inserted: Result<usize, DbError>) -> (status: Status)
    ensures
        status == status_after_insert(inserted),
        inserted is Ok ==> status == Status::Created,
        inserted is Err ==> status == Status::InternalServerError,
{
    match inserted {
        Ok(_) => Status::Created,
        Err(_) => Status::InternalServerError,
    }
}

} // verus!
