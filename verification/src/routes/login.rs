//! `POST /user/login`: checks an e-mail and password and opens a session.

use vstd::prelude::*;
use vstd::utf8::encode_utf8;

use crate::models::User;
use crate::password::{argon2_accepts, password_matches, phc_parses};
use crate::routes::{DbError, Status};
use crate::validate::{
    check_email, check_length, conclude, email_accepted, flag, length_within, note, Field,
};

verus! {

/// The payload of a login.
pub struct Payload {
    pub password: String,
    pub email: String,
}

/// The body that a login could answer with.
pub struct ResultBody {
    pub token: String,
}

/// The fields of a login payload that fail their rules: a password of at least
/// 10 characters, a valid e-mail.
pub open spec fn login_failing(password: Seq<char>, email_ok: bool) -> Seq<Field> {
    flag(Field::Password, length_within(password, Some(10), None)) + flag(Field::Email, email_ok)
}

impl Payload {
    /// Validates the payload, given whether the e-mail rule accepts its e-mail.
    pub fn validate_with(&self, email_ok: bool) -> (verdict: Result<(), Vec<Field>>)
        ensures
            verdict is Ok <==> login_failing(self.password@, email_ok).len() == 0,
            verdict matches Err(fields) ==> fields@ == login_failing(self.password@, email_ok),
            verdict is Ok <==> (self.password@.len() >= 10 && email_ok),
    {
        let mut failing: Vec<Field> = Vec::new();
        note(&mut failing, Field::Password, check_length(self.password.as_str(), Some(10), None));
        note(&mut failing, Field::Email, email_ok);
        proof {
            assert(failing@ =~= login_failing(self.password@, email_ok));
            law_login_refuses_broken_fields(self.password@, email_ok);
        }
        conclude(failing)
    }

    /// Validates the payload.
    pub fn validate(&self) -> (verdict: Result<(), Vec<Field>>)
        ensures
            verdict is Ok <==> login_failing(self.password@, email_accepted(self.email@)).len() == 0,
            verdict matches Err(fields) ==> fields@ == login_failing(
                self.password@,
                email_accepted(self.email@),
            ),
    {
        let email_ok = check_email(self.email.as_str());
        self.validate_with(email_ok)
    }
}

/// A login payload with a password shorter than 10 characters or a refused
/// e-mail is refused, and the refusal names that field.
pub proof fn law_login_refuses_broken_fields(password: Seq<char>, email_ok: bool)
    ensures
        password.len() < 10 ==> login_failing(password, email_ok).contains(Field::Password),
        !email_ok ==> login_failing(password, email_ok).contains(Field::Email),
        login_failing(password, email_ok).len() == 0 <==> (password.len() >= 10 && email_ok),
{
    let failing = login_failing(password, email_ok);
    let a = flag(Field::Password, length_within(password, Some(10), None));
    if password.len() < 10 {
        assert(failing[0] == Field::Password);
    }
    if !email_ok {
        assert(failing[a.len() as int] == Field::Email);
    }
}

/// What a login does once the user with the e-mail has been looked up.
pub enum LoginOutcome {
    /// Answer with this status.
    Respond(Status),
    /// The stored password hash is not a PHC string: the handler fails.
    MalformedStoredHash,
    /// Open a session for this user: sign a token and set it as cookie.
    OpenSession { id: i32, email: String, display_name: String },
}

/// The outcome of a login with the password `password` (its UTF-8 bytes), once
/// the lookup of the e-mail has answered `found`.
pub open spec fn login_outcome<D>(password: Seq<u8>, found: Result<Option<User<D>>, DbError>) -> LoginOutcome {
    match found {
        Err(_) => LoginOutcome::Respond(Status::InternalServerError),
        Ok(None) => LoginOutcome::Respond(Status::Unauthorized),
        Ok(Some(user)) => if !phc_parses(user.password@) {
            LoginOutcome::MalformedStoredHash
        } else if argon2_accepts(password, user.password@) {
            LoginOutcome::OpenSession { id: user.id, email: user.email, display_name: user.display_name }
        } else {
            LoginOutcome::Respond(Status::Unauthorized)
        },
    }
}

/// Decides a login once the lookup of the e-mail has answered: 500 when the
/// query failed, 401 when no user has the e-mail or the password does not
/// match the stored hash, a session for the user when it matches.
pub fn on_user_lookup<D>(payload: &Payload, found: Result<Option<User<D>>, DbError>) -> (outcome: LoginOutcome)
    ensures
        outcome == login_outcome(encode_utf8(payload.password@), found),
        found is Err ==> outcome == LoginOutcome::Respond(Status::InternalServerError),
        found == Ok::<Option<User<D>>, DbError>(None) ==> outcome == LoginOutcome::Respond(Status::Unauthorized),
        found matches Ok(Some(user)) ==> (phc_parses(user.password@) && argon2_accepts(encode_utf8(payload.password@), user.password@)
            ==> outcome == (LoginOutcome::OpenSession { id: user.id, email: user.email, display_name: user.display_name })),
        found matches Ok(Some(user)) ==> (phc_parses(user.password@) && !argon2_accepts(encode_utf8(payload.password@), user.password@)
            ==> outcome == LoginOutcome::Respond(Status::Unauthorized)),
        found matches Ok(Some(user)) ==> (!phc_parses(user.password@) ==> outcome == LoginOutcome::MalformedStoredHash),
{
    match found {
        Err(_) => LoginOutcome::Respond(Status::InternalServerError),
        Ok(None) => LoginOutcome::Respond(Status::Unauthorized),
        Ok(Some(user)) => match password_matches(payload.password.as_str(), user.password.as_str()) {
            Err(_) => LoginOutcome::MalformedStoredHash,
            Ok(false) => LoginOutcome::Respond(Status::Unauthorized),
            Ok(true) => LoginOutcome::OpenSession {
                id: user.id,
                email: user.email,
                display_name: user.display_name,
            },
        },
    }
}

} // verus!
