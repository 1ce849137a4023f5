//! The session of a logged-in user: the claims carried by the signed token that
//! the `session_token` cookie holds.

use vstd::prelude::*;

use crate::routes::Status;

verus! {

/// The claims of a session token: its expiry (seconds since the Unix epoch, as
/// the token's `exp`), and who the user is.
pub struct UserSessionClaims {
    pub exp: usize,
    pub id: i32,
    pub email: String,
    pub display_name: String,
}

/// The name of the cookie that carries the session token.
pub open spec fn session_cookie_name_spec() -> Seq<char> {
    "session_token"@
}

/// The name of the cookie that carries the session token.
pub fn session_cookie_name() -> (name: &'static str)
    ensures
        name@ == session_cookie_name_spec(),
{
    "session_token"
}

/// The cookie that a successful login sets: its name and its value, the token.
pub fn session_cookie(token: String) -> (cookie: (&'static str, String))
    ensures
        cookie.0@ == session_cookie_name_spec(),
        cookie.1 == token,
{
    (session_cookie_name(), token)
}

/// Decides the extraction of a session from a request: the token of the
/// `session_token` cookie when the request has one (it is then decoded), 401
/// when it has none.
pub fn session_token_or_reject(cookie: Option<String>) -> (token: Result<String, Status>)
    ensures
        cookie matches Some(t) ==> token == Ok::<String, Status>(t),
        cookie is None ==> token == Err::<String, Status>(Status::Unauthorized),
{
    match cookie {
        Some(t) => Ok(t),
        None => Err(Status::Unauthorized),
    }
}

/// The number of seconds in a number of days.
pub open spec fn days_in_seconds(days: int) -> int {
    days * 86_400
}

/// Calls `time::Duration::days(days).whole_seconds()`. `Duration::days`
/// panics when `days * 86400` overflows an `i64`, which `requires` leaves out;
/// the count of seconds is then exact.
#[verifier::external_body]
fn whole_seconds_of_days(days: i64) -> (seconds: i64)
    requires
        i64::MIN <= days * 86400 <= i64::MAX,
    ensures
        seconds == days_in_seconds(days as int),
{
    time::Duration::days(days).whole_seconds()
}

/// How long a session lasts, in days.
pub open spec fn session_days() -> int {
    30
}

/// The `exp` of a session opened at `now` (seconds since the Unix epoch): 30
/// days later, in seconds.
pub open spec fn session_expiry_spec(now: int) -> int {
    now + days_in_seconds(session_days())
}

/// Whether a session opened at `now` has an expiry that fits the claims: the
/// sum neither overflows an `i64` nor leaves the range of a `usize`.
pub open spec fn expiry_fits(now: int) -> bool {
    &&& i64::MIN <= session_expiry_spec(now) <= i64::MAX
    &&& 0 <= session_expiry_spec(now) <= usize::MAX
}

/// The expiry of a session opened at `now`.
pub fn session_expiry(now: i64) -> (exp: usize)
    requires
        expiry_fits(now as int),
    ensures
        exp == session_expiry_spec(now as int),
        exp == now + 30 * 24 * 3600,
{
    let lasts = whole_seconds_of_days(30);
    assert(lasts == 2_592_000);
    let exp: i64 = now + lasts;
    exp as usize
}

/// The claims of a session opened at `now` for the user `id`.
pub fn new_session_claims(email: String, display_name: String, id: i32, now: i64) -> (claims: UserSessionClaims)
    requires
        expiry_fits(now as int),
    ensures
        claims.exp == session_expiry_spec(now as int),
        claims.exp == now + 30 * 24 * 3600,
        claims.id == id,
        claims.email == email,
        claims.display_name == display_name,
{
    UserSessionClaims { exp: session_expiry(now), id, email, display_name }
}

/// The claims of a session opened at `now` for the user `id`, or `None` when
/// its expiry does not fit the claims (opening such a session fails).
pub fn session_claims_at(email: String, display_name: String, id: i32, now: i64) -> (claims: Option<UserSessionClaims>)
    ensures
        claims is Some <==> expiry_fits(now as int),
        claims matches Some(c) ==> {
            &&& c.exp == session_expiry_spec(now as int)
            &&& c.exp == now + 30 * 24 * 3600
            &&& c.id == id
            &&& c.email == email
            &&& c.display_name == display_name
        },
{
    let lasts = whole_seconds_of_days(30);
    if now > i64::MAX - lasts {
        return None;
    }
    let exp: i64 = now + lasts;
    if exp < 0 || (exp as u64) > (usize::MAX as u64) {
        return None;
    }
    Some(new_session_claims(email, display_name, id, now))
}

} // verus!
