//! Login and registration with session tokens, and the methods that these
//! resources do not accept.

use vstd::prelude::*;
use crate::auth::{generate_token, token_of};
use crate::credentials::{email_validity, fits_idna, fits_idna_check, validate_email};
use crate::model::{DbError, InsertableUser};
use crate::status::Status;

verus! {

/// What the first step of a login or a registration decides.
pub enum AccountStep {
    /// Answer at once with this status.
    Respond(Status),
    /// Look the user up (login) or insert it (registration).
    Proceed,
}

/// What a login ends with.
pub enum LoginOutcome {
    /// Answer with this status and set no cookie.
    Respond(Status),
    /// Answer `200 OK` and set the session cookie to this token.
    SetSession(String),
}

/// Whether a mail is refused as an address: it cannot be checked (see
/// `fits_idna`), or the checker does not accept it.
pub open spec fn mail_refused(mail: Seq<char>) -> bool {
    !fits_idna(mail) || !email_validity(mail)
}

/// First step of `POST /login` and `POST /registration`: a mail that is not
/// an address is refused before the store is asked.
///
/// A mail with a run of more than `IDNA_RUN_LIMIT` characters between `.`
/// and `@` that holds a non-ASCII character is refused without asking the
/// checker, whose IDNA conversion can overflow on such a domain. The checker
/// refuses such a mail too unless a long run shrinks under IDNA mapping
/// (characters that it drops, or that normalization composes) to a label
/// it accepts: a run in the local part must be ASCII, and a domain run that
/// does not shrink gives a label of more than 63 characters. Those
/// shrinking mails are the ones refused here that the checker accepts.
pub fn check_mail(given_user: &InsertableUser) -> (step: AccountStep)
    ensures
        mail_refused(given_user.mail@) ==> step == AccountStep::Respond(Status::InvalidEmail),
        !mail_refused(given_user.mail@) ==> step is Proceed,
{
    let mail = given_user.mail.as_str();
    if !fits_idna_check(mail) {
        return AccountStep::Respond(Status::InvalidEmail);
    }
    if validate_email(mail) == false {
        return AccountStep::Respond(Status::InvalidEmail);
    }
    AccountStep::Proceed
}

/// `POST /login`, first step: check the mail; on `Proceed` the user with
/// that mail is looked up, and `login_checked` ends the login.
pub fn login_post(given_user: &InsertableUser) -> (step: AccountStep)
    ensures
        mail_refused(given_user.mail@) ==> step == AccountStep::Respond(Status::InvalidEmail),
        !mail_refused(given_user.mail@) ==> step is Proceed,
{
    check_mail(given_user)
}

/// `POST /login`, last step, given what the store holds for the mail: a
/// matching password opens a session whose token is the one made for the
/// mail; a wrong password is unauthorized; an unknown mail is not found.
pub fn login_checked(given_user: &InsertableUser, stored: Result<InsertableUser, DbError>) -> (out: LoginOutcome)
    ensures
        match stored {
            Err(_) => out == LoginOutcome::Respond(Status::NotFound),
            Ok(db_user) => if db_user.password@ == given_user.password@ {
                out matches LoginOutcome::SetSession(token) && token@ == token_of(given_user.mail@)
            } else {
                out == LoginOutcome::Respond(Status::Unauthorized)
            },
        },
{
    match stored {
        Ok(db_user) => {
            if db_user.password == given_user.password {
                LoginOutcome::SetSession(generate_token(&given_user.mail))
            } else {
                LoginOutcome::Respond(Status::Unauthorized)
            }
        },
        Err(_) => LoginOutcome::Respond(Status::NotFound),
    }
}

/// `GET /login` is not a method of the login resource.
pub fn login_get() -> (s: Status)
    ensures
        s == Status::MethodNotAllowed,
{
    Status::MethodNotAllowed
}

/// `PUT /login` is not a method of the login resource.
pub fn login_put() -> (s: Status)
    ensures
        s == Status::MethodNotAllowed,
{
    Status::MethodNotAllowed
}

/// `DELETE /login` is not a method of the login resource.
pub fn login_delete() -> (s: Status)
    ensures
        s == Status::MethodNotAllowed,
{
    Status::MethodNotAllowed
}

/// `POST /registration`, first step: check the mail; on `Proceed` the user
/// is inserted, and `registration_inserted` ends the registration.
pub fn registration_post(user: &InsertableUser) -> (step: AccountStep)
    ensures
        mail_refused(user.mail@) ==> step == AccountStep::Respond(Status::InvalidEmail),
        !mail_refused(user.mail@) ==> step is Proceed,
{
    check_mail(user)
}

/// `POST /registration`, last step: a stored user is created; the store
/// refuses a mail that it already holds.
pub fn registration_inserted(inserted: bool) -> (s: Status)
    ensures
        inserted ==> s == Status::Created,
        !inserted ==> s == Status::UserExists,
{
    if inserted {
        Status::Created
    } else {
        Status::UserExists
    }
}

/// `GET /registration` is not a method of the registration resource.
pub fn registration_get() -> (s: Status)
    ensures
        s == Status::MethodNotAllowed,
{
    Status::MethodNotAllowed
}

/// `PUT /registration` is not a method of the registration resource.
pub fn registration_put() -> (s: Status)
    ensures
        s == Status::MethodNotAllowed,
{
    Status::MethodNotAllowed
}

/// `DELETE /registration` is not a method of the registration resource.
pub fn registration_delete() -> (s: Status)
    ensures
        s == Status::MethodNotAllowed,
{
    Status::MethodNotAllowed
}

} // verus!
