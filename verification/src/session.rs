//! Login and registration without session tokens: a login only checks the
//! password.

use vstd::prelude::*;
use crate::endpoints::{check_mail, mail_refused, AccountStep};
use crate::model::{DbError, InsertableUser};
use crate::status::Status;

verus! {

/// `POST /login`, first step: check the mail; on `Proceed` the user with
/// that mail is looked up, and `login_checked` ends the login.
pub fn login_post(given_user: &InsertableUser) -> (step: AccountStep)
    ensures
        mail_refused(given_user.mail@) ==> step == AccountStep::Respond(Status::InvalidEmail),
        !mail_refused(given_user.mail@) ==> step is Proceed,
{
    check_mail(given_user)
}

/// `POST /login`, last step: `200 OK` for a matching password, `401` for a
/// wrong one, `404` for an unknown mail.
pub fn login_checked(given_user: &InsertableUser, stored: Result<InsertableUser, DbError>) -> (s: Status)
    ensures
        match stored {
            Err(_) => s == Status::NotFound,
            Ok(db_user) => if db_user.password@ == given_user.password@ {
                s == Status::OK
            } else {
                s == Status::Unauthorized
            },
        },
{
    match stored {
        Ok(db_user) => {
            if db_user.password == given_user.password {
                Status::OK
            } else {
                Status::Unauthorized
            }
        },
        Err(_) => Status::NotFound,
    }
}

/// `GET /login` is not a method of the login resource.
pub fn login_get() -> (s: Status)
    ensures
        s == Status::MethodNotAllowed,
{
    Status::MethodNotAllowed
}

/// `PUT /login` is not a method of the login resource.
pub fn login_put() -> (s: Status)
    ensures
        s == Status::MethodNotAllowed,
{
    Status::MethodNotAllowed
}

/// `DELETE /login` is not a method of the login resource.
pub fn login_delete() -> (s: Status)
    ensures
        s == Status::MethodNotAllowed,
{
    Status::MethodNotAllowed
}

/// `POST /registration`, first step: check the mail; on `Proceed` the user
/// is inserted, and `registration_inserted` ends the registration.
pub fn registration_post(user: &InsertableUser) -> (step: AccountStep)
    ensures
        mail_refused(user.mail@) ==> step == AccountStep::Respond(Status::InvalidEmail),
        !mail_refused(user.mail@) ==> step is Proceed,
{
    check_mail(user)
}

/// `POST /registration`, last step: a stored user is created; the store
/// refuses a mail that it already holds.
pub fn registration_inserted(inserted: bool) -> (s: Status)
    ensures
        inserted ==> s == Status::Created,
        !inserted ==> s == Status::UserExists,
{
    if inserted {
        Status::Created
    } else {
        Status::UserExists
    }
}

/// `GET /registration` is not a method of the registration resource.
pub fn registration_get() -> (s: Status)
    ensures
        s == Status::MethodNotAllowed,
{
    Status::MethodNotAllowed
}

/// `PUT /registration` is not a method of the registration resource.
pub fn registration_put() -> (s: Status)
    ensures
        s == Status::MethodNotAllowed,
{
    Status::MethodNotAllowed
}

/// `DELETE /registration` is not a method of the registration resource.
pub fn registration_delete() -> (s: Status)
    ensures
        s == Status::MethodNotAllowed,
{
    Status::MethodNotAllowed
}

} // verus!
