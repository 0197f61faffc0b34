//! Session tokens: issuing one at login, and reading the user back from
//! the token that a request carries.

use vstd::prelude::*;
use crate::credentials::{jwt_claim, jwt_decode_claim, jwt_encode_claim, jwt_signed};
use crate::model::{DbError, InsertableUser};

verus! {

/// The secret that signs session tokens.
pub const TOKEN_KEY: &'static str = "secret";

/// The claim of a session token that holds the user's mail.
pub const MAIL_CLAIM: &'static str = "mail";

/// The cookie that carries the session token.
pub const SESSION_COOKIE: &'static str = "jwt";

/// The session token of the user with this mail.
pub open spec fn token_of(mail: Seq<char>) -> Seq<char> {
    jwt_signed(MAIL_CLAIM@, mail, TOKEN_KEY@)
}

/// The mail that a session token claims, if it verifies.
pub open spec fn mail_in(token: Seq<char>) -> Option<Seq<char>> {
    jwt_claim(token, TOKEN_KEY@, MAIL_CLAIM@)
}

/// Makes the session token of the user with this mail.
pub fn generate_token(mail: &String) -> (t: String)
    ensures
        t@ == token_of(mail@),
{
    jwt_encode_claim(MAIL_CLAIM, mail.as_str(), TOKEN_KEY).unwrap()
}

/// What the first step of authorizing a request decides.
pub enum AuthStep {
    /// The request carries no verifiable token: it is not authorized.
    Denied,
    /// The token names this mail; the user must still be looked up.
    LookUp(String),
}

/// First step of authorizing a request, from the value of its session
/// cookie, if it has one.
///
/// A cookie that holds the token made for a mail leads to the look-up of
/// that mail.
pub fn authorize(cookie: Option<&str>) -> (step: AuthStep)
    ensures
        match cookie {
            None => step is Denied,
            Some(token) => match mail_in(token@) {
                None => step is Denied,
                Some(m) => step matches AuthStep::LookUp(mail) && mail@ == m,
            },
        },
        forall|m: Seq<char>|
            cookie matches Some(token) && #[trigger] token_of(m) == token@
                ==> (step matches AuthStep::LookUp(mail) && mail@ == m),
{
    match cookie {
        None => AuthStep::Denied,
        Some(token) => match jwt_decode_claim(token, TOKEN_KEY, MAIL_CLAIM) {
            None => AuthStep::Denied,
            Some(mail) => AuthStep::LookUp(mail),
        },
    }
}

/// Last step of authorizing a request: the mail that the token named is
/// the user's if the store holds a user with that mail.
pub fn authorize_found(mail: String, stored: Result<InsertableUser, DbError>) -> (r: Result<String, ()>)
    ensures
        match stored {
            Ok(_) => r matches Ok(m) && m@ == mail@,
            Err(_) => r is Err,
        },
{
    match stored {
        Ok(_) => Ok(mail),
        Err(_) => Err(()),
    }
}

} // verus!
