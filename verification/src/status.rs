use vstd::prelude::*;

verus! {

/// The HTTP statuses that the service answers with.
///
/// `InvalidEmail` and `UserExists` are the service's own statuses: the
/// codes 400 and 409 with a reason phrase of their own.
#[derive(Clone, Copy, Debug, PartialEq, Eq, Structural)]
pub enum Status {
    OK,
    Created,
    Accepted,
    BadRequest,
    InvalidEmail,
    Unauthorized,
    NotFound,
    MethodNotAllowed,
    Conflict,
    UserExists,
    InternalServerError,
}

impl Status {
    /// The numeric code of each status.
    pub open spec fn spec_code(self) -> u16 {
        match self {
            Status::OK => 200,
            Status::Created => 201,
            Status::Accepted => 202,
            Status::BadRequest => 400,
            Status::InvalidEmail => 400,
            Status::Unauthorized => 401,
            Status::NotFound => 404,
            Status::MethodNotAllowed => 405,
            Status::Conflict => 409,
            Status::UserExists => 409,
            Status::InternalServerError => 500,
        }
    }

    /// The numeric code of the status.
    pub fn code(&self) -> (c: u16)
        ensures
            c == self.spec_code(),
    {
        match self {
            Status::OK => 200,
            Status::Created => 201,
            Status::Accepted => 202,
            Status::BadRequest => 400,
            Status::InvalidEmail => 400,
            Status::Unauthorized => 401,
            Status::NotFound => 404,
            Status::MethodNotAllowed => 405,
            Status::Conflict => 409,
            Status::UserExists => 409,
            Status::InternalServerError => 500,
        }
    }

    /// The reason phrase sent with the status.
    pub fn reason(&self) -> (r: &'static str)
        ensures
            *self == Status::OK ==> r@ == "OK"@,
            *self == Status::Created ==> r@ == "Created"@,
            *self == Status::Accepted ==> r@ == "Accepted"@,
            *self == Status::BadRequest ==> r@ == "Bad Request"@,
            *self == Status::InvalidEmail ==> r@ == REASON_BAD_EMAIL@,
            *self == Status::Unauthorized ==> r@ == "Unauthorized"@,
            *self == Status::NotFound ==> r@ == "Not Found"@,
            *self == Status::MethodNotAllowed ==> r@ == "Method Not Allowed"@,
            *self == Status::Conflict ==> r@ == "Conflict"@,
            *self == Status::UserExists ==> r@ == REASON_USER_EXISTS@,
            *self == Status::InternalServerError ==> r@ == "Internal Server Error"@,
    {
        match self {
            Status::OK => "OK",
            Status::Created => "Created",
            Status::Accepted => "Accepted",
            Status::BadRequest => "Bad Request",
            Status::InvalidEmail => REASON_BAD_EMAIL,
            Status::Unauthorized => "Unauthorized",
            Status::NotFound => "Not Found",
            Status::MethodNotAllowed => "Method Not Allowed",
            Status::Conflict => "Conflict",
            Status::UserExists => REASON_USER_EXISTS,
            Status::InternalServerError => "Internal Server Error",
        }
    }
}

/// Reason phrase of a registration for a mail that is already taken.
pub const REASON_USER_EXISTS: &'static str = "User already exists!";

/// Reason phrase of a request whose mail is not a valid address.
pub const REASON_BAD_EMAIL: &'static str = "Invalid email!";

} // verus!
