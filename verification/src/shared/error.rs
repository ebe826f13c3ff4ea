//! The errors that service operations answer with, and how each is reported.
use vstd::prelude::*;
use crate::shared::text::str_eq;

verus! {

/// An error of a service operation. Each variant maps to one HTTP status and one
/// error code; the variants with a message report it as is.
#[derive(Debug)]
pub enum AppError {
    BadRequest(String),
    Unauthorized,
    Forbidden(String),
    NotFound(String),
    Conflict(String),
    ValidationError(String),
    InternalError,
}

/// The HTTP status of an error.
pub open spec fn status_of(e: AppError) -> u16 {
    match e {
        AppError::BadRequest(_) => 400,
        AppError::Unauthorized => 401,
        AppError::Forbidden(_) => 403,
        AppError::NotFound(_) => 404,
        AppError::Conflict(_) => 409,
        AppError::ValidationError(_) => 422,
        AppError::InternalError => 500,
    }
}

/// The error code reported in the body.
pub open spec fn code_of(e: AppError) -> Seq<char> {
    match e {
        AppError::BadRequest(_) => "BAD_REQUEST"@,
        AppError::Unauthorized => "UNAUTHORIZED"@,
        AppError::Forbidden(_) => "FORBIDDEN"@,
        AppError::NotFound(_) => "NOT_FOUND"@,
        AppError::Conflict(_) => "CONFLICT"@,
        AppError::ValidationError(_) => "VALIDATION_ERROR"@,
        AppError::InternalError => "INTERNAL_ERROR"@,
    }
}

/// The message reported in the body: the error's own text, or a fixed text that
/// reveals nothing for authentication and internal failures.
pub open spec fn message_of(e: AppError) -> Seq<char> {
    match e {
        AppError::BadRequest(m) => m@,
        AppError::Unauthorized => "Authentication required"@,
        AppError::Forbidden(m) => m@,
        AppError::NotFound(m) => m@,
        AppError::Conflict(m) => m@,
        AppError::ValidationError(m) => m@,
        AppError::InternalError => "An internal error occurred"@,
    }
}

impl AppError {
    pub fn status_code(&self) -> (r: u16)
        ensures
            r == status_of(*self),
    {
        match self {
            AppError::BadRequest(_) => 400,
            AppError::Unauthorized => 401,
            AppError::Forbidden(_) => 403,
            AppError::NotFound(_) => 404,
            AppError::Conflict(_) => 409,
            AppError::ValidationError(_) => 422,
            AppError::InternalError => 500,
        }
    }

    pub fn code(&self) -> (r: &'static str)
        ensures
            r@ == code_of(*self),
    {
        match self {
            AppError::BadRequest(_) => "BAD_REQUEST",
            AppError::Unauthorized => "UNAUTHORIZED",
            AppError::Forbidden(_) => "FORBIDDEN",
            AppError::NotFound(_) => "NOT_FOUND",
            AppError::Conflict(_) => "CONFLICT",
            AppError::ValidationError(_) => "VALIDATION_ERROR",
            AppError::InternalError => "INTERNAL_ERROR",
        }
    }

    pub fn message(&self) -> (r: String)
        ensures
            r@ == message_of(*self),
    {
        match self {
            AppError::BadRequest(m) => m.clone(),
            AppError::Unauthorized => String::from_str("Authentication required"),
            AppError::Forbidden(m) => m.clone(),
            AppError::NotFound(m) => m.clone(),
            AppError::Conflict(m) => m.clone(),
            AppError::ValidationError(m) => m.clone(),
            AppError::InternalError => String::from_str("An internal error occurred"),
        }
    }
}

/// Whether an error has the given status and message (which together fix the variant
/// and its text).
pub open spec fn err_is(e: AppError, status: u16, msg: Seq<char>) -> bool {
    status_of(e) == status && message_of(e) == msg
}

/// Whether a result is the expected outcome: the same value, or an error with the
/// expected status and message.
pub open spec fn outcome_is<T>(r: Result<T, AppError>, expected: Result<T, (u16, Seq<char>)>) -> bool {
    match (r, expected) {
        (Ok(a), Ok(b)) => a == b,
        (Err(e), Err(x)) => err_is(e, x.0, x.1),
        _ => false,
    }
}

pub open spec fn bad_request(m: Seq<char>) -> (u16, Seq<char>) {
    (400, m)
}

pub open spec fn unauthorized() -> (u16, Seq<char>) {
    (401, "Authentication required"@)
}

pub open spec fn forbidden(m: Seq<char>) -> (u16, Seq<char>) {
    (403, m)
}

pub open spec fn not_found(m: Seq<char>) -> (u16, Seq<char>) {
    (404, m)
}

pub open spec fn conflict(m: Seq<char>) -> (u16, Seq<char>) {
    (409, m)
}

pub open spec fn validation_failed(m: Seq<char>) -> (u16, Seq<char>) {
    (422, m)
}

pub open spec fn internal() -> (u16, Seq<char>) {
    (500, "An internal error occurred"@)
}

/// The error that a failed database write is answered with: a unique constraint
/// that a user can run into is a `Conflict` that says what is taken; anything else
/// is an internal error.
pub open spec fn database_error_spec(constraint: Option<Seq<char>>) -> (u16, Seq<char>) {
    match constraint {
        Some(c) => if c == "users_username_key"@ {
            conflict("Username already taken"@)
        } else if c == "users_email_key"@ {
            conflict("Email already taken"@)
        } else if c == "team_members_unique_membership"@ {
            conflict("Already a member of this team"@)
        } else if c == "timeline_reactions_unique_reaction"@ {
            conflict("You already reacted with this emoji"@)
        } else {
            internal()
        },
        None => internal(),
    }
}

/// Maps the constraint that a failed write broke (if the database named one).
pub fn database_error(constraint: Option<&str>) -> (r: AppError)
    ensures
        err_is(
            r,
            database_error_spec(
                match constraint {
                    Some(c) => Some(c@),
                    None => None,
                },
            ).0,
            database_error_spec(
                match constraint {
                    Some(c) => Some(c@),
                    None => None,
                },
            ).1,
        ),
{
    match constraint {
        None => AppError::InternalError,
        Some(c) => if str_eq(c, "users_username_key") {
            AppError::Conflict(String::from_str("Username already taken"))
        } else if str_eq(c, "users_email_key") {
            AppError::Conflict(String::from_str("Email already taken"))
        } else if str_eq(c, "team_members_unique_membership") {
            AppError::Conflict(String::from_str("Already a member of this team"))
        } else if str_eq(c, "timeline_reactions_unique_reaction") {
            AppError::Conflict(String::from_str("You already reacted with this emoji"))
        } else {
            AppError::InternalError
        },
    }
}

} // verus!
