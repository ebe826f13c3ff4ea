//! The request bodies of the authentication routes.
use vstd::prelude::*;
use crate::shared::validation::{
    Checker, ValidationErrors, ValidationKind, check_email, check_length, email_valid,
    field_check, lemma_errors_are_push, length_ok, validated,
};

verus! {

#[derive(Debug)]
pub struct RegisterRequest {
    pub username: String,
    pub email: String,
    pub password: String,
}

#[derive(Debug)]
pub struct LoginRequest {
    pub email: String,
    pub password: String,
}

/// A profile update; absent fields stay as they are.
#[derive(Debug)]
pub struct UpdateProfileRequest {
    pub username: Option<String>,
    pub language: Option<String>,
    pub new_password: Option<String>,
    pub old_password: Option<String>,
}

pub open spec fn username_kind() -> ValidationKind {
    ValidationKind::Length { min: Some(3), max: Some(50) }
}

pub open spec fn password_kind() -> ValidationKind {
    ValidationKind::Length { min: Some(8), max: Some(72) }
}

pub open spec fn language_kind() -> ValidationKind {
    ValidationKind::Length { min: Some(2), max: Some(10) }
}

pub open spec fn text_fits(s: Seq<char>, k: ValidationKind) -> bool {
    match k {
        ValidationKind::Length { min, max } => length_ok(s.len() as int, min, max),
        ValidationKind::Email => email_valid(s),
    }
}

pub open spec fn optional_fits(s: Option<String>, k: ValidationKind) -> bool {
    match s {
        Some(v) => text_fits(v@, k),
        None => true,
    }
}

/// Username of 3 to 50 characters, an email address, password of 8 to 72 characters.
pub open spec fn register_errors(r: RegisterRequest) -> Seq<(Seq<char>, ValidationKind)> {
    field_check(text_fits(r.username@, username_kind()), "username"@, username_kind())
        + field_check(email_valid(r.email@), "email"@, ValidationKind::Email)
        + field_check(text_fits(r.password@, password_kind()), "password"@, password_kind())
}

/// An email address and a password of 8 to 72 characters.
pub open spec fn login_errors(r: LoginRequest) -> Seq<(Seq<char>, ValidationKind)> {
    field_check(email_valid(r.email@), "email"@, ValidationKind::Email) + field_check(
        text_fits(r.password@, password_kind()),
        "password"@,
        password_kind(),
    )
}

/// When given: username of 3 to 50 characters, language of 2 to 10, new password of 8
/// to 72. The old password is not checked.
pub open spec fn update_profile_errors(r: UpdateProfileRequest) -> Seq<(Seq<char>, ValidationKind)> {
    field_check(optional_fits(r.username, username_kind()), "username"@, username_kind())
        + field_check(optional_fits(r.language, language_kind()), "language"@, language_kind())
        + field_check(optional_fits(r.new_password, password_kind()), "new_password"@, password_kind())
}

fn check_optional(s: &Option<String>, min: u64, max: u64) -> (r: bool)
    ensures
        r == optional_fits(*s, ValidationKind::Length { min: Some(min), max: Some(max) }),
{
    match s {
        Some(v) => check_length(v.as_str(), Some(min), Some(max)),
        None => true,
    }
}

impl RegisterRequest {
    pub fn validate(&self) -> (r: Result<(), ValidationErrors>)
        ensures
            validated(r, register_errors(*self)),
    {
        let mut c = Checker::new();
        let ghost e0 = Seq::<(Seq<char>, ValidationKind)>::empty();
        let ok1 = check_length(self.username.as_str(), Some(3), Some(50));
        proof {
            lemma_errors_are_push(c.errors@, e0, ok1, "username", username_kind());
        }
        c.check(ok1, "username", ValidationKind::Length { min: Some(3), max: Some(50) });
        let ghost e1 = e0 + field_check(ok1, "username"@, username_kind());
        let ok2 = check_email(self.email.as_str());
        proof {
            lemma_errors_are_push(c.errors@, e1, ok2, "email", ValidationKind::Email);
        }
        c.check(ok2, "email", ValidationKind::Email);
        let ghost e2 = e1 + field_check(ok2, "email"@, ValidationKind::Email);
        let ok3 = check_length(self.password.as_str(), Some(8), Some(72));
        proof {
            lemma_errors_are_push(c.errors@, e2, ok3, "password", password_kind());
            assert(e2 + field_check(ok3, "password"@, password_kind()) =~= register_errors(*self));
        }
        c.check(ok3, "password", ValidationKind::Length { min: Some(8), max: Some(72) });
        c.finish()
    }
}

impl LoginRequest {
    pub fn validate(&self) -> (r: Result<(), ValidationErrors>)
        ensures
            validated(r, login_errors(*self)),
    {
        let mut c = Checker::new();
        let ghost e0 = Seq::<(Seq<char>, ValidationKind)>::empty();
        let ok1 = check_email(self.email.as_str());
        proof {
            lemma_errors_are_push(c.errors@, e0, ok1, "email", ValidationKind::Email);
        }
        c.check(ok1, "email", ValidationKind::Email);
        let ghost e1 = e0 + field_check(ok1, "email"@, ValidationKind::Email);
        let ok2 = check_length(self.password.as_str(), Some(8), Some(72));
        proof {
            lemma_errors_are_push(c.errors@, e1, ok2, "password", password_kind());
            assert(e1 + field_check(ok2, "password"@, password_kind()) =~= login_errors(*self));
        }
        c.check(ok2, "password", ValidationKind::Length { min: Some(8), max: Some(72) });
        c.finish()
    }
}

impl UpdateProfileRequest {
    pub fn validate(&self) -> (r: Result<(), ValidationErrors>)
        ensures
            validated(r, update_profile_errors(*self)),
    {
        let mut c = Checker::new();
        let ghost e0 = Seq::<(Seq<char>, ValidationKind)>::empty();
        let ok1 = check_optional(&self.username, 3, 50);
        proof {
            lemma_errors_are_push(c.errors@, e0, ok1, "username", username_kind());
        }
        c.check(ok1, "username", ValidationKind::Length { min: Some(3), max: Some(50) });
        let ghost e1 = e0 + field_check(ok1, "username"@, username_kind());
        let ok2 = check_optional(&self.language, 2, 10);
        proof {
            lemma_errors_are_push(c.errors@, e1, ok2, "language", language_kind());
        }
        c.check(ok2, "language", ValidationKind::Length { min: Some(2), max: Some(10) });
        let ghost e2 = e1 + field_check(ok2, "language"@, language_kind());
        let ok3 = check_optional(&self.new_password, 8, 72);
        proof {
            lemma_errors_are_push(c.errors@, e2, ok3, "new_password", password_kind());
            assert(e2 + field_check(ok3, "new_password"@, password_kind()) =~= update_profile_errors(
                *self,
            ));
        }
        c.check(ok3, "new_password", ValidationKind::Length { min: Some(8), max: Some(72) });
        c.finish()
    }
}

} // verus!
