//! The request bodies of the team routes.
use vstd::prelude::*;
use crate::shared::validation::{
    Checker, ValidationErrors, ValidationKind, check_length, field_check, lemma_errors_are_push,
    length_ok, validated,
};

verus! {

#[derive(Debug)]
pub struct CreateTeamRequest {
    pub name: String,
}

#[derive(Debug)]
pub struct JoinTeamRequest {
    pub code: String,
}

#[derive(Debug)]
pub struct TransferManagerRequest {
    pub user_id: u128,
}

/// The body of a ban: its end as a Unix timestamp in seconds, or none for a
/// permanent ban.
#[derive(Debug)]
pub struct BanMemberRequest {
    pub until: Option<i64>,
}

#[derive(Debug)]
pub struct InviteCodeResponse {
    pub invitation_code: String,
}

/// A team name of 2 to 100 characters.
pub open spec fn create_team_errors(r: CreateTeamRequest) -> Seq<(Seq<char>, ValidationKind)> {
    field_check(
        length_ok(r.name@.len() as int, Some(2), Some(100)),
        "name"@,
        ValidationKind::Length { min: Some(2), max: Some(100) },
    )
}

/// A non-empty invitation code.
pub open spec fn join_team_errors(r: JoinTeamRequest) -> Seq<(Seq<char>, ValidationKind)> {
    field_check(
        length_ok(r.code@.len() as int, Some(1), None),
        "code"@,
        ValidationKind::Length { min: Some(1), max: None },
    )
}

impl CreateTeamRequest {
    pub fn validate(&self) -> (r: Result<(), ValidationErrors>)
        ensures
            validated(r, create_team_errors(*self)),
    {
        let mut c = Checker::new();
        let ok = check_length(self.name.as_str(), Some(2), Some(100));
        let kind = ValidationKind::Length { min: Some(2), max: Some(100) };
        proof {
            lemma_errors_are_push(c.errors@, seq![], ok, "name", kind);
            assert(Seq::<(Seq<char>, ValidationKind)>::empty() + field_check(ok, "name"@, kind)
                =~= create_team_errors(*self));
        }
        c.check(ok, "name", kind);
        c.finish()
    }
}

impl JoinTeamRequest {
    pub fn validate(&self) -> (r: Result<(), ValidationErrors>)
        ensures
            validated(r, join_team_errors(*self)),
    {
        let mut c = Checker::new();
        let ok = check_length(self.code.as_str(), Some(1), None);
        let kind = ValidationKind::Length { min: Some(1), max: None };
        proof {
            lemma_errors_are_push(c.errors@, seq![], ok, "code", kind);
            assert(Seq::<(Seq<char>, ValidationKind)>::empty() + field_check(ok, "code"@, kind)
                =~= join_team_errors(*self));
        }
        c.check(ok, "code", kind);
        c.finish()
    }
}

} // verus!
