//! The request body of a release's creation, and the wire form of release states.
use vstd::prelude::*;
use crate::features::releases::model::ReleaseState;
use crate::shared::validation::{
    Checker, ValidationErrors, ValidationKind, check_count, check_length, field_check,
    lemma_errors_are_push, length_ok, validated,
};

verus! {

/// The body of a release's creation: its name and the names of its steps, in order.
#[derive(Debug)]
pub struct CreateReleaseRequest {
    pub name: String,
    pub steps: Vec<String>,
}

/// Name of 1 to 200 characters, and at least one step.
pub open spec fn create_release_errors(r: CreateReleaseRequest) -> Seq<(Seq<char>, ValidationKind)> {
    field_check(
        length_ok(r.name@.len() as int, Some(1), Some(200)),
        "name"@,
        ValidationKind::Length { min: Some(1), max: Some(200) },
    ) + field_check(
        length_ok(r.steps@.len() as int, Some(1), None),
        "steps"@,
        ValidationKind::Length { min: Some(1), max: None },
    )
}

impl CreateReleaseRequest {
    pub fn validate(&self) -> (r: Result<(), ValidationErrors>)
        ensures
            validated(r, create_release_errors(*self)),
    {
        let mut c = Checker::new();
        let ok_name = check_length(self.name.as_str(), Some(1), Some(200));
        let k_name = ValidationKind::Length { min: Some(1), max: Some(200) };
        proof {
            lemma_errors_are_push(c.errors@, seq![], ok_name, "name", k_name);
        }
        c.check(ok_name, "name", k_name);
        let ok_steps = check_count(self.steps.len(), Some(1), None);
        let k_steps = ValidationKind::Length { min: Some(1), max: None };
        proof {
            lemma_errors_are_push(
                c.errors@,
                Seq::<(Seq<char>, ValidationKind)>::empty() + field_check(ok_name, "name"@, k_name),
                ok_steps,
                "steps",
                k_steps,
            );
            assert(Seq::<(Seq<char>, ValidationKind)>::empty() + field_check(ok_name, "name"@, k_name)
                + field_check(ok_steps, "steps"@, k_steps) =~= create_release_errors(*self));
        }
        c.check(ok_steps, "steps", k_steps);
        c.finish()
    }
}

/// A release state as responses write it.
#[derive(Debug, Clone, Copy, PartialEq, Eq, Structural)]
pub enum ReleaseStateDto {
    Created,
    InProgress,
    Completed,
    Cancelled,
    Blocked,
}

pub open spec fn dto_from_release_state(state: ReleaseState) -> ReleaseStateDto {
    match state {
        ReleaseState::Created => ReleaseStateDto::Created,
        ReleaseState::InProgress => ReleaseStateDto::InProgress,
        ReleaseState::Completed => ReleaseStateDto::Completed,
        ReleaseState::Cancelled => ReleaseStateDto::Cancelled,
        ReleaseState::Blocked => ReleaseStateDto::Blocked,
    }
}

impl From<ReleaseState> for ReleaseStateDto {
    fn from(state: ReleaseState) -> (r: ReleaseStateDto) {
        match state {
            ReleaseState::Created => ReleaseStateDto::Created,
            ReleaseState::InProgress => ReleaseStateDto::InProgress,
            ReleaseState::Completed => ReleaseStateDto::Completed,
            ReleaseState::Cancelled => ReleaseStateDto::Cancelled,
            ReleaseState::Blocked => ReleaseStateDto::Blocked,
        }
    }
}

impl vstd::std_specs::convert::FromSpecImpl<ReleaseState> for ReleaseStateDto {
    open spec fn obeys_from_spec() -> bool {
        true
    }

    open spec fn from_spec(state: ReleaseState) -> ReleaseStateDto {
        dto_from_release_state(state)
    }
}

} // verus!
