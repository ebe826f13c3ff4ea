//! The decisions of the release operations, taken on the data each operation loads.
use vstd::prelude::*;
use crate::features::releases::model::{
    Release, ReleaseState, ReleaseStep, can_validate_spec, cancel_spec,
};
use crate::features::teams::access::{Action, authorize, authorize_spec, member_spec, require_member};
use crate::features::teams::model::{Role, TeamMember};
use crate::shared::error::{AppError, conflict, not_found, outcome_is};

verus! {

/// The release, when it exists and belongs to the team; otherwise `NotFound`.
pub open spec fn release_spec(team_id: u128, found: Option<Release>) -> Result<Release, (u16, Seq<char>)> {
    match found {
        Some(r) => if r.team_id == team_id {
            Ok(r)
        } else {
            Err(not_found("Release not found"@))
        },
        None => Err(not_found("Release not found"@)),
    }
}

/// A release of another team is reported as missing.
pub fn require_release(team_id: u128, found: Option<Release>) -> (r: Result<Release, AppError>)
    ensures
        outcome_is(r, release_spec(team_id, found)),
{
    match found {
        Some(rel) => {
            if rel.team_id != team_id {
                return Err(AppError::NotFound(String::from_str("Release not found")));
            }
            Ok(rel)
        },
        None => Err(AppError::NotFound(String::from_str("Release not found"))),
    }
}

/// The outcome of creating a release: the requester must be allowed to.
pub open spec fn create_release_spec(member: Option<TeamMember>) -> Result<(), (u16, Seq<char>)> {
    match authorize_spec(member, Action::CreateRelease) {
        Err(e) => Err(e),
        Ok(_) => Ok(()),
    }
}

/// Only the manager creates releases: the manager may, and any other member is
/// refused as `Forbidden` with "Only managers can create a release".
pub proof fn law_only_managers_create_releases(m: TeamMember)
    ensures
        m.role == Role::Manager ==> create_release_spec(Some(m)) == Ok::<(), (u16, Seq<char>)>(()),
        m.role != Role::Manager ==> create_release_spec(Some(m)) == Err::<(), (u16, Seq<char>)>(
            (403u16, "Only managers can create a release"@),
        ),
{
}

/// Creating a release is the manager's.
pub fn decide_create(member: Option<TeamMember>) -> (r: Result<(), AppError>)
    ensures
        outcome_is(r, create_release_spec(member)),
{
    authorize(member, Action::CreateRelease)?;
    Ok(())
}

/// Reading a release (or its steps) is open to every member.
pub fn decide_view(team_id: u128, member: Option<TeamMember>, found: Option<Release>) -> (r: Result<Release, AppError>)
    ensures
        outcome_is(
            r,
            match member_spec(member) {
                Err(e) => Err(e),
                Ok(_) => release_spec(team_id, found),
            },
        ),
{
    require_member(member)?;
    require_release(team_id, found)
}

/// Cancelling: the manager, on a release that is neither completed nor cancelled.
pub fn decide_cancel(team_id: u128, member: Option<TeamMember>, found: Option<Release>) -> (r: Result<ReleaseState, AppError>)
    ensures
        outcome_is(
            r,
            match authorize_spec(member, Action::CancelRelease) {
                Err(e) => Err(e),
                Ok(_) => match release_spec(team_id, found) {
                    Err(e) => Err(e),
                    Ok(rel) => match cancel_spec(rel.state) {
                        Ok(s) => Ok(s),
                        Err(m) => Err(conflict(m)),
                    },
                },
            },
        ),
{
    authorize(member, Action::CancelRelease)?;
    let release = require_release(team_id, found)?;
    match release.cancel() {
        Ok(s) => Ok(s),
        Err(m) => Err(AppError::Conflict(String::from_str(m))),
    }
}

/// The first position at or after `k` of the step with the given id.
pub open spec fn find_step_from(steps: Seq<ReleaseStep>, id: u128, k: int) -> Option<int>
    decreases steps.len() - k,
{
    if k < 0 || k >= steps.len() {
        None
    } else if steps[k].id == id {
        Some(k)
    } else {
        find_step_from(steps, id, k + 1)
    }
}

pub proof fn lemma_find_step_bounds(steps: Seq<ReleaseStep>, id: u128, k: int)
    ensures
        find_step_from(steps, id, k) matches Some(i) ==> k <= i < steps.len() && steps[i].id == id,
    decreases steps.len() - k,
{
    if 0 <= k < steps.len() && steps[k].id != id {
        lemma_find_step_bounds(steps, id, k + 1);
    }
}

/// Whether every step but the given one is validated already.
pub open spec fn others_validated(steps: Seq<ReleaseStep>, step_id: u128) -> bool {
    forall|j: int| 0 <= j < steps.len() ==> (#[trigger] steps[j]).id == step_id || steps[j].validated()
}

/// The state a release moves to when the step is validated: completed once every
/// step is validated, in progress on its first validation, otherwise unchanged.
pub open spec fn state_after_validation(state: ReleaseState, steps: Seq<ReleaseStep>, step_id: u128) -> Option<ReleaseState> {
    if others_validated(steps, step_id) {
        Some(ReleaseState::Completed)
    } else if state == ReleaseState::Created {
        Some(ReleaseState::InProgress)
    } else {
        None
    }
}

/// The outcome of validating a step: the position of the step in the list and the
/// release's new state, if it changes.
pub open spec fn validate_step_spec(
    team_id: u128,
    member: Option<TeamMember>,
    found: Option<Release>,
    has_unresolved_incident: bool,
    steps: Seq<ReleaseStep>,
    step_id: u128,
) -> Result<(usize, Option<ReleaseState>), (u16, Seq<char>)> {
    match authorize_spec(member, Action::ValidateReleaseStep) {
        Err(e) => Err(e),
        Ok(_) => match release_spec(team_id, found) {
            Err(e) => Err(e),
            Ok(rel) => if rel.state != ReleaseState::Created && rel.state != ReleaseState::InProgress {
                Err(conflict("Only a created or in-progress release can have its steps validated"@))
            } else if has_unresolved_incident {
                Err(conflict("This release has an unresolved incident linked to it"@))
            } else {
                match find_step_from(steps, step_id, 0) {
                    None => Err(not_found("Release step not found"@)),
                    Some(i) => if !can_validate_spec(steps[i], steps) {
                        Err(conflict("This step cannot be validated yet"@))
                    } else {
                        Ok((i as usize, state_after_validation(rel.state, steps, step_id)))
                    },
                }
            },
        },
    }
}

/// Validating a step: responders and the manager, on a created or in-progress
/// release with no unresolved incident, for the step that comes next.
pub fn decide_validate_step(
    team_id: u128,
    member: Option<TeamMember>,
    found: Option<Release>,
    has_unresolved_incident: bool,
    steps: &Vec<ReleaseStep>,
    step_id: u128,
) -> (r: Result<(usize, Option<ReleaseState>), AppError>)
    ensures
        outcome_is(r, validate_step_spec(team_id, member, found, has_unresolved_incident, steps@, step_id)),
{
    authorize(member, Action::ValidateReleaseStep)?;
    let release = require_release(team_id, found)?;
    if release.state != ReleaseState::Created && release.state != ReleaseState::InProgress {
        return Err(
            AppError::Conflict(
                String::from_str("Only a created or in-progress release can have its steps validated"),
            ),
        );
    }
    if has_unresolved_incident {
        return Err(
            AppError::Conflict(String::from_str("This release has an unresolved incident linked to it")),
        );
    }
    let mut k: usize = 0;
    while k < steps.len() && steps[k].id != step_id
        invariant
            k <= steps@.len(),
            find_step_from(steps@, step_id, 0) == find_step_from(steps@, step_id, k as int),
        decreases steps@.len() - k,
    {
        k = k + 1;
    }
    if k == steps.len() {
        return Err(AppError::NotFound(String::from_str("Release step not found")));
    }
    if !steps[k].can_validate(steps.as_slice()) {
        return Err(AppError::Conflict(String::from_str("This step cannot be validated yet")));
    }
    let mut all_validated = true;
    let mut j: usize = 0;
    while j < steps.len()
        invariant
            j <= steps@.len(),
            all_validated == forall|q: int|
                0 <= q < j ==> (#[trigger] steps@[q]).id == step_id || steps@[q].validated(),
        decreases steps@.len() - j,
    {
        if !(steps[j].id == step_id || steps[j].is_validated()) {
            all_validated = false;
        }
        j = j + 1;
    }
    let new_state = if all_validated {
        Some(ReleaseState::Completed)
    } else if release.state == ReleaseState::Created {
        Some(ReleaseState::InProgress)
    } else {
        None
    };
    Ok((k, new_state))
}

/// A validation completes the release exactly when the validated step was the last
/// one left; the release never leaves the created or in-progress states otherwise.
pub proof fn law_validation_completes_only_at_the_end(
    state: ReleaseState,
    steps: Seq<ReleaseStep>,
    step_id: u128,
)
    requires
        state == ReleaseState::Created || state == ReleaseState::InProgress,
    ensures
        state_after_validation(state, steps, step_id) == Some(ReleaseState::Completed)
            <==> others_validated(steps, step_id),
        state_after_validation(state, steps, step_id) matches Some(s) ==> s
            == ReleaseState::Completed || s == ReleaseState::InProgress,
{
}

} // verus!
