use vigil_server::features::releases::dto::{CreateReleaseRequest, ReleaseStateDto};
use vigil_server::features::releases::model::{
    Release, ReleaseState, ReleaseStep, next_step, release_state_from_str, release_state_to_str,
};
use vigil_server::features::releases::service::{decide_cancel, decide_validate_step, require_release};
use vigil_server::features::teams::model::{Role, TeamMember};
use vigil_server::shared::error::AppError;

const TEAM: u128 = 10;

fn make_release(state: ReleaseState) -> Release {
    Release { id: 1, team_id: TEAM, name: "v1.0.0".into(), state, created_by: None, created_at: 0, completed_at: None }
}

fn make_step(position: i32, validated: bool) -> ReleaseStep {
    ReleaseStep {
        id: 100 + position as u128,
        release_id: 1,
        name: format!("step-{position}"),
        position,
        validated_at: if validated { Some(5) } else { None },
        validated_by: None,
    }
}

fn member(role: Role) -> Option<TeamMember> {
    Some(TeamMember { id: 3, team_id: TEAM, user_id: 4, role, joined_at: 0 })
}

#[test]
fn create_release_request_accepts_valid_input() {
    let req = CreateReleaseRequest { name: "v1.0.0".into(), steps: vec!["build".into(), "staging".into()] };
    assert!(req.validate().is_ok());
}

#[test]
fn create_release_request_rejects_empty_name() {
    let req = CreateReleaseRequest { name: "".into(), steps: vec!["build".into()] };
    assert!(req.validate().is_err());
}

#[test]
fn create_release_request_rejects_name_too_long() {
    let req = CreateReleaseRequest { name: "a".repeat(201), steps: vec!["build".into()] };
    assert!(req.validate().is_err());
}

#[test]
fn create_release_request_rejects_empty_steps() {
    let req = CreateReleaseRequest { name: "v1.0.0".into(), steps: vec![] };
    assert!(req.validate().is_err());
}

#[test]
fn created_release_can_be_cancelled() {
    assert_eq!(make_release(ReleaseState::Created).cancel(), Ok(ReleaseState::Cancelled));
}

#[test]
fn in_progress_release_can_be_cancelled() {
    assert_eq!(make_release(ReleaseState::InProgress).cancel(), Ok(ReleaseState::Cancelled));
}

#[test]
fn blocked_release_can_be_cancelled() {
    assert_eq!(make_release(ReleaseState::Blocked).cancel(), Ok(ReleaseState::Cancelled));
}

#[test]
fn completed_release_cannot_be_cancelled() {
    assert!(make_release(ReleaseState::Completed).cancel().is_err());
}

#[test]
fn cancelled_release_cannot_be_cancelled_again() {
    assert!(make_release(ReleaseState::Cancelled).cancel().is_err());
}

#[test]
fn in_progress_release_can_be_blocked() {
    assert_eq!(make_release(ReleaseState::InProgress).block(), Ok(ReleaseState::Blocked));
}

#[test]
fn created_release_cannot_be_blocked() {
    assert!(make_release(ReleaseState::Created).block().is_err());
}

#[test]
fn blocked_release_can_be_unblocked() {
    assert_eq!(make_release(ReleaseState::Blocked).unblock(), Ok(ReleaseState::InProgress));
}

#[test]
fn in_progress_release_cannot_be_unblocked() {
    assert!(make_release(ReleaseState::InProgress).unblock().is_err());
}

#[test]
fn first_step_can_be_validated_when_none_validated() {
    let steps = vec![make_step(0, false), make_step(1, false)];
    assert!(steps[0].can_validate(&steps));
}

#[test]
fn second_step_cannot_be_validated_before_first() {
    let steps = vec![make_step(0, false), make_step(1, false)];
    assert!(!steps[1].can_validate(&steps));
}

#[test]
fn second_step_can_be_validated_once_first_is_validated() {
    let steps = vec![make_step(0, true), make_step(1, false)];
    assert!(steps[1].can_validate(&steps));
}

#[test]
fn already_validated_step_cannot_be_validated_again() {
    let steps = vec![make_step(0, true), make_step(1, false)];
    assert!(!steps[0].can_validate(&steps));
}

#[test]
fn next_step_is_the_lowest_position_not_validated() {
    let steps = vec![make_step(2, false), make_step(0, true), make_step(1, false)];
    assert_eq!(next_step(&steps), Some(2));
    let done = vec![make_step(0, true)];
    assert_eq!(next_step(&done), None);
}

#[test]
fn release_state_texts_round_trip() {
    for s in [ReleaseState::Created, ReleaseState::InProgress, ReleaseState::Completed, ReleaseState::Cancelled, ReleaseState::Blocked] {
        assert_eq!(release_state_from_str(release_state_to_str(&s)), s);
        assert_eq!(release_state_from_str(s.as_str()), s);
    }
    assert_eq!(release_state_to_str(&ReleaseState::InProgress), "in_progress");
    let dto: ReleaseStateDto = ReleaseState::Blocked.into();
    assert_eq!(dto, ReleaseStateDto::Blocked);
}

#[test]
fn validating_the_last_step_completes_the_release() {
    let steps = vec![make_step(0, true), make_step(1, false)];
    let (index, state) =
        decide_validate_step(TEAM, member(Role::Responder), Some(make_release(ReleaseState::InProgress)), false, &steps, 101)
            .unwrap();
    assert_eq!(index, 1);
    assert_eq!(state, Some(ReleaseState::Completed));
}

#[test]
fn validating_a_first_step_starts_the_release() {
    let steps = vec![make_step(0, false), make_step(1, false)];
    let (index, state) =
        decide_validate_step(TEAM, member(Role::Manager), Some(make_release(ReleaseState::Created)), false, &steps, 100)
            .unwrap();
    assert_eq!(index, 0);
    assert_eq!(state, Some(ReleaseState::InProgress));
    let (_, unchanged) =
        decide_validate_step(TEAM, member(Role::Manager), Some(make_release(ReleaseState::InProgress)), false, &steps, 100)
            .unwrap();
    assert_eq!(unchanged, None);
}

#[test]
fn step_validation_is_refused_with_a_reason() {
    let steps = vec![make_step(0, false), make_step(1, false)];
    let release = || Some(make_release(ReleaseState::InProgress));
    match decide_validate_step(TEAM, member(Role::Responder), release(), false, &steps, 101) {
        Err(AppError::Conflict(m)) => assert_eq!(m, "This step cannot be validated yet"),
        other => panic!("unexpected {other:?}"),
    }
    match decide_validate_step(TEAM, member(Role::Responder), release(), false, &steps, 999) {
        Err(AppError::NotFound(m)) => assert_eq!(m, "Release step not found"),
        other => panic!("unexpected {other:?}"),
    }
    match decide_validate_step(TEAM, member(Role::Responder), release(), true, &steps, 100) {
        Err(AppError::Conflict(m)) => assert_eq!(m, "This release has an unresolved incident linked to it"),
        other => panic!("unexpected {other:?}"),
    }
    assert!(matches!(
        decide_validate_step(TEAM, member(Role::Observer), release(), false, &steps, 100),
        Err(AppError::Forbidden(_))
    ));
    assert!(matches!(
        decide_validate_step(TEAM, member(Role::Manager), Some(make_release(ReleaseState::Blocked)), false, &steps, 100),
        Err(AppError::Conflict(_))
    ));
}

#[test]
fn cancelling_is_the_managers_and_reports_final_states() {
    assert_eq!(decide_cancel(TEAM, member(Role::Manager), Some(make_release(ReleaseState::Blocked))).unwrap(), ReleaseState::Cancelled);
    assert!(matches!(decide_cancel(TEAM, member(Role::Responder), Some(make_release(ReleaseState::Blocked))), Err(AppError::Forbidden(_))));
    assert!(matches!(decide_cancel(TEAM, member(Role::Manager), Some(make_release(ReleaseState::Completed))), Err(AppError::Conflict(_))));
    let mut other = make_release(ReleaseState::Created);
    other.team_id = TEAM + 1;
    match require_release(TEAM, Some(other)) {
        Err(AppError::NotFound(m)) => assert_eq!(m, "Release not found"),
        other => panic!("unexpected {other:?}"),
    }
}
