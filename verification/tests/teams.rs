use vigil_server::features::teams::access::{Action, authorize, denial_message, role_permits};
use vigil_server::features::teams::dto::{CreateTeamRequest, JoinTeamRequest};
use vigil_server::features::teams::model::{Role, Team, TeamBan, TeamMember, role_from_str, role_to_str, role_to_string};
use vigil_server::features::teams::service::{
    creator_role, decide_ban, decide_get_team, decide_join, decide_kick, decide_transfer,
    generate_invitation_code,
};
use vigil_server::shared::clock::now_unix_nanos;
use vigil_server::shared::error::AppError;

const DAY_NANOS: i128 = 86_400_000_000_000;

fn make_ban(until: Option<i128>) -> TeamBan {
    TeamBan { id: 1, team_id: 2, user_id: 3, banned_by: None, until, created_at: 0 }
}

fn member(role: Role) -> Option<TeamMember> {
    Some(TeamMember { id: 3, team_id: 10, user_id: 4, role, joined_at: 0 })
}

fn team() -> Team {
    Team { id: 10, name: "Ops".into(), invitation_code: Some("ABCDEFGH12345678".into()), created_by: Some(4), created_at: 0 }
}

#[test]
fn create_team_request_accepts_valid_name() {
    let req = CreateTeamRequest { name: "My Team".into() };
    assert!(req.validate().is_ok());
}

#[test]
fn create_team_request_rejects_short_name() {
    let req = CreateTeamRequest { name: "A".into() };
    assert!(req.validate().is_err());
}

#[test]
fn create_team_request_rejects_empty_name() {
    let req = CreateTeamRequest { name: "".into() };
    assert!(req.validate().is_err());
}

#[test]
fn join_team_request_rejects_empty_code() {
    let req = JoinTeamRequest { code: "".into() };
    assert!(req.validate().is_err());
}

#[test]
fn permanent_ban_is_always_active() {
    let ban = make_ban(None);
    assert!(ban.is_active());
}

#[test]
fn temporary_ban_is_active_before_expiry() {
    let ban = make_ban(Some(now_unix_nanos() + DAY_NANOS));
    assert!(ban.is_active());
}

#[test]
fn temporary_ban_is_inactive_after_expiry() {
    let ban = make_ban(Some(now_unix_nanos() - DAY_NANOS));
    assert!(!ban.is_active());
}

#[test]
fn ban_activity_at_a_given_time() {
    let ban = make_ban(Some(100));
    assert!(ban.is_active_at(99));
    assert!(!ban.is_active_at(100));
    assert!(make_ban(None).is_active_at(i128::MAX));
}

#[test]
fn observer_has_no_write_permissions() {
    let role = Role::Observer;
    assert!(!role.can_generate_invitation_code());
    assert!(!role.can_update_member_role());
    assert!(!role.can_transfer_manager());
    assert!(!role.can_moderate_members());
    assert!(!role.can_create_incident());
    assert!(!role.can_acknowledge_incident());
    assert!(!role.can_escalate_incident());
    assert!(!role.can_assign_responder());
    assert!(!role.can_close_incident());
    assert!(!role.can_add_timeline_entry());
    assert!(!role.can_create_release());
    assert!(!role.can_validate_release_step());
    assert!(!role.can_cancel_release());
    assert!(!role.can_configure_rules());
}

#[test]
fn responder_can_act_but_not_manage() {
    let role = Role::Responder;
    assert!(!role.can_generate_invitation_code());
    assert!(!role.can_update_member_role());
    assert!(!role.can_transfer_manager());
    assert!(!role.can_moderate_members());
    assert!(!role.can_create_incident());
    assert!(role.can_acknowledge_incident());
    assert!(role.can_escalate_incident());
    assert!(!role.can_assign_responder());
    assert!(!role.can_close_incident());
    assert!(role.can_add_timeline_entry());
    assert!(!role.can_create_release());
    assert!(role.can_validate_release_step());
    assert!(!role.can_cancel_release());
    assert!(!role.can_configure_rules());
}

#[test]
fn manager_has_all_permissions() {
    let role = Role::Manager;
    assert!(role.can_generate_invitation_code());
    assert!(role.can_update_member_role());
    assert!(role.can_transfer_manager());
    assert!(role.can_moderate_members());
    assert!(role.can_create_incident());
    assert!(role.can_acknowledge_incident());
    assert!(role.can_escalate_incident());
    assert!(role.can_assign_responder());
    assert!(role.can_close_incident());
    assert!(role.can_add_timeline_entry());
    assert!(role.can_create_release());
    assert!(role.can_validate_release_step());
    assert!(role.can_cancel_release());
    assert!(role.can_configure_rules());
}

#[test]
fn generate_invitation_code_has_correct_length() {
    let code = generate_invitation_code();
    assert_eq!(code.len(), 16);
    assert!(code.chars().all(|c| c.is_ascii_alphanumeric()));
}

#[test]
fn generate_invitation_code_produces_distinct_values() {
    let code1 = generate_invitation_code();
    let code2 = generate_invitation_code();
    assert_ne!(code1, code2);
}

#[test]
fn role_texts_round_trip() {
    for role in [Role::Manager, Role::Responder, Role::Observer] {
        assert_eq!(role_from_str(role_to_str(&role)), role);
        assert_eq!(role_to_string(&role), role_to_str(&role));
    }
    assert_eq!(role_to_str(&Role::Responder), "responder");
}

#[test]
fn refusals_name_the_missing_permission() {
    assert!(role_permits(Role::Manager, Action::KickMember));
    assert!(!role_permits(Role::Responder, Action::KickMember));
    match authorize(member(Role::Observer), Action::ConfigureRules) {
        Err(AppError::Forbidden(m)) => {
            assert_eq!(m, "Only managers can configure rules");
            assert_eq!(m, denial_message(Action::ConfigureRules));
        },
        other => panic!("unexpected {other:?}"),
    }
    match authorize(None, Action::CreateIncident) {
        Err(AppError::Forbidden(m)) => assert_eq!(m, "You are not a member of this team"),
        other => panic!("unexpected {other:?}"),
    }
}

#[test]
fn joining_gives_the_observer_role() {
    let (t, role) = decide_join(Some(team()), false, false).unwrap();
    assert_eq!(t.id, 10);
    assert_eq!(role, Role::Observer);
    assert_eq!(creator_role(), Role::Manager);
    match decide_join(None, false, false) {
        Err(AppError::NotFound(m)) => assert_eq!(m, "Invalid invitation code"),
        other => panic!("unexpected {other:?}"),
    }
    assert!(matches!(decide_join(Some(team()), true, false), Err(AppError::Conflict(_))));
    match decide_join(Some(team()), false, true) {
        Err(AppError::Forbidden(m)) => assert_eq!(m, "You are banned from this team"),
        other => panic!("unexpected {other:?}"),
    }
}

#[test]
fn reading_a_team_needs_membership() {
    assert_eq!(decide_get_team(member(Role::Observer), Some(team())).unwrap().name, "Ops");
    assert!(matches!(decide_get_team(None, Some(team())), Err(AppError::Forbidden(_))));
    assert!(matches!(decide_get_team(member(Role::Observer), None), Err(AppError::NotFound(_))));
}

#[test]
fn transfer_hands_over_the_manager_role() {
    let (me, them) = decide_transfer(4, 5, member(Role::Manager), member(Role::Responder)).unwrap();
    assert_eq!((me, them), (Role::Responder, Role::Manager));
    match decide_transfer(4, 4, member(Role::Manager), member(Role::Manager)) {
        Err(AppError::BadRequest(m)) => assert_eq!(m, "Cannot transfer manager role to yourself"),
        other => panic!("unexpected {other:?}"),
    }
    assert!(matches!(decide_transfer(4, 5, member(Role::Manager), None), Err(AppError::NotFound(_))));
    assert!(matches!(decide_transfer(4, 5, member(Role::Responder), member(Role::Observer)), Err(AppError::Forbidden(_))));
}

#[test]
fn kicking_and_banning_have_their_rules() {
    assert!(decide_kick(4, 5, member(Role::Manager), true).is_ok());
    assert!(matches!(decide_kick(4, 4, member(Role::Manager), true), Err(AppError::BadRequest(_))));
    assert!(matches!(decide_kick(4, 5, member(Role::Manager), false), Err(AppError::NotFound(_))));

    let now = 1_700_000_000i128 * 1_000_000_000;
    assert_eq!(decide_ban(4, 5, member(Role::Manager), None, now, true).unwrap(), None);
    assert_eq!(
        decide_ban(4, 5, member(Role::Manager), Some(1_800_000_000), now, true).unwrap(),
        Some(1_800_000_000i128 * 1_000_000_000)
    );
    match decide_ban(4, 5, member(Role::Manager), Some(1_600_000_000), now, true) {
        Err(AppError::BadRequest(m)) => assert_eq!(m, "Ban expiration must be in the future"),
        other => panic!("unexpected {other:?}"),
    }
    match decide_ban(4, 5, member(Role::Manager), Some(i64::MAX), now, true) {
        Err(AppError::BadRequest(m)) => assert_eq!(m, "Invalid ban expiration"),
        other => panic!("unexpected {other:?}"),
    }
    match decide_ban(4, 5, member(Role::Manager), None, now, false) {
        Err(AppError::NotFound(m)) => assert_eq!(m, "Target user not found"),
        other => panic!("unexpected {other:?}"),
    }
    match decide_ban(4, 4, member(Role::Manager), None, now, true) {
        Err(AppError::BadRequest(m)) => assert_eq!(m, "Cannot ban yourself"),
        other => panic!("unexpected {other:?}"),
    }
}

#[test]
fn ban_ending_beyond_every_clock_reading_is_active_and_one_ended_before_is_not() {
    assert!(make_ban(Some(i128::MAX)).is_active());
    assert!(!make_ban(Some(i128::MIN)).is_active());
    assert!(!make_ban(Some(-40_000_000_000_000_000_000_000)).is_active());
}

#[test]
fn ban_expiration_accepts_exactly_the_years_time_can_hold() {
    let now = -400_000_000_000i128 * 1_000_000_000;
    assert_eq!(
        decide_ban(4, 5, member(Role::Manager), Some(253_402_300_799), now, true).unwrap(),
        Some(253_402_300_799i128 * 1_000_000_000)
    );
    assert_eq!(
        decide_ban(4, 5, member(Role::Manager), Some(-377_705_116_800), now, true).unwrap(),
        Some(-377_705_116_800i128 * 1_000_000_000)
    );
    for ts in [253_402_300_800i64, -377_705_116_801] {
        match decide_ban(4, 5, member(Role::Manager), Some(ts), now, true) {
            Err(AppError::BadRequest(m)) => assert_eq!(m, "Invalid ban expiration"),
            other => panic!("unexpected {other:?}"),
        }
    }
}
