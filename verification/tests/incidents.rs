use vigil_server::features::incidents::dto::{
    AddTimelineEntryRequest, CreateIncidentRequest, EditTimelineEntryRequest, EmojiDto, IncidentStateDto,
    SeverityDto,
};
use vigil_server::features::incidents::model::{
    ReactionWithUsername, Incident, IncidentState, ReactionEmoji, Severity, TimelineEntry, incident_state_from_str,
    incident_state_to_str, reaction_emoji_from_str, reaction_emoji_to_str, severity_from_str, severity_to_str,
};
use vigil_server::features::incidents::service::{
    decide_react, summarize_reactions, decide_acknowledge, decide_assign, decide_create, decide_edit_timeline_entry, decide_escalate,
    decide_resolve, decide_view, release_state_when_opened, release_state_when_resolved, require_incident,
};
use vigil_server::features::releases::model::{Release, ReleaseState};
use vigil_server::features::teams::model::{Role, TeamMember};
use vigil_server::shared::error::AppError;

const TEAM: u128 = 10;

fn make_incident(state: IncidentState) -> Incident {
    Incident {
        id: 1,
        team_id: TEAM,
        title: "Test incident".into(),
        description: "".into(),
        state,
        severity: Severity::High,
        created_by: None,
        assigned_to: None,
        release_id: None,
        created_at: 0,
        resolved_at: None,
    }
}

fn make_entry(author_id: Option<u128>) -> TimelineEntry {
    TimelineEntry { id: 2, incident_id: 1, author_id, content: "hello".into(), created_at: 0, edited_at: None }
}

fn member(role: Role) -> Option<TeamMember> {
    Some(TeamMember { id: 3, team_id: TEAM, user_id: 4, role, joined_at: 0 })
}

fn message_of(e: AppError) -> String {
    e.message()
}

#[test]
fn create_incident_request_accepts_valid_input() {
    let req = CreateIncidentRequest {
        title: "DB down".into(),
        description: Some("Investigating".into()),
        severity: SeverityDto::High,
        release_id: None,
    };
    assert!(req.validate().is_ok());
}

#[test]
fn create_incident_request_rejects_empty_title() {
    let req = CreateIncidentRequest { title: "".into(), description: None, severity: SeverityDto::High, release_id: None };
    assert!(req.validate().is_err());
}

#[test]
fn create_incident_request_rejects_title_too_long() {
    let req = CreateIncidentRequest {
        title: "a".repeat(201),
        description: None,
        severity: SeverityDto::High,
        release_id: None,
    };
    assert!(req.validate().is_err());
}

#[test]
fn create_incident_request_rejects_description_too_long() {
    let req = CreateIncidentRequest {
        title: "DB down".into(),
        description: Some("a".repeat(2001)),
        severity: SeverityDto::High,
        release_id: None,
    };
    assert!(req.validate().is_err());
}

#[test]
fn add_timeline_entry_request_rejects_empty_content() {
    let req = AddTimelineEntryRequest { content: "".into() };
    assert!(req.validate().is_err());
}

#[test]
fn edit_timeline_entry_request_rejects_empty_content() {
    let req = EditTimelineEntryRequest { content: "".into() };
    assert!(req.validate().is_err());
}

#[test]
fn severity_dto_round_trips_through_severity() {
    let severity: Severity = SeverityDto::Critical.into();
    assert_eq!(severity, Severity::Critical);

    let dto: SeverityDto = severity.into();
    assert_eq!(dto, SeverityDto::Critical);
}

#[test]
fn emoji_dto_round_trips_through_reaction_emoji() {
    let emoji: ReactionEmoji = EmojiDto::ThumbsUp.into();
    assert_eq!(emoji, ReactionEmoji::ThumbsUp);

    let dto: EmojiDto = emoji.into();
    assert_eq!(dto, EmojiDto::ThumbsUp);
}

#[test]
fn incident_state_dto_follows_the_state() {
    let dto: IncidentStateDto = IncidentState::Escalated.into();
    assert_eq!(dto, IncidentStateDto::Escalated);
}

#[test]
fn open_incident_can_be_acknowledged() {
    let incident = make_incident(IncidentState::Open);
    assert_eq!(incident.acknowledge(), Ok(IncidentState::Acknowledged));
}

#[test]
fn acknowledged_incident_cannot_be_acknowledged_again() {
    let incident = make_incident(IncidentState::Acknowledged);
    assert!(incident.acknowledge().is_err());
}

#[test]
fn acknowledged_incident_can_be_escalated() {
    let incident = make_incident(IncidentState::Acknowledged);
    assert_eq!(incident.escalate(), Ok(IncidentState::Escalated));
}

#[test]
fn escalated_incident_can_be_escalated_again() {
    let incident = make_incident(IncidentState::Escalated);
    assert_eq!(incident.escalate(), Ok(IncidentState::Escalated));
}

#[test]
fn open_incident_cannot_be_escalated() {
    let incident = make_incident(IncidentState::Open);
    assert!(incident.escalate().is_err());
}

#[test]
fn resolved_incident_cannot_be_escalated() {
    let incident = make_incident(IncidentState::Resolved);
    assert!(incident.escalate().is_err());
}

#[test]
fn open_incident_can_be_resolved() {
    let incident = make_incident(IncidentState::Open);
    assert_eq!(incident.resolve(), Ok(IncidentState::Resolved));
}

#[test]
fn acknowledged_incident_can_be_resolved() {
    let incident = make_incident(IncidentState::Acknowledged);
    assert_eq!(incident.resolve(), Ok(IncidentState::Resolved));
}

#[test]
fn escalated_incident_can_be_resolved() {
    let incident = make_incident(IncidentState::Escalated);
    assert_eq!(incident.resolve(), Ok(IncidentState::Resolved));
}

#[test]
fn resolved_incident_cannot_be_resolved_again() {
    let incident = make_incident(IncidentState::Resolved);
    assert!(incident.resolve().is_err());
}

#[test]
fn author_can_edit_their_entry() {
    let user_id = 99;
    let entry = make_entry(Some(user_id));
    assert!(entry.can_edit(user_id));
}

#[test]
fn non_author_cannot_edit_entry() {
    let entry = make_entry(Some(98));
    assert!(!entry.can_edit(99));
}

#[test]
fn entry_with_deleted_author_cannot_be_edited() {
    let entry = make_entry(None);
    assert!(!entry.can_edit(99));
}

#[test]
fn transitions_report_why_they_are_refused() {
    assert_eq!(make_incident(IncidentState::Acknowledged).acknowledge(), Err("Only an open incident can be acknowledged"));
    assert_eq!(
        make_incident(IncidentState::Open).escalate(),
        Err("Only an acknowledged or escalated incident can be escalated")
    );
    assert_eq!(make_incident(IncidentState::Resolved).resolve(), Err("Incident is already resolved"));
}

#[test]
fn texts_of_states_severities_and_emojis_round_trip() {
    for s in [IncidentState::Open, IncidentState::Acknowledged, IncidentState::Escalated, IncidentState::Resolved] {
        assert_eq!(incident_state_from_str(incident_state_to_str(&s)), s);
    }
    for s in [Severity::Low, Severity::Medium, Severity::High, Severity::Critical] {
        assert_eq!(severity_from_str(severity_to_str(&s)), s);
        assert_eq!(Severity::parse(s.as_str()), Some(s));
    }
    assert_eq!(Severity::parse("urgent"), None);
    for e in [ReactionEmoji::ThumbsUp, ReactionEmoji::Eyes, ReactionEmoji::Fire] {
        assert_eq!(reaction_emoji_from_str(reaction_emoji_to_str(&e)), e);
    }
    assert_eq!(incident_state_to_str(&IncidentState::Acknowledged), "acknowledged");
    assert_eq!(severity_to_str(&Severity::Critical), "critical");
}

#[test]
fn only_members_with_the_right_role_act_on_incidents() {
    match decide_acknowledge(TEAM, None, Some(make_incident(IncidentState::Open))) {
        Err(AppError::Forbidden(m)) => assert_eq!(m, "You are not a member of this team"),
        other => panic!("unexpected {other:?}"),
    }
    assert!(matches!(
        decide_acknowledge(TEAM, member(Role::Observer), Some(make_incident(IncidentState::Open))),
        Err(AppError::Forbidden(_))
    ));
    assert_eq!(
        decide_acknowledge(TEAM, member(Role::Responder), Some(make_incident(IncidentState::Open))).unwrap(),
        IncidentState::Acknowledged
    );
    assert!(matches!(decide_create(member(Role::Responder)), Err(AppError::Forbidden(_))));
    assert!(decide_create(member(Role::Manager)).is_ok());
}

#[test]
fn incident_of_another_team_is_not_found() {
    let mut other = make_incident(IncidentState::Open);
    other.team_id = TEAM + 1;
    match require_incident(TEAM, Some(other)) {
        Err(e) => assert_eq!(message_of(e), "Incident not found"),
        Ok(_) => panic!("expected an error"),
    }
    assert!(matches!(decide_view(TEAM, member(Role::Observer), None), Err(AppError::NotFound(_))));
}

#[test]
fn refused_transitions_are_conflicts() {
    assert!(matches!(
        decide_escalate(TEAM, member(Role::Manager), Some(make_incident(IncidentState::Open))),
        Err(AppError::Conflict(_))
    ));
    assert!(matches!(
        decide_resolve(TEAM, member(Role::Manager), Some(make_incident(IncidentState::Resolved))),
        Err(AppError::Conflict(_))
    ));
    assert!(matches!(
        decide_resolve(TEAM, member(Role::Responder), Some(make_incident(IncidentState::Open))),
        Err(AppError::Forbidden(_))
    ));
}

#[test]
fn assignment_needs_an_unresolved_incident_and_a_member_target() {
    assert!(decide_assign(TEAM, member(Role::Manager), Some(make_incident(IncidentState::Open)), Some(5), true).is_ok());
    assert!(decide_assign(TEAM, member(Role::Manager), Some(make_incident(IncidentState::Open)), None, false).is_ok());
    assert!(matches!(
        decide_assign(TEAM, member(Role::Manager), Some(make_incident(IncidentState::Open)), Some(5), false),
        Err(AppError::NotFound(_))
    ));
    assert!(matches!(
        decide_assign(TEAM, member(Role::Manager), Some(make_incident(IncidentState::Resolved)), Some(5), true),
        Err(AppError::Conflict(_))
    ));
}

#[test]
fn only_the_author_edits_an_entry() {
    assert!(decide_edit_timeline_entry(TEAM, 4, member(Role::Observer), Some(make_incident(IncidentState::Open)), Some(make_entry(Some(4)))).is_ok());
    match decide_edit_timeline_entry(TEAM, 4, member(Role::Manager), Some(make_incident(IncidentState::Open)), Some(make_entry(Some(5)))) {
        Err(AppError::Forbidden(m)) => assert_eq!(m, "Only the author can edit their timeline entry"),
        other => panic!("unexpected {other:?}"),
    }
    match decide_edit_timeline_entry(TEAM, 4, member(Role::Manager), Some(make_incident(IncidentState::Open)), None) {
        Err(AppError::NotFound(m)) => assert_eq!(m, "Timeline entry not found"),
        other => panic!("unexpected {other:?}"),
    }
}

#[test]
fn incidents_block_and_unblock_their_release() {
    let release = |state| Release { id: 1, team_id: TEAM, name: "v1".into(), state, created_by: None, created_at: 0, completed_at: None };
    assert_eq!(release_state_when_opened(Some(&release(ReleaseState::InProgress))), Some(ReleaseState::Blocked));
    assert_eq!(release_state_when_opened(Some(&release(ReleaseState::Created))), None);
    assert_eq!(release_state_when_opened(None), None);
    assert_eq!(release_state_when_resolved(Some(&release(ReleaseState::Blocked)), false), Some(ReleaseState::InProgress));
    assert_eq!(release_state_when_resolved(Some(&release(ReleaseState::Blocked)), true), None);
}

#[test]
fn reactions_are_summarized_per_entry_and_emoji() {
    let row = |entry_id, user_id, name: &str, emoji| ReactionWithUsername { entry_id, user_id, username: name.into(), emoji };
    let rows = vec![
        row(1, 7, "alissa", ReactionEmoji::Fire),
        row(2, 8, "bob", ReactionEmoji::Eyes),
        row(1, 8, "bob", ReactionEmoji::Fire),
        row(1, 8, "bob", ReactionEmoji::Check),
    ];
    let summaries = summarize_reactions(&rows, 8);
    assert_eq!(summaries.len(), 3);
    assert_eq!((summaries[0].entry_id, summaries[0].emoji), (1, ReactionEmoji::Fire));
    assert_eq!(summaries[0].usernames, vec!["alissa", "bob"]);
    assert!(summaries[0].reacted_by_me);
    assert_eq!((summaries[1].entry_id, summaries[1].emoji), (2, ReactionEmoji::Eyes));
    assert_eq!(summaries[2].usernames, vec!["bob"]);
    let theirs = summarize_reactions(&rows, 7);
    assert!(theirs[0].reacted_by_me);
    assert!(!theirs[1].reacted_by_me);
    assert!(summarize_reactions(&vec![], 7).is_empty());
}

#[test]
fn reacting_needs_an_entry_of_the_incident() {
    let entry = make_entry(Some(4));
    assert!(decide_react(TEAM, member(Role::Observer), Some(make_incident(IncidentState::Open)), Some(entry)).is_ok());
    let mut stray = make_entry(Some(4));
    stray.incident_id = 999;
    match decide_react(TEAM, member(Role::Observer), Some(make_incident(IncidentState::Open)), Some(stray)) {
        Err(AppError::NotFound(m)) => assert_eq!(m, "Timeline entry not found"),
        other => panic!("unexpected {other:?}"),
    }
    assert!(matches!(decide_react(TEAM, None, Some(make_incident(IncidentState::Open)), None), Err(AppError::Forbidden(_))));
    assert_eq!(ReactionEmoji::all().len(), 6);
    assert_eq!(ReactionEmoji::all()[0].as_str(), "+1");
}
