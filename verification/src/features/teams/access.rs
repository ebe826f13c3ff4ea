//! Who may perform which team operation, and how a refusal is worded.
use vstd::prelude::*;
use crate::features::teams::model::{Role, TeamMember};
use crate::shared::error::{AppError, forbidden, outcome_is};

verus! {

/// An operation that only some roles of a team may perform.
#[derive(Debug, Clone, Copy, PartialEq, Eq, Structural)]
pub enum Action {
    CreateIncident,
    AcknowledgeIncident,
    EscalateIncident,
    ResolveIncident,
    AssignResponder,
    AddTimelineEntry,
    CreateRelease,
    ValidateReleaseStep,
    CancelRelease,
    ConfigureRules,
    GenerateInvitationCode,
    TransferManager,
    KickMember,
    BanMember,
    UnbanMember,
    ViewBans,
}

/// Whether the role may perform the action: acknowledging, escalating, adding to a
/// timeline and validating a release step are open to responders and the manager;
/// every other action is the manager's.
pub open spec fn permits(role: Role, action: Action) -> bool {
    match action {
        Action::AcknowledgeIncident | Action::EscalateIncident | Action::AddTimelineEntry
        | Action::ValidateReleaseStep => role.acts_on_incidents(),
        _ => role.is_manager(),
    }
}

/// The message of the refusal for an action.
pub open spec fn denial_text(action: Action) -> Seq<char> {
    match action {
        Action::CreateIncident => "Only managers can create an incident"@,
        Action::AcknowledgeIncident => "Only responders and managers can acknowledge an incident"@,
        Action::EscalateIncident => "Only responders and managers can escalate an incident"@,
        Action::ResolveIncident => "Only managers can resolve an incident"@,
        Action::AssignResponder => "Only managers can assign a responder"@,
        Action::AddTimelineEntry => "Only responders and managers can add a timeline entry"@,
        Action::CreateRelease => "Only managers can create a release"@,
        Action::ValidateReleaseStep => "Only responders and managers can validate a release step"@,
        Action::CancelRelease => "Only managers can cancel a release"@,
        Action::ConfigureRules => "Only managers can configure rules"@,
        Action::GenerateInvitationCode => "Only managers can generate an invitation code"@,
        Action::TransferManager => "Only managers can transfer the manager role"@,
        Action::KickMember => "Only managers can kick a member"@,
        Action::BanMember => "Only managers can ban a member"@,
        Action::UnbanMember => "Only managers can lift a ban"@,
        Action::ViewBans => "Only managers can view banned members"@,
    }
}

/// The message of the refusal for an action.
pub fn denial_message(action: Action) -> (r: &'static str)
    ensures
        r@ == denial_text(action),
{
    match action {
        Action::CreateIncident => "Only managers can create an incident",
        Action::AcknowledgeIncident => "Only responders and managers can acknowledge an incident",
        Action::EscalateIncident => "Only responders and managers can escalate an incident",
        Action::ResolveIncident => "Only managers can resolve an incident",
        Action::AssignResponder => "Only managers can assign a responder",
        Action::AddTimelineEntry => "Only responders and managers can add a timeline entry",
        Action::CreateRelease => "Only managers can create a release",
        Action::ValidateReleaseStep => "Only responders and managers can validate a release step",
        Action::CancelRelease => "Only managers can cancel a release",
        Action::ConfigureRules => "Only managers can configure rules",
        Action::GenerateInvitationCode => "Only managers can generate an invitation code",
        Action::TransferManager => "Only managers can transfer the manager role",
        Action::KickMember => "Only managers can kick a member",
        Action::BanMember => "Only managers can ban a member",
        Action::UnbanMember => "Only managers can lift a ban",
        Action::ViewBans => "Only managers can view banned members",
    }
}

/// Whether the role may perform the action (through the role's own permission checks).
pub fn role_permits(role: Role, action: Action) -> (r: bool)
    ensures
        r == permits(role, action),
{
    match action {
        Action::CreateIncident => role.can_create_incident(),
        Action::AcknowledgeIncident => role.can_acknowledge_incident(),
        Action::EscalateIncident => role.can_escalate_incident(),
        Action::ResolveIncident => role.can_close_incident(),
        Action::AssignResponder => role.can_assign_responder(),
        Action::AddTimelineEntry => role.can_add_timeline_entry(),
        Action::CreateRelease => role.can_create_release(),
        Action::ValidateReleaseStep => role.can_validate_release_step(),
        Action::CancelRelease => role.can_cancel_release(),
        Action::ConfigureRules => role.can_configure_rules(),
        Action::GenerateInvitationCode => role.can_generate_invitation_code(),
        Action::TransferManager => role.can_transfer_manager(),
        Action::KickMember => role.can_moderate_members(),
        Action::BanMember => role.can_moderate_members(),
        Action::UnbanMember => role.can_moderate_members(),
        Action::ViewBans => role.can_moderate_members(),
    }
}

pub open spec fn not_member_text() -> Seq<char> {
    "You are not a member of this team"@
}

/// The membership that an operation on a team requires.
pub open spec fn member_spec(member: Option<TeamMember>) -> Result<TeamMember, (u16, Seq<char>)> {
    match member {
        Some(m) => Ok(m),
        None => Err(forbidden(not_member_text())),
    }
}

/// The member when its role may perform the action, else the refusal.
pub open spec fn authorize_spec(member: Option<TeamMember>, action: Action) -> Result<TeamMember, (u16, Seq<char>)> {
    match member {
        None => Err(forbidden(not_member_text())),
        Some(m) => if permits(m.role, action) {
            Ok(m)
        } else {
            Err(forbidden(denial_text(action)))
        },
    }
}

/// A user who is not a member of the team is refused with `Forbidden`.
pub fn require_member(member: Option<TeamMember>) -> (r: Result<TeamMember, AppError>)
    ensures
        outcome_is(r, member_spec(member)),
{
    match member {
        Some(m) => Ok(m),
        None => Err(AppError::Forbidden(String::from_str("You are not a member of this team"))),
    }
}

/// Checks that the user is a member whose role may perform the action.
pub fn authorize(member: Option<TeamMember>, action: Action) -> (r: Result<TeamMember, AppError>)
    ensures
        outcome_is(r, authorize_spec(member, action)),
{
    let m = require_member(member)?;
    if !role_permits(m.role, action) {
        return Err(AppError::Forbidden(String::from_str(denial_message(action))));
    }
    Ok(m)
}

/// Who may do what: the manager may do everything; a responder may acknowledge and
/// escalate incidents, add timeline entries and validate release steps, and nothing
/// else; an observer may do none of these.
pub proof fn law_permissions_by_role(role: Role, action: Action)
    ensures
        permits(role, action) == (role == Role::Manager || (role == Role::Responder && (action
            == Action::AcknowledgeIncident || action == Action::EscalateIncident || action
            == Action::AddTimelineEntry || action == Action::ValidateReleaseStep))),
{
}

/// A member whose role may not perform an action is refused as `Forbidden`, with the
/// action's own message; a member whose role may is let through as it is.
pub proof fn law_refusal_is_forbidden(m: TeamMember, action: Action)
    ensures
        !permits(m.role, action) ==> authorize_spec(Some(m), action) == Err::<TeamMember, (u16, Seq<char>)>(
            (403u16, denial_text(action)),
        ),
        permits(m.role, action) ==> authorize_spec(Some(m), action) == Ok::<TeamMember, (u16, Seq<char>)>(m),
{
}

} // verus!
