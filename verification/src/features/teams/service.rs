//! The decisions of the team operations, taken on the data each operation loads.
use vstd::prelude::*;
use crate::features::teams::access::{Action, authorize, authorize_spec, member_spec, require_member};
use crate::features::teams::model::{Role, Team, TeamMember};
use crate::shared::error::{AppError, bad_request, conflict, forbidden, not_found, outcome_is};
use rand::Rng;

verus! {

/// Calls `rand`'s thread generator for sixteen characters of the `Alphanumeric`
/// distribution. The contract claims what the distribution documents: sixteen ASCII
/// letters or digits.
#[verifier::external_body]
pub fn generate_invitation_code() -> (r: String)
    ensures
        r@.len() == 16,
        forall|i: int|
            0 <= i < 16 ==> ('0' <= #[trigger] r@[i] <= '9') || ('a' <= r@[i] <= 'z') || ('A'
                <= r@[i] <= 'Z'),
{
    rand::thread_rng().sample_iter(&rand::distributions::Alphanumeric).take(16).map(char::from).collect()
}

/// The outcome of joining with an invitation code: the team, and the observer role
/// that a newcomer gets.
pub open spec fn join_spec(team: Option<Team>, already_member: bool, banned: bool) -> Result<(Team, Role), (u16, Seq<char>)> {
    match team {
        None => Err(not_found("Invalid invitation code"@)),
        Some(t) => if already_member {
            Err(conflict("Already a member of this team"@))
        } else if banned {
            Err(forbidden("You are banned from this team"@))
        } else {
            Ok((t, Role::Observer))
        },
    }
}

/// Joining a team: the code must be a team's, the user neither a member nor banned.
pub fn decide_join(team: Option<Team>, already_member: bool, banned: bool) -> (r: Result<(Team, Role), AppError>)
    ensures
        outcome_is(r, join_spec(team, already_member, banned)),
{
    match team {
        None => Err(AppError::NotFound(String::from_str("Invalid invitation code"))),
        Some(t) => {
            if already_member {
                return Err(AppError::Conflict(String::from_str("Already a member of this team")));
            }
            if banned {
                return Err(AppError::Forbidden(String::from_str("You are banned from this team")));
            }
            Ok((t, Role::Observer))
        },
    }
}

/// The role of a team's creator.
pub fn creator_role() -> (r: Role)
    ensures
        r == Role::Manager,
{
    Role::Manager
}

/// Reading a team: any member.
pub fn decide_get_team(member: Option<TeamMember>, team: Option<Team>) -> (r: Result<Team, AppError>)
    ensures
        outcome_is(
            r,
            match member_spec(member) {
                Err(e) => Err(e),
                Ok(_) => match team {
                    Some(t) => Ok(t),
                    None => Err(not_found("Team not found"@)),
                },
            },
        ),
{
    require_member(member)?;
    match team {
        Some(t) => Ok(t),
        None => Err(AppError::NotFound(String::from_str("Team not found"))),
    }
}

/// The outcome of a manager-only operation that needs nothing but the permission.
pub open spec fn only_spec(member: Option<TeamMember>, action: Action) -> Result<(), (u16, Seq<char>)> {
    match authorize_spec(member, action) {
        Err(e) => Err(e),
        Ok(_) => Ok(()),
    }
}

/// Generating an invitation code, lifting a ban and listing bans succeed for the
/// manager and for no one else: any other member is refused as `Forbidden` with the
/// operation's message.
pub proof fn law_manager_only_operations(m: TeamMember, action: Action)
    requires
        action == Action::GenerateInvitationCode || action == Action::UnbanMember || action
            == Action::ViewBans,
    ensures
        m.role == Role::Manager ==> only_spec(Some(m), action) == Ok::<(), (u16, Seq<char>)>(()),
        m.role != Role::Manager && action == Action::GenerateInvitationCode ==> only_spec(Some(m), action)
            == Err::<(), (u16, Seq<char>)>((403u16, "Only managers can generate an invitation code"@)),
        m.role != Role::Manager && action == Action::UnbanMember ==> only_spec(Some(m), action)
            == Err::<(), (u16, Seq<char>)>((403u16, "Only managers can lift a ban"@)),
        m.role != Role::Manager && action == Action::ViewBans ==> only_spec(Some(m), action) == Err::<
            (),
            (u16, Seq<char>),
        >((403u16, "Only managers can view banned members"@)),
{
}

/// Generating an invitation code, lifting a ban and listing bans are the manager's.
pub fn decide_only(member: Option<TeamMember>, action: Action) -> (r: Result<(), AppError>)
    ensures
        outcome_is(r, only_spec(member, action)),
{
    authorize(member, action)?;
    Ok(())
}

/// The outcome of a transfer of the manager role: the requester's new role, then the
/// target's.
pub open spec fn transfer_spec(
    requester_id: u128,
    target_user_id: u128,
    member: Option<TeamMember>,
    target: Option<TeamMember>,
) -> Result<(Role, Role), (u16, Seq<char>)> {
    match authorize_spec(member, Action::TransferManager) {
        Err(e) => Err(e),
        Ok(_) => if requester_id == target_user_id {
            Err(bad_request("Cannot transfer manager role to yourself"@))
        } else if target is None {
            Err(not_found("Target user is not a member of this team"@))
        } else {
            Ok((Role::Responder, Role::Manager))
        },
    }
}

/// Transferring the manager role: the manager hands it to another member and
/// becomes a responder.
pub fn decide_transfer(
    requester_id: u128,
    target_user_id: u128,
    member: Option<TeamMember>,
    target: Option<TeamMember>,
) -> (r: Result<(Role, Role), AppError>)
    ensures
        outcome_is(r, transfer_spec(requester_id, target_user_id, member, target)),
{
    authorize(member, Action::TransferManager)?;
    if requester_id == target_user_id {
        return Err(AppError::BadRequest(String::from_str("Cannot transfer manager role to yourself")));
    }
    if target.is_none() {
        return Err(AppError::NotFound(String::from_str("Target user is not a member of this team")));
    }
    Ok((Role::Responder, Role::Manager))
}

/// The roles of a team after a transfer: the requester and the target take the
/// given roles, every other member keeps theirs.
pub open spec fn after_transfer(
    roster: Seq<TeamMember>,
    requester_id: u128,
    target_user_id: u128,
    roles: (Role, Role),
) -> Seq<TeamMember> {
    roster.map_values(
        |m: TeamMember|
            if m.user_id == requester_id {
                TeamMember { role: roles.0, ..m }
            } else if m.user_id == target_user_id {
                TeamMember { role: roles.1, ..m }
            } else {
                m
            },
    )
}

/// A team keeps exactly one manager: if the requester was its only manager, after a
/// transfer the target is.
pub proof fn law_transfer_keeps_one_manager(
    roster: Seq<TeamMember>,
    requester_id: u128,
    target_user_id: u128,
    member: Option<TeamMember>,
    target: Option<TeamMember>,
)
    requires
        forall|i: int|
            0 <= i < roster.len() ==> ((#[trigger] roster[i]).role == Role::Manager <==> roster[i].user_id
                == requester_id),
        transfer_spec(requester_id, target_user_id, member, target) is Ok,
    ensures
        forall|i: int|
            0 <= i < roster.len() ==> ((#[trigger] after_transfer(
                roster,
                requester_id,
                target_user_id,
                transfer_spec(requester_id, target_user_id, member, target)->Ok_0,
            )[i]).role == Role::Manager <==> roster[i].user_id == target_user_id),
{
}

/// The outcome of removing (kicking) a member.
pub open spec fn kick_spec(
    requester_id: u128,
    target_user_id: u128,
    member: Option<TeamMember>,
    target_is_member: bool,
) -> Result<(), (u16, Seq<char>)> {
    match authorize_spec(member, Action::KickMember) {
        Err(e) => Err(e),
        Ok(_) => if requester_id == target_user_id {
            Err(bad_request("Cannot kick yourself"@))
        } else if !target_is_member {
            Err(not_found("Target user is not a member of this team"@))
        } else {
            Ok(())
        },
    }
}

/// Kicking: the manager removes another member.
pub fn decide_kick(
    requester_id: u128,
    target_user_id: u128,
    member: Option<TeamMember>,
    target_is_member: bool,
) -> (r: Result<(), AppError>)
    ensures
        outcome_is(r, kick_spec(requester_id, target_user_id, member, target_is_member)),
{
    authorize(member, Action::KickMember)?;
    if requester_id == target_user_id {
        return Err(AppError::BadRequest(String::from_str("Cannot kick yourself")));
    }
    if !target_is_member {
        return Err(AppError::NotFound(String::from_str("Target user is not a member of this team")));
    }
    Ok(())
}

/// Whether `time` represents a Unix timestamp (in seconds) as a date and time: from
/// -9999-01-01 00:00:00 to 9999-12-31 23:59:59 UTC, the range of its dates when the
/// `large-dates` feature is off, as no crate of this build turns it on.
pub open spec fn unix_timestamp_accepted(ts: i64) -> bool {
    -377_705_116_800 <= ts <= 253_402_300_799
}

/// Calls `time::OffsetDateTime::from_unix_timestamp` and says whether it succeeded:
/// it does exactly for the timestamps of `unix_timestamp_accepted`, those of the first
/// and last instants of `Date::MIN` and `Date::MAX` and all between.
#[verifier::external_body]
fn timestamp_in_range(ts: i64) -> (r: bool)
    ensures
        r == unix_timestamp_accepted(ts),
{
    time::OffsetDateTime::from_unix_timestamp(ts).is_ok()
}

/// The outcome of a ban: its end in nanoseconds since the epoch (none: permanent).
pub open spec fn ban_spec(
    requester_id: u128,
    target_user_id: u128,
    member: Option<TeamMember>,
    until: Option<i64>,
    now: i128,
    target_user_exists: bool,
) -> Result<Option<i128>, (u16, Seq<char>)> {
    match authorize_spec(member, Action::BanMember) {
        Err(e) => Err(e),
        Ok(_) => if requester_id == target_user_id {
            Err(bad_request("Cannot ban yourself"@))
        } else {
            match until {
                Some(ts) => if !unix_timestamp_accepted(ts) {
                    Err(bad_request("Invalid ban expiration"@))
                } else if ts * 1_000_000_000 <= now {
                    Err(bad_request("Ban expiration must be in the future"@))
                } else if !target_user_exists {
                    Err(not_found("Target user not found"@))
                } else {
                    Ok(Some((ts * 1_000_000_000) as i128))
                },
                None => if !target_user_exists {
                    Err(not_found("Target user not found"@))
                } else {
                    Ok(None)
                },
            }
        },
    }
}

/// Banning: the manager bans another user, for good or until a future moment.
pub fn decide_ban(
    requester_id: u128,
    target_user_id: u128,
    member: Option<TeamMember>,
    until: Option<i64>,
    now: i128,
    target_user_exists: bool,
) -> (r: Result<Option<i128>, AppError>)
    ensures
        outcome_is(r, ban_spec(requester_id, target_user_id, member, until, now, target_user_exists)),
{
    authorize(member, Action::BanMember)?;
    if requester_id == target_user_id {
        return Err(AppError::BadRequest(String::from_str("Cannot ban yourself")));
    }
    let end: Option<i128> = match until {
        Some(ts) => {
            if !timestamp_in_range(ts) {
                return Err(AppError::BadRequest(String::from_str("Invalid ban expiration")));
            }
            let nanos = (ts as i128) * 1_000_000_000i128;
            if nanos <= now {
                return Err(
                    AppError::BadRequest(String::from_str("Ban expiration must be in the future")),
                );
            }
            Some(nanos)
        },
        None => None,
    };
    if !target_user_exists {
        return Err(AppError::NotFound(String::from_str("Target user not found")));
    }
    Ok(end)
}

} // verus!
