//! The decisions of the incident operations, taken on the data that each operation
//! loads: the requester's membership, the incident, the entry or the target user.
use vstd::prelude::*;
use crate::features::incidents::model::{
    Incident, IncidentState, ReactionEmoji, ReactionSummary, ReactionWithUsername, TimelineEntry,
    acknowledge_spec, escalate_spec, resolve_spec,
};
use crate::features::releases::model::{Release, ReleaseState, block_spec, unblock_spec};
use crate::features::teams::access::{Action, authorize, authorize_spec, member_spec, require_member};
use crate::features::teams::model::{Role, TeamMember};
use crate::shared::error::{AppError, conflict, forbidden, not_found, outcome_is};

verus! {

/// The incident, when it exists and belongs to the team; otherwise `NotFound`.
pub open spec fn incident_spec(team_id: u128, found: Option<Incident>) -> Result<Incident, (u16, Seq<char>)> {
    match found {
        Some(i) => if i.team_id == team_id {
            Ok(i)
        } else {
            Err(not_found("Incident not found"@))
        },
        None => Err(not_found("Incident not found"@)),
    }
}

/// An incident of another team is reported as missing.
pub fn require_incident(team_id: u128, found: Option<Incident>) -> (r: Result<Incident, AppError>)
    ensures
        outcome_is(r, incident_spec(team_id, found)),
{
    match found {
        Some(i) => {
            if i.team_id != team_id {
                return Err(AppError::NotFound(String::from_str("Incident not found")));
            }
            Ok(i)
        },
        None => Err(AppError::NotFound(String::from_str("Incident not found"))),
    }
}

/// A refused transition is a `Conflict` with the transition's message.
pub open spec fn step_outcome(s: Result<IncidentState, Seq<char>>) -> Result<IncidentState, (u16, Seq<char>)> {
    match s {
        Ok(x) => Ok(x),
        Err(m) => Err(conflict(m)),
    }
}

fn conflict_of(r: Result<IncidentState, &'static str>) -> (out: Result<IncidentState, AppError>)
    ensures
        match r {
            Ok(x) => out == Ok::<IncidentState, AppError>(x),
            Err(m) => outcome_is(out, Err::<IncidentState, (u16, Seq<char>)>(conflict(m@))),
        },
{
    match r {
        Ok(x) => Ok(x),
        Err(m) => Err(AppError::Conflict(String::from_str(m))),
    }
}

/// The outcome of a state change: the requester must be allowed, the incident must
/// be the team's, and the transition must be possible from the incident's state.
pub open spec fn transition_spec(
    team_id: u128,
    member: Option<TeamMember>,
    found: Option<Incident>,
    action: Action,
    step: spec_fn(IncidentState) -> Result<IncidentState, Seq<char>>,
) -> Result<IncidentState, (u16, Seq<char>)> {
    match authorize_spec(member, action) {
        Err(e) => Err(e),
        Ok(_) => match incident_spec(team_id, found) {
            Err(e) => Err(e),
            Ok(i) => step_outcome(step(i.state)),
        },
    }
}

/// Acknowledging: responders and the manager, on an open incident of the team.
pub fn decide_acknowledge(team_id: u128, member: Option<TeamMember>, found: Option<Incident>) -> (r: Result<IncidentState, AppError>)
    ensures
        outcome_is(r, transition_spec(team_id, member, found, Action::AcknowledgeIncident, |s| acknowledge_spec(s))),
{
    authorize(member, Action::AcknowledgeIncident)?;
    let incident = require_incident(team_id, found)?;
    conflict_of(incident.acknowledge())
}

/// Escalating: responders and the manager, on an acknowledged or escalated incident.
pub fn decide_escalate(team_id: u128, member: Option<TeamMember>, found: Option<Incident>) -> (r: Result<IncidentState, AppError>)
    ensures
        outcome_is(r, transition_spec(team_id, member, found, Action::EscalateIncident, |s| escalate_spec(s))),
{
    authorize(member, Action::EscalateIncident)?;
    let incident = require_incident(team_id, found)?;
    conflict_of(incident.escalate())
}

/// Resolving: the manager, on any unresolved incident of the team.
pub fn decide_resolve(team_id: u128, member: Option<TeamMember>, found: Option<Incident>) -> (r: Result<IncidentState, AppError>)
    ensures
        outcome_is(r, transition_spec(team_id, member, found, Action::ResolveIncident, |s| resolve_spec(s))),
{
    authorize(member, Action::ResolveIncident)?;
    let incident = require_incident(team_id, found)?;
    conflict_of(incident.resolve())
}

/// Creating an incident is the manager's.
pub fn decide_create(member: Option<TeamMember>) -> (r: Result<(), AppError>)
    ensures
        outcome_is(
            r,
            match authorize_spec(member, Action::CreateIncident) {
                Err(e) => Err(e),
                Ok(_) => Ok(()),
            },
        ),
{
    authorize(member, Action::CreateIncident)?;
    Ok(())
}

/// Reading an incident (or its timeline) is open to every member.
pub fn decide_view(team_id: u128, member: Option<TeamMember>, found: Option<Incident>) -> (r: Result<Incident, AppError>)
    ensures
        outcome_is(
            r,
            match member_spec(member) {
                Err(e) => Err(e),
                Ok(_) => incident_spec(team_id, found),
            },
        ),
{
    require_member(member)?;
    require_incident(team_id, found)
}

/// The outcome of an assignment.
pub open spec fn assign_spec(
    team_id: u128,
    member: Option<TeamMember>,
    found: Option<Incident>,
    target: Option<u128>,
    target_is_member: bool,
) -> Result<(), (u16, Seq<char>)> {
    match authorize_spec(member, Action::AssignResponder) {
        Err(e) => Err(e),
        Ok(_) => match incident_spec(team_id, found) {
            Err(e) => Err(e),
            Ok(i) => if i.state == IncidentState::Resolved {
                Err(conflict("Cannot assign a responder to a resolved incident"@))
            } else if target is Some && !target_is_member {
                Err(not_found("Target user is not a member of this team"@))
            } else {
                Ok(())
            },
        },
    }
}

/// Only the manager assigns responders: any other member is refused as `Forbidden`
/// with "Only managers can assign a responder", whatever the incident and target;
/// the manager is never refused as `Forbidden`.
pub proof fn law_only_managers_assign_responders(
    team_id: u128,
    m: TeamMember,
    found: Option<Incident>,
    target: Option<u128>,
    target_is_member: bool,
)
    ensures
        m.role != Role::Manager ==> assign_spec(team_id, Some(m), found, target, target_is_member)
            == Err::<(), (u16, Seq<char>)>((403u16, "Only managers can assign a responder"@)),
        m.role == Role::Manager ==> !(assign_spec(team_id, Some(m), found, target, target_is_member) matches Err(
            e,
        ) && e.0 == 403),
{
}

/// Assigning (or unassigning, with no target): the manager, on an unresolved incident,
/// to a member of the team.
pub fn decide_assign(
    team_id: u128,
    member: Option<TeamMember>,
    found: Option<Incident>,
    target: Option<u128>,
    target_is_member: bool,
) -> (r: Result<(), AppError>)
    ensures
        outcome_is(r, assign_spec(team_id, member, found, target, target_is_member)),
{
    authorize(member, Action::AssignResponder)?;
    let incident = require_incident(team_id, found)?;
    if incident.state == IncidentState::Resolved {
        return Err(
            AppError::Conflict(String::from_str("Cannot assign a responder to a resolved incident")),
        );
    }
    if target.is_some() && !target_is_member {
        return Err(AppError::NotFound(String::from_str("Target user is not a member of this team")));
    }
    Ok(())
}

/// Adding to a timeline: responders and the manager, on an incident of the team.
pub fn decide_add_timeline_entry(team_id: u128, member: Option<TeamMember>, found: Option<Incident>) -> (r: Result<(), AppError>)
    ensures
        outcome_is(
            r,
            match authorize_spec(member, Action::AddTimelineEntry) {
                Err(e) => Err(e),
                Ok(_) => match incident_spec(team_id, found) {
                    Err(e) => Err(e),
                    Ok(_) => Ok(()),
                },
            },
        ),
{
    authorize(member, Action::AddTimelineEntry)?;
    require_incident(team_id, found)?;
    Ok(())
}

/// The outcome of an edit of a timeline entry.
pub open spec fn edit_entry_spec(
    team_id: u128,
    requester_id: u128,
    member: Option<TeamMember>,
    found: Option<Incident>,
    entry: Option<TimelineEntry>,
) -> Result<(), (u16, Seq<char>)> {
    match member_spec(member) {
        Err(e) => Err(e),
        Ok(_) => match incident_spec(team_id, found) {
            Err(e) => Err(e),
            Ok(_) => match entry {
                None => Err(not_found("Timeline entry not found"@)),
                Some(en) => if en.author_id == Some(requester_id) {
                    Ok(())
                } else {
                    Err(forbidden("Only the author can edit their timeline entry"@))
                },
            },
        },
    }
}

/// Editing a timeline entry: any member, but only the entry's author.
pub fn decide_edit_timeline_entry(
    team_id: u128,
    requester_id: u128,
    member: Option<TeamMember>,
    found: Option<Incident>,
    entry: Option<TimelineEntry>,
) -> (r: Result<(), AppError>)
    ensures
        outcome_is(r, edit_entry_spec(team_id, requester_id, member, found, entry)),
{
    require_member(member)?;
    require_incident(team_id, found)?;
    match entry {
        None => Err(AppError::NotFound(String::from_str("Timeline entry not found"))),
        Some(e) => {
            if !e.can_edit(requester_id) {
                return Err(
                    AppError::Forbidden(
                        String::from_str("Only the author can edit their timeline entry"),
                    ),
                );
            }
            Ok(())
        },
    }
}

/// An incident opened against a release in progress blocks it.
pub fn release_state_when_opened(release: Option<&Release>) -> (r: Option<ReleaseState>)
    ensures
        r == match release {
            Some(rel) => match block_spec(rel.state) {
                Ok(s) => Some(s),
                Err(_) => None,
            },
            None => None,
        },
{
    match release {
        Some(rel) => match rel.block() {
            Ok(s) => Some(s),
            Err(_) => None,
        },
        None => None,
    }
}

/// Resolving the last unresolved incident of a blocked release unblocks it.
pub fn release_state_when_resolved(release: Option<&Release>, others_unresolved: bool) -> (r: Option<ReleaseState>)
    ensures
        r == match release {
            Some(rel) => if others_unresolved {
                None
            } else {
                match unblock_spec(rel.state) {
                    Ok(s) => Some(s),
                    Err(_) => None,
                }
            },
            None => None,
        },
{
    match release {
        Some(rel) => {
            if others_unresolved {
                return None;
            }
            match rel.unblock() {
                Ok(s) => Some(s),
                Err(_) => None,
            }
        },
        None => None,
    }
}

/// Reacting to a timeline entry (or taking a reaction back): any member, on an
/// entry of an incident of the team.
pub open spec fn react_spec(
    team_id: u128,
    member: Option<TeamMember>,
    found: Option<Incident>,
    entry: Option<TimelineEntry>,
) -> Result<(), (u16, Seq<char>)> {
    match member_spec(member) {
        Err(e) => Err(e),
        Ok(_) => match incident_spec(team_id, found) {
            Err(e) => Err(e),
            Ok(i) => match entry {
                Some(en) => if en.incident_id == i.id {
                    Ok(())
                } else {
                    Err(not_found("Timeline entry not found"@))
                },
                None => Err(not_found("Timeline entry not found"@)),
            },
        },
    }
}

pub fn decide_react(
    team_id: u128,
    member: Option<TeamMember>,
    found: Option<Incident>,
    entry: Option<TimelineEntry>,
) -> (r: Result<(), AppError>)
    ensures
        outcome_is(r, react_spec(team_id, member, found, entry)),
{
    require_member(member)?;
    let incident = require_incident(team_id, found)?;
    match entry {
        Some(en) => if en.incident_id == incident.id {
            Ok(())
        } else {
            Err(AppError::NotFound(String::from_str("Timeline entry not found")))
        },
        None => Err(AppError::NotFound(String::from_str("Timeline entry not found"))),
    }
}

/// What a reaction is grouped by: its entry and its emoji.
pub open spec fn reaction_key(r: ReactionWithUsername) -> (u128, ReactionEmoji) {
    (r.entry_id, r.emoji)
}

/// The groups of the reactions, in the order in which each first occurs.
pub open spec fn reaction_groups(rows: Seq<ReactionWithUsername>) -> Seq<(u128, ReactionEmoji)>
    decreases rows.len(),
{
    if rows.len() == 0 {
        Seq::empty()
    } else {
        let ks = reaction_groups(rows.drop_last());
        if ks.contains(reaction_key(rows.last())) {
            ks
        } else {
            ks.push(reaction_key(rows.last()))
        }
    }
}

pub open spec fn name_in_group(k: (u128, ReactionEmoji)) -> spec_fn(ReactionWithUsername) -> Option<Seq<char>> {
    |r: ReactionWithUsername| if reaction_key(r) == k { Some(r.username@) } else { None }
}

/// The names of those who reacted in a group, in the order of their reactions.
pub open spec fn group_names(rows: Seq<ReactionWithUsername>, k: (u128, ReactionEmoji)) -> Seq<Seq<char>> {
    rows.filter_map(name_in_group(k))
}

/// Whether the user is among those who reacted in a group.
pub open spec fn reacted_in_group(rows: Seq<ReactionWithUsername>, k: (u128, ReactionEmoji), user: u128) -> bool {
    exists|i: int| 0 <= i < rows.len() && reaction_key(#[trigger] rows[i]) == k && rows[i].user_id == user
}

/// Whether a summary describes a group.
pub open spec fn summary_is(s: ReactionSummary, rows: Seq<ReactionWithUsername>, k: (u128, ReactionEmoji), user: u128) -> bool {
    &&& s.entry_id == k.0
    &&& s.emoji == k.1
    &&& s.usernames@.len() == group_names(rows, k).len()
    &&& forall|j: int| 0 <= j < s.usernames@.len() ==> #[trigger] s.usernames@[j]@ == group_names(rows, k)[j]
    &&& s.reacted_by_me == reacted_in_group(rows, k, user)
}

fn same_key(a: &ReactionWithUsername, entry_id: u128, emoji: ReactionEmoji) -> (r: bool)
    ensures
        r == (reaction_key(*a) == (entry_id, emoji)),
{
    a.entry_id == entry_id && a.emoji == emoji
}

/// The summary of one group.
fn summarize_group(rows: &Vec<ReactionWithUsername>, entry_id: u128, emoji: ReactionEmoji, user: u128) -> (r: ReactionSummary)
    ensures
        summary_is(r, rows@, (entry_id, emoji), user),
{
    let ghost k = (entry_id, emoji);
    let ghost f = name_in_group(k);
    let mut names: Vec<String> = Vec::new();
    let mut mine = false;
    let mut i: usize = 0;
    while i < rows.len()
        invariant
            i <= rows@.len(),
            k == (entry_id, emoji),
            f == name_in_group(k),
            names@.len() == rows@.take(i as int).filter_map(f).len(),
            forall|j: int| 0 <= j < names@.len() ==> #[trigger] names@[j]@ == rows@.take(i as int).filter_map(f)[j],
            mine == exists|q: int| 0 <= q < i && reaction_key(#[trigger] rows@[q]) == k && rows@[q].user_id == user,
        decreases rows@.len() - i,
    {
        proof {
            rows@.lemma_filter_map_take_succ(f, i as int);
        }
        if same_key(&rows[i], entry_id, emoji) {
            names.push(rows[i].username.clone());
            if rows[i].user_id == user {
                mine = true;
            }
        }
        i = i + 1;
    }
    proof {
        assert(rows@.take(i as int) =~= rows@);
    }
    ReactionSummary { entry_id, emoji, usernames: names, reacted_by_me: mine }
}

fn contains_key(keys: &Vec<(u128, ReactionEmoji)>, entry_id: u128, emoji: ReactionEmoji) -> (r: bool)
    ensures
        r == keys@.contains((entry_id, emoji)),
{
    let mut i: usize = 0;
    while i < keys.len()
        invariant
            i <= keys@.len(),
            forall|q: int| 0 <= q < i ==> keys@[q] != (entry_id, emoji),
        decreases keys@.len() - i,
    {
        if keys[i].0 == entry_id && keys[i].1 == emoji {
            assert(keys@[i as int] == (entry_id, emoji));
            return true;
        }
        i = i + 1;
    }
    false
}

/// The reactions on an incident's entries, one summary per entry and emoji in the
/// order in which each first occurs: who reacted, in order, and whether `user` did.
pub fn summarize_reactions(rows: &Vec<ReactionWithUsername>, user: u128) -> (r: Vec<ReactionSummary>)
    ensures
        r@.len() == reaction_groups(rows@).len(),
        forall|j: int| 0 <= j < r@.len() ==> summary_is(#[trigger] r@[j], rows@, reaction_groups(rows@)[j], user),
{
    let mut keys: Vec<(u128, ReactionEmoji)> = Vec::new();
    let mut i: usize = 0;
    while i < rows.len()
        invariant
            i <= rows@.len(),
            keys@ == reaction_groups(rows@.take(i as int)),
        decreases rows@.len() - i,
    {
        proof {
            assert(rows@.take(i + 1).drop_last() =~= rows@.take(i as int));
            assert(rows@.take(i + 1).last() == rows@[i as int]);
        }
        let e = rows[i].entry_id;
        let m = rows[i].emoji;
        if !contains_key(&keys, e, m) {
            keys.push((e, m));
        }
        i = i + 1;
    }
    proof {
        assert(rows@.take(i as int) =~= rows@);
    }
    let mut out: Vec<ReactionSummary> = Vec::new();
    let mut j: usize = 0;
    while j < keys.len()
        invariant
            j <= keys@.len(),
            keys@ == reaction_groups(rows@),
            out@.len() == j,
            forall|q: int| 0 <= q < j ==> summary_is(#[trigger] out@[q], rows@, keys@[q], user),
        decreases keys@.len() - j,
    {
        let (e, m) = keys[j];
        out.push(summarize_group(rows, e, m, user));
        j = j + 1;
    }
    out
}

/// Every reaction falls in one of the summaries, and no two summaries share an entry
/// and an emoji.
pub proof fn law_reaction_groups_partition(rows: Seq<ReactionWithUsername>)
    ensures
        reaction_groups(rows).no_duplicates(),
        forall|i: int| 0 <= i < rows.len() ==> reaction_groups(rows).contains(reaction_key(#[trigger] rows[i])),
    decreases rows.len(),
{
    if rows.len() > 0 {
        let rest = rows.drop_last();
        law_reaction_groups_partition(rest);
        let ks = reaction_groups(rest);
        let k = reaction_key(rows.last());
        assert forall|i: int| 0 <= i < rows.len() implies reaction_groups(rows).contains(
            reaction_key(#[trigger] rows[i]),
        ) by {
            if i < rows.len() - 1 {
                assert(rest[i] == rows[i]);
                assert(ks.contains(reaction_key(rest[i])));
                if !ks.contains(k) {
                    let q = choose|q: int| 0 <= q < ks.len() && ks[q] == reaction_key(rest[i]);
                    assert(ks.push(k)[q] == reaction_key(rows[i]));
                }
            } else {
                if !ks.contains(k) {
                    assert(ks.push(k)[ks.len() as int] == k);
                }
            }
        }
        if !ks.contains(k) {
            let out = ks.push(k);
            assert forall|a: int, b: int|
                0 <= a < out.len() && 0 <= b < out.len() && a != b implies out[a] != out[b] by {
                if a < ks.len() && b < ks.len() {
                    assert(out[a] == ks[a] && out[b] == ks[b]);
                } else if a < ks.len() {
                    assert(out[a] == ks[a]);
                    assert(ks.contains(ks[a]));
                } else {
                    assert(out[b] == ks[b]);
                    assert(ks.contains(ks[b]));
                }
            }
        }
    }
}

} // verus!
