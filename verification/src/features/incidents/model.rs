//! Incidents, their life cycle, timelines and reactions.
use vstd::prelude::*;
use crate::shared::text::str_eq;

verus! {

/// Where an incident stands.
#[derive(Debug, Clone, Copy, PartialEq, Eq, Structural)]
pub enum IncidentState {
    Open,
    Acknowledged,
    Escalated,
    Resolved,
}

/// How severe an incident is.
#[derive(Debug, Clone, Copy, PartialEq, Eq, Structural)]
pub enum Severity {
    Low,
    Medium,
    High,
    Critical,
}

/// A production incident of a team.
#[derive(Debug)]
pub struct Incident {
    pub id: u128,
    pub team_id: u128,
    pub title: String,
    pub description: String,
    pub state: IncidentState,
    pub severity: Severity,
    pub created_by: Option<u128>,
    pub assigned_to: Option<u128>,
    /// The release that the incident blocks, if any.
    pub release_id: Option<u128>,
    /// Nanoseconds since the Unix epoch.
    pub created_at: i128,
    pub resolved_at: Option<i128>,
}

/// An entry of an incident's timeline.
#[derive(Debug)]
pub struct TimelineEntry {
    pub id: u128,
    pub incident_id: u128,
    /// The author, `None` once the author's account is gone.
    pub author_id: Option<u128>,
    pub content: String,
    pub created_at: i128,
    pub edited_at: Option<i128>,
}

/// The reactions that may be put on a timeline entry.
#[derive(Debug, Clone, Copy, PartialEq, Eq, Structural)]
pub enum ReactionEmoji {
    ThumbsUp,
    ThumbsDown,
    Eyes,
    Warning,
    Check,
    Fire,
}

/// A user's reaction on a timeline entry.
#[derive(Debug, Clone, Copy)]
pub struct Reaction {
    pub id: u128,
    pub entry_id: u128,
    pub user_id: u128,
    pub emoji: ReactionEmoji,
    pub created_at: i128,
}

/// A reaction together with the name of the user who gave it.
#[derive(Debug)]
pub struct ReactionWithUsername {
    pub entry_id: u128,
    pub user_id: u128,
    pub username: String,
    pub emoji: ReactionEmoji,
}

/// The reactions of one kind on one entry.
#[derive(Debug)]
pub struct ReactionSummary {
    pub entry_id: u128,
    pub emoji: ReactionEmoji,
    pub usernames: Vec<String>,
    pub reacted_by_me: bool,
}

pub open spec fn severity_text(s: Severity) -> Seq<char> {
    match s {
        Severity::Low => "low"@,
        Severity::Medium => "medium"@,
        Severity::High => "high"@,
        Severity::Critical => "critical"@,
    }
}

pub open spec fn state_text(s: IncidentState) -> Seq<char> {
    match s {
        IncidentState::Open => "open"@,
        IncidentState::Acknowledged => "acknowledged"@,
        IncidentState::Escalated => "escalated"@,
        IncidentState::Resolved => "resolved"@,
    }
}

pub open spec fn emoji_text(e: ReactionEmoji) -> Seq<char> {
    match e {
        ReactionEmoji::ThumbsUp => "+1"@,
        ReactionEmoji::ThumbsDown => "-1"@,
        ReactionEmoji::Eyes => "eyes"@,
        ReactionEmoji::Warning => "warning"@,
        ReactionEmoji::Check => "check"@,
        ReactionEmoji::Fire => "fire"@,
    }
}

pub proof fn lemma_severity_texts()
    ensures
        "low"@ =~= seq!['l', 'o', 'w'],
        "medium"@ =~= seq!['m', 'e', 'd', 'i', 'u', 'm'],
        "high"@ =~= seq!['h', 'i', 'g', 'h'],
        "critical"@ =~= seq!['c', 'r', 'i', 't', 'i', 'c', 'a', 'l'],
{
    reveal_strlit("low");
    reveal_strlit("medium");
    reveal_strlit("high");
    reveal_strlit("critical");
}

pub proof fn lemma_state_texts()
    ensures
        "open"@ =~= seq!['o', 'p', 'e', 'n'],
        "acknowledged"@ =~= seq!['a', 'c', 'k', 'n', 'o', 'w', 'l', 'e', 'd', 'g', 'e', 'd'],
        "escalated"@ =~= seq!['e', 's', 'c', 'a', 'l', 'a', 't', 'e', 'd'],
        "resolved"@ =~= seq!['r', 'e', 's', 'o', 'l', 'v', 'e', 'd'],
{
    reveal_strlit("open");
    reveal_strlit("acknowledged");
    reveal_strlit("escalated");
    reveal_strlit("resolved");
}

pub proof fn lemma_emoji_texts()
    ensures
        "+1"@ =~= seq!['+', '1'],
        "-1"@ =~= seq!['-', '1'],
        "eyes"@ =~= seq!['e', 'y', 'e', 's'],
        "warning"@ =~= seq!['w', 'a', 'r', 'n', 'i', 'n', 'g'],
        "check"@ =~= seq!['c', 'h', 'e', 'c', 'k'],
        "fire"@ =~= seq!['f', 'i', 'r', 'e'],
{
    reveal_strlit("+1");
    reveal_strlit("-1");
    reveal_strlit("eyes");
    reveal_strlit("warning");
    reveal_strlit("check");
    reveal_strlit("fire");
}

/// Distinct severities, states and emojis have distinct texts.
pub proof fn law_texts_are_distinct(a: Severity, b: Severity, s: IncidentState, t: IncidentState, e: ReactionEmoji, f: ReactionEmoji)
    ensures
        severity_text(a) == severity_text(b) <==> a == b,
        state_text(s) == state_text(t) <==> s == t,
        emoji_text(e) == emoji_text(f) <==> e == f,
{
    lemma_severity_texts();
    lemma_state_texts();
    lemma_emoji_texts();
    if severity_text(a) == severity_text(b) {
        assert(severity_text(a).len() == severity_text(b).len());
        assert(severity_text(a)[0] == severity_text(b)[0]);
    }
    if state_text(s) == state_text(t) {
        assert(state_text(s)[0] == state_text(t)[0]);
    }
    if emoji_text(e) == emoji_text(f) {
        assert(emoji_text(e).len() == emoji_text(f).len());
        assert(emoji_text(e)[0] == emoji_text(f)[0]);
    }
}

impl Severity {
    pub fn as_str(&self) -> (r: &'static str)
        ensures
            r@ == severity_text(*self),
    {
        match self {
            Severity::Low => "low",
            Severity::Medium => "medium",
            Severity::High => "high",
            Severity::Critical => "critical",
        }
    }

    /// Reads a severity from its text; `None` for any other text.
    pub fn parse(s: &str) -> (r: Option<Severity>)
        ensures
            match r {
                Some(v) => severity_text(v) == s@,
                None => forall|v: Severity| severity_text(v) != s@,
            },
    {
        if str_eq(s, "low") {
            Some(Severity::Low)
        } else if str_eq(s, "medium") {
            Some(Severity::Medium)
        } else if str_eq(s, "high") {
            Some(Severity::High)
        } else if str_eq(s, "critical") {
            Some(Severity::Critical)
        } else {
            assert forall|v: Severity| severity_text(v) != s@ by {
                match v {
                    Severity::Low => {},
                    Severity::Medium => {},
                    Severity::High => {},
                    Severity::Critical => {},
                }
            }
            None
        }
    }
}

impl ReactionEmoji {
    /// Every emoji a reaction can use, in the order they are offered.
    pub fn all() -> (r: Vec<ReactionEmoji>)
        ensures
            r@ == seq![
                ReactionEmoji::ThumbsUp,
                ReactionEmoji::ThumbsDown,
                ReactionEmoji::Eyes,
                ReactionEmoji::Warning,
                ReactionEmoji::Check,
                ReactionEmoji::Fire,
            ],
    {
        let mut v: Vec<ReactionEmoji> = Vec::new();
        v.push(ReactionEmoji::ThumbsUp);
        v.push(ReactionEmoji::ThumbsDown);
        v.push(ReactionEmoji::Eyes);
        v.push(ReactionEmoji::Warning);
        v.push(ReactionEmoji::Check);
        v.push(ReactionEmoji::Fire);
        v
    }

    /// The short code of the emoji.
    pub fn as_str(&self) -> (r: &'static str)
        ensures
            r@ == emoji_text(*self),
    {
        match self {
            ReactionEmoji::ThumbsUp => "+1",
            ReactionEmoji::ThumbsDown => "-1",
            ReactionEmoji::Eyes => "eyes",
            ReactionEmoji::Warning => "warning",
            ReactionEmoji::Check => "check",
            ReactionEmoji::Fire => "fire",
        }
    }
}

/// The stored text of a state.
pub fn incident_state_to_str(state: &IncidentState) -> (r: &'static str)
    ensures
        r@ == state_text(*state),
{
    match state {
        IncidentState::Open => "open",
        IncidentState::Acknowledged => "acknowledged",
        IncidentState::Escalated => "escalated",
        IncidentState::Resolved => "resolved",
    }
}

/// Reads a stored state; only the four state texts are stored.
pub fn incident_state_from_str(s: &str) -> (r: IncidentState)
    requires
        exists|v: IncidentState| state_text(v) == s@,
    ensures
        state_text(r) == s@,
{
    if str_eq(s, "open") {
        IncidentState::Open
    } else if str_eq(s, "acknowledged") {
        IncidentState::Acknowledged
    } else if str_eq(s, "escalated") {
        IncidentState::Escalated
    } else {
        proof {
            let v = choose|v: IncidentState| state_text(v) == s@;
            lemma_state_texts();
            assert(v == IncidentState::Resolved);
        }
        IncidentState::Resolved
    }
}

/// The stored text of a severity.
pub fn severity_to_str(severity: &Severity) -> (r: &'static str)
    ensures
        r@ == severity_text(*severity),
{
    severity.as_str()
}

/// Reads a stored severity; only the four severity texts are stored.
pub fn severity_from_str(s: &str) -> (r: Severity)
    requires
        exists|v: Severity| severity_text(v) == s@,
    ensures
        severity_text(r) == s@,
{
    match Severity::parse(s) {
        Some(v) => v,
        None => {
            proof {
                let v = choose|v: Severity| severity_text(v) == s@;
                assert(false);
            }
            Severity::Low
        },
    }
}

/// The stored text of an emoji.
pub fn reaction_emoji_to_str(emoji: &ReactionEmoji) -> (r: &'static str)
    ensures
        r@ == emoji_text(*emoji),
{
    emoji.as_str()
}

/// Reads a stored emoji; only the six emoji codes are stored.
pub fn reaction_emoji_from_str(s: &str) -> (r: ReactionEmoji)
    requires
        exists|v: ReactionEmoji| emoji_text(v) == s@,
    ensures
        emoji_text(r) == s@,
{
    if str_eq(s, "+1") {
        ReactionEmoji::ThumbsUp
    } else if str_eq(s, "-1") {
        ReactionEmoji::ThumbsDown
    } else if str_eq(s, "eyes") {
        ReactionEmoji::Eyes
    } else if str_eq(s, "warning") {
        ReactionEmoji::Warning
    } else if str_eq(s, "check") {
        ReactionEmoji::Check
    } else {
        proof {
            let v = choose|v: ReactionEmoji| emoji_text(v) == s@;
            lemma_emoji_texts();
            assert(v == ReactionEmoji::Fire);
        }
        ReactionEmoji::Fire
    }
}

/// The state that acknowledging leads to: only an open incident can be acknowledged.
pub open spec fn acknowledge_spec(s: IncidentState) -> Result<IncidentState, Seq<char>> {
    match s {
        IncidentState::Open => Ok(IncidentState::Acknowledged),
        _ => Err("Only an open incident can be acknowledged"@),
    }
}

/// The state that escalating leads to: an acknowledged or escalated incident
/// becomes (or stays) escalated.
pub open spec fn escalate_spec(s: IncidentState) -> Result<IncidentState, Seq<char>> {
    match s {
        IncidentState::Acknowledged | IncidentState::Escalated => Ok(IncidentState::Escalated),
        _ => Err("Only an acknowledged or escalated incident can be escalated"@),
    }
}

/// The state that resolving leads to: any incident that is not resolved yet.
pub open spec fn resolve_spec(s: IncidentState) -> Result<IncidentState, Seq<char>> {
    match s {
        IncidentState::Resolved => Err("Incident is already resolved"@),
        _ => Ok(IncidentState::Resolved),
    }
}

/// Whether a transition's result is the expected one (messages by their text).
pub open spec fn transition_is(r: Result<IncidentState, &'static str>, expected: Result<IncidentState, Seq<char>>) -> bool {
    match (r, expected) {
        (Ok(a), Ok(b)) => a == b,
        (Err(m), Err(n)) => m@ == n,
        _ => false,
    }
}

impl Incident {
    pub fn acknowledge(&self) -> (r: Result<IncidentState, &'static str>)
        ensures
            transition_is(r, acknowledge_spec(self.state)),
    {
        match self.state {
            IncidentState::Open => Ok(IncidentState::Acknowledged),
            _ => Err("Only an open incident can be acknowledged"),
        }
    }

    pub fn escalate(&self) -> (r: Result<IncidentState, &'static str>)
        ensures
            transition_is(r, escalate_spec(self.state)),
    {
        match self.state {
            IncidentState::Acknowledged | IncidentState::Escalated => Ok(IncidentState::Escalated),
            _ => Err("Only an acknowledged or escalated incident can be escalated"),
        }
    }

    pub fn resolve(&self) -> (r: Result<IncidentState, &'static str>)
        ensures
            transition_is(r, resolve_spec(self.state)),
    {
        match self.state {
            IncidentState::Open | IncidentState::Acknowledged | IncidentState::Escalated => {
                Ok(IncidentState::Resolved)
            },
            IncidentState::Resolved => Err("Incident is already resolved"),
        }
    }
}

/// An incident moves only forward: open, then acknowledged, then escalated (any number
/// of times), and any unresolved incident can be resolved; a resolved incident accepts
/// no transition at all.
pub proof fn law_incident_life_cycle(s: IncidentState)
    ensures
        s == IncidentState::Resolved ==> acknowledge_spec(s) is Err && escalate_spec(s) is Err
            && resolve_spec(s) is Err,
        s != IncidentState::Resolved ==> resolve_spec(s) == Ok::<IncidentState, Seq<char>>(
            IncidentState::Resolved,
        ),
        acknowledge_spec(s) matches Ok(t) ==> s == IncidentState::Open && t
            == IncidentState::Acknowledged,
        escalate_spec(s) matches Ok(t) ==> t == IncidentState::Escalated && s
            != IncidentState::Open,
{
}

impl TimelineEntry {
    /// Only the entry's author can edit it; nobody can once the author is gone.
    pub fn can_edit(&self, user_id: u128) -> (r: bool)
        ensures
            r == (self.author_id == Some(user_id)),
    {
        match self.author_id {
            Some(a) => a == user_id,
            None => false,
        }
    }
}

} // verus!
