//! The request bodies of the incident routes, and the wire forms of states,
//! severities and emojis.
use vstd::prelude::*;
use crate::features::incidents::model::{IncidentState, ReactionEmoji, Severity};
use crate::shared::validation::{
    Checker, ValidationErrors, ValidationKind, check_length, field_check, lemma_errors_are_push,
    length_ok, validated,
};

verus! {

/// A severity as requests and responses write it.
#[derive(Debug, Clone, Copy, PartialEq, Eq, Structural)]
pub enum SeverityDto {
    Low,
    Medium,
    High,
    Critical,
}

pub open spec fn severity_from_dto(dto: SeverityDto) -> Severity {
    match dto {
        SeverityDto::Low => Severity::Low,
        SeverityDto::Medium => Severity::Medium,
        SeverityDto::High => Severity::High,
        SeverityDto::Critical => Severity::Critical,
    }
}

pub open spec fn dto_from_severity(severity: Severity) -> SeverityDto {
    match severity {
        Severity::Low => SeverityDto::Low,
        Severity::Medium => SeverityDto::Medium,
        Severity::High => SeverityDto::High,
        Severity::Critical => SeverityDto::Critical,
    }
}

pub open spec fn emoji_from_dto(dto: EmojiDto) -> ReactionEmoji {
    match dto {
        EmojiDto::ThumbsUp => ReactionEmoji::ThumbsUp,
        EmojiDto::ThumbsDown => ReactionEmoji::ThumbsDown,
        EmojiDto::Eyes => ReactionEmoji::Eyes,
        EmojiDto::Warning => ReactionEmoji::Warning,
        EmojiDto::Check => ReactionEmoji::Check,
        EmojiDto::Fire => ReactionEmoji::Fire,
    }
}

pub open spec fn dto_from_emoji(emoji: ReactionEmoji) -> EmojiDto {
    match emoji {
        ReactionEmoji::ThumbsUp => EmojiDto::ThumbsUp,
        ReactionEmoji::ThumbsDown => EmojiDto::ThumbsDown,
        ReactionEmoji::Eyes => EmojiDto::Eyes,
        ReactionEmoji::Warning => EmojiDto::Warning,
        ReactionEmoji::Check => EmojiDto::Check,
        ReactionEmoji::Fire => EmojiDto::Fire,
    }
}

impl From<SeverityDto> for Severity {
    fn from(dto: SeverityDto) -> (r: Severity) {
        match dto {
            SeverityDto::Low => Severity::Low,
            SeverityDto::Medium => Severity::Medium,
            SeverityDto::High => Severity::High,
            SeverityDto::Critical => Severity::Critical,
        }
    }
}

impl vstd::std_specs::convert::FromSpecImpl<SeverityDto> for Severity {
    open spec fn obeys_from_spec() -> bool {
        true
    }

    open spec fn from_spec(dto: SeverityDto) -> Severity {
        severity_from_dto(dto)
    }
}

impl From<Severity> for SeverityDto {
    fn from(severity: Severity) -> (r: SeverityDto) {
        match severity {
            Severity::Low => SeverityDto::Low,
            Severity::Medium => SeverityDto::Medium,
            Severity::High => SeverityDto::High,
            Severity::Critical => SeverityDto::Critical,
        }
    }
}

impl vstd::std_specs::convert::FromSpecImpl<Severity> for SeverityDto {
    open spec fn obeys_from_spec() -> bool {
        true
    }

    open spec fn from_spec(severity: Severity) -> SeverityDto {
        dto_from_severity(severity)
    }
}

/// An incident state as responses write it.
#[derive(Debug, Clone, Copy, PartialEq, Eq, Structural)]
pub enum IncidentStateDto {
    Open,
    Acknowledged,
    Escalated,
    Resolved,
}

impl From<IncidentState> for IncidentStateDto {
    fn from(state: IncidentState) -> (r: IncidentStateDto) {
        match state {
            IncidentState::Open => IncidentStateDto::Open,
            IncidentState::Acknowledged => IncidentStateDto::Acknowledged,
            IncidentState::Escalated => IncidentStateDto::Escalated,
            IncidentState::Resolved => IncidentStateDto::Resolved,
        }
    }
}

impl vstd::std_specs::convert::FromSpecImpl<IncidentState> for IncidentStateDto {
    open spec fn obeys_from_spec() -> bool {
        true
    }

    open spec fn from_spec(state: IncidentState) -> IncidentStateDto {
        match state {
            IncidentState::Open => IncidentStateDto::Open,
            IncidentState::Acknowledged => IncidentStateDto::Acknowledged,
            IncidentState::Escalated => IncidentStateDto::Escalated,
            IncidentState::Resolved => IncidentStateDto::Resolved,
        }
    }
}

/// A reaction emoji as requests and responses write it (`+1`, `-1`, `eyes`,
/// `warning`, `check`, `fire`).
#[derive(Debug, Clone, Copy, PartialEq, Eq, Structural)]
pub enum EmojiDto {
    ThumbsUp,
    ThumbsDown,
    Eyes,
    Warning,
    Check,
    Fire,
}

impl From<EmojiDto> for ReactionEmoji {
    fn from(dto: EmojiDto) -> (r: ReactionEmoji) {
        match dto {
            EmojiDto::ThumbsUp => ReactionEmoji::ThumbsUp,
            EmojiDto::ThumbsDown => ReactionEmoji::ThumbsDown,
            EmojiDto::Eyes => ReactionEmoji::Eyes,
            EmojiDto::Warning => ReactionEmoji::Warning,
            EmojiDto::Check => ReactionEmoji::Check,
            EmojiDto::Fire => ReactionEmoji::Fire,
        }
    }
}

impl vstd::std_specs::convert::FromSpecImpl<EmojiDto> for ReactionEmoji {
    open spec fn obeys_from_spec() -> bool {
        true
    }

    open spec fn from_spec(dto: EmojiDto) -> ReactionEmoji {
        emoji_from_dto(dto)
    }
}

impl From<ReactionEmoji> for EmojiDto {
    fn from(emoji: ReactionEmoji) -> (r: EmojiDto) {
        match emoji {
            ReactionEmoji::ThumbsUp => EmojiDto::ThumbsUp,
            ReactionEmoji::ThumbsDown => EmojiDto::ThumbsDown,
            ReactionEmoji::Eyes => EmojiDto::Eyes,
            ReactionEmoji::Warning => EmojiDto::Warning,
            ReactionEmoji::Check => EmojiDto::Check,
            ReactionEmoji::Fire => EmojiDto::Fire,
        }
    }
}

impl vstd::std_specs::convert::FromSpecImpl<ReactionEmoji> for EmojiDto {
    open spec fn obeys_from_spec() -> bool {
        true
    }

    open spec fn from_spec(emoji: ReactionEmoji) -> EmojiDto {
        dto_from_emoji(emoji)
    }
}

/// Converting a severity to its wire form and back gives it back, and so does an emoji.
pub proof fn law_dto_round_trips(s: Severity, d: SeverityDto, e: ReactionEmoji, f: EmojiDto)
    ensures
        severity_from_dto(dto_from_severity(s)) == s,
        dto_from_severity(severity_from_dto(d)) == d,
        emoji_from_dto(dto_from_emoji(e)) == e,
        dto_from_emoji(emoji_from_dto(f)) == f,
{
}

/// The body of an incident's creation.
#[derive(Debug)]
pub struct CreateIncidentRequest {
    pub title: String,
    pub description: Option<String>,
    pub severity: SeverityDto,
    pub release_id: Option<u128>,
}

/// The body of an escalation, which may raise the severity.
#[derive(Debug)]
pub struct EscalateIncidentRequest {
    pub severity: Option<SeverityDto>,
}

/// The body of an assignment; `None` unassigns.
#[derive(Debug)]
pub struct AssignResponderRequest {
    pub user_id: Option<u128>,
}

#[derive(Debug)]
pub struct AddTimelineEntryRequest {
    pub content: String,
}

#[derive(Debug)]
pub struct EditTimelineEntryRequest {
    pub content: String,
}

#[derive(Debug)]
pub struct AddReactionRequest {
    pub emoji: EmojiDto,
}

/// Title of 1 to 200 characters; description, when given, of at most 2000.
pub open spec fn create_incident_errors(r: CreateIncidentRequest) -> Seq<(Seq<char>, ValidationKind)> {
    field_check(
        length_ok(r.title@.len() as int, Some(1), Some(200)),
        "title"@,
        ValidationKind::Length { min: Some(1), max: Some(200) },
    ) + field_check(
        match r.description {
            Some(d) => length_ok(d@.len() as int, None, Some(2000)),
            None => true,
        },
        "description"@,
        ValidationKind::Length { min: None, max: Some(2000) },
    )
}

/// Content of 1 to 2000 characters.
pub open spec fn content_errors(content: Seq<char>) -> Seq<(Seq<char>, ValidationKind)> {
    field_check(
        length_ok(content.len() as int, Some(1), Some(2000)),
        "content"@,
        ValidationKind::Length { min: Some(1), max: Some(2000) },
    )
}

/// Checks a content field of 1 to 2000 characters.
fn validate_content(content: &String) -> (r: Result<(), ValidationErrors>)
    ensures
        validated(r, content_errors(content@)),
{
    let mut c = Checker::new();
    let ok = check_length(content.as_str(), Some(1), Some(2000));
    let kind = ValidationKind::Length { min: Some(1), max: Some(2000) };
    proof {
        lemma_errors_are_push(c.errors@, seq![], ok, "content", kind);
        assert(Seq::<(Seq<char>, ValidationKind)>::empty() + field_check(ok, "content"@, kind)
            =~= content_errors(content@));
    }
    c.check(ok, "content", kind);
    c.finish()
}

impl CreateIncidentRequest {
    pub fn validate(&self) -> (r: Result<(), ValidationErrors>)
        ensures
            validated(r, create_incident_errors(*self)),
    {
        let mut c = Checker::new();
        let ok_title = check_length(self.title.as_str(), Some(1), Some(200));
        let k_title = ValidationKind::Length { min: Some(1), max: Some(200) };
        proof {
            lemma_errors_are_push(c.errors@, seq![], ok_title, "title", k_title);
        }
        c.check(ok_title, "title", k_title);
        let ok_description = match &self.description {
            Some(d) => check_length(d.as_str(), None, Some(2000)),
            None => true,
        };
        let k_description = ValidationKind::Length { min: None, max: Some(2000) };
        proof {
            lemma_errors_are_push(
                c.errors@,
                Seq::<(Seq<char>, ValidationKind)>::empty() + field_check(ok_title, "title"@, k_title),
                ok_description,
                "description",
                k_description,
            );
        }
        c.check(ok_description, "description", k_description);
        proof {
            assert(Seq::<(Seq<char>, ValidationKind)>::empty() + field_check(ok_title, "title"@, k_title)
                + field_check(ok_description, "description"@, k_description)
                =~= create_incident_errors(*self));
        }
        c.finish()
    }
}

impl AddTimelineEntryRequest {
    pub fn validate(&self) -> (r: Result<(), ValidationErrors>)
        ensures
            validated(r, content_errors(self.content@)),
    {
        validate_content(&self.content)
    }
}

impl EditTimelineEntryRequest {
    pub fn validate(&self) -> (r: Result<(), ValidationErrors>)
        ensures
            validated(r, content_errors(self.content@)),
    {
        validate_content(&self.content)
    }
}

} // verus!
