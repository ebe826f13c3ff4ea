//! The request bodies of the rule operations, a rule's response form, and the
//! about page that lists the catalog of services.
use vstd::prelude::*;
use crate::features::rule_engine::model::{Rule, ServiceCapability, ServiceCatalogEntry, reaction_type_text, is_service_catalog, service_catalog};
use crate::shared::clock::{seconds_fit, unix_seconds};
use crate::shared::json::JsonValue;
use crate::shared::validation::{
    Checker, ValidationErrors, ValidationKind, check_length, field_check, lemma_errors_are_push,
    length_ok, validated,
};

verus! {

/// What fires a rule: a service's event, with filters on the event's context (an
/// empty object when the body gives none).
#[derive(Debug)]
pub struct TriggerDto {
    pub service: String,
    pub event: String,
    pub filters: JsonValue,
}

/// What a rule does: a reaction type and its payload (an empty object when absent).
#[derive(Debug)]
pub struct ReactionDto {
    pub reaction_type: String,
    pub payload: JsonValue,
}

/// The body of a rule's creation.
#[derive(Debug)]
pub struct CreateRuleRequest {
    pub name: String,
    pub enabled: bool,
    pub trigger: TriggerDto,
    pub webhook_secret: String,
    pub reaction: ReactionDto,
}

/// Name of 1 to 200 characters, webhook secret of 1 to 500.
pub open spec fn create_rule_errors(r: CreateRuleRequest) -> Seq<(Seq<char>, ValidationKind)> {
    field_check(
        length_ok(r.name@.len() as int, Some(1), Some(200)),
        "name"@,
        ValidationKind::Length { min: Some(1), max: Some(200) },
    ) + field_check(
        length_ok(r.webhook_secret@.len() as int, Some(1), Some(500)),
        "webhook_secret"@,
        ValidationKind::Length { min: Some(1), max: Some(500) },
    )
}

impl CreateRuleRequest {
    pub fn validate(&self) -> (r: Result<(), ValidationErrors>)
        ensures
            validated(r, create_rule_errors(*self)),
    {
        let mut c = Checker::new();
        let ok_name = check_length(self.name.as_str(), Some(1), Some(200));
        let k_name = ValidationKind::Length { min: Some(1), max: Some(200) };
        proof {
            lemma_errors_are_push(c.errors@, seq![], ok_name, "name", k_name);
        }
        c.check(ok_name, "name", k_name);
        let ok_secret = check_length(self.webhook_secret.as_str(), Some(1), Some(500));
        let k_secret = ValidationKind::Length { min: Some(1), max: Some(500) };
        proof {
            lemma_errors_are_push(
                c.errors@,
                Seq::<(Seq<char>, ValidationKind)>::empty() + field_check(ok_name, "name"@, k_name),
                ok_secret,
                "webhook_secret",
                k_secret,
            );
            assert(Seq::<(Seq<char>, ValidationKind)>::empty() + field_check(ok_name, "name"@, k_name)
                + field_check(ok_secret, "webhook_secret"@, k_secret) =~= create_rule_errors(*self));
        }
        c.check(ok_secret, "webhook_secret", k_secret);
        c.finish()
    }
}

/// The body that enables or disables a rule.
#[derive(Debug, Clone, Copy)]
pub struct UpdateRuleRequest {
    pub enabled: bool,
}

/// A rule's trigger as responses show it.
#[derive(Debug)]
pub struct TriggerResponseDto {
    pub service: String,
    pub event: String,
    pub filters: JsonValue,
}

/// A rule's reaction as responses show it.
#[derive(Debug)]
pub struct ReactionResponseDto {
    pub reaction_type: String,
    pub payload: JsonValue,
}

/// A rule as responses show it (without its sealed secret); `created_at` in whole
/// seconds since the Unix epoch.
#[derive(Debug)]
pub struct RuleResponse {
    pub id: u128,
    pub team_id: u128,
    pub name: String,
    pub enabled: bool,
    pub trigger: TriggerResponseDto,
    pub reaction: ReactionResponseDto,
    pub created_by: Option<u128>,
    pub created_at: i64,
}

impl RuleResponse {
    /// The response form of a rule.
    pub fn from_rule(rule: Rule) -> (r: RuleResponse)
        requires
            seconds_fit(rule.created_at),
        ensures
            r.id == rule.id,
            r.team_id == rule.team_id,
            r.name == rule.name,
            r.enabled == rule.enabled,
            r.trigger.service == rule.trigger_service,
            r.trigger.event == rule.trigger_event,
            r.trigger.filters == rule.trigger_filters,
            r.reaction.reaction_type@ == reaction_type_text(rule.reaction_type),
            r.reaction.payload == rule.reaction_payload,
            r.created_by == rule.created_by,
            r.created_at == rule.created_at / 1_000_000_000,
    {
        let reaction_type = String::from_str(rule.reaction_type.as_str());
        let created_at = unix_seconds(rule.created_at);
        RuleResponse {
            id: rule.id,
            team_id: rule.team_id,
            name: rule.name,
            enabled: rule.enabled,
            trigger: TriggerResponseDto {
                service: rule.trigger_service,
                event: rule.trigger_event,
                filters: rule.trigger_filters,
            },
            reaction: ReactionResponseDto { reaction_type, payload: rule.reaction_payload },
            created_by: rule.created_by,
            created_at,
        }
    }
}

/// The about page: the client's host, the server's time and services, and the hash
/// of the kickoff token.
#[derive(Debug)]
pub struct AboutResponse {
    pub client: AboutClientDto,
    pub server: AboutServerDto,
    pub token: String,
}

#[derive(Debug)]
pub struct AboutClientDto {
    pub host: String,
}

/// The server's time (Unix seconds) and the services it offers.
#[derive(Debug)]
pub struct AboutServerDto {
    pub current_time: i64,
    pub services: Vec<AboutServiceDto>,
}

#[derive(Debug)]
pub struct AboutServiceDto {
    pub name: String,
    pub actions: Vec<AboutCapabilityDto>,
    pub reactions: Vec<AboutCapabilityDto>,
}

#[derive(Debug)]
pub struct AboutCapabilityDto {
    pub name: String,
    pub description: String,
}

/// Whether the listed capabilities are those of the catalog, in order.
pub open spec fn capabilities_are(dtos: Seq<AboutCapabilityDto>, caps: Seq<ServiceCapability>) -> bool {
    dtos.len() == caps.len() && forall|i: int|
        0 <= i < caps.len() ==> (#[trigger] dtos[i]).name@ == caps[i].name@ && dtos[i].description@
            == caps[i].description@
}

/// Whether a listed service is the catalog's entry.
pub open spec fn service_is(dto: AboutServiceDto, entry: ServiceCatalogEntry) -> bool {
    dto.name@ == entry.name@ && capabilities_are(dto.actions@, entry.actions@) && capabilities_are(
        dto.reactions@,
        entry.reactions@,
    )
}

impl AboutCapabilityDto {
    pub fn from_capability(capability: &ServiceCapability) -> (r: AboutCapabilityDto)
        ensures
            r.name@ == capability.name@,
            r.description@ == capability.description@,
    {
        AboutCapabilityDto {
            name: String::from_str(capability.name),
            description: String::from_str(capability.description),
        }
    }
}

fn capability_dtos(caps: &Vec<ServiceCapability>) -> (r: Vec<AboutCapabilityDto>)
    ensures
        capabilities_are(r@, caps@),
{
    let mut out: Vec<AboutCapabilityDto> = Vec::new();
    let mut i: usize = 0;
    while i < caps.len()
        invariant
            i <= caps@.len(),
            capabilities_are(out@, caps@.subrange(0, i as int)),
        decreases caps@.len() - i,
    {
        out.push(AboutCapabilityDto::from_capability(&caps[i]));
        i = i + 1;
    }
    assert(caps@.subrange(0, i as int) =~= caps@);
    out
}

impl AboutServiceDto {
    pub fn from_entry(entry: &ServiceCatalogEntry) -> (r: AboutServiceDto)
        ensures
            service_is(r, *entry),
    {
        AboutServiceDto {
            name: String::from_str(entry.name),
            actions: capability_dtos(&entry.actions),
            reactions: capability_dtos(&entry.reactions),
        }
    }
}

/// The about page for a client host, at a time, with the kickoff token's hash: the
/// services listed are those of the catalog, in its order.
pub fn about_response(host: String, current_time: i64, token: String) -> (r: AboutResponse)
    ensures
        r.client.host == host,
        r.server.current_time == current_time,
        r.token == token,
        r.server.services@.len() == 3,
        exists|c: Seq<ServiceCatalogEntry>|
            is_service_catalog(c) && forall|i: int|
                0 <= i < 3 ==> service_is(#[trigger] r.server.services@[i], c[i]),
{
    let catalog = service_catalog();
    let mut services: Vec<AboutServiceDto> = Vec::new();
    let mut i: usize = 0;
    while i < catalog.len()
        invariant
            i <= catalog@.len(),
            services@.len() == i,
            forall|j: int| 0 <= j < i ==> service_is(#[trigger] services@[j], catalog@[j]),
        decreases catalog@.len() - i,
    {
        services.push(AboutServiceDto::from_entry(&catalog[i]));
        i = i + 1;
    }
    AboutResponse {
        client: AboutClientDto { host },
        server: AboutServerDto { current_time, services },
        token,
    }
}

} // verus!
