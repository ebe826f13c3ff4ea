//! The decisions of the rule operations: creating a rule, reaching one, letting a
//! webhook through, and planning a fired rule's reaction and reporting its outcome.
use vstd::prelude::*;
use vstd::string::StringSliceAdditionalSpecFns;
use vstd::utf8::encode_utf8;
use crate::features::auth::model::ConnectedService;
use crate::features::incidents::model::{Severity, severity_text};
use crate::features::rule_engine::model::{ReactionType, Rule, reaction_type_text, render, render_template};
use crate::features::rule_engine::webhooks::github::{signature_splits_a_char, signature_valid, verify_signature};
use crate::features::teams::access::{Action, authorize, authorize_spec};
use crate::features::teams::model::{Role, TeamMember};
use crate::shared::crypto::{decrypt, decrypt_spec, encrypt};
use crate::shared::error::{AppError, err_is, internal, not_found, outcome_is, unauthorized, validation_failed};
use crate::shared::json::{JsonValue, member, string_of};
use crate::shared::text::{str_eq, trim, trim_spec};

verus! {

/// What a fired rule's reaction came to.
#[derive(Debug)]
pub enum RuleExecution {
    Triggered { result: String, incident_id: Option<u128> },
    Failed { error: String },
}

/// Whether an execution is a failure with the given message.
pub open spec fn failed_with(x: RuleExecution, msg: Seq<char>) -> bool {
    x matches RuleExecution::Failed { error } && error@ == msg
}

/// Whether the service and event of a trigger are supported: GitHub's `workflow_run`.
pub open spec fn supported_trigger(service: Seq<char>, event: Seq<char>) -> bool {
    service == "github"@ && event == "workflow_run"@
}

/// The checks of a rule's creation, before anything is stored.
pub open spec fn create_rule_spec(
    member: Option<TeamMember>,
    service: Seq<char>,
    event: Seq<char>,
    reaction_type: Seq<char>,
) -> Result<ReactionType, (u16, Seq<char>)> {
    match authorize_spec(member, Action::ConfigureRules) {
        Err(e) => Err(e),
        Ok(_) => if !supported_trigger(service, event) {
            Err(validation_failed("Unsupported trigger: "@ + service + "/"@ + event))
        } else if exists|t: ReactionType| reaction_type_text(t) == reaction_type {
            Ok(choose|t: ReactionType| reaction_type_text(t) == reaction_type)
        } else {
            Err(validation_failed("Unsupported reaction type: "@ + reaction_type))
        },
    }
}

/// Rules are created for one trigger only, GitHub's `workflow_run`: for a manager,
/// any other service or event is refused as a validation error naming
/// `service/event`, and that trigger with a known reaction type is accepted as that
/// type. Any member but the manager is refused as `Forbidden`.
pub proof fn law_only_workflow_run_rules(m: TeamMember, service: Seq<char>, event: Seq<char>, reaction_type: Seq<char>)
    ensures
        m.role == Role::Manager && !(service == "github"@ && event == "workflow_run"@) ==> create_rule_spec(
            Some(m),
            service,
            event,
            reaction_type,
        ) == Err::<ReactionType, (u16, Seq<char>)>(
            (422u16, "Unsupported trigger: "@ + service + "/"@ + event),
        ),
        m.role == Role::Manager && service == "github"@ && event == "workflow_run"@ && reaction_type
            == "http_post"@ ==> create_rule_spec(Some(m), service, event, reaction_type) == Ok::<
            ReactionType,
            (u16, Seq<char>),
        >(ReactionType::HttpPost),
        m.role == Role::Manager && service == "github"@ && event == "workflow_run"@ && reaction_type
            == "vigil_create_incident"@ ==> create_rule_spec(Some(m), service, event, reaction_type)
            == Ok::<ReactionType, (u16, Seq<char>)>(ReactionType::VigilCreateIncident),
        m.role != Role::Manager ==> create_rule_spec(Some(m), service, event, reaction_type) == Err::<
            ReactionType,
            (u16, Seq<char>),
        >((403u16, "Only managers can configure rules"@)),
{
    crate::features::rule_engine::model::law_reaction_type_round_trip(ReactionType::HttpPost);
    crate::features::rule_engine::model::law_reaction_type_round_trip(ReactionType::VigilCreateIncident);
    if exists|t: ReactionType| reaction_type_text(t) == reaction_type {
        let c = choose|t: ReactionType| reaction_type_text(t) == reaction_type;
        crate::features::rule_engine::model::law_reaction_type_round_trip(c);
    }
}

/// Creating a rule: only a manager may, for a supported trigger and a known
/// reaction type. The webhook secret is stored sealed under the server's key.
pub fn plan_rule_creation(
    key: &[u8; 32],
    member: Option<TeamMember>,
    trigger_service: &str,
    trigger_event: &str,
    webhook_secret: &str,
    reaction_type: &str,
) -> (r: Result<(ReactionType, Vec<u8>), AppError>)
    requires
        webhook_secret.spec_bytes().len() <= 0x10_0000_0000,
    ensures
        match create_rule_spec(member, trigger_service@, trigger_event@, reaction_type@) {
            Err(x) => r matches Err(e) && err_is(e, x.0, x.1),
            Ok(t) => r matches Ok((u, sealed)) && u == t && reaction_type_text(u) == reaction_type@
                && decrypt_spec(key@, sealed@) == Some(webhook_secret@),
        },
{
    authorize(member, Action::ConfigureRules)?;
    if !(str_eq(trigger_service, "github") && str_eq(trigger_event, "workflow_run")) {
        let mut msg = String::from_str("Unsupported trigger: ");
        msg.append(trigger_service);
        msg.append("/");
        msg.append(trigger_event);
        return Err(AppError::ValidationError(msg));
    }
    match ReactionType::parse(reaction_type) {
        None => {
            let mut msg = String::from_str("Unsupported reaction type: ");
            msg.append(reaction_type);
            Err(AppError::ValidationError(msg))
        },
        Some(t) => {
            proof {
                crate::features::rule_engine::model::law_reaction_type_round_trip(t);
                let c = choose|u: ReactionType| reaction_type_text(u) == reaction_type@;
                crate::features::rule_engine::model::law_reaction_type_round_trip(c);
                assert(reaction_type_text(c) == reaction_type_text(t));
            }
            let sealed = encrypt(key, webhook_secret);
            Ok((t, sealed))
        },
    }
}

/// A rule reached through a team: it must exist and belong to that team.
pub open spec fn rule_in_team_spec(team_id: u128, rule: Option<Rule>) -> Result<Rule, (u16, Seq<char>)> {
    match rule {
        Some(r) => if r.team_id == team_id {
            Ok(r)
        } else {
            Err(not_found("Rule not found"@))
        },
        None => Err(not_found("Rule not found"@)),
    }
}

/// Listing, toggling and deleting rules are a manager's; the rule must be the team's.
pub fn decide_rule_access(member: Option<TeamMember>, team_id: u128, rule: Option<Rule>) -> (r: Result<Rule, AppError>)
    ensures
        outcome_is(
            r,
            match authorize_spec(member, Action::ConfigureRules) {
                Err(e) => Err(e),
                Ok(_) => rule_in_team_spec(team_id, rule),
            },
        ),
{
    authorize(member, Action::ConfigureRules)?;
    match rule {
        Some(r) => if r.team_id == team_id {
            Ok(r)
        } else {
            Err(AppError::NotFound(String::from_str("Rule not found")))
        },
        None => Err(AppError::NotFound(String::from_str("Rule not found"))),
    }
}

/// The rule a webhook is addressed to.
pub fn require_rule(rule: Option<Rule>) -> (r: Result<Rule, AppError>)
    ensures
        outcome_is(
            r,
            match rule {
                Some(x) => Ok(x),
                None => Err(not_found("Rule not found"@)),
            },
        ),
{
    match rule {
        Some(x) => Ok(x),
        None => Err(AppError::NotFound(String::from_str("Rule not found"))),
    }
}

/// Whether a rule listens to GitHub events of the given type and is enabled.
pub open spec fn webhook_applies(rule: Rule, event_type: Seq<char>) -> bool {
    rule.enabled && rule.trigger_service@ == "github"@ && rule.trigger_event@ == event_type
}

/// The outcome of a webhook's authentication: the rule's secret must be readable
/// (else an internal error) and the signature must be the body's under it (else
/// `Unauthorized`); an authentic delivery then tells whether the rule applies.
pub open spec fn webhook_gate_spec(key: Seq<u8>, rule: Rule, event_type: Seq<char>, signature: Seq<u8>, body: Seq<u8>) -> Result<bool, (u16, Seq<char>)> {
    match decrypt_spec(key, rule.encrypted_webhook_secret@) {
        None => Err(internal()),
        Some(secret) => if !signature_valid(encode_utf8(secret), body, signature) {
            Err(unauthorized())
        } else {
            Ok(webhook_applies(rule, event_type))
        },
    }
}

/// Authenticates a GitHub webhook delivery for a rule, and tells whether the rule
/// applies to it.
pub fn webhook_gate(
    key: &[u8; 32],
    rule: &Rule,
    event_type: &str,
    signature: &str,
    raw_body: &[u8],
) -> (r: Result<bool, AppError>)
    requires
        !signature_splits_a_char(signature.spec_bytes()),
    ensures
        outcome_is(r, webhook_gate_spec(key@, *rule, event_type@, signature.spec_bytes(), raw_body@)),
{
    let secret = match decrypt(key, rule.encrypted_webhook_secret.as_slice()) {
        None => return Err(AppError::InternalError),
        Some(s) => s,
    };
    if !verify_signature(secret.as_str().as_bytes(), raw_body, signature) {
        return Err(AppError::Unauthorized);
    }
    Ok(rule.enabled && str_eq(rule.trigger_service.as_str(), "github") && str_eq(
        rule.trigger_event.as_str(),
        event_type,
    ))
}

/// What a fired rule's reaction is to do, once planned.
#[derive(Debug)]
pub enum ReactionPlan {
    /// Open an incident in the rule's team, in the name of the rule's creator.
    CreateIncident { team_id: u128, created_by: u128, title: String, body: String, severity: Severity },
    /// Post a body to a URL, with the creator's connected HTTP token if any.
    HttpPost { created_by: u128, url: String, body: String },
    /// Nothing can be done; the execution fails with this.
    Fail(RuleExecution),
}

/// The text of a string member of a reaction payload.
pub open spec fn payload_text(payload: JsonValue, key: Seq<char>) -> Option<Seq<char>> {
    match member(payload, key) {
        Some(v) => string_of(v),
        None => None,
    }
}

/// A payload member rendered as a template against the context; nothing when absent.
pub open spec fn rendered_member(payload: JsonValue, key: Seq<char>, ctx: JsonValue) -> Seq<char> {
    match payload_text(payload, key) {
        Some(t) => render(t, ctx),
        None => seq![],
    }
}

/// The severity text of an incident reaction: the payload's, or `medium`.
pub open spec fn severity_choice(payload: JsonValue) -> Seq<char> {
    match payload_text(payload, "severity"@) {
        Some(t) => t,
        None => "medium"@,
    }
}

/// Whether `p` is the plan of the rule's reaction for the context.
pub open spec fn plan_is(p: ReactionPlan, rule: Rule, ctx: JsonValue) -> bool {
    match rule.created_by {
        None => p matches ReactionPlan::Fail(x) && failed_with(
            x,
            "This rule's creator account no longer exists"@,
        ),
        Some(creator) => match rule.reaction_type {
            ReactionType::VigilCreateIncident => {
                let s = severity_choice(rule.reaction_payload);
                if exists|v: Severity| severity_text(v) == s {
                    p matches ReactionPlan::CreateIncident { team_id, created_by, title, body, severity }
                        && team_id == rule.team_id && created_by == creator && title@
                        == rendered_member(rule.reaction_payload, "title"@, ctx) && body@
                        == rendered_member(rule.reaction_payload, "body"@, ctx) && severity_text(
                        severity,
                    ) == s
                } else {
                    p matches ReactionPlan::Fail(x) && failed_with(
                        x,
                        "Invalid severity '"@ + s + "' in rule reaction payload"@,
                    )
                }
            },
            ReactionType::HttpPost => match payload_text(rule.reaction_payload, "url"@) {
                None => p matches ReactionPlan::Fail(x) && failed_with(
                    x,
                    "Missing 'url' in rule reaction payload"@,
                ),
                Some(u) => p matches ReactionPlan::HttpPost { created_by, url, body }
                    && created_by == creator && url@ == u && body@ == rendered_member(
                    rule.reaction_payload,
                    "body"@,
                    ctx,
                ),
            },
        },
    }
}

/// The text of a string member of a payload.
fn payload_str<'a>(payload: &'a JsonValue, key: &str) -> (r: Option<&'a str>)
    ensures
        match r {
            Some(s) => payload_text(*payload, key@) == Some(s@),
            None => payload_text(*payload, key@) is None,
        },
{
    match payload.get(key) {
        Some(v) => v.as_str(),
        None => None,
    }
}

/// A payload member rendered against the context.
fn render_member(payload: &JsonValue, key: &str, context: &JsonValue) -> (r: String)
    ensures
        r@ == rendered_member(*payload, key@, *context),
{
    match payload_str(payload, key) {
        Some(t) => render_template(t, context),
        None => String::new(),
    }
}

/// Plans the reaction of a rule that fired on a context.
pub fn plan_reaction(rule: &Rule, context: &JsonValue) -> (r: ReactionPlan)
    ensures
        plan_is(r, *rule, *context),
{
    let creator = match rule.created_by {
        None => {
            return ReactionPlan::Fail(
                RuleExecution::Failed {
                    error: String::from_str("This rule's creator account no longer exists"),
                },
            )
        },
        Some(c) => c,
    };
    match rule.reaction_type {
        ReactionType::VigilCreateIncident => {
            let title = render_member(&rule.reaction_payload, "title", context);
            let body = render_member(&rule.reaction_payload, "body", context);
            let severity_text_given = match payload_str(&rule.reaction_payload, "severity") {
                Some(s) => s,
                None => "medium",
            };
            match Severity::parse(severity_text_given) {
                Some(severity) => ReactionPlan::CreateIncident {
                    team_id: rule.team_id,
                    created_by: creator,
                    title,
                    body,
                    severity,
                },
                None => {
                    let mut error = String::from_str("Invalid severity '");
                    error.append(severity_text_given);
                    error.append("' in rule reaction payload");
                    ReactionPlan::Fail(RuleExecution::Failed { error })
                },
            }
        },
        ReactionType::HttpPost => {
            match payload_str(&rule.reaction_payload, "url") {
                None => ReactionPlan::Fail(
                    RuleExecution::Failed {
                        error: String::from_str("Missing 'url' in rule reaction payload"),
                    },
                ),
                Some(u) => {
                    let body = render_member(&rule.reaction_payload, "body", context);
                    ReactionPlan::HttpPost { created_by: creator, url: String::from_str(u), body }
                },
            }
        },
    }
}

/// The text that `{:?}` writes for an error.
pub uninterp spec fn app_error_debug(e: AppError) -> Seq<char>;

/// Writes an error with its derived `Debug` (`format!("{e:?}")`); the contract names
/// the text `app_error_debug(e)`.
#[verifier::external_body]
fn error_debug_text(e: &AppError) -> (r: String)
    ensures
        r@ == app_error_debug(*e),
{
    format!("{e:?}")
}

/// What opening the planned incident came to: the incident's id, or the failure.
pub fn incident_reaction_outcome(created: Result<u128, AppError>) -> (r: RuleExecution)
    ensures
        match created {
            Ok(id) => r matches RuleExecution::Triggered { result, incident_id } && result@
                == "incident_created"@ && incident_id == Some(id),
            Err(e) => failed_with(r, "Failed to create incident: "@ + app_error_debug(e)),
        },
{
    match created {
        Ok(id) => RuleExecution::Triggered { result: String::from_str("incident_created"), incident_id: Some(id) },
        Err(e) => {
            let mut error = String::from_str("Failed to create incident: ");
            error.append(error_debug_text(&e).as_str());
            RuleExecution::Failed { error }
        },
    }
}

/// The token an HTTP reaction sends: the creator's connected HTTP token, opened
/// with the server's key (none when there is no such service or it cannot be
/// opened). A failed lookup fails the execution.
pub fn http_bearer_token(key: &[u8; 32], lookup: Result<Option<ConnectedService>, AppError>) -> (r: Result<Option<String>, RuleExecution>)
    ensures
        match lookup {
            Ok(None) => r matches Ok(None),
            Ok(Some(c)) => match decrypt_spec(key@, c.encrypted_token@) {
                Some(t) => r matches Ok(Some(s)) && s@ == t,
                None => r matches Ok(None),
            },
            Err(e) => r matches Err(x) && failed_with(
                x,
                "Failed to look up connected HTTP token: "@ + app_error_debug(e),
            ),
        },
{
    match lookup {
        Ok(None) => Ok(None),
        Ok(Some(c)) => Ok(decrypt(key, c.encrypted_token.as_slice())),
        Err(e) => {
            let mut error = String::from_str("Failed to look up connected HTTP token: ");
            error.append(error_debug_text(&e).as_str());
            Err(RuleExecution::Failed { error })
        },
    }
}

/// What an HTTP reaction's request came to.
#[derive(Debug)]
pub enum HttpPostResponse {
    /// The server answered with this status, written as its number and reason.
    Answered { status: u16, status_text: String },
    /// The request could not be sent; the transport's error text.
    Unsent { error: String },
}

/// A status in the 2xx range.
pub open spec fn is_success_status(status: u16) -> bool {
    200 <= status <= 299
}

/// The execution of an HTTP reaction: sent when the server answered with a success.
pub fn http_post_outcome(response: HttpPostResponse) -> (r: RuleExecution)
    ensures
        match response {
            HttpPostResponse::Answered { status, status_text } => if is_success_status(status) {
                r matches RuleExecution::Triggered { result, incident_id } && result@
                    == "http_post_sent"@ && incident_id is None
            } else {
                failed_with(r, "HTTP request failed with status "@ + status_text@)
            },
            HttpPostResponse::Unsent { error } => failed_with(
                r,
                "Failed to send HTTP request: "@ + error@,
            ),
        },
{
    match response {
        HttpPostResponse::Answered { status, status_text } => {
            if 200 <= status && status <= 299 {
                RuleExecution::Triggered { result: String::from_str("http_post_sent"), incident_id: None }
            } else {
                let mut error = String::from_str("HTTP request failed with status ");
                error.append(status_text.as_str());
                RuleExecution::Failed { error }
            }
        },
        HttpPostResponse::Unsent { error } => {
            let mut msg = String::from_str("Failed to send HTTP request: ");
            msg.append(error.as_str());
            RuleExecution::Failed { error: msg }
        },
    }
}

/// The part of a text before its first comma (all of it when there is none).
pub open spec fn before_comma(s: Seq<char>) -> Seq<char>
    decreases s.len(),
{
    if s.len() == 0 {
        s
    } else if s[0] == ',' {
        Seq::empty()
    } else {
        seq![s[0]] + before_comma(s.drop_first())
    }
}

/// The client host that the about page reports: the first address of an
/// `X-Forwarded-For` header, trimmed, or `unknown` without one.
pub open spec fn client_host_spec(forwarded_for: Option<Seq<char>>) -> Seq<char> {
    match forwarded_for {
        None => "unknown"@,
        Some(v) => trim_spec(before_comma(v)),
    }
}

/// The client host of a request, from its `X-Forwarded-For` header.
pub fn client_host(forwarded_for: Option<&str>) -> (r: String)
    ensures
        r@ == client_host_spec(
            match forwarded_for {
                Some(v) => Some(v@),
                None => None,
            },
        ),
{
    match forwarded_for {
        None => String::from_str("unknown"),
        Some(v) => {
            let n = v.unicode_len();
            let mut i: usize = 0;
            proof {
                assert(v@.subrange(0, n as int) =~= v@);
                assert(v@.subrange(0, 0) + v@ =~= v@);
            }
            while i < n && v.get_char(i) != ','
                invariant
                    n == v@.len(),
                    i <= n,
                    before_comma(v@) == v@.subrange(0, i as int) + before_comma(
                        v@.subrange(i as int, n as int),
                    ),
                decreases n - i,
            {
                let ghost rest = v@.subrange(i as int, n as int);
                proof {
                    assert(rest.drop_first() =~= v@.subrange(i + 1, n as int));
                    assert(v@.subrange(0, i + 1) =~= v@.subrange(0, i as int) + seq![rest[0]]);
                    assert(before_comma(rest) == seq![rest[0]] + before_comma(rest.drop_first()));
                    assert(v@.subrange(0, i as int) + (seq![rest[0]] + before_comma(rest.drop_first()))
                        =~= v@.subrange(0, i + 1) + before_comma(rest.drop_first()));
                }
                i = i + 1;
            }
            proof {
                let rest = v@.subrange(i as int, n as int);
                if i < n {
                    assert(rest[0] == ',');
                }
                assert(before_comma(rest) =~= Seq::<char>::empty());
                assert(v@.subrange(0, i as int) + Seq::<char>::empty() =~= v@.subrange(0, i as int));
            }
            let first = v.substring_char(0, i);
            String::from_str(trim(first))
        },
    }
}

/// The reaction type of a stored rule: its text must name one (else the store is
/// corrupt, an internal error).
pub fn stored_reaction_type(text: &str) -> (r: Result<ReactionType, AppError>)
    ensures
        match r {
            Ok(t) => reaction_type_text(t) == text@,
            Err(e) => err_is(e, internal().0, internal().1) && forall|t: ReactionType|
                reaction_type_text(t) != text@,
        },
{
    match ReactionType::parse(text) {
        Some(t) => Ok(t),
        None => {
            proof {
                assert forall|t: ReactionType| reaction_type_text(t) != text@ by {
                    match t {
                        ReactionType::VigilCreateIncident => {},
                        ReactionType::HttpPost => {},
                    }
                }
            }
            Err(AppError::InternalError)
        },
    }
}

} // verus!
