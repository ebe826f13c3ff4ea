use hmac::{Hmac, Mac};
use sha2::Sha256;
use vigil_server::features::auth::model::{ConnectedService, ServiceKind};
use vigil_server::features::incidents::model::Severity;
use vigil_server::features::rule_engine::dto::{CreateRuleRequest, ReactionDto, RuleResponse, TriggerDto, about_response};
use vigil_server::features::rule_engine::model::{
    ReactionType, Rule, get_path, matches_filters, render_template, service_catalog,
};
use vigil_server::features::rule_engine::service::{
    HttpPostResponse, ReactionPlan, RuleExecution, client_host, decide_rule_access, http_bearer_token,
    http_post_outcome, incident_reaction_outcome, plan_reaction, plan_rule_creation, require_rule,
    stored_reaction_type, webhook_gate,
};
use vigil_server::features::rule_engine::webhooks::github::{
    Repository, WorkflowRun, WorkflowRunPayload, build_context, verify_signature,
};
use vigil_server::features::teams::model::{Role, TeamMember};
use vigil_server::shared::crypto::encrypt;
use vigil_server::shared::error::AppError;
use vigil_server::shared::json::{JsonNumber, JsonValue};

const KEY: [u8; 32] = [7; 32];

fn s(text: &str) -> JsonValue {
    JsonValue::String(text.to_string())
}

fn obj(members: Vec<(&str, JsonValue)>) -> JsonValue {
    JsonValue::Object(members.into_iter().map(|(k, v)| (k.to_string(), v)).collect())
}

fn make_rule(enabled: bool, trigger_event: &str, filters: JsonValue) -> Rule {
    Rule {
        id: 1,
        team_id: 10,
        name: "CI failure".into(),
        enabled,
        trigger_service: "github".into(),
        trigger_event: trigger_event.into(),
        trigger_filters: filters,
        encrypted_webhook_secret: vec![],
        reaction_type: ReactionType::VigilCreateIncident,
        reaction_payload: obj(vec![]),
        created_by: None,
        created_at: 0,
    }
}

fn payload() -> WorkflowRunPayload {
    WorkflowRunPayload {
        action: "completed".into(),
        workflow_run: WorkflowRun {
            name: "CI".into(),
            conclusion: Some("failure".into()),
            html_url: "https://github.com/my-org/my-repo/actions/runs/1".into(),
        },
        repository: Repository { name: "my-repo".into(), full_name: "my-org/my-repo".into() },
    }
}

fn sign_hex(secret: &[u8], body: &[u8]) -> String {
    let mut mac = Hmac::<Sha256>::new_from_slice(secret).unwrap();
    mac.update(body);
    let hex: String = mac.finalize().into_bytes().iter().map(|byte| format!("{byte:02x}")).collect();
    format!("sha256={hex}")
}

fn manager() -> Option<TeamMember> {
    Some(TeamMember { id: 3, team_id: 10, user_id: 4, role: Role::Manager, joined_at: 0 })
}

fn failed_text(x: RuleExecution) -> String {
    match x {
        RuleExecution::Failed { error } => error,
        other => panic!("expected a failure, got {other:?}"),
    }
}

#[test]
fn create_rule_request_accepts_valid_input() {
    let req = CreateRuleRequest {
        name: "CI failure > Critical Incident".into(),
        enabled: true,
        trigger: TriggerDto {
            service: "github".into(),
            event: "workflow_run".into(),
            filters: obj(vec![("workflow_run.conclusion", s("failure"))]),
        },
        webhook_secret: "shhh".into(),
        reaction: ReactionDto {
            reaction_type: "vigil_create_incident".into(),
            payload: obj(vec![("title", s("CI broken")), ("severity", s("high"))]),
        },
    };
    assert!(req.validate().is_ok());
}

#[test]
fn create_rule_request_rejects_empty_name() {
    let req = CreateRuleRequest {
        name: "".into(),
        enabled: true,
        trigger: TriggerDto { service: "github".into(), event: "workflow_run".into(), filters: obj(vec![]) },
        webhook_secret: "shhh".into(),
        reaction: ReactionDto { reaction_type: "vigil_create_incident".into(), payload: obj(vec![]) },
    };
    assert!(req.validate().is_err());
}

#[test]
fn create_rule_request_rejects_empty_webhook_secret() {
    let req = CreateRuleRequest {
        name: "CI failure".into(),
        enabled: true,
        trigger: TriggerDto { service: "github".into(), event: "workflow_run".into(), filters: obj(vec![]) },
        webhook_secret: "".into(),
        reaction: ReactionDto { reaction_type: "vigil_create_incident".into(), payload: obj(vec![]) },
    };
    assert!(req.validate().is_err());
}

#[test]
fn rule_response_from_rule_maps_fields() {
    let mut rule = make_rule(true, "workflow_run", obj(vec![("workflow_run.conclusion", s("failure"))]));
    rule.created_at = 1_700_000_000_123_456_789;
    let response = RuleResponse::from_rule(rule);
    assert_eq!(response.trigger.event, "workflow_run");
    assert_eq!(response.reaction.reaction_type, "vigil_create_incident");
    assert_eq!(response.created_at, 1_700_000_000);
}

#[test]
fn reaction_type_round_trips_through_str() {
    for reaction_type in [ReactionType::VigilCreateIncident, ReactionType::HttpPost] {
        assert_eq!(ReactionType::parse(reaction_type.as_str()), Some(reaction_type));
    }
}

#[test]
fn unknown_reaction_type_returns_none() {
    assert_eq!(ReactionType::parse("discord_send_message"), None);
}

#[test]
fn disabled_rule_never_matches() {
    let rule = make_rule(false, "workflow_run", obj(vec![]));
    assert!(!rule.matches("workflow_run", &obj(vec![])));
}

#[test]
fn rule_does_not_match_a_different_event() {
    let rule = make_rule(true, "workflow_run", obj(vec![]));
    assert!(!rule.matches("pull_request", &obj(vec![])));
}

#[test]
fn rule_with_no_filters_matches_any_payload() {
    let rule = make_rule(true, "workflow_run", obj(vec![]));
    assert!(rule.matches("workflow_run", &obj(vec![("anything", JsonValue::Bool(true))])));
}

#[test]
fn filters_that_are_no_object_match_everything() {
    let rule = make_rule(true, "workflow_run", JsonValue::Null);
    assert!(rule.matches("workflow_run", &obj(vec![])));
}

#[test]
fn matches_filters_checks_every_key() {
    let context = obj(vec![
        ("workflow_run", obj(vec![("conclusion", s("failure"))])),
        ("repository", obj(vec![("full_name", s("my-org/my-repo"))])),
    ]);
    let filters = obj(vec![("workflow_run.conclusion", s("failure")), ("repository.full_name", s("my-org/my-repo"))]);
    assert!(matches_filters(&context, &filters));
}

#[test]
fn matches_filters_fails_if_one_key_differs() {
    let context = obj(vec![("workflow_run", obj(vec![("conclusion", s("success"))]))]);
    let filters = obj(vec![("workflow_run.conclusion", s("failure"))]);
    assert!(!matches_filters(&context, &filters));
}

#[test]
fn matches_filters_fails_if_path_is_missing() {
    let context = obj(vec![("repository", obj(vec![("full_name", s("my-org/my-repo"))]))]);
    let filters = obj(vec![("workflow_run.conclusion", s("failure"))]);
    assert!(!matches_filters(&context, &filters));
}

#[test]
fn numbers_compare_by_value() {
    let context = obj(vec![("run", obj(vec![("attempt", JsonValue::Number(JsonNumber::PosInt(2)))]))]);
    assert!(matches_filters(&context, &obj(vec![("run.attempt", JsonValue::Number(JsonNumber::PosInt(2)))])));
    assert!(!matches_filters(&context, &obj(vec![("run.attempt", JsonValue::Number(JsonNumber::PosInt(3)))])));
}

#[test]
fn get_path_follows_dots() {
    let context = obj(vec![("a", obj(vec![("b", s("c"))]))]);
    assert_eq!(get_path(&context, "a.b").and_then(|v| v.as_str()), Some("c"));
    assert!(get_path(&context, "a.x").is_none());
    assert!(get_path(&context, "a.b.c").is_none());
}

#[test]
fn render_template_substitutes_nested_paths() {
    let context = obj(vec![
        ("repository", obj(vec![("full_name", s("my-org/my-repo"))])),
        ("workflow_run", obj(vec![("html_url", s("https://example.com/run/1"))])),
    ]);
    let rendered = render_template(
        "CI broken on {{repository.full_name}} — [View run]({{workflow_run.html_url}})",
        &context,
    );
    assert_eq!(rendered, "CI broken on my-org/my-repo — [View run](https://example.com/run/1)");
}

#[test]
fn render_template_leaves_unresolved_placeholders_empty() {
    let rendered = render_template("Hello {{unknown.path}}!", &obj(vec![]));
    assert_eq!(rendered, "Hello !");
}

#[test]
fn render_template_without_placeholders_is_unchanged() {
    let rendered = render_template("no placeholders here", &obj(vec![]));
    assert_eq!(rendered, "no placeholders here");
}

#[test]
fn render_template_handles_unterminated_placeholder() {
    let rendered = render_template("broken {{repository.full_name", &obj(vec![]));
    assert_eq!(rendered, "broken {{repository.full_name");
}

#[test]
fn render_template_trims_paths_and_writes_non_strings_as_json() {
    let context = obj(vec![
        ("n", JsonValue::Number(JsonNumber::PosInt(42))),
        ("b", JsonValue::Bool(true)),
        ("z", JsonValue::Null),
        ("name", s("x")),
    ]);
    assert_eq!(render_template("{{ n }}/{{b}}/{{z}}/{{ name}}", &context), "42/true//x");
}

#[test]
fn service_catalog_lists_github_as_an_action_and_vigil_as_a_reaction() {
    let catalog = service_catalog();

    let github = catalog.iter().find(|s| s.name == "github").unwrap();
    assert!(!github.actions.is_empty());
    assert!(github.reactions.is_empty());

    let vigil = catalog.iter().find(|s| s.name == "vigil").unwrap();
    assert!(vigil.actions.is_empty());
    assert!(!vigil.reactions.is_empty());

    let http = catalog.iter().find(|s| s.name == "http").unwrap();
    assert!(http.actions.is_empty());
    assert!(!http.reactions.is_empty());
}

#[test]
fn about_page_lists_the_catalog() {
    let about = about_response("10.0.0.1".into(), 1_700_000_000, "abc".into());
    assert_eq!(about.client.host, "10.0.0.1");
    assert_eq!(about.server.services.len(), 3);
    assert_eq!(about.server.services[0].name, "github");
    assert_eq!(about.server.services[0].actions[0].name, "workflow_run_failed");
    assert_eq!(about.server.services[2].reactions[0].name, "send_post");
    assert_eq!(about.token, "abc");
}

#[test]
fn build_context_exposes_dot_addressable_fields() {
    let context = build_context(&payload());
    assert_eq!(get_path(&context, "workflow_run.conclusion").and_then(|v| v.as_str()), Some("failure"));
    assert_eq!(get_path(&context, "repository.full_name").and_then(|v| v.as_str()), Some("my-org/my-repo"));
}

#[test]
fn verify_signature_accepts_a_correctly_signed_body() {
    let body = b"hello world";
    let signature = sign_hex(b"my-secret", body);
    assert!(verify_signature(b"my-secret", body, &signature));
}

#[test]
fn verify_signature_rejects_a_tampered_body() {
    let signature = sign_hex(b"my-secret", b"hello world");
    assert!(!verify_signature(b"my-secret", b"tampered body", &signature));
}

#[test]
fn verify_signature_rejects_the_wrong_secret() {
    let body = b"hello world";
    let signature = sign_hex(b"my-secret", body);
    assert!(!verify_signature(b"wrong-secret", body, &signature));
}

#[test]
fn verify_signature_rejects_missing_prefix() {
    assert!(!verify_signature(b"my-secret", b"hello world", "invalid-signature"));
}

#[test]
fn verify_signature_rejects_invalid_hex() {
    assert!(!verify_signature(b"my-secret", b"hello world", "sha256=not-hex"));
}

#[test]
fn verify_signature_accepts_uppercase_hex() {
    let signature = sign_hex(b"my-secret", b"hello world");
    let upper = format!("sha256={}", signature[7..].to_uppercase());
    assert!(verify_signature(b"my-secret", b"hello world", &upper));
}

#[test]
fn rule_creation_checks_trigger_and_reaction() {
    let (t, sealed) =
        plan_rule_creation(&KEY, manager(), "github", "workflow_run", "shhh", "http_post").unwrap();
    assert_eq!(t, ReactionType::HttpPost);
    assert_eq!(vigil_server::shared::crypto::decrypt(&KEY, &sealed), Some("shhh".to_string()));
    match plan_rule_creation(&KEY, manager(), "gitlab", "push", "shhh", "http_post") {
        Err(AppError::ValidationError(m)) => assert_eq!(m, "Unsupported trigger: gitlab/push"),
        other => panic!("unexpected {other:?}"),
    }
    match plan_rule_creation(&KEY, manager(), "github", "workflow_run", "shhh", "discord") {
        Err(AppError::ValidationError(m)) => assert_eq!(m, "Unsupported reaction type: discord"),
        other => panic!("unexpected {other:?}"),
    }
    let responder = Some(TeamMember { id: 3, team_id: 10, user_id: 4, role: Role::Responder, joined_at: 0 });
    match plan_rule_creation(&KEY, responder, "github", "workflow_run", "shhh", "http_post") {
        Err(AppError::Forbidden(m)) => assert_eq!(m, "Only managers can configure rules"),
        other => panic!("unexpected {other:?}"),
    }
}

#[test]
fn rules_are_reached_through_their_team() {
    assert_eq!(decide_rule_access(manager(), 10, Some(make_rule(true, "workflow_run", obj(vec![])))).unwrap().id, 1);
    match decide_rule_access(manager(), 11, Some(make_rule(true, "workflow_run", obj(vec![])))) {
        Err(AppError::NotFound(m)) => assert_eq!(m, "Rule not found"),
        other => panic!("unexpected {other:?}"),
    }
    assert!(matches!(require_rule(None), Err(AppError::NotFound(_))));
    assert!(matches!(stored_reaction_type("http_post"), Ok(ReactionType::HttpPost)));
    assert!(matches!(stored_reaction_type("carrier_pigeon"), Err(AppError::InternalError)));
}

#[test]
fn webhooks_are_authenticated_before_anything() {
    let mut rule = make_rule(true, "workflow_run", obj(vec![]));
    rule.encrypted_webhook_secret = encrypt(&KEY, "my-secret");
    let body = b"{\"action\":\"completed\"}";
    let signature = sign_hex(b"my-secret", body);
    assert!(matches!(webhook_gate(&KEY, &rule, "workflow_run", &signature, body), Ok(true)));
    assert!(matches!(webhook_gate(&KEY, &rule, "push", &signature, body), Ok(false)));
    assert!(matches!(webhook_gate(&KEY, &rule, "workflow_run", "sha256=00", body), Err(AppError::Unauthorized)));
    assert!(matches!(webhook_gate(&[9; 32], &rule, "workflow_run", &signature, body), Err(AppError::InternalError)));
    rule.enabled = false;
    assert!(matches!(webhook_gate(&KEY, &rule, "workflow_run", &signature, body), Ok(false)));
}

#[test]
fn incident_reactions_render_their_templates() {
    let mut rule = make_rule(true, "workflow_run", obj(vec![]));
    rule.created_by = Some(4);
    rule.reaction_payload = obj(vec![
        ("title", s("CI broken on {{repository.full_name}}")),
        ("body", s("{{workflow_run.html_url}}")),
        ("severity", s("critical")),
    ]);
    let context = build_context(&payload());
    match plan_reaction(&rule, &context) {
        ReactionPlan::CreateIncident { team_id, created_by, title, body, severity } => {
            assert_eq!(team_id, 10);
            assert_eq!(created_by, 4);
            assert_eq!(title, "CI broken on my-org/my-repo");
            assert_eq!(body, "https://github.com/my-org/my-repo/actions/runs/1");
            assert_eq!(severity, Severity::Critical);
        },
        other => panic!("unexpected {other:?}"),
    }
    rule.reaction_payload = obj(vec![]);
    match plan_reaction(&rule, &context) {
        ReactionPlan::CreateIncident { title, body, severity, .. } => {
            assert_eq!(title, "");
            assert_eq!(body, "");
            assert_eq!(severity, Severity::Medium);
        },
        other => panic!("unexpected {other:?}"),
    }
    rule.reaction_payload = obj(vec![("severity", s("urgent"))]);
    match plan_reaction(&rule, &context) {
        ReactionPlan::Fail(x) => assert_eq!(failed_text(x), "Invalid severity 'urgent' in rule reaction payload"),
        other => panic!("unexpected {other:?}"),
    }
}

#[test]
fn reactions_fail_without_a_creator_or_a_url() {
    let rule = make_rule(true, "workflow_run", obj(vec![]));
    match plan_reaction(&rule, &obj(vec![])) {
        ReactionPlan::Fail(x) => assert_eq!(failed_text(x), "This rule's creator account no longer exists"),
        other => panic!("unexpected {other:?}"),
    }
    let mut http = make_rule(true, "workflow_run", obj(vec![]));
    http.created_by = Some(4);
    http.reaction_type = ReactionType::HttpPost;
    match plan_reaction(&http, &obj(vec![])) {
        ReactionPlan::Fail(x) => assert_eq!(failed_text(x), "Missing 'url' in rule reaction payload"),
        other => panic!("unexpected {other:?}"),
    }
    http.reaction_payload = obj(vec![("url", s("https://hooks.example/x")), ("body", s("run {{a}}"))]);
    match plan_reaction(&http, &obj(vec![("a", s("1"))])) {
        ReactionPlan::HttpPost { created_by, url, body } => {
            assert_eq!(created_by, 4);
            assert_eq!(url, "https://hooks.example/x");
            assert_eq!(body, "run 1");
        },
        other => panic!("unexpected {other:?}"),
    }
}

#[test]
fn reaction_outcomes_are_reported() {
    match incident_reaction_outcome(Ok(77)) {
        RuleExecution::Triggered { result, incident_id } => {
            assert_eq!(result, "incident_created");
            assert_eq!(incident_id, Some(77));
        },
        other => panic!("unexpected {other:?}"),
    }
    assert_eq!(
        failed_text(incident_reaction_outcome(Err(AppError::NotFound("Team not found".into())))),
        "Failed to create incident: NotFound(\"Team not found\")"
    );
    match http_post_outcome(HttpPostResponse::Answered { status: 204, status_text: "204 No Content".into() }) {
        RuleExecution::Triggered { result, incident_id } => {
            assert_eq!(result, "http_post_sent");
            assert_eq!(incident_id, None);
        },
        other => panic!("unexpected {other:?}"),
    }
    assert_eq!(
        failed_text(http_post_outcome(HttpPostResponse::Answered { status: 500, status_text: "500 Internal Server Error".into() })),
        "HTTP request failed with status 500 Internal Server Error"
    );
    assert_eq!(
        failed_text(http_post_outcome(HttpPostResponse::Unsent { error: "connection refused".into() })),
        "Failed to send HTTP request: connection refused"
    );
}

#[test]
fn http_reactions_send_the_connected_token() {
    let connected = ConnectedService {
        id: 1,
        user_id: 4,
        service: ServiceKind::Http,
        encrypted_token: encrypt(&KEY, "tok"),
        created_at: 0,
    };
    assert_eq!(http_bearer_token(&KEY, Ok(Some(connected))).unwrap(), Some("tok".to_string()));
    assert_eq!(http_bearer_token(&KEY, Ok(None)).unwrap(), None);
    match http_bearer_token(&KEY, Err(AppError::InternalError)) {
        Err(x) => assert_eq!(failed_text(x), "Failed to look up connected HTTP token: InternalError"),
        Ok(t) => panic!("unexpected {t:?}"),
    }
}

#[test]
fn the_client_host_is_the_first_forwarded_address() {
    assert_eq!(client_host(None), "unknown");
    assert_eq!(client_host(Some(" 10.0.0.1 , 10.0.0.2")), "10.0.0.1");
    assert_eq!(client_host(Some("10.0.0.3")), "10.0.0.3");
    assert_eq!(client_host(Some("")), "");
}
