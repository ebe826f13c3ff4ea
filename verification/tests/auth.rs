use vigil_server::features::auth::dto::{LoginRequest, RegisterRequest, UpdateProfileRequest};
use vigil_server::features::auth::model::{
    ServiceKind, Session, SessionWithUsername, User, SESSION_DURATION_NANOS, session_expiry,
};
use vigil_server::features::auth::oauth::{
    check_callback, cookie_value, expired_oauth_state_cookie, oauth_state_cookie, sign_in_redirect,
};
use vigil_server::features::auth::service::{
    decide_login, decide_me, decide_password_change, github_account_email,
    github_authorize_url, github_fallback_username, github_id_of, hash_password,
    require_live_channel_session_at, require_live_session, require_live_session_at,
    suffixed_username, verify_password, after_github_insert, SignUpStep,
};
use vigil_server::shared::clients::github::{authorize_url, primary_verified_email, GithubEmail, UserProfile};
use vigil_server::shared::clock::now_unix_nanos;
use vigil_server::shared::config::Config;
use vigil_server::shared::error::AppError;

const DAY_NANOS: i128 = 86_400_000_000_000;

fn test_config() -> Config {
    Config::from_settings(
        String::new(),
        8080,
        "http://localhost:3000".to_string(),
        "client123".to_string(),
        "secret123".to_string(),
        "http://localhost:8080/github/callback".to_string(),
        "encryption-secret",
        "kickoff",
    )
}

fn user_with_hash(hash: Option<String>) -> User {
    User {
        id: 1,
        username: "alissa".into(),
        email: "alissa@example.com".into(),
        password_hash: hash,
        github_id: None,
        language: "fr".into(),
        created_at: 0,
        updated_at: 0,
    }
}

fn session_expiring_at(expires_at: i128) -> Session {
    Session { id: 7, user_id: 8, created_at: now_unix_nanos(), expires_at }
}

#[test]
fn register_request_accepts_valid_input() {
    let req = RegisterRequest {
        username: "alissa".into(),
        email: "alissa@example.com".into(),
        password: "password123".into(),
    };
    assert!(req.validate().is_ok());
}

#[test]
fn register_request_rejects_short_username() {
    let req = RegisterRequest {
        username: "ab".into(),
        email: "alissa@example.com".into(),
        password: "password123".into(),
    };
    assert!(req.validate().is_err());
}

#[test]
fn register_request_rejects_invalid_email() {
    let req = RegisterRequest {
        username: "alissa".into(),
        email: "not-an-email".into(),
        password: "password123".into(),
    };
    assert!(req.validate().is_err());
}

#[test]
fn register_request_rejects_short_password() {
    let req = RegisterRequest {
        username: "alissa".into(),
        email: "alissa@example.com".into(),
        password: "short".into(),
    };
    assert!(req.validate().is_err());
}

#[test]
fn login_request_accepts_valid_input() {
    let req = LoginRequest { email: "alissa@example.com".into(), password: "password123".into() };
    assert!(req.validate().is_ok());
}

#[test]
fn login_request_rejects_invalid_email() {
    let req = LoginRequest { email: "not-an-email".into(), password: "password123".into() };
    assert!(req.validate().is_err());
}

#[test]
fn update_profile_request_accepts_all_fields_absent() {
    let req = UpdateProfileRequest { username: None, language: None, new_password: None, old_password: None };
    assert!(req.validate().is_ok());
}

#[test]
fn update_profile_request_rejects_short_language() {
    let req = UpdateProfileRequest {
        username: None,
        language: Some("x".into()),
        new_password: None,
        old_password: None,
    };
    assert!(req.validate().is_err());
}

#[test]
fn update_profile_request_rejects_short_new_password() {
    let req = UpdateProfileRequest {
        username: None,
        language: None,
        new_password: Some("short".into()),
        old_password: None,
    };
    assert!(req.validate().is_err());
}

#[test]
fn is_expired_returns_false_for_future_date() {
    let session = session_expiring_at(now_unix_nanos() + DAY_NANOS);
    assert!(!session.is_expired());
}

#[test]
fn is_expired_returns_true_for_past_date() {
    let session = session_expiring_at(now_unix_nanos() - DAY_NANOS);
    assert!(session.is_expired());
}

#[test]
fn service_kind_parse_round_trips_through_as_str() {
    for service in [ServiceKind::Github, ServiceKind::Http] {
        assert_eq!(ServiceKind::parse(service.as_str()), Some(service));
    }
}

#[test]
fn service_kind_parse_rejects_unknown_value() {
    assert_eq!(ServiceKind::parse("discord"), None);
}

#[test]
fn github_authorize_url_includes_client_id_and_redirect_uri() {
    let (url, _state) = github_authorize_url(&test_config());

    assert!(url.starts_with("https://github.com/login/oauth/authorize?"));
    assert!(url.contains("client_id=client123"));
    assert!(url.contains("redirect_uri=http%3A%2F%2Flocalhost%3A8080%2Fgithub%2Fcallback"));
}

#[test]
fn github_authorize_url_state_is_reflected_in_the_url() {
    let (url, state) = github_authorize_url(&test_config());
    assert!(url.contains(&format!("state={state}")));
}

#[test]
fn github_authorize_url_generates_a_distinct_state_each_call() {
    let (_, state1) = github_authorize_url(&test_config());
    let (_, state2) = github_authorize_url(&test_config());
    assert_ne!(state1, state2);
}

#[test]
fn authorize_url_is_the_page_with_the_encoded_query() {
    let (url, state) = authorize_url("id with space", "https://a.example/cb?x=1&y=é");
    assert_eq!(state.len(), 36);
    assert_eq!(
        url,
        format!(
            "https://github.com/login/oauth/authorize?client_id=id+with+space&redirect_uri=https%3A%2F%2Fa.example%2Fcb%3Fx%3D1%26y%3D%C3%A9&scope=read%3Auser+user%3Aemail&state={state}"
        )
    );
}

#[test]
fn hash_then_verify_with_correct_password_succeeds() {
    let hash = hash_password("password123").unwrap();
    assert!(verify_password("password123", &hash).is_ok());
}

#[test]
fn verify_with_wrong_password_returns_unauthorized() {
    let hash = hash_password("password123").unwrap();
    let result = verify_password("wrong-password", &hash);
    assert!(matches!(result, Err(AppError::Unauthorized)));
}

#[test]
fn verify_with_malformed_hash_returns_internal_error() {
    let result = verify_password("password123", "not-a-valid-hash");
    assert!(matches!(result, Err(AppError::InternalError)));
}

#[test]
fn hash_password_produces_distinct_hashes_for_same_password() {
    let hash1 = hash_password("password123").unwrap();
    let hash2 = hash_password("password123").unwrap();
    assert_ne!(hash1, hash2, "salts should differ between hashes");
}

#[test]
fn login_refuses_unknown_email_and_oauth_only_accounts() {
    assert!(matches!(decide_login(&None, "password123"), Err(AppError::Unauthorized)));
    let oauth_only = Some(user_with_hash(None));
    assert!(matches!(decide_login(&oauth_only, "password123"), Err(AppError::Unauthorized)));
}

#[test]
fn login_checks_the_password() {
    let hash = hash_password("password123").unwrap();
    let user = Some(user_with_hash(Some(hash)));
    assert!(decide_login(&user, "password123").is_ok());
    assert!(matches!(decide_login(&user, "nope-nope"), Err(AppError::Unauthorized)));
}

#[test]
fn me_reports_a_missing_account() {
    match decide_me(None) {
        Err(AppError::NotFound(m)) => assert_eq!(m, "User not found"),
        other => panic!("unexpected {other:?}"),
    }
    assert_eq!(decide_me(Some(user_with_hash(None))).unwrap().username, "alissa");
}

#[test]
fn password_change_without_new_password_stores_nothing() {
    assert!(matches!(decide_password_change(&None, None, None), Ok(None)));
}

#[test]
fn password_change_errors_come_in_order() {
    match decide_password_change(&None, Some("newpassword1"), Some("x")) {
        Err(AppError::NotFound(m)) => assert_eq!(m, "User not found"),
        other => panic!("unexpected {other:?}"),
    }
    let oauth_only = Some(user_with_hash(None));
    match decide_password_change(&oauth_only, Some("newpassword1"), None) {
        Err(AppError::BadRequest(m)) => assert_eq!(m, "Current password is required to set a new one"),
        other => panic!("unexpected {other:?}"),
    }
    match decide_password_change(&oauth_only, Some("newpassword1"), Some("old")) {
        Err(AppError::BadRequest(m)) => assert_eq!(m, "Cannot set password on an OAuth-only account"),
        other => panic!("unexpected {other:?}"),
    }
    let user = Some(user_with_hash(Some(hash_password("password123").unwrap())));
    assert!(matches!(
        decide_password_change(&user, Some("newpassword1"), Some("wrong-old")),
        Err(AppError::Unauthorized)
    ));
}

#[test]
fn password_change_hashes_the_new_password() {
    let user = Some(user_with_hash(Some(hash_password("password123").unwrap())));
    let stored = decide_password_change(&user, Some("newpassword1"), Some("password123")).unwrap().unwrap();
    assert!(verify_password("newpassword1", &stored).is_ok());
    assert!(verify_password("password123", &stored).is_err());
}

#[test]
fn github_profile_needs_an_email() {
    let without = UserProfile { id: 42, login: "octo".into(), email: None };
    match github_account_email(&without) {
        Err(AppError::BadRequest(m)) => assert_eq!(m, "GitHub account has no accessible email address"),
        other => panic!("unexpected {other:?}"),
    }
    let with = UserProfile { id: 42, login: "octo".into(), email: Some("o@example.com".into()) };
    assert_eq!(github_account_email(&with).unwrap(), "o@example.com");
    assert_eq!(github_id_of(&with), "42");
}

#[test]
fn fallback_username_appends_eight_characters_of_an_id() {
    assert_eq!(suffixed_username("octo", "0190abcd-1234-7000-8000-000000000000"), "octo-0190abcd");
    let name = github_fallback_username("octo");
    assert_eq!(name.len(), "octo-".len() + 8);
    assert!(name.starts_with("octo-"));
    assert!(name[5..].chars().all(|c| c.is_ascii_hexdigit()));
}

#[test]
fn primary_verified_email_picks_the_first_match() {
    let emails = vec![
        GithubEmail { email: "a@x.com".into(), primary: true, verified: false },
        GithubEmail { email: "b@x.com".into(), primary: false, verified: true },
        GithubEmail { email: "c@x.com".into(), primary: true, verified: true },
        GithubEmail { email: "d@x.com".into(), primary: true, verified: true },
    ];
    assert_eq!(primary_verified_email(&emails), Some("c@x.com".to_string()));
    let unverified = vec![
        GithubEmail { email: "a@x.com".into(), primary: true, verified: false },
        GithubEmail { email: "b@x.com".into(), primary: false, verified: true },
    ];
    assert_eq!(primary_verified_email(&unverified), None);
}

#[test]
fn sessions_are_admitted_until_they_expire() {
    let now = 1_000 * DAY_NANOS;
    assert!(matches!(require_live_session_at(None, now), Err(AppError::Unauthorized)));
    let live = Session { id: 1, user_id: 2, created_at: now, expires_at: now };
    assert_eq!(require_live_session_at(Some(live), now).unwrap().id, 1);
    let expired = Session { id: 1, user_id: 2, created_at: now, expires_at: now - 1 };
    assert!(matches!(require_live_session_at(Some(expired), now), Err(AppError::Unauthorized)));
    let fresh = Session { id: 3, user_id: 2, created_at: now, expires_at: now_unix_nanos() + DAY_NANOS };
    assert_eq!(require_live_session(Some(fresh)).unwrap().id, 3);
    let channel = SessionWithUsername { id: 4, user_id: 2, username: "alissa".into(), expires_at: now - 1 };
    assert!(matches!(require_live_channel_session_at(Some(channel), now), Err(AppError::Unauthorized)));
}

#[test]
fn a_session_lasts_seven_days() {
    assert_eq!(SESSION_DURATION_NANOS, 7 * DAY_NANOS);
    assert_eq!(session_expiry(5), 5 + 7 * DAY_NANOS);
}

#[test]
fn the_state_cookie_is_set_and_read_back() {
    let set = oauth_state_cookie("abc-123");
    assert_eq!(set, "oauth_state=abc-123; HttpOnly; SameSite=Lax; Path=/; Max-Age=600");
    assert_eq!(expired_oauth_state_cookie(), "oauth_state=; Path=/; Max-Age=0");
    assert_eq!(cookie_value("theme=dark; oauth_state=abc-123", "oauth_state"), Some("abc-123".to_string()));
    assert_eq!(cookie_value(" oauth_state = x ;oauth_state=y", "oauth_state"), Some("y".to_string()));
    assert_eq!(cookie_value("theme=dark", "oauth_state"), None);
    assert_eq!(cookie_value("oauth_state", "oauth_state"), None);
    assert_eq!(cookie_value("", "oauth_state"), None);
}

#[test]
fn the_callback_must_bring_back_the_state() {
    assert_eq!(check_callback(Some("code1"), Some("s1"), Some("s1")).unwrap(), "code1");
    assert!(matches!(check_callback(None, Some("s1"), Some("s1")), Err(AppError::Unauthorized)));
    assert!(matches!(check_callback(Some("c"), None, Some("s1")), Err(AppError::Unauthorized)));
    assert!(matches!(check_callback(Some("c"), Some("s2"), Some("s1")), Err(AppError::Unauthorized)));
    assert!(matches!(check_callback(Some("c"), Some("s1"), None), Err(AppError::Unauthorized)));
}

#[test]
fn the_sign_in_ends_on_the_front_end() {
    assert_eq!(sign_in_redirect("http://localhost:8081", Some("tok")), "http://localhost:8081/oauth/callback?token=tok");
    assert_eq!(sign_in_redirect("http://localhost:8081", None), "http://localhost:8081/login?error=oauth_failed");
}

#[test]
fn session_expiring_at_the_end_of_time_never_expires() {
    assert!(!session_expiring_at(i128::MAX).is_expired());
    assert!(session_expiring_at(i128::MIN).is_expired());
    assert!(!session_expiring_at(40_000_000_000_000_000_000_000).is_expired());
}

#[test]
fn clock_reading_lies_within_the_representable_range() {
    let t = now_unix_nanos();
    assert!(t > -40_000_000_000_000_000_000_000 && t < 40_000_000_000_000_000_000_000);
}

#[test]
fn a_stored_hash_begins_with_a_dollar_and_an_empty_one_is_an_internal_error() {
    let hash = hash_password("").unwrap();
    assert!(hash.starts_with('$'));
    assert!(matches!(verify_password("", &hash), Ok(())));
    assert!(matches!(verify_password("password123", ""), Err(AppError::InternalError)));
}

#[test]
fn sessions_beyond_the_clock_range_are_always_or_never_admitted() {
    let ancient = Session { id: 5, user_id: 2, created_at: 0, expires_at: i128::MIN };
    assert!(matches!(require_live_session(Some(ancient)), Err(AppError::Unauthorized)));
    let endless = Session { id: 6, user_id: 2, created_at: 0, expires_at: i128::MAX };
    assert_eq!(require_live_session(Some(endless)).unwrap().id, 6);
    assert!(matches!(require_live_session(None), Err(AppError::Unauthorized)));
}

#[test]
fn a_checked_password_change_always_yields_a_new_hash() {
    let user = Some(user_with_hash(Some(hash_password("password123").unwrap())));
    let stored = decide_password_change(&user, Some(""), Some("password123")).unwrap();
    assert!(matches!(verify_password("", &stored.unwrap()), Ok(())));
}

#[test]
fn github_sign_up_retries_once_on_a_taken_name() {
    let user = user_with_hash(None);
    assert!(matches!(after_github_insert(Ok(user), false), SignUpStep::Created(u) if u.id == user_with_hash(None).id));
    assert!(matches!(
        after_github_insert(Err(AppError::Conflict("taken".into())), false),
        SignUpStep::RetryWithFallbackName
    ));
    assert!(matches!(
        after_github_insert(Err(AppError::Conflict("taken".into())), true),
        SignUpStep::Fail(AppError::Conflict(m)) if m == "taken"
    ));
    assert!(matches!(
        after_github_insert(Err(AppError::InternalError), false),
        SignUpStep::Fail(AppError::InternalError)
    ));
}
