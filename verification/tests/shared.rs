use vigil_server::shared::clock::unix_seconds;
use vigil_server::shared::config::{Config, derive_key, hash_hex};
use vigil_server::shared::crypto::{decrypt, encrypt};
use vigil_server::shared::error::{AppError, database_error};
use vigil_server::shared::hex::{decode_hex, encode_hex};
use vigil_server::shared::json::{JsonNumber, JsonValue, json_text, values_equal};
use vigil_server::shared::text::trim;
use vigil_server::shared::validation::{
    Checker, ValidationKind, capitalize, check_email, check_length, format_u64, validation_message,
};
use vigil_server::shared::ws::rooms::Rooms;

const KEY: [u8; 32] = [7; 32];

fn error_report(e: &AppError) -> (u16, &'static str, String) {
    (e.status_code(), e.code(), e.message())
}

#[test]
fn decrypt_reverses_encrypt() {
    let encrypted = encrypt(&KEY, "gho_secret_token");
    assert_eq!(decrypt(&KEY, &encrypted), Some("gho_secret_token".to_string()));
}

#[test]
fn decrypt_fails_with_wrong_key() {
    let encrypted = encrypt(&KEY, "gho_secret_token");
    let wrong_key = [9; 32];
    assert_eq!(decrypt(&wrong_key, &encrypted), None);
}

#[test]
fn decrypt_fails_for_truncated_data() {
    assert_eq!(decrypt(&KEY, b"too short"), None);
}

#[test]
fn encrypt_output_is_not_the_plaintext() {
    let encrypted = encrypt(&KEY, "gho_secret_token");
    assert!(!encrypted.windows(4).any(|w| w == b"gho_"));
}

#[test]
fn encryption_starts_with_a_fresh_nonce() {
    let a = encrypt(&KEY, "same");
    let b = encrypt(&KEY, "same");
    assert_eq!(a.len(), 12 + 4 + 16);
    assert_ne!(a, b);
    let mut tampered = a.clone();
    tampered[20] ^= 1;
    assert_eq!(decrypt(&KEY, &tampered), None);
}

#[test]
fn bad_request_maps_to_400_with_correct_body() {
    assert_eq!(error_report(&AppError::BadRequest("Bad input".into())), (400, "BAD_REQUEST", "Bad input".to_string()));
}

#[test]
fn unauthorized_maps_to_401_without_leaking_details() {
    assert_eq!(error_report(&AppError::Unauthorized), (401, "UNAUTHORIZED", "Authentication required".to_string()));
}

#[test]
fn forbidden_maps_to_403_with_correct_body() {
    assert_eq!(
        error_report(&AppError::Forbidden("Only managers can kick members".into())),
        (403, "FORBIDDEN", "Only managers can kick members".to_string())
    );
}

#[test]
fn not_found_maps_to_404_with_correct_body() {
    assert_eq!(error_report(&AppError::NotFound("User not found".into())), (404, "NOT_FOUND", "User not found".to_string()));
}

#[test]
fn conflict_maps_to_409_with_correct_body() {
    assert_eq!(
        error_report(&AppError::Conflict("Email already taken".into())),
        (409, "CONFLICT", "Email already taken".to_string())
    );
}

#[test]
fn validation_error_maps_to_422_with_correct_body() {
    assert_eq!(
        error_report(&AppError::ValidationError("Invalid field".into())),
        (422, "VALIDATION_ERROR", "Invalid field".to_string())
    );
}

#[test]
fn internal_error_maps_to_500_without_leaking_details() {
    assert_eq!(error_report(&AppError::InternalError), (500, "INTERNAL_ERROR", "An internal error occurred".to_string()));
}

#[test]
fn validation_message_reports_length_bounds_without_leaking_value() {
    let mut c = Checker::new();
    c.check(check_length("short", Some(8), Some(72)), "new_password", ValidationKind::Length { min: Some(8), max: Some(72) });
    c.check(check_email("alissa@example.com"), "email", ValidationKind::Email);
    let errors = c.finish().unwrap_err();
    let message = validation_message(&errors);

    assert_eq!(message, "New password must be between 8 and 72 characters");
    assert!(!message.contains("short"));
}

#[test]
fn validation_message_reports_invalid_email() {
    let mut c = Checker::new();
    c.check(check_length("password123", Some(8), Some(72)), "new_password", ValidationKind::Length { min: Some(8), max: Some(72) });
    c.check(check_email("not-an-email"), "email", ValidationKind::Email);
    let errors = c.finish().unwrap_err();
    let message = validation_message(&errors);

    assert_eq!(message, "Email must be a valid email address");
    assert!(!message.contains("not-an-email"));
}

#[test]
fn validation_message_joins_fields_and_names_open_bounds() {
    let mut c = Checker::new();
    c.check(false, "name", ValidationKind::Length { min: Some(1), max: None });
    c.check(false, "email", ValidationKind::Email);
    let message = validation_message(&c.finish().unwrap_err());
    assert_eq!(message, "Name has an invalid length; Email must be a valid email address");
    let mut ok = Checker::new();
    ok.check(true, "name", ValidationKind::Email);
    assert!(ok.finish().is_ok());
}

#[test]
fn lengths_count_characters() {
    assert!(check_length("ééé", Some(3), Some(3)));
    assert!(!check_length("ab", Some(3), None));
    assert!(check_length("", None, Some(0)));
    assert!(check_email("a@b.co"));
    assert!(!check_email("no-at-sign"));
}

#[test]
fn capitalize_and_decimal_texts() {
    assert_eq!(capitalize("new_password"), "New password");
    assert_eq!(capitalize(""), "");
    assert_eq!(format_u64(0), "0");
    assert_eq!(format_u64(18446744073709551615), "18446744073709551615");
    assert_eq!(trim("  x y \n"), "x y");
}

#[test]
fn hex_round_trips() {
    assert_eq!(encode_hex(&[0x00, 0xab, 0x10]), "00ab10");
    assert_eq!(decode_hex("00ab10"), Some(vec![0x00, 0xab, 0x10]));
    assert_eq!(decode_hex("00AB10"), Some(vec![0x00, 0xab, 0x10]));
    assert_eq!(decode_hex("abc"), None);
    assert_eq!(decode_hex("zz"), None);
    assert_eq!(decode_hex(""), Some(vec![]));
    let bytes: Vec<u8> = (0..=255).collect();
    assert_eq!(decode_hex(&encode_hex(&bytes)), Some(bytes));
}

#[test]
fn keys_and_token_hashes_come_from_sha256() {
    let key = derive_key("secret");
    assert_eq!(encode_hex(&key), "2bb80d537b1da3e38bd30361aa855686bde0eacd7162fef6a25fe97bf527a25b");
    assert_eq!(hash_hex("abc"), "ba7816bf8f01cfea414140de5dae2223b00361a396177a9cb410ff61f20015ad");
    let config = Config::from_settings(
        "postgres://x".into(),
        8080,
        "http://localhost:8081".into(),
        "id".into(),
        "sec".into(),
        "http://localhost:8080/github/callback".into(),
        "secret",
        "abc",
    );
    assert_eq!(config.token_encryption_key, key);
    assert_eq!(config.kickoff_token_hash, hash_hex("abc"));
}

#[test]
fn json_values_compare_structurally() {
    let a = JsonValue::Array(vec![JsonValue::Number(JsonNumber::Float("0.0".into())), JsonValue::Null]);
    let b = JsonValue::Array(vec![JsonValue::Number(JsonNumber::Float("-0.0".into())), JsonValue::Null]);
    assert!(values_equal(&a, &b));
    assert!(!values_equal(&JsonValue::Number(JsonNumber::PosInt(1)), &JsonValue::Number(JsonNumber::Float("1.0".into()))));
    let o = JsonValue::Object(vec![("k".into(), JsonValue::String("v".into()))]);
    assert_eq!(json_text(&o), "{\"k\":\"v\"}");
    assert_eq!(o.get("k").and_then(|v| v.as_str()), Some("v"));
    assert!(o.get("missing").is_none());
}

#[test]
fn unix_seconds_round_down() {
    assert_eq!(unix_seconds(1_999_999_999), 1);
    assert_eq!(unix_seconds(-1), -1);
    assert_eq!(unix_seconds(-1_000_000_000), -1);
    assert_eq!(unix_seconds(0), 0);
}

#[test]
fn connect_adds_client_to_team_room() {
    let mut rooms = Rooms::new();
    rooms.connect(1, "alissa".into(), &vec![100]);
    assert!(rooms.is_connected(1));
    assert_eq!(rooms.team_room(100), vec![1]);
}

#[test]
fn disconnect_removes_client_from_team_room() {
    let mut rooms = Rooms::new();
    rooms.connect(1, "alissa".into(), &vec![100]);
    rooms.disconnect(1);
    assert!(!rooms.is_connected(1));
    assert!(rooms.team_room(100).is_empty());
}

#[test]
fn broadcast_to_team_delivers_only_to_team_members() {
    let mut rooms = Rooms::new();
    rooms.connect(1, "alissa".into(), &vec![100]);
    rooms.connect(2, "bob".into(), &vec![200]);
    assert_eq!(rooms.team_recipients(100), vec![1]);
    assert_eq!(rooms.team_recipients(200), vec![2]);
}

#[test]
fn watch_incident_returns_watcher_usernames() {
    let mut rooms = Rooms::new();
    rooms.connect(1, "alissa".into(), &vec![100]);
    let watchers = rooms.watch_incident(1, 500);
    assert_eq!(watchers, vec!["alissa"]);
}

#[test]
fn broadcast_to_watchers_delivers_only_to_watchers() {
    let mut rooms = Rooms::new();
    rooms.connect(1, "alissa".into(), &vec![100]);
    rooms.connect(2, "bob".into(), &vec![100]);
    rooms.watch_incident(1, 500);
    rooms.watch_incident(2, 501);
    assert_eq!(rooms.watcher_recipients(500), vec![1]);
}

#[test]
fn unwatch_incident_removes_watcher() {
    let mut rooms = Rooms::new();
    rooms.connect(1, "alissa".into(), &vec![100]);
    rooms.watch_incident(1, 500);
    let watchers = rooms.unwatch_incident(1, 500);
    assert!(watchers.is_empty());
    assert!(rooms.watcher_recipients(500).is_empty());
}

#[test]
fn rooms_forget_a_client_everywhere() {
    let mut rooms = Rooms::new();
    rooms.connect(1, "alissa".into(), &vec![100, 200, 100]);
    rooms.connect(2, "bob".into(), &vec![100]);
    rooms.watch_incident(1, 500);
    rooms.watch_incident(2, 500);
    rooms.watch_incident(2, 500);
    assert_eq!(rooms.watcher_usernames(500), vec!["alissa", "bob"]);
    rooms.disconnect(1);
    assert_eq!(rooms.team_recipients(100), vec![2]);
    assert!(rooms.team_room(200).is_empty());
    assert_eq!(rooms.watcher_usernames(500), vec!["bob"]);
    assert_eq!(rooms.watcher_recipients(500), vec![2]);
}

#[test]
fn reconnecting_renames_the_client() {
    let mut rooms = Rooms::new();
    rooms.connect(1, "alissa".into(), &vec![100]);
    rooms.watch_incident(1, 500);
    rooms.connect(1, "alice".into(), &vec![200]);
    assert_eq!(rooms.watcher_usernames(500), vec!["alice"]);
    assert_eq!(rooms.team_recipients(100), vec![1]);
    assert_eq!(rooms.team_recipients(200), vec![1]);
}

#[test]
fn database_constraints_become_conflicts() {
    assert_eq!(database_error(Some("users_email_key")).message(), "Email already taken");
    assert_eq!(database_error(Some("users_username_key")).status_code(), 409);
    assert_eq!(database_error(Some("team_members_unique_membership")).message(), "Already a member of this team");
    assert_eq!(database_error(Some("timeline_reactions_unique_reaction")).message(), "You already reacted with this emoji");
    assert!(matches!(database_error(Some("other_key")), AppError::InternalError));
    assert!(matches!(database_error(None), AppError::InternalError));
}
