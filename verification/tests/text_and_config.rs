//! Email derivation, the conflict policy, message extraction, and
//! configuration resolution.

use user_admin::config::Config;
use user_admin::config::EnvValues;
use user_admin::config::resolve_config;
use user_admin::error::AppError;
use user_admin::error::ConfigVar;
use user_admin::protocol::conflict_is_recoverable;
use user_admin::protocol::first_message;
use user_admin::protocol::status_is_conflict;
use user_admin::protocol::status_is_success;
use user_admin::text::contains_char;
use user_admin::text::contains_substring;
use user_admin::text::derive_email;
use user_admin::text::is_blank;

#[test]
fn email_for_plain_username_gets_placeholder_domain() {
    assert_eq!(derive_email("Bob"), "bob@app.local");
}

#[test]
fn email_for_address_like_username_is_lowercased_as_is() {
    assert_eq!(derive_email("Bob@X.com"), "bob@x.com");
}

#[test]
fn email_derivation_is_deterministic() {
    assert_eq!(derive_email("Bob"), derive_email("Bob"));
    assert_eq!(derive_email("BOB"), derive_email("bob"));
}

#[test]
fn contains_char_finds_at_sign() {
    assert!(contains_char("a@b", '@'));
    assert!(!contains_char("ab", '@'));
    assert!(!contains_char("", '@'));
}

#[test]
fn substring_search_matches_anywhere() {
    assert!(contains_substring("user already registered", "already"));
    assert!(contains_substring("already", "already"));
    assert!(!contains_substring("alread", "already"));
    assert!(!contains_substring("", "already"));
    assert!(contains_substring("anything", ""));
}

#[test]
fn conflict_policy_accepts_already_messages_case_insensitively() {
    assert!(conflict_is_recoverable(&Some("User already registered".to_string())));
    assert!(conflict_is_recoverable(&Some("ALREADY exists".to_string())));
}

#[test]
fn conflict_policy_rejects_other_messages() {
    assert!(!conflict_is_recoverable(&Some("Invalid password".to_string())));
}

#[test]
fn conflict_policy_treats_missing_message_as_duplicate() {
    assert!(conflict_is_recoverable(&None));
}

#[test]
fn first_message_takes_fields_in_priority_order() {
    assert_eq!(
        first_message(Some("a".to_string()), Some("b".to_string()), Some("c".to_string())),
        Some("a".to_string())
    );
    assert_eq!(
        first_message(None, Some("b".to_string()), Some("c".to_string())),
        Some("b".to_string())
    );
    assert_eq!(first_message(None, None, Some("c".to_string())), Some("c".to_string()));
}

#[test]
fn first_message_skips_empty_fields() {
    assert_eq!(
        first_message(Some(String::new()), None, Some("c".to_string())),
        Some("c".to_string())
    );
    assert_eq!(first_message(Some(String::new()), Some(String::new()), None), None);
    assert_eq!(first_message(None, None, None), None);
}

#[test]
fn blankness_ignores_whitespace() {
    assert!(is_blank(""));
    assert!(is_blank("   "));
    assert!(is_blank(" \t "));
    assert!(!is_blank(" x "));
}

#[test]
fn status_classes() {
    assert!(status_is_success(200));
    assert!(status_is_success(204));
    assert!(!status_is_success(199));
    assert!(!status_is_success(300));
    assert!(status_is_conflict(400));
    assert!(status_is_conflict(409));
    assert!(status_is_conflict(422));
    assert!(!status_is_conflict(500));
}

#[test]
fn config_with_both_values_resolves() {
    let env = EnvValues {
        platform_url: Some("https://example.test".to_string()),
        vite_platform_url: None,
        service_role_key: Some("SECRET-REDACTED".to_string()),
    };
    let config = resolve_config(env).unwrap();
    assert_eq!(
        config,
        Config {
            base_url: "https://example.test".to_string(),
            service_role_key: "SECRET-REDACTED".to_string(),
        }
    );
}

#[test]
fn config_prefers_primary_url_over_fallback() {
    let env = EnvValues {
        platform_url: Some("https://primary.test".to_string()),
        vite_platform_url: Some("https://fallback.test".to_string()),
        service_role_key: Some("k".to_string()),
    };
    assert_eq!(resolve_config(env).unwrap().base_url, "https://primary.test");
}

#[test]
fn config_falls_back_to_alternate_url_name() {
    let env = EnvValues {
        platform_url: None,
        vite_platform_url: Some("https://fallback.test".to_string()),
        service_role_key: Some("k".to_string()),
    };
    assert_eq!(resolve_config(env).unwrap().base_url, "https://fallback.test");
}

#[test]
fn config_without_url_names_the_url_variable() {
    let env = EnvValues {
        platform_url: None,
        vite_platform_url: None,
        service_role_key: Some("k".to_string()),
    };
    assert_eq!(
        resolve_config(env),
        Err(AppError::ConfigError { variable: ConfigVar::PlatformUrl })
    );
}

#[test]
fn config_without_credential_names_the_key_variable() {
    let env = EnvValues {
        platform_url: Some("https://example.test".to_string()),
        vite_platform_url: None,
        service_role_key: None,
    };
    assert_eq!(
        resolve_config(env),
        Err(AppError::ConfigError { variable: ConfigVar::ServiceRoleKey })
    );
}
