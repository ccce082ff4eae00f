use superior6::auth::{Claims, TOKEN_LIFETIME_SECONDS};
use superior6::config::Config;
use superior6::templates::{LoginTemplate, RegisterTemplate};

#[test]
fn test_claims_issue_expires_in_thirty_days() {
    let now: i64 = 1_700_000_000;
    let c = Claims::issue("user-1".to_string(), "a@example.com".to_string(), false, now);
    assert_eq!(c.sub, "user-1");
    assert_eq!(c.email, "a@example.com");
    assert!(!c.is_admin);
    assert_eq!(TOKEN_LIFETIME_SECONDS, 30 * 24 * 60 * 60);
    assert_eq!(c.exp, now + TOKEN_LIFETIME_SECONDS);
}

#[test]
fn test_config_defaults() {
    let c = Config::resolve(None, None, None);
    assert_eq!(c.database_url, "postgresql://localhost/superior6");
    assert_eq!(c.jwt_secret, "supersecretkey");
    assert_eq!(c.bcrypt_cost, 12);
}

#[test]
fn test_config_keeps_given_values() {
    let c = Config::resolve(
        Some("postgresql://db/prod".to_string()),
        Some("deep-secret".to_string()),
        Some(10),
    );
    assert_eq!(c.database_url, "postgresql://db/prod");
    assert_eq!(c.jwt_secret, "deep-secret");
    assert_eq!(c.bcrypt_cost, 10);
}

#[test]
fn test_login_template_guest_defaults() {
    let t = LoginTemplate::new(Some("Invalid email or password".to_string()));
    assert_eq!(t.error.as_deref(), Some("Invalid email or password"));
    assert!(!t.has_user);
    assert_eq!(t.display_name, "Guest");
    assert!(!t.is_admin);

    let t = LoginTemplate::new(None);
    assert!(t.error.is_none());
}

#[test]
fn test_register_template_guest_defaults() {
    let t = RegisterTemplate::new(Some("Email already exists".to_string()));
    assert_eq!(t.error.as_deref(), Some("Email already exists"));
    assert!(!t.has_user);
    assert_eq!(t.display_name, "Guest");
    assert!(!t.is_admin);
}
