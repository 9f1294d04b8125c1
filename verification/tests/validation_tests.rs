use task_api::errors::ValidationIssue;
use task_api::validators;

#[test]
fn a_well_formed_registration_passes() {
    let r = validators::validate_register(
        String::from("al"),
        String::from("al@x.com"),
        String::from("secret1"),
    );
    let entry = r.expect("all constraints hold");
    assert_eq!(entry.0.username, "al");
    assert_eq!(entry.0.email, "al@x.com");
    assert_eq!(entry.0.password, "secret1");
}

#[test]
fn missing_username_is_reported() {
    let r = validators::validate_register(
        String::new(),
        String::from("al@x.com"),
        String::from("secret1"),
    );
    assert_eq!(r.unwrap_err(), vec![ValidationIssue::UsernameRequired]);
}

#[test]
fn bad_email_is_reported() {
    let r = validators::validate_register(
        String::from("al"),
        String::from("not-an-email"),
        String::from("secret1"),
    );
    assert_eq!(r.unwrap_err(), vec![ValidationIssue::EmailInvalid]);
}

#[test]
fn short_password_is_reported() {
    let r = validators::validate_register(
        String::from("al"),
        String::from("al@x.com"),
        String::from("abc"),
    );
    assert_eq!(r.unwrap_err(), vec![ValidationIssue::PasswordTooShort]);
}

#[test]
fn an_empty_body_reports_every_violated_constraint() {
    let r = validators::validate_register(String::new(), String::new(), String::new());
    assert_eq!(
        r.unwrap_err(),
        vec![
            ValidationIssue::UsernameRequired,
            ValidationIssue::EmailRequired,
            ValidationIssue::EmailInvalid,
            ValidationIssue::PasswordRequired,
            ValidationIssue::PasswordTooShort,
        ]
    );
}

#[test]
fn login_constraints_mirror_registration() {
    let ok = validators::validate_login(String::from("al@x.com"), String::from("secret1"));
    assert!(ok.is_ok());
    let r = validators::validate_login(String::from("al@x.com"), String::from("abc"));
    assert_eq!(r.unwrap_err(), vec![ValidationIssue::PasswordTooShort]);
    let r = validators::validate_login(String::new(), String::from("secret1"));
    assert_eq!(
        r.unwrap_err(),
        vec![ValidationIssue::EmailRequired, ValidationIssue::EmailInvalid]
    );
}

#[test]
fn task_bodies_need_title_and_description() {
    let ok = validators::validate_task(String::from("wash"), String::from("the dishes"));
    assert!(ok.is_ok());
    let r = validators::validate_task(String::new(), String::new());
    assert_eq!(
        r.unwrap_err(),
        vec![ValidationIssue::TitleRequired, ValidationIssue::DescriptionRequired]
    );
}

#[test]
fn issue_fields_and_messages_are_keyed_for_clients() {
    assert_eq!(ValidationIssue::UsernameRequired.field(), "username");
    assert_eq!(ValidationIssue::UsernameRequired.message(), "Username is required");
    assert_eq!(ValidationIssue::EmailInvalid.field(), "email");
    assert_eq!(ValidationIssue::EmailInvalid.message(), "Email is invalid");
    assert_eq!(
        ValidationIssue::PasswordTooShort.message(),
        "Password must be at least 6 characters"
    );
}

#[test]
fn a_validation_failure_is_a_400_class_fail() {
    let e = task_api::errors::ApiError::Validation(vec![ValidationIssue::TitleRequired]);
    assert_eq!(e.status_code(), 400);
    assert_eq!(e.status_label(), "fail");
    assert_eq!(e.message(), "Input validation error");
}

#[test]
fn the_configuration_keeps_what_it_is_given() {
    let c = task_api::config::Config::new(
        String::from("https://rows.example"),
        String::from("anon-key"),
        String::from("my_ultra_secure_secret"),
        String::from("60m"),
        60,
    );
    assert_eq!(c.supabase_url, "https://rows.example");
    assert_eq!(c.supabase_anon_key, "anon-key");
    assert_eq!(c.jwt_secret, "my_ultra_secure_secret");
    assert_eq!(c.jwt_expires_in, "60m");
    assert_eq!(c.jwt_maxage, 60);
}

#[test]
fn the_configuration_falls_back_to_its_defaults() {
    let c = task_api::config::Config::from_values(
        String::from("https://rows.example"),
        String::from("anon-key"),
        None,
        None,
        None,
    );
    assert_eq!(c.jwt_secret, "my_ultra_secure_secret");
    assert_eq!(c.jwt_expires_in, "60m");
    assert_eq!(c.jwt_maxage, 60);
    let c = task_api::config::Config::from_values(
        String::from("https://rows.example"),
        String::from("anon-key"),
        Some(String::from("s3cr3t")),
        Some(String::from("30m")),
        Some(30),
    );
    assert_eq!(c.jwt_secret, "s3cr3t");
    assert_eq!(c.jwt_expires_in, "30m");
    assert_eq!(c.jwt_maxage, 30);
}
