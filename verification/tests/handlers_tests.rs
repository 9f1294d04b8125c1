use task_api::errors::ApiError;
use task_api::errors::UpstreamKind;
use task_api::ids;
use task_api::models::TaskModel;
use task_api::models::UserModel;
use task_api::password;
use task_api::schemas::UpdateTaskBody;
use task_api::tasks_handlers;
use task_api::token;
use task_api::users_handlers;
use task_api::validators;

fn secret() -> String {
    String::from("my_ultra_secure_secret")
}

fn stored_user(id: u128, email: &str, plaintext: &str) -> UserModel {
    UserModel {
        id,
        username: String::from("al"),
        email: String::from(email),
        password: password::hash(&String::from(plaintext)).expect("hashing succeeds"),
        created_at: 1_700_000_000,
    }
}

fn some_task(id: u128, owner: u128) -> TaskModel {
    TaskModel {
        id,
        title: String::from("wash"),
        description: String::from("the dishes"),
        completed: false,
        user_id: owner,
        created_at: 1_700_000_100,
    }
}

#[test]
fn registration_conflicts_on_a_taken_email() {
    let email = String::from("al@x.com");
    let existing = stored_user(1, "al@x.com", "secret1");
    let r = users_handlers::register_check_existing(&vec![existing], &email);
    assert_eq!(r, Err(ApiError::EmailTaken));
    assert_eq!(ApiError::EmailTaken.status_code(), 409);
    assert_eq!(ApiError::EmailTaken.message(), "User with that email already exists");
}

#[test]
fn registration_proceeds_on_a_free_email() {
    let email = String::from("al@x.com");
    assert_eq!(users_handlers::register_check_existing(&Vec::new(), &email), Ok(()));
}

#[test]
fn register_prepare_hashes_and_keeps_the_rest() {
    let entry = validators::validate_register(
        String::from("al"),
        String::from("al@x.com"),
        String::from("secret1"),
    )
    .expect("valid body");
    let schema = users_handlers::register_prepare(entry.0).expect("hashing succeeds");
    assert_eq!(schema.username, "al");
    assert_eq!(schema.email, "al@x.com");
    assert_ne!(schema.password, "secret1");
    assert!(password::verify(&String::from("secret1"), &schema.password));
}

#[test]
fn register_finish_needs_a_created_row() {
    let r = users_handlers::register_finish(Vec::new(), 1_700_000_000, &secret());
    assert_eq!(r, Err(ApiError::UserNotCreated));
    assert_eq!(ApiError::UserNotCreated.status_code(), 500);
    assert_eq!(ApiError::UserNotCreated.status_label(), "error");
}

#[test]
fn register_then_login_yields_a_token_for_the_created_user() {
    let id: u128 = 0x405f1394_e5eb_470d_8174_14020f55e881;
    let t0: u64 = 1_700_000_000;
    // Registration stored this row; its password field holds the fresh hash.
    let created = stored_user(id, "al@x.com", "secret1");
    let out = users_handlers::register_finish(vec![created.clone()], t0, &secret())
        .expect("row present");
    assert_eq!(out.user.id, ids::uuid_to_string(id));
    assert_eq!(out.user.username, "al");
    assert_eq!(out.user.email, "al@x.com");
    // Login with the same credentials against the stored row.
    let entry = validators::validate_login(String::from("al@x.com"), String::from("secret1"))
        .expect("valid body");
    let out = users_handlers::login_finish(&entry.0, vec![created], t0 + 5, &secret())
        .expect("credentials accepted");
    let claims = token::verify(&out.token, t0 + 6, &secret()).expect("fresh token verifies");
    assert_eq!(claims.sub, ids::uuid_to_string(id));
    assert_eq!(out.cookie.name, "token");
    assert_eq!(out.cookie.value, out.token);
    assert_eq!(out.cookie.max_age_seconds, 3600);
    assert!(out.cookie.http_only && out.cookie.same_site_lax);
}

#[test]
fn login_rejects_an_unknown_email_and_a_wrong_password_alike() {
    let entry = validators::validate_login(String::from("al@x.com"), String::from("wrong-1"))
        .expect("valid body");
    let r = users_handlers::login_finish(&entry.0, Vec::new(), 0, &secret());
    assert_eq!(r, Err(ApiError::InvalidCredentials));
    let stored = stored_user(1, "al@x.com", "secret1");
    let r = users_handlers::login_finish(&entry.0, vec![stored], 0, &secret());
    assert_eq!(r, Err(ApiError::InvalidCredentials));
    assert_eq!(ApiError::InvalidCredentials.status_code(), 400);
    assert_eq!(ApiError::InvalidCredentials.message(), "Invalid email or password");
}

#[test]
fn get_me_wraps_the_filtered_user() {
    let user = stored_user(5, "al@x.com", "secret1");
    let r = users_handlers::get_me(&user);
    assert_eq!(r.status, "success");
    assert_eq!(r.data.user.id, ids::uuid_to_string(5));
    assert_eq!(r.data.user.email, "al@x.com");
}

#[test]
fn create_task_payload_scopes_to_the_authenticated_user() {
    let user = stored_user(5, "al@x.com", "secret1");
    let entry = validators::validate_task(String::from("wash"), String::from("the dishes"))
        .expect("valid body");
    let schema = tasks_handlers::create_task_payload(&user, entry.0);
    assert_eq!(schema.title, "wash");
    assert_eq!(schema.description, "the dishes");
    assert_eq!(schema.user_id, ids::uuid_to_string(5));
}

#[test]
fn create_task_finish_needs_a_created_row() {
    let r = tasks_handlers::create_task_finish(Vec::new());
    assert_eq!(r, Err(ApiError::TaskNotCreated));
    let t = some_task(8, 5);
    assert_eq!(tasks_handlers::create_task_finish(vec![t.clone()]), Ok(t));
}

#[test]
fn fetching_a_missing_task_is_not_found_with_the_id_in_the_message() {
    let id: u128 = 0x405f1394_e5eb_470d_8174_14020f55e881;
    let r = tasks_handlers::task_fetch_finish(id, Vec::new());
    let e = r.unwrap_err();
    assert_eq!(e.status_code(), 404);
    assert_eq!(
        e.message(),
        "Task with ID: 405f1394-e5eb-470d-8174-14020f55e881 not found"
    );
}

#[test]
fn a_partial_update_keeps_what_it_does_not_mention() {
    let existing = some_task(8, 5);
    let patch = UpdateTaskBody { title: None, description: None, completed: Some(true) };
    let merged = tasks_handlers::merge_task_update(&existing, &patch);
    assert_eq!(merged.title, "wash");
    assert_eq!(merged.description, "the dishes");
    assert!(merged.completed);
}

#[test]
fn a_full_update_replaces_every_field_it_mentions() {
    let existing = some_task(8, 5);
    let patch = UpdateTaskBody {
        title: Some(String::from("dry")),
        description: Some(String::from("the plates")),
        completed: Some(true),
    };
    let merged = tasks_handlers::merge_task_update(&existing, &patch);
    assert_eq!(merged.title, "dry");
    assert_eq!(merged.description, "the plates");
    assert!(merged.completed);
}

#[test]
fn deleting_a_missing_task_is_not_found_never_a_server_error() {
    let id: u128 = 42;
    let r = tasks_handlers::delete_task_finish(id, Vec::new());
    let e = r.unwrap_err();
    assert_eq!(e.status_code(), 404);
    assert_ne!(e.status_code(), 500);
    let t = some_task(42, 5);
    assert_eq!(tasks_handlers::delete_task_finish(id, vec![t]), Ok(()));
}

#[test]
fn upstream_errors_wrap_the_driver_text_with_their_step() {
    let e = ApiError::Upstream(UpstreamKind::Database, String::from("connection refused"));
    assert_eq!(e.status_code(), 500);
    assert_eq!(e.status_label(), "fail");
    assert_eq!(e.message(), "Database error: connection refused");
    let e = ApiError::Upstream(UpstreamKind::DecodeRows, String::from("bad json"));
    assert_eq!(e.message(), "Error deserializing response: bad json");
}

#[test]
fn the_error_envelope_carries_label_and_message() {
    let e = ApiError::TaskNotFound(String::from("x"));
    let envelope = e.envelope();
    assert_eq!(envelope.status, "fail");
    assert_eq!(envelope.message, "Task with ID: x not found");
    assert_eq!(ApiError::TaskNotUpdated.envelope().status, "error");
    assert_eq!(
        ApiError::TaskNotUpdated.envelope().message,
        "Something bad happened while updating the task"
    );
}

#[test]
fn the_middleware_lookup_failure_has_its_own_prefix() {
    let e = ApiError::Upstream(UpstreamKind::UserLookup, String::from("timed out"));
    assert_eq!(e.status_code(), 500);
    assert_eq!(e.message(), "Error fetching user from database: timed out");
}
