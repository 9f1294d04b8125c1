use task_api::errors::ApiError;
use task_api::ids;
use task_api::middleware;
use task_api::models::UserModel;
use task_api::response;
use task_api::users_handlers;
use task_api::validators;

fn secret() -> String {
    String::from("my_ultra_secure_secret")
}

#[test]
fn register_login_and_an_anonymous_listing_walk_the_documented_path() {
    // The registration body, exactly as a client would send it.
    let body: serde_json::Value =
        serde_json::from_str(r#"{"username":"al","email":"al@x.com","password":"secret1"}"#)
            .expect("well-formed JSON");
    let entry = validators::validate_register(
        String::from(body["username"].as_str().unwrap()),
        String::from(body["email"].as_str().unwrap()),
        String::from(body["password"].as_str().unwrap()),
    )
    .expect("the example body passes validation");

    // No user holds that email yet, so registration proceeds and the
    // prepared schema goes to the store, which answers with the created row.
    users_handlers::register_check_existing(&Vec::new(), &entry.0.email)
        .expect("email is free");
    let schema = users_handlers::register_prepare(entry.0).expect("hashing succeeds");
    let created = UserModel {
        id: 7,
        username: schema.username.clone(),
        email: schema.email.clone(),
        password: schema.password.clone(),
        created_at: 1_700_000_000,
    };
    let t0: u64 = 1_700_000_000;
    let out = users_handlers::register_finish(vec![created.clone()], t0, &secret())
        .expect("row present");

    // The user comes back echoed without any password material.
    assert_eq!(out.user.username, "al");
    assert_eq!(out.user.email, "al@x.com");
    assert_eq!(out.user.id, ids::uuid_to_string(7));

    // Login with the wrong password answers 400 with the fixed message.
    let wrong = validators::validate_login(String::from("al@x.com"), String::from("secret2"))
        .expect("valid body shape");
    let r = users_handlers::login_finish(&wrong.0, vec![created.clone()], t0, &secret());
    let e = r.unwrap_err();
    assert_eq!(e, ApiError::InvalidCredentials);
    assert_eq!(e.status_code(), 400);
    assert_eq!(e.message(), "Invalid email or password");

    // A task listing without any credential is rejected with 401.
    let anonymous = middleware::authenticate(&None, &None, &secret(), t0);
    let e = anonymous.unwrap_err();
    assert_eq!(e.status_code(), 401);

    // Logging out hands the client a cookie that ends the session.
    let c = response::logout_cookie();
    assert_eq!(c.name, "token");
    assert_eq!(c.value, "");
    assert_eq!(c.max_age_seconds, -3600);
    assert!(c.http_only);
}

#[test]
fn the_health_envelope_is_fixed() {
    let r = response::health_envelope();
    assert_eq!(r.status, "success");
    assert_eq!(
        r.message,
        "Building a simple CRUD API with Rust, Supabase Client (Postgrest), and Axum"
    );
}
