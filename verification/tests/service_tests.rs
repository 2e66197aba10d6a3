use auth_api::config::Config;
use auth_api::error::ApiError;
use auth_api::password::{hash_password, verify_password};
use auth_api::service::{
    find_all, find_all_request, find_by_id, find_by_id_request, login, login_request, signup,
    signup_inserted, signup_request, Lookup, StoreRequest,
};
use auth_api::token::decode_jwt_at;
use auth_api::users::{hello_world, LoginBody, LoginUser, Message, SignupBody, UserResponse};

fn body() -> SignupBody {
    SignupBody {
        email: "ann@example.com".to_string(),
        password: "correct horse".to_string(),
        name: "Ann".to_string(),
    }
}

fn row(password: &str) -> LoginUser {
    LoginUser {
        user_id: Some("7c1f".to_string()),
        password: Some(hash_password(password.to_string()).unwrap()),
        name: Some("Ann".to_string()),
    }
}

fn credentials(password: &str) -> LoginBody {
    LoginBody { email: "ann@example.com".to_string(), password: password.to_string() }
}

#[test]
fn signup_with_a_taken_email_is_a_conflict() {
    match signup(&body(), Lookup::Found) {
        Err(ApiError::Conflict(message)) => assert_eq!(message, "email already exists"),
        other => panic!("{:?}", other),
    }
    let odd = SignupBody { email: String::new(), password: String::new(), name: String::new() };
    assert!(matches!(signup(&odd, Lookup::Found), Err(ApiError::Conflict(_))));
}

#[test]
fn signup_with_a_failed_lookup_is_a_database_failure() {
    match signup(&body(), Lookup::Failed("pool timed out".to_string())) {
        Err(ApiError::Database(message)) => assert_eq!(message, "pool timed out"),
        other => panic!("{:?}", other),
    }
}

#[test]
fn signup_with_a_free_email_prepares_the_row() {
    let new_user = match signup(&body(), Lookup::Absent) {
        Ok(StoreRequest::Insert(row)) => row,
        other => panic!("{:?}", other),
    };
    assert_eq!(new_user.email, "ann@example.com");
    assert_eq!(new_user.name, "Ann");
    assert_ne!(new_user.password_hash, "correct horse");
    assert!(verify_password("correct horse", &new_user.password_hash));
    assert!(!verify_password("wrong", &new_user.password_hash));
}

#[test]
fn signup_after_the_insert_answers_with_a_token() {
    let user = signup_inserted(body(), Ok("7c1f".to_string()), "s3cret", 1_000).unwrap();
    assert_eq!(user.user_id, "7c1f");
    assert_eq!(user.email, "ann@example.com");
    assert_eq!(user.name, "Ann");
    let claims = decode_jwt_at(&user.token, "s3cret", 1_000).unwrap();
    assert_eq!(claims.sub, "7c1f");
    assert_eq!(claims.email, "ann@example.com");
    assert_eq!(claims.exp, 87_400);
}

#[test]
fn signup_after_a_failed_insert_is_a_database_failure() {
    match signup_inserted(body(), Err("duplicate key".to_string()), "s3cret", 1_000) {
        Err(failure) => {
            match failure.error {
                ApiError::Database(message) => assert_eq!(message, "duplicate key"),
                other => panic!("{:?}", other),
            }
            assert!(failure.undo.is_none());
        }
        Ok(user) => panic!("{:?}", user),
    }
}

#[test]
fn signup_without_a_token_asks_to_remove_the_row() {
    for now in [-5_i64, i64::MAX] {
        match signup_inserted(body(), Ok("7c1f".to_string()), "s3cret", now) {
            Err(failure) => {
                match failure.error {
                    ApiError::InternalServer(message) => {
                        assert_eq!(message, "system time is out of range")
                    }
                    other => panic!("{:?}", other),
                }
                match failure.undo {
                    Some(StoreRequest::Remove { id }) => assert_eq!(id, "7c1f"),
                    other => panic!("{:?}", other),
                }
            }
            Ok(user) => panic!("{:?}", user),
        }
    }
}

#[test]
fn login_after_signup_answers_with_the_same_user() {
    let row = match signup(&body(), Lookup::Absent) {
        Ok(StoreRequest::Insert(row)) => row,
        other => panic!("{:?}", other),
    };
    let stored = LoginUser {
        user_id: Some("7c1f".to_string()),
        password: Some(row.password_hash),
        name: Some(row.name),
    };
    let signed_up = signup_inserted(body(), Ok("7c1f".to_string()), "s3cret", 1_000).unwrap();
    let logged_in = login(credentials("correct horse"), Ok(stored), "s3cret", 2_000).unwrap();
    assert_eq!(logged_in.user_id, signed_up.user_id);
    assert_eq!(logged_in.email, "ann@example.com");
    assert_eq!(logged_in.name, "Ann");
    assert_ne!(logged_in.token, signed_up.token);
}

#[test]
fn two_logins_with_the_same_arguments_answer_alike() {
    let stored = hash_password("correct horse".to_string()).unwrap();
    let found = || LoginUser {
        user_id: Some("7c1f".to_string()),
        password: Some(stored.clone()),
        name: Some("Ann".to_string()),
    };
    let first = login(credentials("correct horse"), Ok(found()), "s3cret", 1_000).unwrap();
    let second = login(credentials("correct horse"), Ok(found()), "s3cret", 1_000).unwrap();
    assert_eq!(first.user_id, second.user_id);
    assert_eq!(first.email, second.email);
    assert_eq!(first.name, second.name);
    assert_eq!(first.token, second.token);
    let wrong_first = login(credentials("wrong"), Ok(found()), "s3cret", 1_000);
    let wrong_second = login(credentials("wrong"), Ok(found()), "s3cret", 1_000);
    assert!(matches!(wrong_first, Err(ApiError::Unauthorized(_))));
    assert!(matches!(wrong_second, Err(ApiError::Unauthorized(_))));
}

#[test]
fn login_with_a_wrong_password_is_unauthorized() {
    match login(credentials("wrong horse"), Ok(row("correct horse")), "s3cret", 1_000) {
        Err(ApiError::Unauthorized(message)) => assert_eq!(message, "incorrect email or password"),
        other => panic!("{:?}", other),
    }
}

#[test]
fn login_against_a_null_or_malformed_hash_is_unauthorized() {
    let null = LoginUser { user_id: Some("7c1f".to_string()), password: None, name: None };
    assert!(matches!(
        login(credentials(""), Ok(null), "s3cret", 1_000),
        Err(ApiError::Unauthorized(_))
    ));
    let broken = LoginUser {
        user_id: Some("7c1f".to_string()),
        password: Some("correct horse".to_string()),
        name: None,
    };
    assert!(matches!(
        login(credentials("correct horse"), Ok(broken), "s3cret", 1_000),
        Err(ApiError::Unauthorized(_))
    ));
}

#[test]
fn login_with_the_right_password_answers_with_a_token() {
    let user = login(credentials("correct horse"), Ok(row("correct horse")), "s3cret", 1_000).unwrap();
    assert_eq!(user.user_id, "7c1f");
    assert_eq!(user.email, "ann@example.com");
    assert_eq!(user.name, "Ann");
    let claims = decode_jwt_at(&user.token, "s3cret", 1_000).unwrap();
    assert_eq!((claims.sub.as_str(), claims.email.as_str(), claims.exp), ("7c1f", "ann@example.com", 87_400));
}

#[test]
fn login_is_repeatable() {
    let stored = hash_password("correct horse".to_string()).unwrap();
    for _ in 0..2 {
        let found = LoginUser { user_id: None, password: Some(stored.clone()), name: None };
        let user = login(credentials("correct horse"), Ok(found), "s3cret", 1_000).unwrap();
        assert_eq!(user.user_id, "");
        assert_eq!(user.name, "");
    }
}

#[test]
fn login_with_a_failed_lookup_is_a_database_failure() {
    let r = login(credentials("x"), Err("no rows returned".to_string()), "s3cret", 1_000);
    match r {
        Err(ApiError::Database(message)) => assert_eq!(message, "no rows returned"),
        other => panic!("{:?}", other),
    }
}

#[test]
fn find_by_id_gives_the_stored_name_or_not_found() {
    assert_eq!(find_by_id(Ok(Some("Ann B.".to_string()))).unwrap().name, "Ann B.");
    assert_eq!(find_by_id(Ok(Some(String::new()))).unwrap().name, "");
    match find_by_id(Ok(None)) {
        Err(ApiError::NotFound(message)) => assert_eq!(message, "User not found"),
        other => panic!("{:?}", other),
    }
    match find_by_id(Err("closed".to_string())) {
        Err(ApiError::InternalServer(message)) => assert_eq!(message, "closed"),
        other => panic!("{:?}", other),
    }
}

#[test]
fn find_all_keeps_the_rows_in_order() {
    let user = |name: &str| UserResponse {
        user_id: Some(name.to_string()),
        email: None,
        name: Some(name.to_string()),
        profile_link: None,
        created_at: Some("2024-01-01T00:00:00".to_string()),
    };
    let rows = find_all(Ok(vec![user("b"), user("a")])).unwrap();
    assert_eq!(rows.len(), 2);
    assert_eq!(rows[0].name.as_deref(), Some("b"));
    assert_eq!(rows[1].name.as_deref(), Some("a"));
    assert!(find_all(Ok(Vec::new())).unwrap().is_empty());
    match find_all(Err("closed".to_string())) {
        Err(ApiError::Database(message)) => assert_eq!(message, "closed"),
        other => panic!("{:?}", other),
    }
}

#[test]
fn greeting_and_message() {
    assert_eq!(hello_world().message, "Welcome to Auth API");
    assert_eq!(Message { message: "hi".to_string() }.new().message, "hi");
}

#[test]
fn config_takes_the_default_log_filter() {
    let c = Config::parse("postgres://db".to_string(), None, "s3cret".to_string());
    assert_eq!(c.database_url, "postgres://db");
    assert_eq!(c.rust_log, "axum_api=debug");
    assert_eq!(c.jwt_secret, "s3cret");
    let c = Config::parse(String::new(), Some("info".to_string()), String::new());
    assert_eq!(c.rust_log, "info");
}

#[test]
fn each_operation_asks_the_store_its_own_question() {
    match signup_request(&body()) {
        StoreRequest::EmailTaken { email } => assert_eq!(email, "ann@example.com"),
        other => panic!("{:?}", other),
    }
    match login_request(&credentials("pw")) {
        StoreRequest::Credentials { email } => assert_eq!(email, "ann@example.com"),
        other => panic!("{:?}", other),
    }
    assert!(matches!(find_all_request(), StoreRequest::AllUsers));
    match find_by_id_request("7c1f".to_string()) {
        StoreRequest::NameOf { id } => assert_eq!(id, "7c1f"),
        other => panic!("{:?}", other),
    }
}

#[test]
fn login_with_a_clock_out_of_range_issues_nothing() {
    match login(credentials("correct horse"), Ok(row("correct horse")), "s3cret", i64::MAX) {
        Err(ApiError::InternalServer(message)) => assert_eq!(message, "system time is out of range"),
        other => panic!("{:?}", other),
    }
}
