use himawari::credential::Password;
use himawari::error::Error;
use himawari::store::{
    classify_db_error, CreationRequest, DbError, LoginError, LoginRequest, PassCheck, StoredUser,
    User,
};

#[test]
fn unique_violation_code_classifies_as_unique() {
    let e = classify_db_error(false, Some(String::from("23505")), None);
    assert!(matches!(e, DbError::Unique));
}

#[test]
fn other_integrity_code_with_constraint_names_it() {
    let e = classify_db_error(
        false,
        Some(String::from("23503")),
        Some(String::from("users_email_fkey")),
    );
    match e {
        DbError::Constraint { name } => assert_eq!(name, "users_email_fkey"),
        _ => panic!("expected a named constraint violation"),
    }
}

#[test]
fn integrity_code_without_constraint_is_internal() {
    let e = classify_db_error(false, Some(String::from("23503")), None);
    assert!(matches!(e, DbError::Internal));
}

#[test]
fn missing_row_classifies_as_not_found() {
    let e = classify_db_error(true, None, None);
    assert!(matches!(e, DbError::NotFound));
}

#[test]
fn unknown_code_or_no_code_is_internal() {
    assert!(matches!(
        classify_db_error(false, Some(String::from("40001")), None),
        DbError::Internal
    ));
    assert!(matches!(
        classify_db_error(false, None, Some(String::from("ignored"))),
        DbError::Internal
    ));
}

#[test]
fn db_error_statuses_follow_the_taxonomy() {
    let table: Vec<(DbError, u16)> = vec![
        (DbError::Internal, 500),
        (DbError::Unique, 409),
        (
            DbError::Constraint {
                name: String::from("c"),
            },
            409,
        ),
        (DbError::NotFound, 404),
    ];
    for (e, code) in table {
        assert_eq!(Error::from_err(&e).status().code, code);
    }
}

#[test]
fn internal_db_error_renders_generic_client_text() {
    let err = Error::from_err(&DbError::Internal);
    assert_eq!(err.client_message(), "Internal server error");
}

#[test]
fn missing_user_reads_as_failed_login() {
    let r = LoginRequest::resolve_lookup(Err(DbError::NotFound));
    assert!(matches!(r, Err(LoginError::Failed)));
}

#[test]
fn store_failure_during_login_propagates() {
    let r = LoginRequest::resolve_lookup(Err(DbError::Unique));
    assert!(matches!(r, Err(LoginError::Db(DbError::Unique))));
}

#[test]
fn found_user_passes_through_lookup() {
    let user = StoredUser::new(
        String::from("alice"),
        String::from("alice@example.com"),
        String::from("$argon2id$..."),
        1_600_000_000,
    );
    let r = LoginRequest::resolve_lookup(Ok(user)).unwrap();
    assert_eq!(r.username(), "alice");
}

#[test]
fn failed_password_check_reads_as_failed_login() {
    assert!(matches!(
        LoginRequest::resolve_check(PassCheck::Failed),
        Err(LoginError::Failed)
    ));
    assert!(LoginRequest::resolve_check(PassCheck::Passed).is_ok());
}

#[test]
fn failed_login_is_unauthorized_without_saying_why() {
    let err = Error::from_err(&LoginError::Failed);
    assert_eq!(err.status().code, 401);
    assert_eq!(err.client_message(), "Username or password wasn't valid");
}

#[test]
fn new_stored_user_starts_unverified_with_display_name_from_username() {
    let user = StoredUser::new(
        String::from("bob"),
        String::from("bob@example.com"),
        String::from("hash"),
        42,
    );
    assert_eq!(user.username(), "bob");
    assert_eq!(user.display_name(), "bob");
    assert_eq!(user.email(), "bob@example.com");
    assert!(!user.email_verified());
    assert_eq!(user.hash(), "hash");
    assert_eq!(user.created(), 42);
}

#[test]
fn creation_request_carries_its_parts() {
    let pass = Password::new(String::from("hunter42")).unwrap();
    let req = CreationRequest::new(
        String::from("carol"),
        pass,
        String::from("carol@example.com"),
    );
    assert_eq!(req.username(), "carol");
    assert_eq!(req.email, "carol@example.com");
}
