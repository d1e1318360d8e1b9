use himawari::error::Error;
use himawari::role::{Role, RoleError};
use himawari::status::HttpStatus;

#[test]
fn server_class_detail_is_replaced() {
    let err = Error::from_error(String::from("connection to db-primary:5432 refused"));
    assert_eq!(err.status().code, 500);
    assert_eq!(err.client_message(), "Internal server error");
    assert!(!err
        .client_message()
        .contains("connection to db-primary:5432 refused"));
}

#[test]
fn server_class_detail_is_kept_for_operators() {
    let err = Error::from_error(String::from("stack trace: crypto::argon::fail"));
    assert_eq!(err.message(), "stack trace: crypto::argon::fail");
    assert_eq!(err.client_message(), "Internal server error");
}

#[test]
fn client_class_message_passes_through() {
    let role_err = RoleError::MustBeAtLeast {
        required: Role::Owner,
    };
    let err = Error::from_err(&role_err);
    assert_eq!(err.status().code, 403);
    assert_eq!(
        err.client_message(),
        "Your role must be at least owner to do that action."
    );
}

#[test]
fn render_parts_carries_status_and_client_text() {
    let err = Error::new(
        HttpStatus::conflict(),
        String::from("Unique constraint violated"),
    );
    let (code, body) = err.render_parts();
    assert_eq!(code, 409);
    assert_eq!(body, "Unique constraint violated");
}

#[test]
fn rendered_server_error_never_leaks_any_wrapped_detail() {
    let details = [
        "SELECT * FROM users WHERE username = 'admin'",
        "panic at src/db: password hash column corrupt",
        "secret pepper = 0xdeadbeef",
    ];
    for d in details {
        let err = Error::from_error(String::from(d));
        let (code, body) = err.render_parts();
        assert_eq!(code, 500);
        assert_eq!(body, "Internal server error");
        assert!(!body.contains(d));
    }
}
