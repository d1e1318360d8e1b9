use himawari::credential::{Email, Info, Password, RawUser, User, Username};

#[test]
fn password_of_three_chars_is_rejected() {
    assert!(Password::new(String::from("abc")).is_err());
}

#[test]
fn password_of_four_chars_is_accepted() {
    let p = Password::new(String::from("abcd")).unwrap();
    assert_eq!(p.expose(), "abcd");
}

#[test]
fn password_of_128_chars_is_accepted() {
    let p = Password::new("x".repeat(128)).unwrap();
    assert_eq!(p.expose().len(), 128);
}

#[test]
fn password_of_129_chars_is_rejected() {
    assert!(Password::new("x".repeat(129)).is_err());
}

#[test]
fn password_length_counts_characters_not_bytes() {
    // four characters, eight bytes
    assert!(Password::new(String::from("éééé")).is_ok());
}

#[test]
fn password_is_redacted_for_diagnostics() {
    let p = Password::new(String::from("hunter42")).unwrap();
    assert_eq!(p.redacted(), "<password>");
}

#[test]
fn password_expose_into_returns_the_value() {
    let p = Password::new(String::from("hunter42")).unwrap();
    assert_eq!(p.expose_into(), "hunter42");
}

#[test]
fn username_rejects_empty_and_oversized() {
    assert!(Username::new(String::new()).is_err());
    assert!(Username::new("u".repeat(129)).is_err());
    assert!(Username::new("u".repeat(128)).is_ok());
}

#[test]
fn username_rejects_control_characters() {
    assert!(Username::new(String::from("evil\u{0007}name")).is_err());
    assert!(Username::new(String::from("tab\tseparated")).is_err());
    assert!(Username::new(String::from("fine name")).is_ok());
}

#[test]
fn email_accepts_a_plain_address() {
    let e = Email::new(String::from("someone@example.com")).unwrap();
    assert_eq!(e.as_str(), "someone@example.com");
}

#[test]
fn email_rejects_text_without_an_at_sign() {
    assert!(Email::new(String::from("not-an-address")).is_err());
}

#[test]
fn email_rejects_empty_and_control_characters() {
    assert!(Email::new(String::new()).is_err());
    assert!(Email::new(String::from("a\u{0000}b@example.com")).is_err());
}


#[test]
fn raw_user_rows_are_validated_on_load() {
    let good = RawUser {
        username: String::from("alice"),
        display_name: String::from("Alice"),
        email: String::from("alice@example.com"),
        email_validated: true,
        hash: String::from("$argon2id$..."),
        created: 1_600_000_000,
    };
    let user = User::from_raw(good).unwrap();
    assert_eq!(user.username().as_str(), "alice");
    assert_eq!(user.display_name().as_str(), "Alice");
    assert_eq!(user.email().as_str(), "alice@example.com");
    assert!(user.email_validated());
    assert_eq!(user.hash(), "$argon2id$...");
    assert_eq!(user.created(), 1_600_000_000);

    let info = Info::from_user(User::from_raw(RawUser {
        username: String::from("alice"),
        display_name: String::from("Alice"),
        email: String::from("alice@example.com"),
        email_validated: true,
        hash: String::from("$argon2id$..."),
        created: 1_600_000_000,
    })
    .unwrap());
    assert_eq!(info.username.as_str(), "alice");
    assert_eq!(info.created, 1_600_000_000);
}

#[test]
fn raw_user_with_bad_email_is_rejected() {
    let bad = RawUser {
        username: String::from("alice"),
        display_name: String::from("Alice"),
        email: String::from("no-at-sign"),
        email_validated: false,
        hash: String::new(),
        created: 0,
    };
    assert!(User::from_raw(bad).is_err());
}
