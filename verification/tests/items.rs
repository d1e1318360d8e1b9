use himawari::captcha::{ErrorCode, Request, Response};
use himawari::correlate::RequestIdManager;
use himawari::item::{ItemId, NewContest};
use himawari::role::{resolve_access, Role};

#[test]
fn item_id_parses_plain_numbers() {
    assert_eq!(ItemId::parse("123").unwrap().id, 123);
    assert_eq!(ItemId::parse("0").unwrap().id, 0);
    assert_eq!(ItemId::parse("007").unwrap().id, 7);
    assert_eq!(ItemId::parse("+5").unwrap().id, 5);
}

#[test]
fn item_id_parses_the_extremes() {
    assert_eq!(
        ItemId::parse("9223372036854775807").unwrap().id,
        i64::MAX
    );
    assert_eq!(
        ItemId::parse("-9223372036854775808").unwrap().id,
        i64::MIN
    );
}

#[test]
fn item_id_rejects_out_of_range_and_garbage() {
    for bad in [
        "9223372036854775808",
        "-9223372036854775809",
        "12a",
        "",
        "-",
        "+",
        " 12",
        "1.5",
    ] {
        let err = ItemId::parse(bad).unwrap_err();
        assert_eq!(err.status().code, 400, "input {:?}", bad);
    }
}

#[test]
fn contest_name_bounds_are_enforced() {
    assert!(NewContest {
        name: String::from("Spring Jam")
    }
    .validate()
    .is_ok());
    assert!(NewContest {
        name: String::new()
    }
    .validate()
    .is_err());
    assert!(NewContest {
        name: "n".repeat(1025)
    }
    .validate()
    .is_err());
    assert!(NewContest {
        name: String::from("bad\u{0001}name")
    }
    .validate()
    .is_err());
}

#[test]
fn access_resolution_passes_roles_and_flags_missing_records() {
    assert_eq!(resolve_access(Some(Role::Owner)).unwrap(), Role::Owner);
    let err = resolve_access(None).unwrap_err();
    assert_eq!(err.status().code, 404);
}

#[test]
fn request_ids_are_unique_and_increasing() {
    let mut manager = RequestIdManager::new();
    let a = manager.next();
    let b = manager.next();
    let c = manager.next();
    assert_ne!(a, b);
    assert_ne!(b, c);
    assert!(a.id < b.id && b.id < c.id);
    assert_eq!(a.id, 0);
}

#[test]
fn captcha_success_passes() {
    let resp = Response {
        success: true,
        challenge_ts: String::from("2021-01-01T00:00:00Z"),
        hostname: String::from("example.com"),
        error_codes: vec![],
    };
    assert!(resp.ok().is_ok());
}

#[test]
fn captcha_failure_reports_the_first_code() {
    let resp = Response {
        success: false,
        challenge_ts: String::new(),
        hostname: String::new(),
        error_codes: vec![ErrorCode::InvalidInputResponse, ErrorCode::BadRequest],
    };
    let err = resp.ok().unwrap_err();
    assert_eq!(err.status().code, 401);
    assert_eq!(err.client_message(), "invalid-input-response");
}

#[test]
fn captcha_misconfiguration_is_server_class() {
    let resp = Response {
        success: false,
        challenge_ts: String::new(),
        hostname: String::new(),
        error_codes: vec![ErrorCode::MissingInputSecret],
    };
    let err = resp.ok().unwrap_err();
    assert_eq!(err.status().code, 500);
    assert_eq!(err.client_message(), "Internal server error");
}

#[test]
fn captcha_failure_without_codes_is_server_class() {
    let resp = Response {
        success: false,
        challenge_ts: String::new(),
        hostname: String::new(),
        error_codes: vec![],
    };
    let err = resp.ok().unwrap_err();
    assert_eq!(err.status().code, 500);
}

#[test]
fn captcha_request_carries_secret_and_response() {
    let req = Request::new(String::from("shared-secret"), String::from("client-token"));
    assert_eq!(req.secret, "shared-secret");
    assert_eq!(req.response, "client-token");
}
