use himawari::credential::Password;
use himawari::hashing::{HashingService, Verification};

fn service() -> HashingService {
    HashingService::new(b"test-pepper".to_vec())
}

#[test]
fn hash_then_verify_passes() {
    let svc = service();
    let pass = Password::new(String::from("correct horse battery")).unwrap();
    let hash = svc.hash(&pass).unwrap();
    assert_eq!(svc.verify(&pass, &hash).unwrap(), Verification::Passed);
}

#[test]
fn wrong_password_fails() {
    let svc = service();
    let pass = Password::new(String::from("correct horse battery")).unwrap();
    let other = Password::new(String::from("incorrect horse battery")).unwrap();
    let hash = svc.hash(&pass).unwrap();
    assert_eq!(svc.verify(&other, &hash).unwrap(), Verification::Failed);
}

#[test]
fn hash_embeds_parameters_and_salt() {
    let svc = service();
    let pass = Password::new(String::from("hunter42")).unwrap();
    let hash = svc.hash(&pass).unwrap();
    assert!(hash.starts_with("$argon2id$"));
    // two hashes of the same credential differ through the random salt
    let again = svc.hash(&pass).unwrap();
    assert_ne!(hash, again);
    assert_eq!(svc.verify(&pass, &again).unwrap(), Verification::Passed);
}

#[test]
fn old_hash_still_verifies_after_parameter_change() {
    let old_service = HashingService::with_params(b"test-pepper".to_vec(), 37, 1, 1);
    let pass = Password::new(String::from("long lived credential")).unwrap();
    let hash = old_service.hash(&pass).unwrap();

    // the deployment later raises its default cost parameters
    let new_service = HashingService::with_params(b"test-pepper".to_vec(), 64, 2, 1);
    assert_eq!(
        new_service.verify(&pass, &hash).unwrap(),
        Verification::Passed
    );
    let other = Password::new(String::from("different credential")).unwrap();
    assert_eq!(
        new_service.verify(&other, &hash).unwrap(),
        Verification::Failed
    );
}

#[test]
fn different_pepper_fails_verification() {
    let svc = service();
    let other_svc = HashingService::new(b"another-pepper".to_vec());
    let pass = Password::new(String::from("hunter42")).unwrap();
    let hash = svc.hash(&pass).unwrap();
    assert_eq!(
        other_svc.verify(&pass, &hash).unwrap(),
        Verification::Failed
    );
}

#[test]
fn corrupt_hash_is_a_server_error() {
    let svc = service();
    let pass = Password::new(String::from("hunter42")).unwrap();
    let err = svc.verify(&pass, "not a phc string at all").unwrap_err();
    assert_eq!(err.status().code, 500);
    assert_eq!(err.client_message(), "Internal server error");
}
