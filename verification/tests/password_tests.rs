use tenauth::password::PasswordService;

#[test]
fn test_password_hashing_and_verification() {
    let password_service = PasswordService::new();
    let password = "TestPassword123!";

    let hash = password_service.hash_password(password).unwrap();
    assert!(password_service.verify_password(password, &hash).unwrap());
    assert!(!password_service.verify_password("wrong_password", &hash).unwrap());
}

#[test]
fn test_password_strength_validation() {
    let password_service = PasswordService::new();

    // Valid password
    assert!(password_service.validate_password_strength("TestPassword123!").is_ok());

    // Too short
    assert!(password_service.validate_password_strength("Test1!").is_err());

    // No uppercase
    assert!(password_service.validate_password_strength("testpassword123!").is_err());

    // No lowercase
    assert!(password_service.validate_password_strength("TESTPASSWORD123!").is_err());

    // No number
    assert!(password_service.validate_password_strength("TestPassword!").is_err());

    // No special character
    assert!(password_service.validate_password_strength("TestPassword123").is_err());
}

#[test]
fn strength_violations_name_each_failed_rule() {
    let service = PasswordService::new();
    let violations = service.validate_password_strength("short1!").unwrap_err();
    assert_eq!(
        violations,
        vec![
            "Password must be at least 8 characters long".to_string(),
            "Password must contain at least one uppercase letter".to_string(),
        ]
    );

    let violations = service.validate_password_strength("alllowercase123!").unwrap_err();
    assert_eq!(
        violations,
        vec!["Password must contain at least one uppercase letter".to_string()]
    );

    let empty = service.validate_password_strength("").unwrap_err();
    assert_eq!(
        empty,
        vec![
            "Password must be at least 8 characters long".to_string(),
            "Password must contain at least one lowercase letter".to_string(),
            "Password must contain at least one uppercase letter".to_string(),
            "Password must contain at least one number".to_string(),
            "Password must contain at least one special character".to_string(),
        ]
    );

    let long = "Aa1!".repeat(33);
    let violations = service.validate_password_strength(&long).unwrap_err();
    assert_eq!(
        violations,
        vec!["Password must be no more than 128 characters long".to_string()]
    );
}

#[test]
fn stored_hash_is_salted_but_both_verify() {
    let service = PasswordService::new();
    let first = service.hash_password("SamePassword9?").unwrap();
    let second = service.hash_password("SamePassword9?").unwrap();
    // Fresh random salts: the encodings differ, yet each verifies.
    assert_ne!(first, second);
    assert!(service.verify_password("SamePassword9?", &first).unwrap());
    assert!(service.verify_password("SamePassword9?", &second).unwrap());
}

#[test]
fn malformed_stored_hash_is_an_error_not_a_mismatch() {
    let service = PasswordService::new();
    assert!(service.verify_password("whatever", "not-a-phc-string").is_err());
}
