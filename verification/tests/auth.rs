use bevy_studio::auth::{subject_of, mint_jwt, mint_jwt_at, validate_jwt, Claims, JWTAuthorized, JWTError, JWTSecret, TOKEN_LIFETIME};

#[test]
fn minted_token_names_its_user() {
    let token = mint_jwt("secret", "583231");
    assert_eq!(validate_jwt("secret", &token), Some("583231".to_string()));
}

#[test]
fn token_with_other_secret_is_refused() {
    let token = mint_jwt("secret", "583231");
    assert_eq!(validate_jwt("other", &token), None);
}

#[test]
fn garbage_token_is_refused() {
    assert_eq!(validate_jwt("secret", "not.a.token"), None);
    assert_eq!(validate_jwt("secret", ""), None);
}

#[test]
fn expired_token_is_refused() {
    let token = mint_jwt_at("secret", "u", 1_000_000);
    assert_eq!(validate_jwt("secret", &token), None);
}

#[test]
fn token_minted_at_a_time_is_fixed() {
    let a = mint_jwt_at("secret", "u", 1_700_000_000);
    let b = mint_jwt_at("secret", "u", 1_700_000_000);
    assert_eq!(a, b);
    assert_eq!(a.split('.').count(), 3);
}

#[test]
fn claims_expire_after_28_days() {
    let c = Claims::issued_to("uid", 1_700_000_000);
    assert_eq!(c.aud, "bevy-studio");
    assert_eq!(c.sub, "uid");
    assert_eq!(c.exp, 1_700_000_000 + 2_419_200);
    assert_eq!(TOKEN_LIFETIME, 28 * 24 * 60 * 60);
}

#[test]
fn authorized_request_carries_user() {
    let secret = JWTSecret("s3".to_string());
    let token = mint_jwt("s3", "42");
    match JWTAuthorized::from_token(&secret, &token) {
        Ok(a) => assert_eq!(a.user_id(), "42"),
        Err(_) => panic!("token refused"),
    }
    match JWTAuthorized::from_token(&secret, "bogus") {
        Ok(_) => panic!("bogus token accepted"),
        Err(e) => assert_eq!(e.status(), 401),
    }
    assert!(matches!(JWTAuthorized::from_validation(None), Err(JWTError::Invalid)));
}

#[test]
fn token_that_never_expires_is_accepted() {
    let issued_at = -(TOKEN_LIFETIME as i64) - 1;
    assert_eq!(Claims::issued_to("u", issued_at).exp, bevy_studio::auth::NEVER_EXPIRES);
    let token = mint_jwt_at("secret", "never", issued_at);
    assert_eq!(validate_jwt("secret", &token), Some("never".to_string()));
    let secret = JWTSecret("secret".to_string());
    assert!(matches!(JWTAuthorized::from_token(&secret, &token), Ok(ref a) if a.user_id() == "never"));
}

#[test]
fn altered_token_is_refused() {
    let token = mint_jwt("secret", "alice");
    let parts: Vec<&str> = token.split('.').collect();
    let other = mint_jwt("secret", "mallory");
    let other_parts: Vec<&str> = other.split('.').collect();
    let forged = format!("{}.{}.{}", parts[0], other_parts[1], parts[2]);
    assert_eq!(validate_jwt("secret", &forged), None);
    let foreign = mint_jwt("not-the-secret", "alice");
    assert!(JWTAuthorized::from_token(&JWTSecret("secret".to_string()), &foreign).is_err());
}

#[test]
fn subject_of_decoded_claims() {
    assert_eq!(subject_of(Some(("bevy-studio".to_string(), 5, "bob".to_string()))), Some("bob".to_string()));
    assert_eq!(subject_of(None), None);
}
