use notes_auth::token::{
    check_claims, claims_for, issue_token, validate_token_at, Claims, MAX_ISSUE_TIME,
    TOKEN_LIFETIME_SECS,
};
use notes_auth::{AuthConfig, AuthError, AuthService, AuthServiceTrait, InMemoryUserRepository, UserService};

fn authority(secret: &str) -> AuthService<UserService<InMemoryUserRepository>> {
    AuthService::with_config(
        UserService::new(InMemoryUserRepository::new()),
        &AuthConfig { jwt_secret: secret.to_string(), hash_cost: 4 },
    )
}

#[test]
fn token_lifetime_is_one_hour() {
    assert_eq!(TOKEN_LIFETIME_SECS, 3600);
    assert_eq!(MAX_ISSUE_TIME, u64::MAX - 3600);
}

#[test]
fn claims_carry_subject_issue_time_and_expiry() {
    let claims = claims_for(0xa1a2a3a4b1b2c1c2d1d2d3d4d5d6d7d8, 1_700_000_000);
    assert_eq!(claims.sub, "a1a2a3a4-b1b2-c1c2-d1d2-d3d4d5d6d7d8");
    assert_eq!(claims.iat, 1_700_000_000);
    assert_eq!(claims.exp, 1_700_003_600);
}

#[test]
fn claims_subject_of_small_id_is_zero_padded() {
    assert_eq!(claims_for(1, 0).sub, "00000000-0000-0000-0000-000000000001");
    assert_eq!(claims_for(0, 0).sub, "00000000-0000-0000-0000-000000000000");
    assert_eq!(claims_for(u128::MAX, 0).sub, "ffffffff-ffff-ffff-ffff-ffffffffffff");
    assert_eq!(claims_for(0xabcdef, MAX_ISSUE_TIME).exp, u64::MAX);
}

#[test]
fn issued_token_has_three_parts() {
    let token = issue_token(7, 100, "secret").unwrap();
    assert_eq!(token.split('.').count(), 3);
    assert_ne!(token, "00000000-0000-0000-0000-000000000007");
}

#[test]
fn issued_token_validates_until_expiry_and_not_after() {
    let token = issue_token(42, 1_000, "secret").unwrap();
    assert_eq!(validate_token_at(&token, "secret", 1_000), Ok(42));
    assert_eq!(validate_token_at(&token, "secret", 0), Ok(42));
    assert_eq!(validate_token_at(&token, "secret", 4_599), Ok(42));
    assert_eq!(validate_token_at(&token, "secret", 4_600), Ok(42));
    assert_eq!(validate_token_at(&token, "secret", 4_601), Err(AuthError::TokenValidationError));
    assert_eq!(validate_token_at(&token, "secret", u64::MAX), Err(AuthError::TokenValidationError));
}

#[test]
fn token_signed_with_another_secret_fails() {
    let token = issue_token(42, 1_000, "secret").unwrap();
    assert_eq!(validate_token_at(&token, "Secret", 1_000), Err(AuthError::TokenValidationError));
    assert_eq!(validate_token_at(&token, "", 1_000), Err(AuthError::TokenValidationError));
    let other = issue_token(42, 1_000, "other").unwrap();
    assert_eq!(validate_token_at(&other, "secret", 1_000), Err(AuthError::TokenValidationError));
    assert_eq!(validate_token_at(&other, "other", 1_000), Ok(42));
}

#[test]
fn malformed_tokens_fail() {
    for bad in ["", "abc", "a.b", "a.b.c", "a.b.c.d", "..", "00000000-0000-0000-0000-000000000001"] {
        assert_eq!(validate_token_at(bad, "secret", 0), Err(AuthError::TokenValidationError));
    }
}

#[test]
fn tampered_token_fails() {
    let token = issue_token(42, 1_000, "secret").unwrap();
    let forged = issue_token(43, 1_000, "secret").unwrap();
    let parts: Vec<&str> = token.split('.').collect();
    let forged_parts: Vec<&str> = forged.split('.').collect();
    let spliced = format!("{}.{}.{}", parts[0], forged_parts[1], parts[2]);
    assert_eq!(validate_token_at(&spliced, "secret", 1_000), Err(AuthError::TokenValidationError));
    let mut cut = token.clone();
    cut.pop();
    assert_eq!(validate_token_at(&cut, "secret", 1_000), Err(AuthError::TokenValidationError));
}

#[test]
fn check_claims_without_claims_is_invalid() {
    assert_eq!(check_claims(None, 0), Err(AuthError::TokenValidationError));
}

#[test]
fn check_claims_judges_expiry_at_the_given_instant() {
    let claims = |exp: u64| Claims {
        sub: "00000000-0000-0000-0000-00000000002a".to_string(),
        exp,
        iat: 0,
    };
    assert_eq!(check_claims(Some(claims(10)), 9), Ok(42));
    assert_eq!(check_claims(Some(claims(10)), 10), Ok(42));
    assert_eq!(check_claims(Some(claims(10)), 11), Err(AuthError::TokenValidationError));
    assert_eq!(check_claims(Some(claims(0)), 0), Ok(42));
    assert_eq!(check_claims(Some(claims(0)), 1), Err(AuthError::TokenValidationError));
}

#[test]
fn check_claims_needs_a_user_id_as_subject() {
    let claims = |sub: &str| Claims { sub: sub.to_string(), exp: 100, iat: 0 };
    assert_eq!(check_claims(Some(claims("alice")), 1), Err(AuthError::TokenValidationError));
    assert_eq!(check_claims(Some(claims("")), 1), Err(AuthError::TokenValidationError));
    assert_eq!(check_claims(Some(claims("42")), 1), Err(AuthError::TokenValidationError));
    assert_eq!(
        check_claims(Some(claims("0000000000000000000000000000002A")), 1),
        Ok(42)
    );
    assert_eq!(
        check_claims(Some(claims("urn:uuid:00000000-0000-0000-0000-00000000002a")), 1),
        Ok(42)
    );
}

#[test]
fn authority_issues_and_validates_with_its_own_secret() {
    let auth = authority("top");
    let other = authority("bottom");
    let token = auth.generate_token_at(9, 50).unwrap();
    assert_eq!(auth.validate_token_at(&token, 50), Ok(9));
    assert_eq!(auth.validate_token_at(&token, 3_650), Ok(9));
    assert_eq!(auth.validate_token_at(&token, 3_651), Err(AuthError::TokenValidationError));
    assert_eq!(other.validate_token_at(&token, 50), Err(AuthError::TokenValidationError));
}

#[test]
fn authority_reads_the_clock_for_fresh_tokens() {
    let auth = authority("top");
    let token = auth.generate_token(9).unwrap();
    assert_eq!(auth.validate_token(&token), Ok(9));
    assert_eq!(auth.validate_token_at(&token, 0), Ok(9));
    assert_eq!(
        auth.validate_token_at(&token, u64::MAX),
        Err(AuthError::TokenValidationError)
    );
    // the clock shows a time after 2020 and the token lives one hour from then
    assert_eq!(auth.validate_token_at(&token, 1_577_836_800), Ok(9));
    assert_eq!(auth.validate_token("not.a.token"), Err(AuthError::TokenValidationError));
}

#[test]
fn epoch_seconds_counts_from_the_epoch() {
    assert_eq!(notes_auth::clock::epoch_seconds(-5), 0);
    assert_eq!(notes_auth::clock::epoch_seconds(0), 0);
    assert_eq!(notes_auth::clock::epoch_seconds(1_700_000_000), 1_700_000_000);
    assert_eq!(notes_auth::clock::epoch_seconds(i64::MAX), i64::MAX as u64);
    assert_eq!(notes_auth::clock::epoch_seconds(i64::MIN), 0);
}

#[test]
fn claims_state_changes_after_the_expiry() {
    let claims = Claims { sub: String::new(), exp: 100, iat: 0 };
    assert_eq!(claims.state(0), notes_auth::token::TokenState::Valid);
    assert_eq!(claims.state(99), notes_auth::token::TokenState::Valid);
    assert_eq!(claims.state(100), notes_auth::token::TokenState::Valid);
    assert_eq!(claims.state(101), notes_auth::token::TokenState::Expired);
    assert_eq!(claims.state(u64::MAX), notes_auth::token::TokenState::Expired);
}

#[test]
fn claim_names_on_the_wire() {
    assert_eq!(notes_auth::token::SUBJECT_CLAIM, "sub");
    assert_eq!(notes_auth::token::EXPIRY_CLAIM, "exp");
    assert_eq!(notes_auth::token::ISSUED_AT_CLAIM, "iat");
}

#[test]
fn issued_token_is_never_empty_and_depends_on_claims_and_secret_alone() {
    let token = issue_token(0, 0, "").unwrap();
    assert!(!token.is_empty());
    assert_eq!(validate_token_at(&token, "", 3_600), Ok(0));
    assert_eq!(issue_token(42, 1_000, "secret"), issue_token(42, 1_000, "secret"));
    assert_ne!(issue_token(42, 1_000, "secret"), issue_token(42, 1_001, "secret"));
    assert_ne!(issue_token(42, 1_000, "secret"), issue_token(43, 1_000, "secret"));
    assert_ne!(issue_token(42, 1_000, "secret"), issue_token(42, 1_000, "secreT"));
}
