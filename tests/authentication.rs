use restful_api::accounts::AccountId;
use restful_api::error::ApiError;
use restful_api::password::{hash_password, verify_password};
use restful_api::token::{
    auth, auth_at, issue_token, issue_token_at, session_from_claims, token_claims, token_shaped,
    verify_token, verify_token_at, Claims, MAX_TIMESTAMP, TOKEN_LIFETIME_SECS,
};

const KEY: &[u8] = b"RANDOM WORDS WINTER MACINTOSH PC";

fn now() -> i64 {
    std::time::SystemTime::now()
        .duration_since(std::time::UNIX_EPOCH)
        .unwrap()
        .as_secs() as i64
}

#[test]
fn post_products_auth() {
    let token = issue_token(KEY, AccountId(3)).unwrap();
    let res = auth(KEY, Some(token.as_str()));
    assert_eq!(res.unwrap().account_id, AccountId(3));
}

#[test]
fn hash_then_verify_accepts_the_same_password() {
    let h = hash_password(b"pw1");
    assert_eq!(verify_password(&h, b"pw1"), Ok(true));
    assert_eq!(verify_password(&h, b"pw2"), Ok(false));
}

#[test]
fn hash_is_salted_and_encoded() {
    let a = hash_password(b"same password");
    let b = hash_password(b"same password");
    assert_ne!(a, b);
    assert!(a.starts_with("$argon2"));
    assert_ne!(a.as_bytes(), b"same password");
}

#[test]
fn verify_rejects_malformed_hash() {
    assert_eq!(verify_password("not a hash", b"pw1"), Err(ApiError::HashingError));
}

#[test]
fn token_round_trip_names_the_account() {
    let token = issue_token(KEY, AccountId(42)).unwrap();
    let t = now();
    let session = verify_token(KEY, token.clone()).unwrap();
    assert_eq!(session.account_id, AccountId(42));
    assert!(session.exp >= t + TOKEN_LIFETIME_SECS - 5 && session.exp <= t + TOKEN_LIFETIME_SECS + 5);
    assert!(token.starts_with("v2.local."));
    assert!(token_shaped(&token));
}

#[test]
fn token_issued_in_the_past_is_expired() {
    let token = issue_token_at(KEY, AccountId(5), now() - 2 * TOKEN_LIFETIME_SECS).unwrap();
    assert_eq!(verify_token(KEY, token), Err(ApiError::TokenExpired));
}

#[test]
fn token_not_yet_valid_is_rejected_as_expired() {
    let issued = 1_000_000;
    let token = issue_token_at(KEY, AccountId(5), issued).unwrap();
    assert_eq!(verify_token_at(KEY, &token, issued - 1), Err(ApiError::TokenExpired));
    let ok = verify_token_at(KEY, &token, issued).unwrap();
    assert_eq!(ok.account_id, AccountId(5));
    assert_eq!(ok.exp, issued + TOKEN_LIFETIME_SECS);
    assert!(verify_token_at(KEY, &token, issued + TOKEN_LIFETIME_SECS).is_ok());
    assert_eq!(
        verify_token_at(KEY, &token, issued + TOKEN_LIFETIME_SECS + 1),
        Err(ApiError::TokenExpired)
    );
}

#[test]
fn any_flipped_character_is_detected() {
    let token = issue_token(KEY, AccountId(9)).unwrap();
    let chars: Vec<char> = token.chars().collect();
    for i in 0..chars.len() {
        let mut changed = chars.clone();
        changed[i] = if chars[i] == 'A' { 'B' } else { 'A' };
        let tampered: String = changed.into_iter().collect();
        assert!(verify_token(KEY, tampered).is_err(), "position {}", i);
    }
}

#[test]
fn token_under_another_key_is_rejected() {
    let token = issue_token(KEY, AccountId(9)).unwrap();
    let other: &[u8] = b"ANOTHER KEY OF THIRTY-TWO BYTES!";
    assert_eq!(verify_token(other, token), Err(ApiError::CannotDecryptToken));
}

#[test]
fn malformed_tokens_are_rejected() {
    assert_eq!(verify_token(KEY, String::new()), Err(ApiError::CannotDecryptToken));
    assert_eq!(verify_token(KEY, "v2.local.short".to_string()), Err(ApiError::CannotDecryptToken));
    let long = format!("v2.local.{}", "A".repeat(40));
    assert_eq!(verify_token(KEY, long), Err(ApiError::CannotDecryptToken));
    let footer = format!("v2.local.{}.Zm9v", "A".repeat(40));
    assert!(!token_shaped(&footer));
    assert_eq!(verify_token(KEY, footer), Err(ApiError::CannotDecryptToken));
    let padded = format!("v2.local.{}==", "A".repeat(30));
    assert!(!token_shaped(&padded));
    assert_eq!(verify_token(KEY, padded.clone()), Err(ApiError::CannotDecryptToken));
    assert_eq!(auth(KEY, Some(&padded)), None);
    let odd = format!("v2.local.{}", "A".repeat(33));
    assert_eq!(verify_token(KEY, odd), Err(ApiError::CannotDecryptToken));
    let spaced = format!("v2.local.{} ", "A".repeat(40));
    assert!(!token_shaped(&spaced));
}

#[test]
fn issued_tokens_are_url_safe() {
    let token = issue_token(KEY, AccountId(11)).unwrap();
    assert!(token["v2.local.".len()..]
        .chars()
        .all(|c| c.is_ascii_alphanumeric() || c == '-' || c == '_'));
}

#[test]
fn issuing_with_a_short_key_fails() {
    assert_eq!(issue_token(b"too short", AccountId(1)), Err(ApiError::CannotIssueToken));
}

#[test]
fn claims_last_one_day() {
    assert_eq!(
        token_claims(AccountId(3), 1000),
        Some(Claims { account_id: 3, exp: 1000 + 86400, nbf: 1000 })
    );
    assert_eq!(token_claims(AccountId(3), i64::MAX - 86399), None);
    assert_eq!(token_claims(AccountId(3), -1), None);
    assert!(token_claims(AccountId(3), MAX_TIMESTAMP - TOKEN_LIFETIME_SECS).is_some());
    assert_eq!(token_claims(AccountId(3), MAX_TIMESTAMP - TOKEN_LIFETIME_SECS + 1), None);
    assert_eq!(
        issue_token_at(KEY, AccountId(3), i64::MAX),
        Err(ApiError::CannotIssueToken)
    );
}

#[test]
fn session_from_claims_checks_window_and_shape() {
    let s = session_from_claims(Some(7), Some(200), Some(100), 150).unwrap();
    assert_eq!(s.account_id, AccountId(7));
    assert_eq!(s.exp, 200);
    assert!(session_from_claims(Some(7), Some(200), Some(100), 200).is_ok());
    assert!(session_from_claims(Some(7), Some(200), Some(100), 100).is_ok());
    assert_eq!(session_from_claims(Some(7), Some(200), Some(100), 201), Err(ApiError::TokenExpired));
    assert_eq!(session_from_claims(Some(7), Some(200), Some(100), 99), Err(ApiError::TokenExpired));
    assert_eq!(session_from_claims(None, Some(200), Some(100), 150), Err(ApiError::CannotDecryptToken));
    assert_eq!(session_from_claims(Some(7), None, Some(100), 150), Err(ApiError::CannotDecryptToken));
    assert_eq!(session_from_claims(Some(7), Some(200), None, 150), Err(ApiError::CannotDecryptToken));
    assert_eq!(
        session_from_claims(Some(1 << 40), Some(200), Some(100), 150),
        Err(ApiError::CannotDecryptToken)
    );
}

#[test]
fn missing_or_bad_header_is_rejected() {
    assert_eq!(auth(KEY, None), None);
    assert_eq!(auth(KEY, Some("garbage")), None);
    let token = issue_token_at(KEY, AccountId(4), 5000).unwrap();
    assert_eq!(auth_at(KEY, Some(&token), 6000).unwrap().account_id, AccountId(4));
    assert_eq!(auth_at(KEY, Some(&token), 4000), None);
}

fn window() -> (chrono::DateTime<chrono::Utc>, chrono::DateTime<chrono::Utc>) {
    (chrono::Utc::now() + chrono::Duration::days(1), chrono::Utc::now() - chrono::Duration::seconds(5))
}

fn sealed_with(extra: Option<(&str, serde_json::Value)>, with_exp: bool) -> String {
    let (exp, nbf) = window();
    let account = serde_json::Value::from(8);
    match (extra, with_exp) {
        (None, true) => paseto::tokens::PasetoBuilder::new()
            .set_encryption_key(KEY)
            .set_expiration(&exp)
            .set_not_before(&nbf)
            .set_claim("account_id", account)
            .build()
            .unwrap(),
        (None, false) => paseto::tokens::PasetoBuilder::new()
            .set_encryption_key(KEY)
            .set_not_before(&nbf)
            .set_claim("account_id", account)
            .build()
            .unwrap(),
        (Some((name, value)), _) => paseto::tokens::PasetoBuilder::new()
            .set_encryption_key(KEY)
            .set_expiration(&exp)
            .set_not_before(&nbf)
            .set_claim("account_id", account)
            .set_claim(name, value)
            .build()
            .unwrap(),
    }
}

#[test]
fn claims_of_the_exact_shape_are_accepted() {
    let token = sealed_with(None, true);
    assert_eq!(verify_token(KEY, token).unwrap().account_id, AccountId(8));
}

#[test]
fn claims_with_unknown_members_are_rejected() {
    let token = sealed_with(Some(("role", serde_json::Value::from("admin"))), true);
    assert_eq!(verify_token(KEY, token), Err(ApiError::CannotDecryptToken));
}

#[test]
fn claims_missing_a_member_are_rejected() {
    let token = sealed_with(None, false);
    assert_eq!(verify_token(KEY, token), Err(ApiError::CannotDecryptToken));
    let token = sealed_with(Some(("exp", serde_json::Value::from(5))), true);
    assert_eq!(verify_token(KEY, token), Err(ApiError::CannotDecryptToken));
}
