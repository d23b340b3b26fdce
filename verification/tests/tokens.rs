use access_core::claims::{AuthBodyDto, Claims, TOKEN_TTL_SECONDS};
use access_core::errors::AuthError;
use access_core::keys::Keys;
use access_core::token::RawClaims;

fn now() -> i64 {
    std::time::SystemTime::now()
        .duration_since(std::time::UNIX_EPOCH)
        .unwrap()
        .as_secs() as i64
}

fn sample_claims(exp: u64) -> Claims {
    Claims {
        username: "alice".to_string(),
        user_public_id: 0x550e8400_e29b_41d4_a716_446655440000,
        permissions_bitwise: "0001-0011-0001".to_string(),
        exp,
    }
}

fn forged_token(body: serde_json::Map<String, serde_json::Value>, secret: &[u8]) -> String {
    jsonwebtoken::encode(
        &jsonwebtoken::Header::default(),
        &body,
        &jsonwebtoken::EncodingKey::from_secret(secret),
    )
    .unwrap()
}

#[test]
fn expiry_is_one_day_after_now() {
    assert_eq!(TOKEN_TTL_SECONDS, 86400);
    assert_eq!(Claims::expiry_after(0), 86400);
    assert_eq!(Claims::expiry_after(1_700_000_000), 1_700_086_400);
    assert_eq!(Claims::expiry_after(-100), 86300);
    assert_eq!(Claims::expiry_after(-86400), 0);
    assert_eq!(Claims::expiry_after(-86401), 0);
    assert_eq!(Claims::expiry_after(i64::MIN), 0);
    assert_eq!(Claims::expiry_after(i64::MAX), i64::MAX as u64 + 86400);
}

#[test]
fn issued_claims_hold_what_was_given() {
    let c = Claims::issue("bob".to_string(), 7, "0000-0001-0001".to_string(), 1000);
    assert_eq!(c.username, "bob");
    assert_eq!(c.user_public_id, 7);
    assert_eq!(c.permissions_bitwise, "0000-0001-0001");
    assert_eq!(c.exp, 87400);
    let empty = Claims::new();
    assert_eq!(empty.username, "");
    assert_eq!(empty.user_public_id, 0);
    assert_eq!(empty.permissions_bitwise, "");
    assert_eq!(empty.exp, 0);
}

#[test]
fn auth_body_is_a_bearer_token() {
    let body = AuthBodyDto::new("abc".to_string());
    assert_eq!(body.access_token, "abc");
    assert_eq!(body.token_type, "Bearer");
}

#[test]
fn signed_token_reads_back() {
    let keys = Keys::new(b"secret");
    let claims = sample_claims(Claims::expiry_after(now()));
    let body = claims.sign(&keys).unwrap();
    assert_eq!(body.token_type, "Bearer");
    assert_eq!(body.access_token.split('.').count(), 3);
    assert_ne!(body.access_token, claims.username);
    let back = Claims::from_token(&body.access_token, &keys).unwrap();
    assert_eq!(back, claims);
    let again = Claims::from_bearer(Some(&body.access_token), &keys).unwrap();
    assert_eq!(again, claims);
}

#[test]
fn signing_is_a_function_of_claims_and_secret() {
    let keys = Keys::new(b"secret");
    let claims = sample_claims(2_000_000_000);
    let a = claims.sign(&keys).unwrap().access_token;
    let b = claims.sign(&keys).unwrap().access_token;
    assert_eq!(a, b);
    let other = claims.sign(&Keys::new(b"other")).unwrap().access_token;
    assert_ne!(a, other);
    let later = sample_claims(2_000_000_001).sign(&keys).unwrap().access_token;
    assert_ne!(a, later);
}

#[test]
fn expired_token_is_invalid_like_a_bad_signature() {
    let keys = Keys::new(b"secret");
    let expired = sample_claims(1_000).sign(&keys).unwrap().access_token;
    let expired_result = Claims::from_token(&expired, &keys);
    assert_eq!(expired_result, Err(AuthError::InvalidToken));

    let good = sample_claims(Claims::expiry_after(now())).sign(&keys).unwrap().access_token;
    let bad_signature = Claims::from_token(&good, &Keys::new(b"another secret"));
    assert_eq!(bad_signature, Err(AuthError::InvalidToken));
    assert_eq!(expired_result, bad_signature);
    assert_eq!(
        expired_result.unwrap_err().status_code(),
        bad_signature.unwrap_err().status_code()
    );
}

#[test]
fn malformed_and_missing_tokens_are_invalid() {
    let keys = Keys::new(b"secret");
    for token in ["", "abc", "a.b.c", "a.b", "....", "Bearer x"] {
        assert_eq!(Claims::from_token(token, &keys), Err(AuthError::InvalidToken), "{token:?}");
    }
    assert_eq!(Claims::from_bearer(None, &keys), Err(AuthError::InvalidToken));
    assert_eq!(Claims::from_bearer(Some("a.b.c"), &keys), Err(AuthError::InvalidToken));
}

#[test]
fn tampered_token_is_invalid() {
    let keys = Keys::new(b"secret");
    let token = sample_claims(Claims::expiry_after(now())).sign(&keys).unwrap().access_token;
    let mut tampered = token.clone();
    let last = tampered.pop().unwrap();
    tampered.push(if last == 'A' { 'B' } else { 'A' });
    assert_eq!(Claims::from_token(&tampered, &keys), Err(AuthError::InvalidToken));
}

#[test]
fn token_without_a_claim_is_invalid() {
    let secret = b"secret";
    let keys = Keys::new(secret);
    let exp = Claims::expiry_after(now());
    let full = |skip: &str| {
        let mut m = serde_json::Map::new();
        if skip != "username" {
            m.insert("username".to_string(), serde_json::Value::from("alice"));
        }
        if skip != "user_public_id" {
            m.insert(
                "user_public_id".to_string(),
                serde_json::Value::from("550e8400-e29b-41d4-a716-446655440000"),
            );
        }
        if skip != "permissions_bitwise" {
            m.insert("permissions_bitwise".to_string(), serde_json::Value::from("0001-0011-0001"));
        }
        if skip != "exp" {
            m.insert("exp".to_string(), serde_json::Value::from(exp));
        }
        m
    };
    let complete = forged_token(full(""), secret);
    let claims = Claims::from_token(&complete, &keys).unwrap();
    assert_eq!(claims, sample_claims(exp));
    for skip in ["username", "user_public_id", "permissions_bitwise", "exp"] {
        let token = forged_token(full(skip), secret);
        assert_eq!(Claims::from_token(&token, &keys), Err(AuthError::InvalidToken), "{skip}");
    }
}

#[test]
fn token_with_a_claim_of_the_wrong_kind_is_invalid() {
    let secret = b"secret";
    let keys = Keys::new(secret);
    let exp = Claims::expiry_after(now());
    let mut m = serde_json::Map::new();
    m.insert("username".to_string(), serde_json::Value::from("alice"));
    m.insert("user_public_id".to_string(), serde_json::Value::from("not a uuid"));
    m.insert("permissions_bitwise".to_string(), serde_json::Value::from("0001-0011-0001"));
    m.insert("exp".to_string(), serde_json::Value::from(exp));
    assert_eq!(
        Claims::from_token(&forged_token(m.clone(), secret), &keys),
        Err(AuthError::InvalidToken)
    );
    m.insert(
        "user_public_id".to_string(),
        serde_json::Value::from("550e8400-e29b-41d4-a716-446655440000"),
    );
    m.insert("username".to_string(), serde_json::Value::from(5));
    assert_eq!(
        Claims::from_token(&forged_token(m, secret), &keys),
        Err(AuthError::InvalidToken)
    );
}

#[test]
fn raw_claims_need_all_four_and_a_readable_id() {
    let raw = |id: Option<&str>, exp: Option<u64>| RawClaims {
        username: Some("alice".to_string()),
        user_public_id: id.map(String::from),
        permissions_bitwise: Some("0001-0011-0001".to_string()),
        exp,
    };
    let id = "550e8400-e29b-41d4-a716-446655440000";
    assert_eq!(Claims::from_raw(raw(Some(id), Some(9))), Some(sample_claims(9)));
    assert_eq!(Claims::from_raw(raw(None, Some(9))), None);
    assert_eq!(Claims::from_raw(raw(Some(id), None)), None);
    assert_eq!(Claims::from_raw(raw(Some("zz"), Some(9))), None);
    let mut no_name = raw(Some(id), Some(9));
    no_name.username = None;
    assert_eq!(Claims::from_raw(no_name), None);
    let mut no_permissions = raw(Some(id), Some(9));
    no_permissions.permissions_bitwise = None;
    assert_eq!(Claims::from_raw(no_permissions), None);
    assert_eq!(Claims::from_decoded(Ok(raw(Some(id), Some(9)))), Ok(sample_claims(9)));
    assert_eq!(Claims::from_decoded(Ok(raw(None, Some(9)))), Err(AuthError::InvalidToken));
    let failure = jsonwebtoken::decode::<serde_json::Value>(
        "x",
        &jsonwebtoken::DecodingKey::from_secret(b"s"),
        &jsonwebtoken::Validation::default(),
    )
    .unwrap_err();
    assert_eq!(Claims::from_decoded(Err(failure)), Err(AuthError::InvalidToken));
}

#[test]
fn keys_hold_the_secret_and_generate_sixty_alphanumerics() {
    assert_eq!(Keys::new(b"abc").secret, b"abc".to_vec());
    assert_eq!(Keys::new(b"").secret, Vec::<u8>::new());
    let a = Keys::generate();
    let b = Keys::generate();
    assert_eq!(a.secret.len(), 60);
    assert!(a.secret.iter().all(|c| c.is_ascii_alphanumeric()));
    assert_ne!(a.secret, b.secret);
}

#[test]
fn checked_claims_are_those_of_the_token() {
    let keys = Keys::new(b"secret");
    let exp = Claims::expiry_after(now());
    let alice = sample_claims(exp);
    let bob = Claims { username: "bob".to_string(), user_public_id: 9, ..sample_claims(exp) };
    let alice_token = alice.sign(&keys).unwrap().access_token;
    let bob_token = bob.sign(&keys).unwrap().access_token;
    let first = Claims::from_token(&alice_token, &keys).unwrap();
    let second = Claims::from_token(&alice_token, &keys).unwrap();
    assert_eq!(first, second);
    assert_eq!(first, alice);
    assert_eq!(Claims::from_token(&bob_token, &keys).unwrap(), bob);
    assert_eq!(Claims::from_bearer(Some(&bob_token), &keys).unwrap(), bob);
}

#[test]
fn claims_expire_when_the_expiry_lies_before_now() {
    let c = sample_claims(1_000);
    assert_eq!(c.clone().not_expired(999), Ok(c.clone()));
    assert_eq!(c.clone().not_expired(1_000), Ok(c.clone()));
    assert_eq!(c.clone().not_expired(1_001), Err(AuthError::InvalidToken));
    assert_eq!(c.clone().not_expired(i64::MAX), Err(AuthError::InvalidToken));
    assert_eq!(c.clone().not_expired(0), Ok(c.clone()));
    assert_eq!(c.clone().not_expired(-5), Ok(c.clone()));
    assert_eq!(c.clone().not_expired(i64::MIN), Ok(c.clone()));
    let never = sample_claims(u64::MAX);
    assert_eq!(never.clone().not_expired(i64::MAX), Ok(never));
    let epoch = sample_claims(0);
    assert_eq!(epoch.clone().not_expired(0), Ok(epoch.clone()));
    assert_eq!(epoch.clone().not_expired(1), Err(AuthError::InvalidToken));
}

#[test]
fn token_is_checked_against_the_given_time() {
    let keys = Keys::new(b"secret");
    let exp = Claims::expiry_after(now());
    let claims = sample_claims(exp);
    let token = claims.sign(&keys).unwrap().access_token;
    assert_eq!(Claims::from_token_at(&token, &keys, now()), Ok(claims.clone()));
    assert_eq!(Claims::from_token_at(&token, &keys, exp as i64), Ok(claims.clone()));
    assert_eq!(Claims::from_token_at(&token, &keys, exp as i64 + 1), Err(AuthError::InvalidToken));
    assert_eq!(Claims::from_token_at(&token, &keys, i64::MAX), Err(AuthError::InvalidToken));
    assert_eq!(Claims::from_token_at(&token, &keys, -1), Ok(claims.clone()));
    assert_eq!(Claims::from_bearer_at(Some(&token), &keys, exp as i64), Ok(claims.clone()));
    assert_eq!(
        Claims::from_bearer_at(Some(&token), &keys, exp as i64 + 1),
        Err(AuthError::InvalidToken)
    );
    assert_eq!(Claims::from_bearer_at(None, &keys, 0), Err(AuthError::InvalidToken));
    assert_eq!(
        Claims::from_token_at(&token, &Keys::new(b"other"), now()),
        Err(AuthError::InvalidToken)
    );
}

#[test]
fn token_that_expired_a_moment_ago_is_invalid() {
    let keys = Keys::new(b"secret");
    for seconds_ago in [1u64, 30, 59, 61, 3600] {
        let token = sample_claims(now() as u64 - seconds_ago).sign(&keys).unwrap().access_token;
        assert_eq!(
            Claims::from_token(&token, &keys),
            Err(AuthError::InvalidToken),
            "{seconds_ago}"
        );
        assert_eq!(
            Claims::from_bearer(Some(&token), &keys),
            Err(AuthError::InvalidToken),
            "{seconds_ago}"
        );
    }
    let soon = sample_claims(now() as u64 + 30);
    let token = soon.sign(&keys).unwrap().access_token;
    assert_eq!(Claims::from_token(&token, &keys), Ok(soon));
}

#[test]
fn every_rejection_is_the_same_value() {
    let keys = Keys::new(b"secret");
    let expired = sample_claims(now() as u64 - 30).sign(&keys).unwrap().access_token;
    let good = sample_claims(Claims::expiry_after(now())).sign(&Keys::new(b"other")).unwrap();
    let r1 = Claims::from_bearer(Some(&expired), &keys);
    let r2 = Claims::from_bearer(Some(&good.access_token), &keys);
    let r3 = Claims::from_bearer(Some("not a token"), &keys);
    let r4 = Claims::from_bearer(None, &keys);
    assert_eq!(r1, Err(AuthError::InvalidToken));
    assert_eq!(r1, r2);
    assert_eq!(r2, r3);
    assert_eq!(r3, r4);
}
