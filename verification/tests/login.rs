use access_core::auth_user::{AuthUserModel, NewAuthUserModel, UpdateAuthUserModel};
use access_core::claims::Claims;
use access_core::crypto_manager::{generate_hash, validate_hash, CryptoError};
use access_core::errors::{AppErrorEnum, AuthError};
use access_core::keys::Keys;
use access_core::login::{
    login_check_password, login_claims, login_finish, login_finish_at, login_start,
    sign_up_credentials,
    sign_up_finish, sign_up_record, sign_up_user, AuthPayload, LoginAction, UserSignUpDto,
};
use access_core::user::UserModel;

fn payload(id: &str, secret: &str) -> AuthPayload {
    AuthPayload { client_id: id.to_string(), client_secret: secret.to_string() }
}

fn stored(hash: &str) -> AuthUserModel {
    AuthUserModel {
        id: 3,
        user_id: 4,
        username: "alice".to_string(),
        password_hash: hash.to_string(),
        permissions_bitwise: "0000-0001-0001".to_string(),
        created_at: 1,
        updated_at: 2,
    }
}

fn user() -> UserModel {
    let mut u = UserModel::with_public_id(0x550e8400_e29b_41d4_a716_446655440000);
    u.id = 4;
    u.username = "alice".to_string();
    u
}

#[test]
fn hash_validates_its_own_password_only() {
    let hash = generate_hash(&"correct horse".to_string()).unwrap();
    assert!(hash.starts_with("$argon2id$v=19$"));
    assert_ne!(hash, "correct horse");
    assert_eq!(validate_hash(&hash, &"correct horse".to_string()), Ok(true));
    assert_eq!(validate_hash(&hash, &"wrong".to_string()), Ok(false));
    assert_eq!(validate_hash(&hash, &String::new()), Ok(false));
    let again = generate_hash(&"correct horse".to_string()).unwrap();
    assert_ne!(hash, again);
}

#[test]
fn malformed_hash_is_an_error() {
    for bad in ["", "plain", "argon2id$v=19$m=1", "$", "$argon2id$v=x"] {
        assert_eq!(
            validate_hash(&bad.to_string(), &"x".to_string()),
            Err(CryptoError::MalformedHash),
            "{bad:?}"
        );
    }
}

#[test]
fn phc_string_without_a_hash_matches_nothing() {
    assert_eq!(validate_hash(&"$argon2id".to_string(), &"x".to_string()), Ok(false));
    assert_eq!(validate_hash(&"$argon2id$v=19".to_string(), &String::new()), Ok(false));
}

#[test]
fn login_needs_both_credentials() {
    assert_eq!(login_start(&payload("", "x")), LoginAction::Reject(AuthError::MissingCredentials));
    assert_eq!(login_start(&payload("x", "")), LoginAction::Reject(AuthError::MissingCredentials));
    assert_eq!(login_start(&payload("", "")), LoginAction::Reject(AuthError::MissingCredentials));
    assert_eq!(login_start(&payload("alice", "pw")), LoginAction::FindAuthUser);
}

#[test]
fn login_refuses_unknown_names_and_wrong_passwords_alike() {
    let hash = generate_hash(&"pw".to_string()).unwrap();
    let auth = stored(&hash);
    assert_eq!(
        login_check_password(&payload("alice", "pw"), Some(&auth)),
        LoginAction::FindUser(4)
    );
    assert_eq!(
        login_check_password(&payload("alice", "nope"), Some(&auth)),
        LoginAction::Reject(AuthError::WrongCredentials)
    );
    assert_eq!(
        login_check_password(&payload("alice", "pw"), None),
        LoginAction::Reject(AuthError::WrongCredentials)
    );
    assert_eq!(
        login_check_password(&payload("alice", "pw"), Some(&stored("not a hash"))),
        LoginAction::Reject(AuthError::WrongCredentials)
    );
}

#[test]
fn login_claims_carry_the_stored_permissions() {
    let auth = stored("h");
    let u = user();
    let c = login_claims(&payload("alice", "pw"), &auth, Some(&u), 1_700_000_000).unwrap();
    assert_eq!(
        c,
        Claims {
            username: "alice".to_string(),
            user_public_id: 0x550e8400_e29b_41d4_a716_446655440000,
            permissions_bitwise: "0000-0001-0001".to_string(),
            exp: 1_700_086_400,
        }
    );
    assert_eq!(
        login_claims(&payload("alice", "pw"), &auth, None, 1_700_000_000),
        Err(AuthError::WrongCredentials)
    );
}

#[test]
fn login_ends_in_a_token_that_reads_back() {
    let keys = Keys::new(b"secret");
    let auth = stored("h");
    let u = user();
    let body = login_finish(&payload("alice", "pw"), &auth, Some(&u), &keys).unwrap();
    assert_eq!(body.token_type, "Bearer");
    let c = Claims::from_token(&body.access_token, &keys).unwrap();
    assert_eq!(c.username, "alice");
    assert_eq!(c.user_public_id, u.publicid);
    assert_eq!(c.permissions_bitwise, "0000-0001-0001");
    let now = std::time::SystemTime::now()
        .duration_since(std::time::UNIX_EPOCH)
        .unwrap()
        .as_secs();
    assert!(c.exp >= now + 86400 - 5 && c.exp <= now + 86400 + 5);
    assert_eq!(
        login_finish(&payload("alice", "pw"), &auth, None, &keys),
        Err(AuthError::WrongCredentials)
    );
}

#[test]
fn sign_up_refuses_a_taken_name() {
    let dto = UserSignUpDto { username: "alice".to_string(), password: "pw".to_string() };
    let e = sign_up_user(&dto, true).unwrap_err();
    assert_eq!(e.error_type, AppErrorEnum::BadRequestError);
    assert_eq!(e.message, "User already exists");
    assert_eq!(e.status_code(), 400);
    let u = sign_up_user(&dto, false).unwrap();
    assert_eq!(u.username, "alice");
    assert_eq!(u.id, 0);
    assert_eq!(u.first_name, "");
    assert_ne!(u.publicid, 0);
}

#[test]
fn sign_up_gives_default_permissions() {
    let dto = UserSignUpDto { username: "alice".to_string(), password: "pw".to_string() };
    let created = user();
    let auth = sign_up_credentials(&dto, Some(&created)).unwrap();
    assert_eq!(auth.id, 0);
    assert_eq!(auth.user_id, 4);
    assert_eq!(auth.username, "alice");
    assert_eq!(auth.permissions_bitwise, "0000-0001-0001");
    assert_eq!(auth.created_at, 0);
    assert_eq!(auth.updated_at, 0);
    assert_eq!(validate_hash(&auth.password_hash, &"pw".to_string()), Ok(true));
    let e = sign_up_credentials(&dto, None).unwrap_err();
    assert_eq!(e.error_type, AppErrorEnum::InternalServerError);
    assert_eq!(e.message, "Could not create user");
    assert_eq!(e.status_code(), 500);
}

#[test]
fn sign_up_ends_with_the_status() {
    assert_eq!(sign_up_finish(Some(&stored("h"))).unwrap(), 200);
    let e = sign_up_finish(None).unwrap_err();
    assert_eq!(e.error_type, AppErrorEnum::InternalServerError);
    assert_eq!(e.message, "Could not create auth user");
}

#[test]
fn auth_user_forms_copy_the_record() {
    let empty = AuthUserModel::new();
    assert_eq!(
        empty,
        AuthUserModel {
            id: 0,
            user_id: 0,
            username: String::new(),
            password_hash: String::new(),
            permissions_bitwise: String::new(),
            created_at: 0,
            updated_at: 0,
        }
    );
    assert!(empty.is_new());
    let auth = stored("h");
    assert!(!auth.is_new());
    assert_eq!(
        auth.create_new_auth_user_for_db(),
        NewAuthUserModel {
            user_id: 4,
            username: "alice".to_string(),
            password_hash: "h".to_string(),
            permissions_bitwise: "0000-0001-0001".to_string(),
        }
    );
    assert_eq!(
        auth.create_update_auth_user_for_db(),
        UpdateAuthUserModel {
            id: 3,
            user_id: 4,
            username: "alice".to_string(),
            password_hash: "h".to_string(),
            permissions_bitwise: "0000-0001-0001".to_string(),
            updated_at: 2,
        }
    );
}

#[test]
fn sign_up_record_follows_the_outcome_of_hashing() {
    let dto = UserSignUpDto { username: "alice".to_string(), password: "pw".to_string() };
    let created = user();
    let auth = sign_up_record(&dto, &created, Ok("the hash".to_string())).unwrap();
    assert_eq!(
        auth,
        AuthUserModel {
            id: 0,
            user_id: 4,
            username: "alice".to_string(),
            password_hash: "the hash".to_string(),
            permissions_bitwise: "0000-0001-0001".to_string(),
            created_at: 0,
            updated_at: 0,
        }
    );
    for failure in [CryptoError::HashFailed, CryptoError::MalformedHash] {
        let e = sign_up_record(&dto, &created, Err(failure)).unwrap_err();
        assert_eq!(e.error_type, AppErrorEnum::InternalServerError);
        assert_eq!(e.message, "Could not generate hash");
        assert_eq!(e.status_code(), 500);
    }
}

#[test]
fn stored_credentials_give_their_id_and_hash() {
    let auth = stored("h\u{e9}");
    assert_eq!(auth.get_id(), 3);
    assert_eq!(auth.get_password_hash(), "h\u{e9}".as_bytes().to_vec());
    assert_eq!(AuthUserModel::new().get_id(), 0);
    assert_eq!(AuthUserModel::new().get_password_hash(), Vec::<u8>::new());
}

#[test]
fn login_at_a_given_time_gives_the_token_of_that_time() {
    let keys = Keys::new(b"secret");
    let auth = stored("h");
    let u = user();
    let p = payload("alice", "pw");
    let body = login_finish_at(&p, &auth, Some(&u), &keys, 1_700_000_000).unwrap();
    assert_eq!(body.token_type, "Bearer");
    let claims = login_claims(&p, &auth, Some(&u), 1_700_000_000).unwrap();
    assert_eq!(claims.exp, 1_700_086_400);
    assert_eq!(body, claims.sign(&keys).unwrap());
    let later = login_finish_at(&p, &auth, Some(&u), &keys, 1_700_000_001).unwrap();
    assert_ne!(body.access_token, later.access_token);
    assert_eq!(
        login_finish_at(&p, &auth, None, &keys, 1_700_000_000),
        Err(AuthError::WrongCredentials)
    );
}
