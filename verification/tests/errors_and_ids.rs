use access_core::errors::{AppError, AppErrorEnum, AuthError, UserError};
use access_core::ids::{new_public_id, parse_public_id, UUID_KIND_MASK, UUID_RANDOM_KIND};

#[test]
fn error_code_is_the_sha1_of_the_stamp() {
    let e = AppError::with_stamp(AppErrorEnum::NotFoundError, "gone".to_string(), "abc");
    assert_eq!(e.error_code, "a9993e364706816aba3e25717850c26c9cd0d89d");
    assert_eq!(e.error_type, AppErrorEnum::NotFoundError);
    assert_eq!(e.message, "gone");
    let empty = AppError::with_stamp(AppErrorEnum::IoError, String::new(), "");
    assert_eq!(empty.error_code, "da39a3ee5e6b4b0d3255bfef95601890afd80709");
}

#[test]
fn new_error_has_a_forty_digit_code() {
    let e = AppError::new(AppErrorEnum::BadRequestError, "bad".to_string());
    assert_eq!(e.error_code.len(), 40);
    assert!(e.error_code.chars().all(|c| c.is_ascii_digit() || ('a'..='f').contains(&c)));
    assert_eq!(e.message, "bad");
    assert_eq!(e.error_type, AppErrorEnum::BadRequestError);
    let m = AppError::with_message(AppErrorEnum::UserMismatch, "User mismatch");
    assert_eq!(m.message, "User mismatch");
    assert_eq!(m.error_type, AppErrorEnum::UserMismatch);
    assert_eq!(m.error_code.len(), 40);
}

#[test]
fn message_is_kind_code_and_text() {
    let e = AppError {
        error_type: AppErrorEnum::BadRequestError,
        message: "no".to_string(),
        error_code: "c0de".to_string(),
    };
    assert_eq!(e.format_message(), "Bad Request Error [c0de]: no");
    assert_eq!(e.to_string(), "Bad Request Error [c0de]: no");
    assert_eq!(e.debug_string(), "Debug: Bad Request Error [c0de]: no");
    assert_eq!(e.log_line(), "Error: Bad Request Error [c0de]: no");
    assert_eq!(e.status_code(), 400);
}

#[test]
fn every_kind_has_its_label_and_status() {
    let table = [
        (AppErrorEnum::IoError, "I/O Error", 500),
        (AppErrorEnum::DatabaseQueryError, "Database Query Error", 500),
        (AppErrorEnum::DatabaseConnectionError, "Database Connection Error", 500),
        (AppErrorEnum::InvalidInputError, "Invalid Input Error", 400),
        (AppErrorEnum::NotFoundError, "Not Found Error", 404),
        (AppErrorEnum::UnauthorizedError, "Unauthorized Error", 401),
        (AppErrorEnum::InternalServerError, "Internal Server Error", 500),
        (AppErrorEnum::BadRequestError, "Bad Request Error", 400),
        (AppErrorEnum::UnknownError, "Unknown Error", 500),
        (AppErrorEnum::UserMismatch, "User Mismatch", 401),
        (AppErrorEnum::InsufficientPermissions, "Insufficient Permissions", 401),
    ];
    for (kind, label, status) in table {
        assert_eq!(kind.label(), label);
        assert_eq!(kind.status_code(), status);
        let e = AppError { error_type: kind, message: "m".to_string(), error_code: "c".to_string() };
        assert_eq!(e.format_message(), format!("{label} [c]: m"));
    }
}

#[test]
fn user_errors_have_their_status_and_text() {
    let table = [
        (UserError::MissingField, 400, "Missing field"),
        (UserError::UserNotFound, 204, "User not found"),
        (UserError::UserCreationFailed, 500, "User creation failed"),
        (UserError::UserUpdateFailed, 500, "User update failed"),
        (UserError::InvalidParameter, 400, "Invalid Parameter"),
        (UserError::UserMismatch, 401, "Unorthorized User"),
    ];
    for (e, status, text) in table {
        assert_eq!(e.status_code(), status);
        assert_eq!(e.message(), text);
    }
}

#[test]
fn auth_errors_have_their_status_and_text() {
    let table = [
        (AuthError::WrongCredentials, 401, "Wrong credentials"),
        (AuthError::MissingCredentials, 400, "Missing credentials"),
        (AuthError::TokenCreation, 500, "Token creation error"),
        (AuthError::InvalidToken, 400, "Invalid token"),
    ];
    for (e, status, text) in table {
        assert_eq!(e.status_code(), status);
        assert_eq!(e.message(), text);
    }
}

#[test]
fn panic_error_keeps_the_text_of_the_panic() {
    let e = AppError::from_panic(Some("boom".to_string()));
    assert_eq!(e.error_type, AppErrorEnum::InternalServerError);
    assert_eq!(e.message, "boom");
    let unknown = AppError::from_panic(None);
    assert_eq!(unknown.message, "Unknown panic message");
    assert_eq!(unknown.status_code(), 500);
}

#[test]
fn public_id_reads_every_uuid_form() {
    let id = 0x550e8400_e29b_41d4_a716_446655440000u128;
    assert_eq!(parse_public_id("550e8400-e29b-41d4-a716-446655440000"), Some(id));
    assert_eq!(parse_public_id("550e8400e29b41d4a716446655440000"), Some(id));
    assert_eq!(parse_public_id("550E8400-E29B-41D4-A716-446655440000"), Some(id));
    assert_eq!(parse_public_id("urn:uuid:550e8400-e29b-41d4-a716-446655440000"), Some(id));
    assert_eq!(parse_public_id("{550e8400-e29b-41d4-a716-446655440000}"), Some(id));
    assert_eq!(parse_public_id("00000000-0000-0000-0000-000000000000"), Some(0));
    assert_eq!(parse_public_id(""), None);
    assert_eq!(parse_public_id("550e8400-e29b-41d4-a716"), None);
    assert_eq!(parse_public_id("550e8400-e29b-41d4-a716-44665544000g"), None);
}

#[test]
fn fresh_public_ids_are_random_version_four() {
    let a = new_public_id();
    let b = new_public_id();
    assert_ne!(a, 0);
    assert_ne!(a, b);
    assert_eq!(a & UUID_KIND_MASK, UUID_RANDOM_KIND);
    assert_eq!(b & UUID_KIND_MASK, UUID_RANDOM_KIND);
    assert_eq!(uuid::Uuid::from_u128(a).get_version_num(), 4);
}
