//! The error kinds that reach the request boundary, with the status and the
//! text that each is reported with.

use vstd::prelude::*;
use vstd::string::*;
use crate::clock::utc_now_text;
use crate::digest::{sha1_hex, sha1_hex_digest};

verus! {

/// The kinds of error that a request can end in.
#[derive(Debug, Clone, Copy, PartialEq, Eq, Structural)]
pub enum AppErrorEnum {
    IoError,
    DatabaseQueryError,
    DatabaseConnectionError,
    InvalidInputError,
    NotFoundError,
    UnauthorizedError,
    InternalServerError,
    BadRequestError,
    UnknownError,
    UserMismatch,
    InsufficientPermissions,
}

impl AppErrorEnum {
    /// The words that open a formatted message of this kind.
    pub open spec fn spec_label(self) -> Seq<char> {
        match self {
            AppErrorEnum::IoError => "I/O Error"@,
            AppErrorEnum::DatabaseQueryError => "Database Query Error"@,
            AppErrorEnum::DatabaseConnectionError => "Database Connection Error"@,
            AppErrorEnum::InvalidInputError => "Invalid Input Error"@,
            AppErrorEnum::NotFoundError => "Not Found Error"@,
            AppErrorEnum::UnauthorizedError => "Unauthorized Error"@,
            AppErrorEnum::InternalServerError => "Internal Server Error"@,
            AppErrorEnum::BadRequestError => "Bad Request Error"@,
            AppErrorEnum::UnknownError => "Unknown Error"@,
            AppErrorEnum::UserMismatch => "User Mismatch"@,
            AppErrorEnum::InsufficientPermissions => "Insufficient Permissions"@,
        }
    }

    /// The HTTP status that a response for this kind carries.
    pub open spec fn spec_status(self) -> u16 {
        match self {
            AppErrorEnum::IoError => 500,
            AppErrorEnum::DatabaseQueryError => 500,
            AppErrorEnum::DatabaseConnectionError => 500,
            AppErrorEnum::InvalidInputError => 400,
            AppErrorEnum::NotFoundError => 404,
            AppErrorEnum::UnauthorizedError => 401,
            AppErrorEnum::InternalServerError => 500,
            AppErrorEnum::BadRequestError => 400,
            AppErrorEnum::UnknownError => 500,
            AppErrorEnum::UserMismatch => 401,
            AppErrorEnum::InsufficientPermissions => 401,
        }
    }

    /// The words that open a formatted message of this kind.
    pub fn label(&self) -> (r: &'static str)
        ensures
            r@ == self.spec_label(),
    {
        match self {
            AppErrorEnum::IoError => "I/O Error",
            AppErrorEnum::DatabaseQueryError => "Database Query Error",
            AppErrorEnum::DatabaseConnectionError => "Database Connection Error",
            AppErrorEnum::InvalidInputError => "Invalid Input Error",
            AppErrorEnum::NotFoundError => "Not Found Error",
            AppErrorEnum::UnauthorizedError => "Unauthorized Error",
            AppErrorEnum::InternalServerError => "Internal Server Error",
            AppErrorEnum::BadRequestError => "Bad Request Error",
            AppErrorEnum::UnknownError => "Unknown Error",
            AppErrorEnum::UserMismatch => "User Mismatch",
            AppErrorEnum::InsufficientPermissions => "Insufficient Permissions",
        }
    }

    /// The HTTP status that a response for this kind carries.
    pub fn status_code(&self) -> (r: u16)
        ensures
            r == self.spec_status(),
    {
        match self {
            AppErrorEnum::IoError => 500,
            AppErrorEnum::DatabaseQueryError => 500,
            AppErrorEnum::DatabaseConnectionError => 500,
            AppErrorEnum::InvalidInputError => 400,
            AppErrorEnum::NotFoundError => 404,
            AppErrorEnum::UnauthorizedError => 401,
            AppErrorEnum::InternalServerError => 500,
            AppErrorEnum::BadRequestError => 400,
            AppErrorEnum::UnknownError => 500,
            AppErrorEnum::UserMismatch => 401,
            AppErrorEnum::InsufficientPermissions => 401,
        }
    }
}

/// An error with the code under which it is logged and reported. The
/// response shows the code only; the message stays in the log.
#[derive(Debug, Clone, PartialEq, Eq)]
pub struct AppError {
    pub error_type: AppErrorEnum,
    pub message: String,
    pub error_code: String,
}

impl AppError {
    /// The text form: kind, code in square brackets, message.
    pub open spec fn spec_format(&self) -> Seq<char> {
        self.error_type.spec_label() + " ["@ + self.error_code@ + "]: "@ + self.message@
    }

    /// An error whose code is the digest of the current time as text.
    pub fn new(error_type: AppErrorEnum, message: String) -> (r: Self)
        ensures
            r.error_type == error_type,
            r.message@ == message@,
            exists|stamp: Seq<char>| r.error_code@ == sha1_hex_digest(stamp),
    {
        let stamp = utc_now_text();
        AppError::with_stamp(error_type, message, stamp.as_str())
    }

    /// An error with a fixed message, whose code is the digest of the
    /// current time as text.
    pub fn with_message(error_type: AppErrorEnum, message: &str) -> (r: Self)
        ensures
            r.error_type == error_type,
            r.message@ == message@,
            exists|stamp: Seq<char>| r.error_code@ == sha1_hex_digest(stamp),
    {
        AppError::new(error_type, String::from_str(message))
    }

    /// The error for a panic that was caught, from the text that the panic
    /// carried, if it carried one.
    pub fn from_panic(details: Option<String>) -> (r: Self)
        ensures
            r.error_type == AppErrorEnum::InternalServerError,
            r.message@ == match details {
                Some(text) => text@,
                None => "Unknown panic message"@,
            },
            exists|stamp: Seq<char>| r.error_code@ == sha1_hex_digest(stamp),
    {
        match details {
            Some(text) => AppError::new(AppErrorEnum::InternalServerError, text),
            None => AppError::with_message(AppErrorEnum::InternalServerError, "Unknown panic message"),
        }
    }

    /// An error whose code is the digest of `stamp`.
    pub fn with_stamp(error_type: AppErrorEnum, message: String, stamp: &str) -> (r: Self)
        ensures
            r.error_type == error_type,
            r.message@ == message@,
            r.error_code@ == sha1_hex_digest(stamp@),
    {
        AppError { error_type, message, error_code: sha1_hex(stamp) }
    }

    /// Writes the text form: kind, code in square brackets, message.
    pub fn format_message(&self) -> (r: String)
        ensures
            r@ == self.spec_format(),
    {
        let mut out = String::from_str(self.error_type.label());
        out.append(" [");
        out.append(self.error_code.as_str());
        out.append("]: ");
        out.append(self.message.as_str());
        out
    }

    /// The text that is shown for the error.
    pub fn to_string(&self) -> (r: String)
        ensures
            r@ == self.spec_format(),
    {
        self.format_message()
    }

    /// The text that is shown for the error when debugging.
    pub fn debug_string(&self) -> (r: String)
        ensures
            r@ == "Debug: "@ + self.spec_format(),
    {
        let text = self.format_message();
        String::from_str("Debug: ").concat(text.as_str())
    }

    /// The line that is written to the log for the error.
    pub fn log_line(&self) -> (r: String)
        ensures
            r@ == "Error: "@ + self.spec_format(),
    {
        let text = self.format_message();
        String::from_str("Error: ").concat(text.as_str())
    }

    /// The HTTP status that a response for the error carries.
    pub fn status_code(&self) -> (r: u16)
        ensures
            r == self.error_type.spec_status(),
    {
        self.error_type.status_code()
    }
}

/// What can go wrong with a request about a user.
#[derive(Debug, Clone, Copy, PartialEq, Eq, Structural)]
pub enum UserError {
    MissingField,
    UserNotFound,
    UserCreationFailed,
    UserUpdateFailed,
    InvalidParameter,
    UserMismatch,
}

impl UserError {
    /// The HTTP status of the response.
    pub open spec fn spec_status(self) -> u16 {
        match self {
            UserError::MissingField => 400,
            UserError::UserNotFound => 204,
            UserError::UserCreationFailed => 500,
            UserError::UserUpdateFailed => 500,
            UserError::InvalidParameter => 400,
            UserError::UserMismatch => 401,
        }
    }

    /// The text of the response.
    pub open spec fn spec_message(self) -> Seq<char> {
        match self {
            UserError::MissingField => "Missing field"@,
            UserError::UserNotFound => "User not found"@,
            UserError::UserCreationFailed => "User creation failed"@,
            UserError::UserUpdateFailed => "User update failed"@,
            UserError::InvalidParameter => "Invalid Parameter"@,
            UserError::UserMismatch => "Unorthorized User"@,
        }
    }

    /// The HTTP status of the response.
    pub fn status_code(&self) -> (r: u16)
        ensures
            r == self.spec_status(),
    {
        match self {
            UserError::MissingField => 400,
            UserError::UserNotFound => 204,
            UserError::UserCreationFailed => 500,
            UserError::UserUpdateFailed => 500,
            UserError::InvalidParameter => 400,
            UserError::UserMismatch => 401,
        }
    }

    /// The text of the response.
    pub fn message(&self) -> (r: &'static str)
        ensures
            r@ == self.spec_message(),
    {
        match self {
            UserError::MissingField => "Missing field",
            UserError::UserNotFound => "User not found",
            UserError::UserCreationFailed => "User creation failed",
            UserError::UserUpdateFailed => "User update failed",
            UserError::InvalidParameter => "Invalid Parameter",
            UserError::UserMismatch => "Unorthorized User",
        }
    }
}

/// Why a login or a bearer token was refused. Every failure of a presented
/// token is `InvalidToken`, whatever was wrong with it.
#[derive(Debug, Clone, Copy, PartialEq, Eq, Structural)]
pub enum AuthError {
    WrongCredentials,
    MissingCredentials,
    TokenCreation,
    InvalidToken,
}

impl AuthError {
    /// The HTTP status of the response.
    pub open spec fn spec_status(self) -> u16 {
        match self {
            AuthError::WrongCredentials => 401,
            AuthError::MissingCredentials => 400,
            AuthError::TokenCreation => 500,
            AuthError::InvalidToken => 400,
        }
    }

    /// The text of the response.
    pub open spec fn spec_message(self) -> Seq<char> {
        match self {
            AuthError::WrongCredentials => "Wrong credentials"@,
            AuthError::MissingCredentials => "Missing credentials"@,
            AuthError::TokenCreation => "Token creation error"@,
            AuthError::InvalidToken => "Invalid token"@,
        }
    }

    /// The HTTP status of the response.
    pub fn status_code(&self) -> (r: u16)
        ensures
            r == self.spec_status(),
    {
        match self {
            AuthError::WrongCredentials => 401,
            AuthError::MissingCredentials => 400,
            AuthError::TokenCreation => 500,
            AuthError::InvalidToken => 400,
        }
    }

    /// The text of the response.
    pub fn message(&self) -> (r: &'static str)
        ensures
            r@ == self.spec_message(),
    {
        match self {
            AuthError::WrongCredentials => "Wrong credentials",
            AuthError::MissingCredentials => "Missing credentials",
            AuthError::TokenCreation => "Token creation error",
            AuthError::InvalidToken => "Invalid token",
        }
    }
}

} // verus!
