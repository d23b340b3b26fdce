//! Logging in and signing up: what to do next after each answer of the
//! store, and what to answer the caller in the end.

use vstd::prelude::*;
use crate::auth_user::AuthUserModel;
use crate::claims::{spec_expiry, AuthBodyDto, Claims};
use crate::clock::unix_now;
use crate::crypto_manager::{
    generate_hash,
    phc_verification,
    spec_hashable,
    validate_hash,
    CryptoError,
};
use crate::errors::{AppError, AppErrorEnum, AuthError};
use crate::ids::{UUID_KIND_MASK, UUID_RANDOM_KIND};
use crate::keys::Keys;
use crate::permission_manager::PermissionsManager;
use crate::text::is_blank;
use crate::token::signed_token;
use crate::user::UserModel;

verus! {

/// The credentials that a login sends.
#[derive(Debug, Clone, PartialEq, Eq)]
pub struct AuthPayload {
    pub client_id: String,
    pub client_secret: String,
}

/// What a login does next.
#[derive(Debug, Clone, Copy, PartialEq, Eq, Structural)]
pub enum LoginAction {
    /// Look up the credentials stored under the name that was sent.
    FindAuthUser,
    /// Look up the user with this id.
    FindUser(i32),
    /// Refuse the login.
    Reject(AuthError),
}

/// The password that was sent is the one behind the stored hash.
pub open spec fn spec_password_accepted(password_hash: Seq<char>, secret: Seq<char>) -> bool {
    phc_verification(password_hash, secret) == Some(true)
}

/// First step of a login: both credentials must be there.
pub fn login_start(payload: &AuthPayload) -> (r: LoginAction)
    ensures
        r == if payload.client_id@.len() == 0 || payload.client_secret@.len() == 0 {
            LoginAction::Reject(AuthError::MissingCredentials)
        } else {
            LoginAction::FindAuthUser
        },
{
    if is_blank(&payload.client_id) || is_blank(&payload.client_secret) {
        LoginAction::Reject(AuthError::MissingCredentials)
    } else {
        LoginAction::FindAuthUser
    }
}

/// What a login does once the store has answered for the name.
pub open spec fn spec_login_after_lookup(auth_user: Option<AuthUserModel>, secret: Seq<char>) -> LoginAction {
    match auth_user {
        Some(found) => if spec_password_accepted(found.password_hash@, secret) {
            LoginAction::FindUser(found.user_id)
        } else {
            LoginAction::Reject(AuthError::WrongCredentials)
        },
        None => LoginAction::Reject(AuthError::WrongCredentials),
    }
}

/// Second step, once the store has answered for the name: unknown names and
/// wrong passwords are refused alike, as is a stored hash that cannot be
/// read.
pub fn login_check_password(payload: &AuthPayload, auth_user: Option<&AuthUserModel>) -> (r:
    LoginAction)
    ensures
        r == spec_login_after_lookup(
            match auth_user {
                Some(found) => Some(*found),
                None => None,
            },
            payload.client_secret@,
        ),
{
    match auth_user {
        None => LoginAction::Reject(AuthError::WrongCredentials),
        Some(found) => match validate_hash(&found.password_hash, &payload.client_secret) {
            Ok(true) => LoginAction::FindUser(found.user_id),
            _ => LoginAction::Reject(AuthError::WrongCredentials),
        },
    }
}

/// The claims of a login at `now`, once the store has answered for the user:
/// the name that was sent, the user's public identifier, the stored
/// permission string, and an expiry one lifetime after `now`. A login whose
/// user is gone is refused.
pub fn login_claims(
    payload: &AuthPayload,
    auth_user: &AuthUserModel,
    user: Option<&UserModel>,
    now: i64,
) -> (r: Result<Claims, AuthError>)
    ensures
        match user {
            Some(found) => r matches Ok(claims) && claims.username@ == payload.client_id@
                && claims.user_public_id == found.publicid && claims.permissions_bitwise@
                == auth_user.permissions_bitwise@ && claims.exp == spec_expiry(now),
            None => r matches Err(e) && e == AuthError::WrongCredentials,
        },
{
    match user {
        None => Err(AuthError::WrongCredentials),
        Some(found) => Ok(
            Claims::issue(
                payload.client_id.clone(),
                found.publicid,
                auth_user.permissions_bitwise.clone(),
                now,
            ),
        ),
    }
}

/// The token of a login at `now`: the one that signing gives for the name
/// that was sent, the user's public identifier, the stored permission
/// string and an expiry one lifetime after `now`.
pub open spec fn spec_login_token(
    client_id: Seq<char>,
    publicid: u128,
    permissions_bitwise: Seq<char>,
    now: i64,
    secret: Seq<u8>,
) -> Seq<char> {
    signed_token(client_id, publicid, permissions_bitwise, spec_expiry(now), secret)
}

/// Last step of a login, at the time `now`: the token for the claims of a
/// login at that time, signed with `keys`. A login whose user is gone is
/// refused; every other login gets its token.
pub fn login_finish_at(
    payload: &AuthPayload,
    auth_user: &AuthUserModel,
    user: Option<&UserModel>,
    keys: &Keys,
    now: i64,
) -> (r: Result<AuthBodyDto, AuthError>)
    ensures
        match user {
            None => r matches Err(e) && e == AuthError::WrongCredentials,
            Some(found) => r matches Ok(body) && body.token_type@ == "Bearer"@
                && body.access_token@ == spec_login_token(
                payload.client_id@,
                found.publicid,
                auth_user.permissions_bitwise@,
                now,
                keys@,
            ),
        },
{
    match login_claims(payload, auth_user, user, now) {
        Err(e) => Err(e),
        Ok(claims) => claims.sign(keys),
    }
}

/// Last step of a login: `login_finish_at` for the time that the clock
/// shows, which is not before the epoch.
pub fn login_finish(
    payload: &AuthPayload,
    auth_user: &AuthUserModel,
    user: Option<&UserModel>,
    keys: &Keys,
) -> (r: Result<AuthBodyDto, AuthError>)
    ensures
        match user {
            None => r matches Err(e) && e == AuthError::WrongCredentials,
            Some(found) => r matches Ok(body) && body.token_type@ == "Bearer"@ && exists|now: i64|
                now >= 0 && body.access_token@ == #[trigger] spec_login_token(
                    payload.client_id@,
                    found.publicid,
                    auth_user.permissions_bitwise@,
                    now,
                    keys@,
                ),
        },
{
    let now = unix_now();
    let answer = login_finish_at(payload, auth_user, user, keys, now);
    proof {
        if user is Some && answer is Ok {
            assert(answer->Ok_0.access_token@ == spec_login_token(
                payload.client_id@,
                user->0.publicid,
                auth_user.permissions_bitwise@,
                now,
                keys@,
            ));
        }
    }
    answer
}

/// The name and the password that a sign-up sends.
#[derive(Debug, Clone, PartialEq, Eq)]
pub struct UserSignUpDto {
    pub username: String,
    pub password: String,
}

/// First step of a sign-up, once the store has answered whether the name
/// is taken: the user record to create, or a refusal.
pub fn sign_up_user(dto: &UserSignUpDto, name_taken: bool) -> (r: Result<UserModel, AppError>)
    ensures
        match r {
            Ok(user) => !name_taken && user.id == 0 && user.publicid & UUID_KIND_MASK
                == UUID_RANDOM_KIND && user.username@ == dto.username@ && user.first_name@.len() == 0 && user.last_name@.len() == 0
                && user.discord_username@.len() == 0 && user.steam_url@.len() == 0,
            Err(e) => name_taken && e.error_type == AppErrorEnum::BadRequestError && e.message@
                == "User already exists"@,
        },
{
    if name_taken {
        return Err(AppError::with_message(AppErrorEnum::BadRequestError, "User already exists"));
    }
    let mut user_model = UserModel::new();
    user_model.username = dto.username.clone();
    Ok(user_model)
}

/// Second step of a sign-up, once the store has answered for the new user:
/// the credentials to create, with the hashed password and the permissions
/// that every new identity has. A sign-up whose user was not created is
/// refused, and so is one whose password is too long to be hashed; every
/// other sign-up gets its credentials.
pub fn sign_up_credentials(dto: &UserSignUpDto, created: Option<&UserModel>) -> (r: Result<
    AuthUserModel,
    AppError,
>)
    ensures
        match created {
            None => r matches Err(e) && e.error_type == AppErrorEnum::InternalServerError
                && e.message@ == "Could not create user"@,
            Some(user) => match r {
                Ok(auth) => auth.id == 0 && auth.user_id == user.id && auth.username@
                    == dto.username@ && spec_password_accepted(
                    auth.password_hash@,
                    dto.password@,
                ) && auth.permissions_bitwise@ == PermissionsManager::spec_default().spec_token()
                    && auth.created_at == 0 && auth.updated_at == 0,
                Err(e) => !spec_hashable(dto.password@) && e.error_type
                    == AppErrorEnum::InternalServerError && e.message@
                    == "Could not generate hash"@,
            },
        },
{
    match created {
        None => Err(
            AppError::with_message(AppErrorEnum::InternalServerError, "Could not create user"),
        ),
        Some(user) => sign_up_record(dto, user, generate_hash(&dto.password)),
    }
}

/// The credentials of a new user, from the outcome of hashing the password:
/// a record that is not stored yet, for that user, under the name that was
/// sent, with the hash and with the permissions that every new identity
/// has; or the refusal for a password that could not be hashed.
pub fn sign_up_record(dto: &UserSignUpDto, user: &UserModel, hashed: Result<String, CryptoError>) -> (r:
    Result<AuthUserModel, AppError>)
    ensures
        match hashed {
            Ok(hash) => r matches Ok(auth) && auth.id == 0 && auth.user_id == user.id
                && auth.username@ == dto.username@ && auth.password_hash@ == hash@
                && auth.permissions_bitwise@ == PermissionsManager::spec_default().spec_token()
                && auth.created_at == 0 && auth.updated_at == 0,
            Err(_) => r matches Err(e) && e.error_type == AppErrorEnum::InternalServerError
                && e.message@ == "Could not generate hash"@,
        },
{
    match hashed {
        Err(_) => Err(
            AppError::with_message(AppErrorEnum::InternalServerError, "Could not generate hash"),
        ),
        Ok(password_hash) => Ok(
            AuthUserModel {
                id: 0,
                user_id: user.id,
                username: dto.username.clone(),
                password_hash,
                permissions_bitwise: PermissionsManager::get_default_permissions_bitwise(),
                created_at: 0,
                updated_at: 0,
            },
        ),
    }
}

/// Last step of a sign-up, once the store has answered for the new
/// credentials: the status of the response.
pub fn sign_up_finish(created: Option<&AuthUserModel>) -> (r: Result<u16, AppError>)
    ensures
        match r {
            Ok(status) => created is Some && status == 200,
            Err(e) => created is None && e.error_type == AppErrorEnum::InternalServerError
                && e.message@ == "Could not create auth user"@,
        },
{
    match created {
        None => Err(AppError::with_message(AppErrorEnum::InternalServerError, "Could not create auth user")),
        Some(_) => Ok(200),
    }
}

/// The credentials that a sign-up stores open the login that sends the
/// same password: the second step of that login asks for the user that the
/// sign-up created.
pub proof fn lemma_sign_up_opens_login(
    stored: AuthUserModel,
    password: Seq<char>,
    payload: AuthPayload,
)
    requires
        spec_password_accepted(stored.password_hash@, password),
        payload.client_secret@ == password,
    ensures
        spec_login_after_lookup(Some(stored), payload.client_secret@) == LoginAction::FindUser(
            stored.user_id,
        ),
{
}

} // verus!
