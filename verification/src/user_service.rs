//! Reading, creating and editing users: what each request is allowed to do
//! and what is done with each answer of the store.

use vstd::prelude::*;
use vstd::string::*;
use crate::errors::{AppError, AppErrorEnum};
use crate::ids::{parse_public_id, uuid_of_text, UUID_KIND_MASK, UUID_RANDOM_KIND};
use crate::permission_constants::{USER_READ_PERMISSION, USER_WRITE_PERMISSION};
use crate::permission_manager::PermissionsManager;
use crate::text::{is_blank, str_eq};
use crate::user::{EditUserPayloadDto, UserDto, UserModel};

verus! {

/// The column by which a user is looked up.
#[derive(Debug, Clone, Copy, PartialEq, Eq, Structural)]
pub enum GetUserType {
    Username,
    PublicId,
    DiscordUsername,
    SteamUrl,
}

impl GetUserType {
    /// The column that a name denotes, if it denotes one.
    pub open spec fn spec_from_str(s: Seq<char>) -> Option<GetUserType> {
        if s == "username"@ {
            Some(GetUserType::Username)
        } else if s == "public_id"@ {
            Some(GetUserType::PublicId)
        } else if s == "discord_username"@ {
            Some(GetUserType::DiscordUsername)
        } else if s == "steam_url"@ {
            Some(GetUserType::SteamUrl)
        } else {
            None
        }
    }

    /// Reads the name of a column.
    pub fn from_str(s: &str) -> (r: Result<GetUserType, ()>)
        ensures
            match r {
                Ok(kind) => Self::spec_from_str(s@) == Some(kind),
                Err(_) => Self::spec_from_str(s@) is None,
            },
    {
        if str_eq(s, "username") {
            Ok(GetUserType::Username)
        } else if str_eq(s, "public_id") {
            Ok(GetUserType::PublicId)
        } else if str_eq(s, "discord_username") {
            Ok(GetUserType::DiscordUsername)
        } else if str_eq(s, "steam_url") {
            Ok(GetUserType::SteamUrl)
        } else {
            Err(())
        }
    }
}

/// A lookup that the store is asked to make.
#[derive(Debug, Clone, PartialEq, Eq)]
pub enum UserQuery {
    Username(String),
    PublicId(u128),
    DiscordUsername(String),
    SteamUrl(String),
}

/// A refusal with the status and the text of its response.
#[derive(Debug, Clone, PartialEq, Eq)]
pub struct Rejection {
    pub status: u16,
    pub message: &'static str,
}

/// Why no lookup is made for a column name and a value: the text with which
/// the request is refused as a bad request, or `None` where the store is
/// asked. The column must be one of the four, and the value of a public
/// identifier must read as one.
pub open spec fn spec_user_query_refusal(get_type: Seq<char>, value: Seq<char>) -> Option<
    Seq<char>,
> {
    match GetUserType::spec_from_str(get_type) {
        None => Some("MissingField"@),
        Some(GetUserType::PublicId) => if uuid_of_text(value) is None {
            Some("Invalid UUID"@)
        } else {
            None
        },
        Some(_) => None,
    }
}

/// The lookup for a column name and a value, where one is made: the store
/// is asked for this and for nothing else.
pub fn user_query(get_type: &str, value: &String) -> (r: Result<UserQuery, AppError>)
    ensures
        match spec_user_query_refusal(get_type@, value@) {
            Some(text) => r matches Err(e) && e.error_type == AppErrorEnum::BadRequestError
                && e.message@ == text,
            None => match GetUserType::spec_from_str(get_type@) {
                Some(GetUserType::Username) => r matches Ok(UserQuery::Username(name)) && name@
                    == value@,
                Some(GetUserType::DiscordUsername) => r matches Ok(
                    UserQuery::DiscordUsername(name),
                ) && name@ == value@,
                Some(GetUserType::SteamUrl) => r matches Ok(UserQuery::SteamUrl(url)) && url@
                    == value@,
                _ => r matches Ok(UserQuery::PublicId(id)) && Some(id) == uuid_of_text(value@),
            },
        },
{
    let user_type = match GetUserType::from_str(get_type) {
        Err(_) => {
            return Err(AppError::with_message(AppErrorEnum::BadRequestError, "MissingField"));
        },
        Ok(kind) => kind,
    };
    match user_type {
        GetUserType::Username => Ok(UserQuery::Username(value.clone())),
        GetUserType::PublicId => match parse_public_id(value.as_str()) {
            Some(id) => Ok(UserQuery::PublicId(id)),
            None => Err(AppError::with_message(AppErrorEnum::BadRequestError, "Invalid UUID")),
        },
        GetUserType::DiscordUsername => Ok(UserQuery::DiscordUsername(value.clone())),
        GetUserType::SteamUrl => Ok(UserQuery::SteamUrl(value.clone())),
    }
}

/// The answer of a lookup as a service hands it on: the user as shown, or
/// `NotFoundError` where the store holds nobody for what was asked.
pub fn user_found(found: Option<&UserModel>) -> (r: Result<UserDto, AppError>)
    ensures
        match found {
            Some(model) => r matches Ok(dto) && dto.spec_shows(*model),
            None => r matches Err(e) && e.error_type == AppErrorEnum::NotFoundError && e.message@
                == "User not found"@,
        },
{
    match found {
        Some(model) => Ok(UserDto::from_model(model)),
        None => Err(AppError::with_message(AppErrorEnum::NotFoundError, "User not found")),
    }
}

/// Reading a user by a column name and a value, given what the store
/// answered to `user_query`. A request for which no lookup is made is a bad
/// request, whatever is handed in as the answer; a lookup that found
/// nobody ends in `NotFoundError`, never in a made-up user; a lookup that
/// found a user ends in that user as shown.
pub fn get_user_by_type(get_type: &str, value: &String, found: Option<&UserModel>) -> (r: Result<
    UserDto,
    AppError,
>)
    ensures
        match spec_user_query_refusal(get_type@, value@) {
            Some(text) => r matches Err(e) && e.error_type == AppErrorEnum::BadRequestError
                && e.message@ == text,
            None => match found {
                Some(model) => r matches Ok(dto) && dto.spec_shows(*model),
                None => r matches Err(e) && e.error_type == AppErrorEnum::NotFoundError
                    && e.message@ == "User not found"@,
            },
        },
{
    match user_query(get_type, value) {
        Err(e) => Err(e),
        Ok(_) => user_found(found),
    }
}

/// What stands between a request to read a user and the lookup: the read
/// permission on users, and a column name and a value that are not empty.
pub open spec fn spec_get_user_refusal(
    permissions: PermissionsManager,
    get_type: Seq<char>,
    value: Seq<char>,
) -> Option<(AppErrorEnum, Seq<char>)> {
    if !permissions.user_permissions.spec_has(USER_READ_PERMISSION) {
        Some((AppErrorEnum::InsufficientPermissions, "InsufficientPermissions"@))
    } else if get_type.len() == 0 || value.len() == 0 {
        Some((AppErrorEnum::BadRequestError, "MissingField"@))
    } else {
        None
    }
}

/// First step of reading a user: the lookup to make, for a bearer who may
/// read users and a request that names a column and a value; else the
/// refusal, and the store is not asked.
pub fn get_user_query(permissions: &PermissionsManager, get_type: &String, value: &String) -> (r:
    Result<UserQuery, AppError>)
    ensures
        match spec_get_user_refusal(*permissions, get_type@, value@) {
            Some(refusal) => r matches Err(e) && e.error_type == refusal.0 && e.message@
                == refusal.1,
            None => match spec_user_query_refusal(get_type@, value@) {
                Some(text) => r matches Err(e) && e.error_type == AppErrorEnum::BadRequestError
                    && e.message@ == text,
                None => match GetUserType::spec_from_str(get_type@) {
                    Some(GetUserType::Username) => r matches Ok(UserQuery::Username(name))
                        && name@ == value@,
                    Some(GetUserType::DiscordUsername) => r matches Ok(
                        UserQuery::DiscordUsername(name),
                    ) && name@ == value@,
                    Some(GetUserType::SteamUrl) => r matches Ok(UserQuery::SteamUrl(url)) && url@
                        == value@,
                    _ => r matches Ok(UserQuery::PublicId(id)) && Some(id) == uuid_of_text(
                        value@,
                    ),
                },
            },
        },
{
    match get_user_allowed(permissions, get_type, value) {
        Err(e) => Err(e),
        Ok(_) => user_query(get_type.as_str(), value),
    }
}

/// Whether a request to read a user gets as far as the lookup.
fn get_user_allowed(permissions: &PermissionsManager, get_type: &String, value: &String) -> (r:
    Result<(), AppError>)
    ensures
        match spec_get_user_refusal(*permissions, get_type@, value@) {
            Some(refusal) => r matches Err(e) && e.error_type == refusal.0 && e.message@
                == refusal.1,
            None => r is Ok,
        },
{
    if !permissions.user_permissions.has_permission(USER_READ_PERMISSION) {
        return Err(
            AppError::with_message(AppErrorEnum::InsufficientPermissions, "InsufficientPermissions"),
        );
    }
    if is_blank(get_type) || is_blank(value) {
        return Err(AppError::with_message(AppErrorEnum::BadRequestError, "MissingField"));
    }
    Ok(())
}

/// Reading a user, given what the store answered to `get_user_query`: the
/// refusal for a bearer who may not read users or a request without a
/// column or a value, whatever is handed in as the answer; else what
/// `get_user_by_type` makes of the request and the answer.
pub fn get_user(
    permissions: &PermissionsManager,
    get_type: &String,
    value: &String,
    found: Option<&UserModel>,
) -> (r: Result<UserDto, AppError>)
    ensures
        match spec_get_user_refusal(*permissions, get_type@, value@) {
            Some(refusal) => r matches Err(e) && e.error_type == refusal.0 && e.message@
                == refusal.1,
            None => match spec_user_query_refusal(get_type@, value@) {
                Some(text) => r matches Err(e) && e.error_type == AppErrorEnum::BadRequestError
                    && e.message@ == text,
                None => match found {
                    Some(model) => r matches Ok(dto) && dto.spec_shows(*model),
                    None => r matches Err(e) && e.error_type == AppErrorEnum::NotFoundError
                        && e.message@ == "User not found"@,
                },
            },
        },
{
    match get_user_allowed(permissions, get_type, value) {
        Err(e) => Err(e),
        Ok(_) => get_user_by_type(get_type.as_str(), value, found),
    }
}

/// First step of creating a user: the write permission on users.
pub fn create_user_allowed(permissions: &PermissionsManager) -> (r: Result<(), Rejection>)
    ensures
        match r {
            Ok(_) => permissions.user_permissions.spec_has(USER_WRITE_PERMISSION),
            Err(refusal) => !permissions.user_permissions.spec_has(USER_WRITE_PERMISSION)
                && refusal.status == 401 && refusal.message@ == "InsufficientPermissions"@,
        },
{
    if !permissions.user_permissions.has_permission(USER_WRITE_PERMISSION) {
        Err(Rejection { status: 401, message: "InsufficientPermissions" })
    } else {
        Ok(())
    }
}

/// Second step, once the store has answered for the name: the record to
/// create, unless the name is taken.
pub fn create_user_record(existing: Option<&UserModel>, username: &String) -> (r: Result<
    UserModel,
    Rejection,
>)
    ensures
        match r {
            Ok(user) => existing is None && user.id == 0 && user.publicid & UUID_KIND_MASK
                == UUID_RANDOM_KIND && user.username@ == username@ && user.first_name@.len() == 0 && user.last_name@.len() == 0
                && user.discord_username@.len() == 0 && user.steam_url@.len() == 0,
            Err(refusal) => existing is Some && refusal.status == 401 && refusal.message@
                == "User already exists"@,
        },
{
    if existing.is_some() {
        return Err(Rejection { status: 401, message: "User already exists" });
    }
    let mut new_user = UserModel::new();
    new_user.username = username.clone();
    Ok(new_user)
}

/// What stands between a request to edit the own record and the store: the
/// write permission on users, and a payload without an empty field.
pub open spec fn spec_edit_user_refusal(
    permissions: PermissionsManager,
    payload: EditUserPayloadDto,
) -> Option<(AppErrorEnum, Seq<char>)> {
    if !permissions.user_permissions.spec_has(USER_WRITE_PERMISSION) {
        Some((AppErrorEnum::InsufficientPermissions, "InsufficientPermissions"@))
    } else if !payload.spec_is_complete() {
        Some((AppErrorEnum::BadRequestError, "Missing Field"@))
    } else {
        None
    }
}

/// First step of editing the own record.
pub fn edit_user_check(permissions: &PermissionsManager, payload: &EditUserPayloadDto) -> (r: Result<
    (),
    AppError,
>)
    ensures
        match spec_edit_user_refusal(*permissions, *payload) {
            Some(refusal) => r matches Err(e) && e.error_type == refusal.0 && e.message@
                == refusal.1,
            None => r is Ok,
        },
{
    if !permissions.user_permissions.has_permission(USER_WRITE_PERMISSION) {
        return Err(
            AppError::with_message(AppErrorEnum::InsufficientPermissions, "InsufficientPermissions"),
        );
    }
    if !payload.is_complete() {
        return Err(AppError::with_message(AppErrorEnum::BadRequestError, "Missing Field"));
    }
    Ok(())
}

/// Second step, once the store has answered for the bearer's own record.
pub fn edit_user_owner(user: Option<UserModel>) -> (r: Result<UserModel, AppError>)
    ensures
        match user {
            Some(found) => r matches Ok(same) && same == found,
            None => r matches Err(e) && e.error_type == AppErrorEnum::BadRequestError
                && e.message@ == "User not found"@,
        },
{
    match user {
        Some(found) => Ok(found),
        None => Err(AppError::with_message(AppErrorEnum::BadRequestError, "User not found")),
    }
}

/// Somebody other than `own` holds the value.
pub open spec fn spec_held_by_other(holder: Option<u128>, own: u128) -> bool {
    holder is Some && holder->0 != own
}

/// Third step, once the store has answered who holds the new name, the new
/// Discord name and the new Steam address: the record with the new values,
/// unless somebody else holds one of them.
pub fn edit_user_apply(
    user: UserModel,
    username_holder: Option<u128>,
    discord_holder: Option<u128>,
    steam_holder: Option<u128>,
    payload: EditUserPayloadDto,
) -> (r: Result<UserModel, AppError>)
    ensures
        if spec_held_by_other(username_holder, user.publicid) || spec_held_by_other(
            discord_holder,
            user.publicid,
        ) || spec_held_by_other(steam_holder, user.publicid) {
            r matches Err(e) && e.error_type == AppErrorEnum::UserMismatch && e.message@
                == "User mismatch"@
        } else {
            r matches Ok(edited) && edited.id == user.id && edited.publicid == user.publicid
                && edited.username@ == payload.new_username@ && edited.first_name@
                == payload.new_first_name@ && edited.last_name@ == payload.new_last_name@
                && edited.discord_username@ == payload.new_discord_username@
                && edited.steam_url@ == payload.new_steam_url@
        },
{
    if held_by_other(username_holder, user.publicid) || held_by_other(
        discord_holder,
        user.publicid,
    ) || held_by_other(steam_holder, user.publicid) {
        return Err(AppError::with_message(AppErrorEnum::UserMismatch, "User mismatch"));
    }
    let mut user = user;
    user.username = payload.new_username;
    user.first_name = payload.new_first_name;
    user.last_name = payload.new_last_name;
    user.discord_username = payload.new_discord_username;
    user.steam_url = payload.new_steam_url;
    Ok(user)
}

fn held_by_other(holder: Option<u128>, own: u128) -> (r: bool)
    ensures
        r == spec_held_by_other(holder, own),
{
    match holder {
        Some(id) => id != own,
        None => false,
    }
}

/// Last step, once the store has answered for the save.
pub fn edit_user_finish(saved: bool) -> (r: Result<&'static str, AppError>)
    ensures
        match r {
            Ok(text) => saved && text@ == "User updated"@,
            Err(e) => !saved && e.error_type == AppErrorEnum::InternalServerError && e.message@
                == "User update failed"@,
        },
{
    if saved {
        Ok("User updated")
    } else {
        Err(AppError::with_message(AppErrorEnum::InternalServerError, "User update failed"))
    }
}

} // verus!
