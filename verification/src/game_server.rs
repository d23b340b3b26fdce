//! Game servers: the stored record, its forms, and the steps of registering
//! and unregistering one.

use vstd::prelude::*;
use crate::errors::{AppError, AppErrorEnum};
use crate::ids::{new_public_id, parse_public_id, uuid_of_text, UUID_KIND_MASK, UUID_RANDOM_KIND};
use crate::text::is_blank;

verus! {

/// A game server as the database keeps it.
#[derive(Debug, Clone, PartialEq, Eq)]
pub struct GameServerModel {
    pub id: i32,
    pub publicid: u128,
    pub game_server_title: String,
    pub game_type: String,
}

/// A game server that is to be inserted.
#[derive(Debug, Clone, PartialEq, Eq)]
pub struct NewGameServerModel {
    pub publicid: u128,
    pub game_server_title: String,
    pub game_type: String,
}

/// The columns of a game server that an update writes.
#[derive(Debug, Clone, PartialEq, Eq)]
pub struct UpdateGameServerModel {
    pub id: i32,
    pub publicid: u128,
    pub game_server_title: String,
    pub game_type: String,
}

/// What a request to register a game server names.
#[derive(Debug, Clone, PartialEq, Eq)]
pub struct CreateGameServerPayload {
    pub game_server_title: String,
    pub game_type: String,
}

/// A game server as requests and responses show it.
#[derive(Debug, Clone, PartialEq, Eq)]
pub struct GameServerDto {
    pub id: Option<i32>,
    pub publicid: Option<u128>,
    pub game_server_title: String,
    pub game_type: String,
}

impl GameServerDto {
    /// The game server as it is shown.
    pub fn from_model(model: &GameServerModel) -> (r: Self)
        ensures
            r.id == Some(model.id),
            r.publicid == Some(model.publicid),
            r.game_server_title@ == model.game_server_title@,
            r.game_type@ == model.game_type@,
    {
        GameServerDto {
            id: Some(model.id),
            publicid: Some(model.publicid),
            game_server_title: model.game_server_title.clone(),
            game_type: model.game_type.clone(),
        }
    }

    /// Title and game type both hold some text.
    pub open spec fn spec_is_valid(&self) -> bool {
        self.game_server_title@.len() != 0 && self.game_type@.len() != 0
    }

    /// Accepts a request that names both a title and a game type.
    pub fn validate(&self) -> (r: Result<bool, AppError>)
        ensures
            match r {
                Ok(valid) => valid && self.spec_is_valid(),
                Err(e) => !self.spec_is_valid() && e.error_type == AppErrorEnum::BadRequestError
                    && e.message@ == "server_name or game_type cannot be empty"@,
            },
    {
        if is_blank(&self.game_server_title) || is_blank(&self.game_type) {
            return Err(
                AppError::with_message(
                    AppErrorEnum::BadRequestError,
                    "server_name or game_type cannot be empty",
                ),
            );
        }
        Ok(true)
    }
}

impl GameServerModel {
    /// Neither a title nor a game type.
    pub open spec fn spec_is_empty(&self) -> bool {
        self.game_server_title@.len() == 0 && self.game_type@.len() == 0
    }

    /// An empty record under a fresh public identifier.
    pub fn new() -> (r: GameServerModel)
        ensures
            r.id == 0,
            r.spec_is_empty(),
            r.publicid & UUID_KIND_MASK == UUID_RANDOM_KIND,
    {
        GameServerModel {
            id: 0,
            publicid: new_public_id(),
            game_server_title: String::new(),
            game_type: String::new(),
        }
    }

    /// A record that is not stored yet, under a fresh public identifier.
    pub fn from_create_game_server_paylaod(payload: CreateGameServerPayload) -> (r: Self)
        ensures
            r.id == 0,
            r.publicid & UUID_KIND_MASK == UUID_RANDOM_KIND,
            r.game_server_title@ == payload.game_server_title@,
            r.game_type@ == payload.game_type@,
    {
        GameServerModel {
            id: 0,
            publicid: new_public_id(),
            game_server_title: payload.game_server_title,
            game_type: payload.game_type,
        }
    }

    /// A record that is not stored yet, under a fresh public identifier,
    /// whatever identifiers the request named.
    pub fn new_from_dto(dto: GameServerDto) -> (r: Self)
        ensures
            r.id == 0,
            r.publicid & UUID_KIND_MASK == UUID_RANDOM_KIND,
            r.game_server_title@ == dto.game_server_title@,
            r.game_type@ == dto.game_type@,
    {
        GameServerModel {
            id: 0,
            publicid: new_public_id(),
            game_server_title: dto.game_server_title,
            game_type: dto.game_type,
        }
    }

    /// Whether the record has neither a title nor a game type.
    pub fn is_empty(&self) -> (r: bool)
        ensures
            r == self.spec_is_empty(),
    {
        is_blank(&self.game_server_title) && is_blank(&self.game_type)
    }

    /// Whether the record has not been stored yet, so that saving it
    /// inserts.
    pub fn is_new(&self) -> (r: bool)
        ensures
            r == (self.id == 0),
    {
        self.id == 0
    }

    /// The row to insert: title and game type under a fresh public
    /// identifier.
    pub fn create_new_game_server_for_db(&self) -> (r: NewGameServerModel)
        ensures
            r.publicid & UUID_KIND_MASK == UUID_RANDOM_KIND,
            r.game_server_title@ == self.game_server_title@,
            r.game_type@ == self.game_type@,
    {
        NewGameServerModel {
            publicid: new_public_id(),
            game_server_title: self.game_server_title.clone(),
            game_type: self.game_type.clone(),
        }
    }

    /// The columns to update, for the row with the record's id; the public
    /// identifier is renewed.
    pub fn create_update_game_server_for_db(&self) -> (r: UpdateGameServerModel)
        ensures
            r.id == self.id,
            r.publicid & UUID_KIND_MASK == UUID_RANDOM_KIND,
            r.game_server_title@ == self.game_server_title@,
            r.game_type@ == self.game_type@,
    {
        UpdateGameServerModel {
            id: self.id,
            publicid: new_public_id(),
            game_server_title: self.game_server_title.clone(),
            game_type: self.game_type.clone(),
        }
    }
}

/// First step of registering a game server: the record to store, if the
/// request is valid.
pub fn register_server(payload: GameServerDto) -> (r: Result<GameServerModel, AppError>)
    ensures
        match r {
            Ok(model) => payload.spec_is_valid() && model.id == 0 && model.publicid
                & UUID_KIND_MASK == UUID_RANDOM_KIND && model.game_server_title@
                == payload.game_server_title@ && model.game_type@ == payload.game_type@,
            Err(e) => !payload.spec_is_valid() && e.error_type == AppErrorEnum::BadRequestError
                && e.message@ == "server_name or game_type cannot be empty"@,
        },
{
    match payload.validate() {
        Err(e) => Err(e),
        Ok(_) => Ok(GameServerModel::new_from_dto(payload)),
    }
}

/// Last step of registering, once the store has answered: the public
/// identifier of the stored record.
pub fn register_server_finish(stored: Option<&GameServerModel>) -> (r: Result<u128, AppError>)
    ensures
        match stored {
            Some(model) => r matches Ok(id) && id == model.publicid,
            None => r matches Err(e) && e.error_type == AppErrorEnum::DatabaseQueryError
                && e.message@ == "We were unable to create your server record"@,
        },
{
    match stored {
        Some(model) => Ok(model.publicid),
        None => Err(
            AppError::with_message(
                AppErrorEnum::DatabaseQueryError,
                "We were unable to create your server record",
            ),
        ),
    }
}

/// First step of unregistering a game server: the public identifier that
/// the request names.
pub fn unregister_server(server_public_id: &String) -> (r: Result<u128, AppError>)
    ensures
        if server_public_id@.len() == 0 {
            r matches Err(e) && e.error_type == AppErrorEnum::BadRequestError && e.message@
                == "public_id cannot be empty"@
        } else {
            match uuid_of_text(server_public_id@) {
                Some(id) => r matches Ok(found) && found == id,
                None => r matches Err(e) && e.error_type == AppErrorEnum::BadRequestError
                    && e.message@ == "invalid public_id"@,
            }
        },
{
    if is_blank(server_public_id) {
        return Err(
            AppError::with_message(AppErrorEnum::BadRequestError, "public_id cannot be empty"),
        );
    }
    match parse_public_id(server_public_id.as_str()) {
        Some(id) => Ok(id),
        None => Err(AppError::with_message(AppErrorEnum::BadRequestError, "invalid public_id")),
    }
}

/// Second step, once the store has answered for the identifier: the id of
/// the row to delete.
pub fn unregister_server_target(model: Option<&GameServerModel>) -> (r: Result<i32, AppError>)
    ensures
        match model {
            Some(found) => r matches Ok(id) && id == found.id,
            None => r matches Err(e) && e.error_type == AppErrorEnum::DatabaseQueryError
                && e.message@ == "We were unable to find your server record"@,
        },
{
    match model {
        Some(found) => Ok(found.id),
        None => Err(
            AppError::with_message(
                AppErrorEnum::DatabaseQueryError,
                "We were unable to find your server record",
            ),
        ),
    }
}

/// Last step, once the store has answered for the deletion with the number
/// of rows it deleted, if it could delete: the status of the response.
pub fn unregister_server_finish(deleted: Option<usize>) -> (r: Result<u16, AppError>)
    ensures
        match deleted {
            Some(rows) => r matches Ok(status) && status == if rows > 0 {
                200u16
            } else {
                500u16
            },
            None => r matches Err(e) && e.error_type == AppErrorEnum::DatabaseQueryError
                && e.message@ == "We were unable to delete your server record"@,
        },
{
    match deleted {
        Some(rows) => if rows > 0 {
            Ok(200)
        } else {
            Ok(500)
        },
        None => Err(
            AppError::with_message(
                AppErrorEnum::DatabaseQueryError,
                "We were unable to delete your server record",
            ),
        ),
    }
}

} // verus!
