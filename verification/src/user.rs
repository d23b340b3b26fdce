//! Users: the stored record, the forms in which it is inserted, updated and
//! shown, and the flat record of the file store.

use vstd::prelude::*;
use crate::ids::{new_public_id, UUID_KIND_MASK, UUID_RANDOM_KIND};
use crate::text::is_blank;

verus! {

/// A user as the file store keeps it.
#[derive(Debug, Clone, PartialEq, Eq)]
pub struct User {
    pub username: String,
    pub discord: String,
    pub steam: String,
    pub strike_count: u8,
}

impl User {
    /// No name, no Discord name, no Steam address and no strikes.
    pub open spec fn spec_is_empty(&self) -> bool {
        &&& self.username@.len() == 0
        &&& self.discord@.len() == 0
        &&& self.steam@.len() == 0
        &&& self.strike_count == 0
    }

    /// The record that stands for no user.
    pub fn new() -> (r: User)
        ensures
            r.spec_is_empty(),
    {
        User { username: String::new(), discord: String::new(), steam: String::new(), strike_count: 0 }
    }

    /// Whether this is the record that stands for no user.
    pub fn is_empty(&self) -> (r: bool)
        ensures
            r == self.spec_is_empty(),
    {
        is_blank(&self.username) && is_blank(&self.discord) && is_blank(&self.steam)
            && self.strike_count == 0
    }
}

/// A user as the database keeps it.
#[derive(Debug, Clone, PartialEq, Eq)]
pub struct UserModel {
    pub id: i32,
    pub publicid: u128,
    pub username: String,
    pub first_name: String,
    pub last_name: String,
    pub discord_username: String,
    pub steam_url: String,
}

/// A user that is to be inserted.
#[derive(Debug, Clone, PartialEq, Eq)]
pub struct NewUserModel {
    pub publicid: u128,
    pub username: String,
    pub first_name: String,
    pub last_name: String,
    pub discord_username: String,
    pub steam_url: String,
}

/// The columns of a user that an update writes. The public identifier is
/// not among them: it never changes.
#[derive(Debug, Clone, PartialEq, Eq)]
pub struct UpdateUserModel {
    pub id: i32,
    pub username: String,
    pub first_name: String,
    pub last_name: String,
    pub discord_username: String,
    pub steam_url: String,
}

impl UserModel {
    /// No id yet and no text in any column; the public identifier does not
    /// count.
    pub open spec fn spec_is_empty(&self) -> bool {
        &&& self.id == 0
        &&& self.username@.len() == 0
        &&& self.first_name@.len() == 0
        &&& self.last_name@.len() == 0
        &&& self.discord_username@.len() == 0
        &&& self.steam_url@.len() == 0
    }

    /// An empty record under a fresh public identifier.
    pub fn new() -> (r: UserModel)
        ensures
            r.spec_is_empty(),
            r.publicid & UUID_KIND_MASK == UUID_RANDOM_KIND,
    {
        UserModel::with_public_id(new_public_id())
    }

    /// An empty record under a given public identifier.
    pub fn with_public_id(publicid: u128) -> (r: UserModel)
        ensures
            r.spec_is_empty(),
            r.publicid == publicid,
    {
        UserModel {
            id: 0,
            publicid,
            username: String::new(),
            first_name: String::new(),
            last_name: String::new(),
            discord_username: String::new(),
            steam_url: String::new(),
        }
    }

    /// Whether the record has no id yet and no text in any column.
    pub fn is_empty(&self) -> (r: bool)
        ensures
            r == self.spec_is_empty(),
    {
        is_blank(&self.username) && self.id == 0 && is_blank(&self.first_name) && is_blank(
            &self.last_name,
        ) && is_blank(&self.discord_username) && is_blank(&self.steam_url)
    }

    /// Whether the record has not been stored yet, so that saving it
    /// inserts.
    pub fn is_new(&self) -> (r: bool)
        ensures
            r == (self.id == 0),
    {
        self.id == 0
    }

    /// The row to insert: the record's columns under a fresh public
    /// identifier.
    pub fn create_new_user_for_db(&self) -> (r: NewUserModel)
        ensures
            r.publicid & UUID_KIND_MASK == UUID_RANDOM_KIND,
            r.username@ == self.username@,
            r.first_name@ == self.first_name@,
            r.last_name@ == self.last_name@,
            r.discord_username@ == self.discord_username@,
            r.steam_url@ == self.steam_url@,
    {
        NewUserModel {
            publicid: new_public_id(),
            username: self.username.clone(),
            first_name: self.first_name.clone(),
            last_name: self.last_name.clone(),
            discord_username: self.discord_username.clone(),
            steam_url: self.steam_url.clone(),
        }
    }

    /// The columns to update, for the row with the record's id.
    pub fn create_update_user_for_db(&self) -> (r: UpdateUserModel)
        ensures
            r.id == self.id,
            r.username@ == self.username@,
            r.first_name@ == self.first_name@,
            r.last_name@ == self.last_name@,
            r.discord_username@ == self.discord_username@,
            r.steam_url@ == self.steam_url@,
    {
        UpdateUserModel {
            id: self.id,
            username: self.username.clone(),
            first_name: self.first_name.clone(),
            last_name: self.last_name.clone(),
            discord_username: self.discord_username.clone(),
            steam_url: self.steam_url.clone(),
        }
    }
}

/// A user as a response shows it.
#[derive(Debug, Clone, PartialEq, Eq)]
pub struct UserDto {
    pub id: i32,
    pub publicid: u128,
    pub username: String,
    pub first_name: String,
    pub last_name: String,
    pub discord_username: String,
    pub steam_url: String,
}

impl UserDto {
    /// This is `model` as it is shown: every column, unchanged.
    pub open spec fn spec_shows(&self, model: UserModel) -> bool {
        &&& self.id == model.id
        &&& self.publicid == model.publicid
        &&& self.username@ == model.username@
        &&& self.first_name@ == model.first_name@
        &&& self.last_name@ == model.last_name@
        &&& self.discord_username@ == model.discord_username@
        &&& self.steam_url@ == model.steam_url@
    }

    /// The user as it is shown.
    pub fn from_model(model: &UserModel) -> (r: Self)
        ensures
            r.id == model.id,
            r.publicid == model.publicid,
            r.username@ == model.username@,
            r.first_name@ == model.first_name@,
            r.last_name@ == model.last_name@,
            r.discord_username@ == model.discord_username@,
            r.steam_url@ == model.steam_url@,
    {
        UserDto {
            id: model.id,
            publicid: model.publicid,
            username: model.username.clone(),
            first_name: model.first_name.clone(),
            last_name: model.last_name.clone(),
            discord_username: model.discord_username.clone(),
            steam_url: model.steam_url.clone(),
        }
    }
}

/// The new values that a user sends to change the own record.
#[derive(Debug, Clone, PartialEq, Eq)]
pub struct EditUserPayloadDto {
    pub new_username: String,
    pub new_first_name: String,
    pub new_last_name: String,
    pub new_discord_username: String,
    pub new_steam_url: String,
}

impl EditUserPayloadDto {
    /// Every field holds some text.
    pub open spec fn spec_is_complete(&self) -> bool {
        &&& self.new_username@.len() != 0
        &&& self.new_first_name@.len() != 0
        &&& self.new_last_name@.len() != 0
        &&& self.new_discord_username@.len() != 0
        &&& self.new_steam_url@.len() != 0
    }

    /// Whether every field holds some text.
    pub fn is_complete(&self) -> (r: bool)
        ensures
            r == self.spec_is_complete(),
    {
        !(is_blank(&self.new_username) || is_blank(&self.new_first_name) || is_blank(
            &self.new_last_name,
        ) || is_blank(&self.new_discord_username) || is_blank(&self.new_steam_url))
    }
}

} // verus!
