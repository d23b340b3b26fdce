//! The credentials of a user: the stored record and the forms in which it
//! is inserted and updated.

use vstd::prelude::*;
use vstd::string::*;
use vstd::utf8::encode_utf8;

verus! {

/// Credentials as the database keeps them. Times are microseconds since the
/// Unix epoch.
#[derive(Debug, Clone, PartialEq, Eq)]
pub struct AuthUserModel {
    pub id: i32,
    pub user_id: i32,
    pub username: String,
    pub password_hash: String,
    pub permissions_bitwise: String,
    pub created_at: i64,
    pub updated_at: i64,
}

/// Credentials that are to be inserted.
#[derive(Debug, Clone, PartialEq, Eq)]
pub struct NewAuthUserModel {
    pub user_id: i32,
    pub username: String,
    pub password_hash: String,
    pub permissions_bitwise: String,
}

/// The columns of credentials that an update writes.
#[derive(Debug, Clone, PartialEq, Eq)]
pub struct UpdateAuthUserModel {
    pub id: i32,
    pub user_id: i32,
    pub username: String,
    pub password_hash: String,
    pub permissions_bitwise: String,
    pub updated_at: i64,
}

impl AuthUserModel {
    /// Credentials of nobody: no ids, no texts, times at the epoch.
    pub fn new() -> (r: AuthUserModel)
        ensures
            r.id == 0,
            r.user_id == 0,
            r.username@.len() == 0,
            r.password_hash@.len() == 0,
            r.permissions_bitwise@.len() == 0,
            r.created_at == 0,
            r.updated_at == 0,
    {
        AuthUserModel {
            id: 0,
            user_id: 0,
            username: String::new(),
            password_hash: String::new(),
            permissions_bitwise: String::new(),
            created_at: 0,
            updated_at: 0,
        }
    }

    /// The id under which the credentials are stored.
    pub fn get_id(&self) -> (r: i32)
        ensures
            r == self.id,
    {
        self.id
    }

    /// The stored password hash, as the bytes of its text.
    pub fn get_password_hash(&self) -> (r: Vec<u8>)
        ensures
            r@ == encode_utf8(self.password_hash@),
    {
        self.password_hash.as_str().as_bytes_vec()
    }

    /// Whether the record has not been stored yet, so that saving it
    /// inserts.
    pub fn is_new(&self) -> (r: bool)
        ensures
            r == (self.id == 0),
    {
        self.id == 0
    }

    /// The row to insert: everything but the id and the times, which the
    /// store sets.
    pub fn create_new_auth_user_for_db(&self) -> (r: NewAuthUserModel)
        ensures
            r.user_id == self.user_id,
            r.username@ == self.username@,
            r.password_hash@ == self.password_hash@,
            r.permissions_bitwise@ == self.permissions_bitwise@,
    {
        NewAuthUserModel {
            user_id: self.user_id,
            username: self.username.clone(),
            password_hash: self.password_hash.clone(),
            permissions_bitwise: self.permissions_bitwise.clone(),
        }
    }

    /// The columns to update, for the row with the record's id.
    pub fn create_update_auth_user_for_db(&self) -> (r: UpdateAuthUserModel)
        ensures
            r.id == self.id,
            r.user_id == self.user_id,
            r.username@ == self.username@,
            r.password_hash@ == self.password_hash@,
            r.permissions_bitwise@ == self.permissions_bitwise@,
            r.updated_at == self.updated_at,
    {
        UpdateAuthUserModel {
            id: self.id,
            user_id: self.user_id,
            username: self.username.clone(),
            password_hash: self.password_hash.clone(),
            permissions_bitwise: self.permissions_bitwise.clone(),
            updated_at: self.updated_at,
        }
    }
}

} // verus!
