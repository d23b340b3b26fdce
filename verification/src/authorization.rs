//! The check that stands before a protected operation: the bearer's claims
//! must carry a readable permission string, the string must grant what the
//! operation needs, and, where the operation belongs to one identity, the
//! bearer must be that identity or an administrator.

use vstd::prelude::*;
use crate::claims::Claims;
use crate::errors::{AppErrorEnum, AuthError};
use crate::permission_constants::ADMIN_READ_WRITE;
use crate::permission_manager::{FeatureArea, PermissionsManager};

verus! {

/// Why a bearer was refused.
#[derive(Debug, Clone, Copy, PartialEq, Eq, Structural)]
pub enum AuthzError {
    /// The permission string in the claims cannot be read.
    InvalidToken,
    /// The permission string does not grant what is needed.
    InsufficientPermissions,
    /// The operation belongs to another identity.
    UserMismatch,
}

impl AuthzError {
    /// The error kind under which the refusal is reported.
    pub open spec fn spec_kind(self) -> AppErrorEnum {
        match self {
            AuthzError::InvalidToken => AppErrorEnum::UnauthorizedError,
            AuthzError::InsufficientPermissions => AppErrorEnum::InsufficientPermissions,
            AuthzError::UserMismatch => AppErrorEnum::UserMismatch,
        }
    }

    /// The error kind under which the refusal is reported.
    pub fn kind(&self) -> (r: AppErrorEnum)
        ensures
            r == self.spec_kind(),
    {
        match self {
            AuthzError::InvalidToken => AppErrorEnum::UnauthorizedError,
            AuthzError::InsufficientPermissions => AppErrorEnum::InsufficientPermissions,
            AuthzError::UserMismatch => AppErrorEnum::UserMismatch,
        }
    }
}

/// An administrator holds the whole read-and-write group of the admin
/// area. One of the two bits alone does not make one.
pub open spec fn spec_is_admin(p: PermissionsManager) -> bool {
    p.admin_permissions.spec_has_group(ADMIN_READ_WRITE)
}

/// What `authorize` answers for a permission string.
pub open spec fn spec_authorize(token: Seq<char>, area: FeatureArea, bit: u32) -> Result<
    (),
    AuthzError,
> {
    match PermissionsManager::spec_parse(token) {
        Err(_) => Err(AuthzError::InvalidToken),
        Ok(p) => if p.spec_feature(area).spec_has(bit) {
            Ok(())
        } else {
            Err(AuthzError::InsufficientPermissions)
        },
    }
}

/// What `authorize_owner` answers for a permission string, the bearer and
/// the owner of what the operation touches.
pub open spec fn spec_authorize_owner(
    token: Seq<char>,
    subject: u128,
    area: FeatureArea,
    bit: u32,
    owner: u128,
) -> Result<(), AuthzError> {
    match spec_authorize(token, area, bit) {
        Err(e) => Err(e),
        Ok(_) => if subject == owner || spec_is_admin(PermissionsManager::spec_parse(token)->Ok_0) {
            Ok(())
        } else {
            Err(AuthzError::UserMismatch)
        },
    }
}

impl PermissionsManager {
    /// The permissions that the claims carry. A permission string that
    /// cannot be read makes the whole token invalid.
    pub fn from_claims(claims: &Claims) -> (r: Result<Self, AuthError>)
        ensures
            match PermissionsManager::spec_parse(claims.permissions_bitwise@) {
                Ok(p) => r == Ok::<PermissionsManager, AuthError>(p),
                Err(_) => r == Err::<PermissionsManager, AuthError>(AuthError::InvalidToken),
            },
    {
        match PermissionsManager::from_permissions_bitwise(&claims.permissions_bitwise) {
            Ok(p) => Ok(p),
            Err(_) => Err(AuthError::InvalidToken),
        }
    }

    /// Whether these are the permissions of an administrator: whether the
    /// admin mask covers the read-and-write group.
    pub fn is_admin(&self) -> (r: bool)
        ensures
            r == spec_is_admin(*self),
    {
        self.admin_permissions.has_permission_group(ADMIN_READ_WRITE)
    }
}

/// Lets the bearer pass where the claims grant `bit` in `area`.
pub fn authorize(claims: &Claims, area: FeatureArea, bit: u32) -> (r: Result<(), AuthzError>)
    ensures
        r == spec_authorize(claims.permissions_bitwise@, area, bit),
{
    match PermissionsManager::from_permissions_bitwise(&claims.permissions_bitwise) {
        Err(_) => Err(AuthzError::InvalidToken),
        Ok(p) => if p.has_permission(area, bit) {
            Ok(())
        } else {
            Err(AuthzError::InsufficientPermissions)
        },
    }
}

/// Lets the bearer pass where the claims grant `bit` in `area` and the
/// bearer is `owner` or an administrator. The grant alone does not open
/// what belongs to somebody else.
pub fn authorize_owner(claims: &Claims, area: FeatureArea, bit: u32, owner: u128) -> (r: Result<
    (),
    AuthzError,
>)
    ensures
        r == spec_authorize_owner(
            claims.permissions_bitwise@,
            claims.user_public_id,
            area,
            bit,
            owner,
        ),
{
    match PermissionsManager::from_permissions_bitwise(&claims.permissions_bitwise) {
        Err(_) => Err(AuthzError::InvalidToken),
        Ok(p) => if !p.has_permission(area, bit) {
            Err(AuthzError::InsufficientPermissions)
        } else if claims.user_public_id == owner || p.is_admin() {
            Ok(())
        } else {
            Err(AuthzError::UserMismatch)
        },
    }
}

/// Nobody passes without the grant, whoever owns the target, and nobody but
/// the owner and administrators passes to what is owned.
pub proof fn lemma_ownership_is_stricter(
    token: Seq<char>,
    subject: u128,
    area: FeatureArea,
    bit: u32,
    owner: u128,
)
    ensures
        spec_authorize_owner(token, subject, area, bit, owner) is Ok ==> spec_authorize(
            token,
            area,
            bit,
        ) is Ok,
        spec_authorize(token, area, bit) is Ok && subject == owner ==> spec_authorize_owner(
            token,
            subject,
            area,
            bit,
            owner,
        ) is Ok,
        spec_authorize(token, area, bit) is Ok && subject != owner && !spec_is_admin(
            PermissionsManager::spec_parse(token)->Ok_0,
        ) ==> spec_authorize_owner(token, subject, area, bit, owner) == Err::<(), AuthzError>(
            AuthzError::UserMismatch,
        ),
{
}

} // verus!
