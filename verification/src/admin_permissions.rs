//! Changing the permissions of an identity. Only an administrator may
//! change somebody else's permissions, and only an administrator may grant
//! anything in the admin area, to anybody, the own identity included. An
//! administrator is who holds the whole read-and-write group of the admin
//! area.

use vstd::prelude::*;
use crate::auth_user::AuthUserModel;
use crate::errors::{AppError, AppErrorEnum};
use crate::authorization::spec_is_admin;
use crate::permission_constants::ADMIN_READ_WRITE;
use crate::permission_manager::PermissionsManager;

verus! {

/// The identity and the permission string that a permission update names.
#[derive(Debug, Clone, PartialEq, Eq)]
pub struct PermissionUpdateDto {
    pub user_public_id: u128,
    pub permissions_bitwise: String,
}

/// Why an update of permissions is refused.
#[derive(Debug, Clone, Copy, PartialEq, Eq, Structural)]
pub enum UpdateRefusal {
    /// The actor is no administrator and names another identity.
    OtherUser,
    /// The actor is no administrator and the new permissions hold an admin
    /// bit.
    AdminGrant,
}

impl UpdateRefusal {
    /// The text with which the refusal is reported.
    pub open spec fn spec_message(self) -> Seq<char> {
        match self {
            UpdateRefusal::OtherUser => "Non admins can't edit other users permissions"@,
            UpdateRefusal::AdminGrant => "Non admins can't add admin permissions"@,
        }
    }

    /// The text with which the refusal is reported.
    pub fn message(&self) -> (r: &'static str)
        ensures
            r@ == self.spec_message(),
    {
        match self {
            UpdateRefusal::OtherUser => "Non admins can't edit other users permissions",
            UpdateRefusal::AdminGrant => "Non admins can't add admin permissions",
        }
    }
}

/// Whether the actor may give `target` the permissions `new`, and if not,
/// why.
pub open spec fn spec_update_refusal(
    actor: PermissionsManager,
    actor_id: u128,
    target: u128,
    new: PermissionsManager,
) -> Option<UpdateRefusal> {
    if target != actor_id && !spec_is_admin(actor) {
        Some(UpdateRefusal::OtherUser)
    } else if new.admin_permissions.bits != 0 && !spec_is_admin(actor) {
        Some(UpdateRefusal::AdminGrant)
    } else {
        None
    }
}

/// Decides whether the actor may give `target` the permissions `new`.
pub fn check_permission_update(
    permissions: &PermissionsManager,
    actor_public_id: u128,
    dto_user_public_id: u128,
    new_permissions: &PermissionsManager,
) -> (r: Option<UpdateRefusal>)
    ensures
        r == spec_update_refusal(*permissions, actor_public_id, dto_user_public_id, *new_permissions),
{
    let is_admin = permissions.is_admin();
    if dto_user_public_id != actor_public_id && !is_admin {
        return Some(UpdateRefusal::OtherUser);
    }
    if new_permissions.admin_permissions.any_permission() && !is_admin {
        return Some(UpdateRefusal::AdminGrant);
    }
    None
}

/// Accepts the update or refuses it as a bad request.
pub fn update_auth_user_permissions_validation(
    permissions: &PermissionsManager,
    actor_public_id: u128,
    dto_user_public_id: u128,
    new_permissions: &PermissionsManager,
) -> (r: Result<bool, AppError>)
    ensures
        match spec_update_refusal(
            *permissions,
            actor_public_id,
            dto_user_public_id,
            *new_permissions,
        ) {
            None => r matches Ok(accepted) && accepted,
            Some(refusal) => r matches Err(e) && e.error_type == AppErrorEnum::BadRequestError
                && e.message@ == refusal.spec_message(),
        },
{
    match check_permission_update(
        permissions,
        actor_public_id,
        dto_user_public_id,
        new_permissions,
    ) {
        None => Ok(true),
        Some(refusal) => Err(AppError::with_message(AppErrorEnum::BadRequestError, refusal.message())),
    }
}

/// First step of a permission update: reads the new permissions and decides
/// whether the actor may set them. A permission string that cannot be read
/// is a bad request; it is never taken for the empty set.
pub fn plan_permission_update(
    permissions: &PermissionsManager,
    actor_public_id: u128,
    dto: &PermissionUpdateDto,
) -> (r: Result<PermissionsManager, AppError>)
    ensures
        match PermissionsManager::spec_parse(dto.permissions_bitwise@) {
            Err(_) => r matches Err(e) && e.error_type == AppErrorEnum::BadRequestError
                && e.message@ == "Invalid permissions"@,
            Ok(new) => match spec_update_refusal(
                *permissions,
                actor_public_id,
                dto.user_public_id,
                new,
            ) {
                None => r matches Ok(accepted) && accepted == new,
                Some(refusal) => r matches Err(e) && e.error_type
                    == AppErrorEnum::BadRequestError && e.message@ == refusal.spec_message(),
            },
        },
{
    let new_permissions = match PermissionsManager::from_permissions_bitwise(
        &dto.permissions_bitwise,
    ) {
        Err(_) => {
            return Err(AppError::with_message(AppErrorEnum::BadRequestError, "Invalid permissions"));
        },
        Ok(p) => p,
    };
    match update_auth_user_permissions_validation(
        permissions,
        actor_public_id,
        dto.user_public_id,
        &new_permissions,
    ) {
        Err(e) => Err(e),
        Ok(_) => Ok(new_permissions),
    }
}

/// Second step, once the store has answered for the identity: the
/// credentials to save, with the new permission string and nothing else
/// changed.
pub fn apply_permission_update(auth_user: Option<AuthUserModel>, new_permissions: &PermissionsManager) -> (r:
    Result<AuthUserModel, AppError>)
    ensures
        match auth_user {
            None => r matches Err(e) && e.error_type == AppErrorEnum::NotFoundError && e.message@
                == "User not found"@,
            Some(before) => r matches Ok(after) && after.permissions_bitwise@
                == new_permissions.spec_token() && after.id == before.id && after.user_id
                == before.user_id && after.username@ == before.username@ && after.password_hash@
                == before.password_hash@ && after.created_at == before.created_at
                && after.updated_at == before.updated_at,
        },
{
    match auth_user {
        None => Err(AppError::with_message(AppErrorEnum::NotFoundError, "User not found")),
        Some(found) => {
            let mut auth_user = found;
            auth_user.permissions_bitwise = new_permissions.to_permissions_bitwise();
            Ok(auth_user)
        },
    }
}

/// An actor who does not hold the whole read-and-write group of the admin
/// area cannot give anybody an admin bit, whatever the target, the own
/// identity included, and whatever else the actor holds.
pub proof fn lemma_non_admin_cannot_grant_admin(
    actor: PermissionsManager,
    actor_id: u128,
    target: u128,
    new: PermissionsManager,
)
    requires
        !spec_is_admin(actor),
        new.admin_permissions.bits != 0,
    ensures
        spec_update_refusal(actor, actor_id, target, new) is Some,
        target == actor_id ==> spec_update_refusal(actor, actor_id, target, new) == Some(
            UpdateRefusal::AdminGrant,
        ),
{
}

/// An actor whose admin mask is empty is no administrator.
pub proof fn lemma_empty_admin_mask_is_no_admin(actor: PermissionsManager)
    requires
        actor.admin_permissions.bits == 0,
    ensures
        !spec_is_admin(actor),
{
    assert(0u32 & 0b0011u32 != 0b0011u32) by (bit_vector);
}

/// Part of the group is not enough: an actor whose admin mask overlaps the
/// read-and-write group without covering it is no administrator, and is
/// refused every grant in the admin area, for every target.
pub proof fn lemma_part_of_the_group_is_not_enough(
    actor: PermissionsManager,
    actor_id: u128,
    target: u128,
    new: PermissionsManager,
)
    requires
        actor.admin_permissions.bits & ADMIN_READ_WRITE != ADMIN_READ_WRITE,
        new.admin_permissions.bits != 0,
    ensures
        !spec_is_admin(actor),
        spec_update_refusal(actor, actor_id, target, new) is Some,
{
}

/// An administrator is never refused, whatever the target and the new
/// permissions.
pub proof fn lemma_admin_may_set_anything(
    actor: PermissionsManager,
    actor_id: u128,
    target: u128,
    new: PermissionsManager,
)
    requires
        spec_is_admin(actor),
    ensures
        spec_update_refusal(actor, actor_id, target, new) is None,
{
}

/// A permission string that is accepted from a non-administrator grants
/// nothing in the admin area.
pub proof fn lemma_accepted_update_keeps_admin_closed(
    actor: PermissionsManager,
    actor_id: u128,
    target: u128,
    new: PermissionsManager,
)
    requires
        !spec_is_admin(actor),
        spec_update_refusal(actor, actor_id, target, new) is None,
    ensures
        target == actor_id,
        new.admin_permissions.bits == 0,
        !spec_is_admin(new),
{
    lemma_empty_admin_mask_is_no_admin(new);
}

} // verus!
