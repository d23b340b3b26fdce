use access_core::admin_permissions::{
    apply_permission_update, check_permission_update, plan_permission_update,
    update_auth_user_permissions_validation, PermissionUpdateDto, UpdateRefusal,
};
use access_core::auth_user::AuthUserModel;
use access_core::authorization::{authorize, authorize_owner, AuthzError};
use access_core::claims::Claims;
use access_core::errors::{AppErrorEnum, AuthError};
use access_core::feature_permissions::FeaturePermissions;
use access_core::permission_constants::{
    ADMIN_READ_PERMISSION, ADMIN_WRITE_PERMISSION, EQUIP_READ_PERMISSION, USER_READ_PERMISSION,
    USER_WRITE_PERMISSION,
};
use access_core::permission_manager::{FeatureArea, PermissionsManager};

fn claims(id: u128, permissions: &str) -> Claims {
    Claims {
        username: "alice".to_string(),
        user_public_id: id,
        permissions_bitwise: permissions.to_string(),
        exp: 0,
    }
}

fn set(admin: u32, user: u32, equipment: u32) -> PermissionsManager {
    PermissionsManager {
        admin_permissions: FeaturePermissions { bits: admin },
        user_permissions: FeaturePermissions { bits: user },
        equipment_permissions: FeaturePermissions { bits: equipment },
    }
}

#[test]
fn authorize_follows_the_permission_string() {
    let c = claims(1, "0001-0011-0001");
    assert_eq!(authorize(&c, FeatureArea::Equipment, EQUIP_READ_PERMISSION), Ok(()));
    assert_eq!(
        authorize(&c, FeatureArea::Admin, ADMIN_WRITE_PERMISSION),
        Err(AuthzError::InsufficientPermissions)
    );
    assert_eq!(authorize(&c, FeatureArea::Admin, ADMIN_READ_PERMISSION), Ok(()));
    assert_eq!(authorize(&c, FeatureArea::User, USER_WRITE_PERMISSION), Ok(()));
    assert_eq!(
        authorize(&c, FeatureArea::Equipment, 0b1110),
        Err(AuthzError::InsufficientPermissions)
    );
    assert_eq!(authorize(&c, FeatureArea::User, 0), Err(AuthzError::InsufficientPermissions));
}

#[test]
fn corrupt_permission_string_is_an_invalid_token() {
    for bad in ["", "0001-0011", "0001-0011-000x", "1111-1111-1111-1111", "0001 0011 0001"] {
        let c = claims(1, bad);
        assert_eq!(
            authorize(&c, FeatureArea::User, USER_READ_PERMISSION),
            Err(AuthzError::InvalidToken),
            "{bad:?}"
        );
        assert_eq!(
            authorize_owner(&c, FeatureArea::User, USER_READ_PERMISSION, 1),
            Err(AuthzError::InvalidToken)
        );
        assert_eq!(PermissionsManager::from_claims(&c), Err(AuthError::InvalidToken));
    }
    assert_eq!(PermissionsManager::from_claims(&claims(1, "0001-0011-0001")), Ok(set(1, 3, 1)));
}

#[test]
fn ownership_is_checked_on_top_of_the_grant() {
    let owner = claims(7, "0000-0010-0000");
    assert_eq!(authorize_owner(&owner, FeatureArea::User, USER_WRITE_PERMISSION, 7), Ok(()));
    assert_eq!(
        authorize_owner(&owner, FeatureArea::User, USER_WRITE_PERMISSION, 8),
        Err(AuthzError::UserMismatch)
    );
    assert_eq!(
        authorize_owner(&owner, FeatureArea::User, USER_READ_PERMISSION, 7),
        Err(AuthzError::InsufficientPermissions)
    );
    assert_eq!(
        authorize_owner(&owner, FeatureArea::User, USER_READ_PERMISSION, 8),
        Err(AuthzError::InsufficientPermissions)
    );
    for whole_group in ["0011-0010-0000", "0111-0010-0000", "1111-0010-0000"] {
        let admin = claims(7, whole_group);
        assert_eq!(
            authorize_owner(&admin, FeatureArea::User, USER_WRITE_PERMISSION, 8),
            Ok(()),
            "{whole_group}"
        );
    }
    for part_or_none in ["0001-0010-0000", "0010-0010-0000", "1100-0010-0000", "1101-0010-0000"] {
        let no_admin = claims(7, part_or_none);
        assert_eq!(
            authorize_owner(&no_admin, FeatureArea::User, USER_WRITE_PERMISSION, 8),
            Err(AuthzError::UserMismatch),
            "{part_or_none}"
        );
        assert_eq!(
            authorize_owner(&no_admin, FeatureArea::User, USER_WRITE_PERMISSION, 7),
            Ok(()),
            "{part_or_none}"
        );
    }
}

#[test]
fn refusals_map_to_error_kinds() {
    assert_eq!(AuthzError::InvalidToken.kind(), AppErrorEnum::UnauthorizedError);
    assert_eq!(AuthzError::InsufficientPermissions.kind(), AppErrorEnum::InsufficientPermissions);
    assert_eq!(AuthzError::UserMismatch.kind(), AppErrorEnum::UserMismatch);
}

#[test]
fn administrator_holds_the_whole_read_write_group() {
    for bits in 0..16u32 {
        assert_eq!(set(bits, 0b1111, 0b1111).is_admin(), bits & 0b0011 == 0b0011, "{bits:04b}");
    }
    assert!(set(0b0011, 0, 0).is_admin());
    assert!(!set(0b0001, 0, 0).is_admin());
    assert!(!set(0b0010, 0, 0).is_admin());
    assert!(!set(0b1100, 0b1111, 0b1111).is_admin());
}

#[test]
fn holder_of_part_of_the_group_cannot_grant_admin_bits() {
    for actor_bits in [0b0001u32, 0b0010, 0b0100, 0b1000, 0b1101, 0b1110] {
        let actor = set(actor_bits, 0b1111, 0b1111);
        for wanted_bits in 1..16u32 {
            let wanted = set(wanted_bits, 1, 1);
            assert_eq!(
                check_permission_update(&actor, 5, 5, &wanted),
                Some(UpdateRefusal::AdminGrant)
            );
            assert_eq!(
                check_permission_update(&actor, 5, 6, &wanted),
                Some(UpdateRefusal::OtherUser)
            );
            let e = update_auth_user_permissions_validation(&actor, 5, 5, &wanted).unwrap_err();
            assert_eq!(e.error_type, AppErrorEnum::BadRequestError);
            assert_eq!(e.message, "Non admins can't add admin permissions");
        }
    }
    let e = plan_permission_update(
        &set(0b0001, 1, 1),
        5,
        &PermissionUpdateDto { user_public_id: 5, permissions_bitwise: "1111-0001-0001".to_string() },
    )
    .unwrap_err();
    assert_eq!(e.message, "Non admins can't add admin permissions");
}

#[test]
fn non_admin_cannot_grant_admin_bits_even_to_self() {
    let actor = set(0, 0b1111, 0b1111);
    for bit in [0b0001, 0b0010, 0b0100, 0b1000, 0b1111] {
        let wanted = set(bit, 1, 1);
        assert_eq!(check_permission_update(&actor, 5, 5, &wanted), Some(UpdateRefusal::AdminGrant));
        let e = update_auth_user_permissions_validation(&actor, 5, 5, &wanted).unwrap_err();
        assert_eq!(e.error_type, AppErrorEnum::BadRequestError);
        assert_eq!(e.message, "Non admins can't add admin permissions");
        assert_eq!(e.status_code(), 400);
        assert_eq!(check_permission_update(&actor, 5, 6, &wanted), Some(UpdateRefusal::OtherUser));
    }
}

#[test]
fn non_admin_may_edit_only_own_non_admin_bits() {
    let actor = set(0, 1, 1);
    assert_eq!(check_permission_update(&actor, 5, 5, &set(0, 0b1111, 0)), None);
    assert_eq!(update_auth_user_permissions_validation(&actor, 5, 5, &set(0, 3, 3)).unwrap(), true);
    let e = update_auth_user_permissions_validation(&actor, 5, 6, &set(0, 3, 3)).unwrap_err();
    assert_eq!(e.error_type, AppErrorEnum::BadRequestError);
    assert_eq!(e.message, "Non admins can't edit other users permissions");
    assert_eq!(UpdateRefusal::OtherUser.message(), "Non admins can't edit other users permissions");
    assert_eq!(UpdateRefusal::AdminGrant.message(), "Non admins can't add admin permissions");
}

#[test]
fn admin_may_edit_anybody() {
    let actor = set(0b0011, 0, 0);
    assert_eq!(check_permission_update(&actor, 5, 6, &set(0b1111, 1, 1)), None);
    assert_eq!(check_permission_update(&actor, 5, 5, &set(0b1111, 1, 1)), None);
    let more = set(0b1011, 0, 0);
    assert_eq!(check_permission_update(&more, 5, 6, &set(0b1000, 1, 1)), None);
    let reader = set(0b0001, 0, 0);
    assert_eq!(
        check_permission_update(&reader, 5, 6, &set(0b1000, 1, 1)),
        Some(UpdateRefusal::OtherUser)
    );
    assert_eq!(
        check_permission_update(&reader, 5, 5, &set(0b1000, 1, 1)),
        Some(UpdateRefusal::AdminGrant)
    );
}

#[test]
fn permission_update_reads_the_new_string_first() {
    let actor = set(0, 1, 1);
    let dto = |id: u128, s: &str| PermissionUpdateDto {
        user_public_id: id,
        permissions_bitwise: s.to_string(),
    };
    assert_eq!(plan_permission_update(&actor, 5, &dto(5, "0000-0011-0001")).unwrap(), set(0, 3, 1));
    for bad in ["", "0000-0011", "0000-0011-00012", "junk"] {
        let e = plan_permission_update(&actor, 5, &dto(5, bad)).unwrap_err();
        assert_eq!(e.error_type, AppErrorEnum::BadRequestError);
        assert_eq!(e.message, "Invalid permissions");
    }
    let e = plan_permission_update(&actor, 5, &dto(5, "0001-0011-0001")).unwrap_err();
    assert_eq!(e.message, "Non admins can't add admin permissions");
    let e = plan_permission_update(&actor, 5, &dto(9, "0000-0011-0001")).unwrap_err();
    assert_eq!(e.message, "Non admins can't edit other users permissions");
    let admin = set(0b0011, 0, 0);
    assert_eq!(
        plan_permission_update(&admin, 5, &dto(9, "1111-0011-0001")).unwrap(),
        set(15, 3, 1)
    );
    let writer_only = set(0b0010, 0, 0);
    let e = plan_permission_update(&writer_only, 5, &dto(9, "1111-0011-0001")).unwrap_err();
    assert_eq!(e.message, "Non admins can't edit other users permissions");
}

#[test]
fn permission_update_changes_only_the_permission_string() {
    let before = AuthUserModel {
        id: 3,
        user_id: 4,
        username: "alice".to_string(),
        password_hash: "hash".to_string(),
        permissions_bitwise: "0000-0001-0001".to_string(),
        created_at: 10,
        updated_at: 20,
    };
    let after = apply_permission_update(Some(before.clone()), &set(0, 3, 1)).unwrap();
    assert_eq!(after.permissions_bitwise, "0000-0011-0001");
    assert_eq!(after, AuthUserModel { permissions_bitwise: "0000-0011-0001".to_string(), ..before });
    let e = apply_permission_update(None, &set(0, 3, 1)).unwrap_err();
    assert_eq!(e.error_type, AppErrorEnum::NotFoundError);
    assert_eq!(e.message, "User not found");
    assert_eq!(e.status_code(), 404);
}
