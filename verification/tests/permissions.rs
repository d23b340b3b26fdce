use access_core::feature_permissions::{FeaturePermissions, PermissionError};
use access_core::permission_constants::{
    ADMIN_FULL_ACCESS, ADMIN_WRITE_PERMISSION, EQUIP_READ_PERMISSION, USER_READ_PERMISSION,
    USER_WRITE_PERMISSION,
};
use access_core::permission_manager::{FeatureArea, PermissionsManager};

#[test]
fn has_and_has_group_disagree_on_partial_overlap() {
    let p = FeaturePermissions { bits: 0b0010 };
    assert!(p.has_permission(0b0011));
    assert!(!p.has_permission_group(0b0011));
}

#[test]
fn has_group_needs_every_bit() {
    let p = FeaturePermissions { bits: 0b0111 };
    assert!(p.has_permission_group(0b0011));
    assert!(p.has_permission_group(0b0111));
    assert!(!p.has_permission_group(0b1001));
    assert!(p.has_permission(0b1001));
    assert!(!p.has_permission(0b1000));
}

#[test]
fn set_and_remove_change_only_the_named_bits() {
    let mut p = FeaturePermissions::new();
    assert!(!p.any_permission());
    p.set_permission(0b0001);
    p.set_permission_group(0b0110);
    assert_eq!(p.bits, 0b0111);
    p.remove_permission(0b0010);
    assert_eq!(p.bits, 0b0101);
    p.remove_permission_group(0b1100);
    assert_eq!(p.bits, 0b0001);
    assert!(p.any_permission());
    p.clear_permissions();
    assert_eq!(p.bits, 0);
    assert!(!p.any_permission());
}

#[test]
fn segment_is_zero_padded_binary() {
    assert_eq!(FeaturePermissions { bits: 0 }.to_string(), "0000");
    assert_eq!(FeaturePermissions { bits: 1 }.to_string(), "0001");
    assert_eq!(FeaturePermissions { bits: 0b1010 }.to_string(), "1010");
    assert_eq!(FeaturePermissions { bits: 15 }.to_string(), "1111");
    assert_eq!(FeaturePermissions { bits: 16 }.to_string(), "10000");
    assert_eq!(FeaturePermissions { bits: u32::MAX }.to_string(), "1".repeat(32));
}

#[test]
fn segment_parses_only_four_binary_digits() {
    assert_eq!(
        FeaturePermissions::from_string(&"0101".to_string()),
        Ok(FeaturePermissions { bits: 5 })
    );
    let bad = ["", "101", "00101", "01a1", "+101", "-101", "01 1", "2000"];
    for s in bad {
        assert_eq!(
            FeaturePermissions::from_string(&s.to_string()),
            Err(PermissionError::InvalidEncoding),
            "{s:?}"
        );
    }
}

#[test]
fn new_is_empty_and_default_grants_read_only() {
    let p = PermissionsManager::new();
    assert_eq!(p.to_permissions_bitwise(), "0000-0000-0000");
    let d = PermissionsManager::Default();
    assert!(d.user_permissions.has_permission(USER_READ_PERMISSION));
    assert!(d.equipment_permissions.has_permission(EQUIP_READ_PERMISSION));
    assert!(!d.admin_permissions.has_permission(ADMIN_FULL_ACCESS));
    assert!(!d.admin_permissions.any_permission());
    assert!(!d.user_permissions.has_permission(USER_WRITE_PERMISSION));
    assert_eq!(d.to_permissions_bitwise(), "0000-0001-0001");
    assert_eq!(PermissionsManager::get_default_permissions_bitwise(), "0000-0001-0001");
}

#[test]
fn token_end_to_end() {
    let p = PermissionsManager::from_permissions_bitwise(&"0001-0011-0001".to_string()).unwrap();
    assert!(p.has_permission(FeatureArea::Equipment, EQUIP_READ_PERMISSION));
    assert!(!p.has_permission(FeatureArea::Admin, ADMIN_WRITE_PERMISSION));
    assert!(p.has_permission_group(FeatureArea::User, 0b0011));
    assert!(!p.has_permission_group(FeatureArea::Equipment, 0b0011));
    assert_eq!(p.admin_permissions.bits, 1);
    assert_eq!(p.user_permissions.bits, 3);
    assert_eq!(p.equipment_permissions.bits, 1);
}

#[test]
fn every_valid_set_round_trips() {
    for a in 0..16u32 {
        for u in 0..16u32 {
            for e in 0..16u32 {
                let p = PermissionsManager {
                    admin_permissions: FeaturePermissions { bits: a },
                    user_permissions: FeaturePermissions { bits: u },
                    equipment_permissions: FeaturePermissions { bits: e },
                };
                let s = p.to_permissions_bitwise();
                assert_eq!(s.len(), 14);
                assert_eq!(PermissionsManager::from_permissions_bitwise(&s), Ok(p));
            }
        }
    }
}

#[test]
fn wrong_segment_count_is_invalid_format() {
    for s in ["", "0001", "0001-0011", "0001-0011-0001-0000", "0001-0011-0001-", "-0001-0011-0001", "---", "0001--0011-0001"] {
        assert_eq!(
            PermissionsManager::from_permissions_bitwise(&s.to_string()),
            Err(PermissionError::InvalidFormat),
            "{s:?}"
        );
    }
}

#[test]
fn bad_segment_is_invalid_encoding() {
    for s in ["--", "0001-0011-001", "0001-0011-00011", "0001-0x11-0001", "1-1-1", "0001-0011-000a", "+001-0011-0001", " 0001-0011-0001", "0001-0011-0001 "] {
        assert_eq!(
            PermissionsManager::from_permissions_bitwise(&s.to_string()),
            Err(PermissionError::InvalidEncoding),
            "{s:?}"
        );
    }
}

#[test]
fn oversized_mask_is_written_but_not_read_back() {
    let p = PermissionsManager {
        admin_permissions: FeaturePermissions { bits: 16 },
        user_permissions: FeaturePermissions { bits: 0 },
        equipment_permissions: FeaturePermissions { bits: 0 },
    };
    let s = p.to_permissions_bitwise();
    assert_eq!(s, "10000-0000-0000");
    assert_eq!(
        PermissionsManager::from_permissions_bitwise(&s),
        Err(PermissionError::InvalidEncoding)
    );
}
