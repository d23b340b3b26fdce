//! The texts of the protected area: a greeting for the bearer, and a report
//! of what a permission set grants.

use vstd::prelude::*;
use vstd::string::*;
use crate::permission_constants::{
    ADMIN_DELETE_PERMISSION,
    ADMIN_EXECUTE_PERMISSION,
    ADMIN_READ_PERMISSION,
    ADMIN_WRITE_PERMISSION,
    EQUIP_DELETE_PERMISSION,
    EQUIP_EXECUTE_PERMISSION,
    EQUIP_READ_PERMISSION,
    EQUIP_WRITE_PERMISSION,
    USER_DELETE_PERMISSION,
    USER_EXECUTE_PERMISSION,
    USER_FULL_ACCESS,
    USER_READ_PERMISSION,
    USER_WRITE_PERMISSION,
};
use crate::permission_manager::PermissionsManager;
use crate::user::UserModel;

verus! {

/// One of two lines, by whether a permission is held.
pub open spec fn spec_line(held: bool, yes: Seq<char>, no: Seq<char>) -> Seq<char> {
    if held {
        yes
    } else {
        no
    }
}

/// The permissions that the report speaks of: the bearer's own, with read
/// on admin and everything on users and on equipment added.
pub open spec fn spec_probe_grants(p: PermissionsManager) -> PermissionsManager {
    PermissionsManager {
        admin_permissions: p.admin_permissions.spec_with(ADMIN_READ_PERMISSION),
        user_permissions: p.user_permissions.spec_with(USER_FULL_ACCESS),
        equipment_permissions: p.equipment_permissions.spec_with(USER_FULL_ACCESS),
    }
}

/// The four lines on users.
pub open spec fn spec_user_lines(p: PermissionsManager) -> Seq<char> {
    spec_line(
        p.user_permissions.spec_has(USER_READ_PERMISSION),
        "You have user read permission\n"@,
        "You do not have user read permission\n"@,
    ) + spec_line(
        p.user_permissions.spec_has(USER_WRITE_PERMISSION),
        "You have user write permission\n"@,
        "You do not have user read permission\n"@,
    ) + spec_line(
        p.user_permissions.spec_has(USER_EXECUTE_PERMISSION),
        "You have user execute permission\n"@,
        "You do not have user read permission\n"@,
    ) + spec_line(
        p.user_permissions.spec_has(USER_DELETE_PERMISSION),
        "You have user delete permission\n"@,
        "You do not have user read permission\n"@,
    )
}

/// The four lines on the admin area.
pub open spec fn spec_admin_lines(p: PermissionsManager) -> Seq<char> {
    spec_line(
        p.admin_permissions.spec_has(ADMIN_READ_PERMISSION),
        "You have admin read permission\n"@,
        "You do not have admin read permission\n"@,
    ) + spec_line(
        p.admin_permissions.spec_has(ADMIN_WRITE_PERMISSION),
        "You have admin write permission\n"@,
        "You do not have admin read permission\n"@,
    ) + spec_line(
        p.admin_permissions.spec_has(ADMIN_EXECUTE_PERMISSION),
        "You have admin execute permission\n"@,
        "You do not have admin read permission\n"@,
    ) + spec_line(
        p.admin_permissions.spec_has(ADMIN_DELETE_PERMISSION),
        "You have admin delete permission\n"@,
        "You do not have admin read permission\n"@,
    )
}

/// The four lines on equipment.
pub open spec fn spec_equipment_lines(p: PermissionsManager) -> Seq<char> {
    spec_line(
        p.equipment_permissions.spec_has(EQUIP_READ_PERMISSION),
        "You have equip read permission\n"@,
        "You do not have equip read permission\n"@,
    ) + spec_line(
        p.equipment_permissions.spec_has(EQUIP_WRITE_PERMISSION),
        "You have equip write permission\n"@,
        "You do not have equip read permission\n"@,
    ) + spec_line(
        p.equipment_permissions.spec_has(EQUIP_EXECUTE_PERMISSION),
        "You have equip execute permission\n"@,
        "You do not have equip read permission\n"@,
    ) + spec_line(
        p.equipment_permissions.spec_has(EQUIP_DELETE_PERMISSION),
        "You have equip delete permission\n"@,
        "You do not have equip read permission\n"@,
    )
}

/// The report on a permission set: the lines on users, on the admin area
/// and on equipment, each block closed by an empty line, and the
/// permission string.
pub open spec fn spec_report(p: PermissionsManager) -> Seq<char> {
    spec_user_lines(p) + "\n"@ + spec_admin_lines(p) + "\n"@ + spec_equipment_lines(p)
        + "\nYour permission string is: "@ + p.spec_token()
}

fn push_line(output: &mut String, held: bool, yes: &str, no: &str)
    ensures
        final(output)@ == old(output)@ + spec_line(held, yes@, no@),
{
    if held {
        output.append(yes);
    } else {
        output.append(no);
    }
}

/// Writes the report on a permission set.
pub fn report(perm: &PermissionsManager) -> (r: String)
    ensures
        r@ == spec_report(*perm),
{
    let mut output = String::new();
    push_line(
        &mut output,
        perm.user_permissions.has_permission(USER_READ_PERMISSION),
        "You have user read permission\n",
        "You do not have user read permission\n",
    );
    push_line(
        &mut output,
        perm.user_permissions.has_permission(USER_WRITE_PERMISSION),
        "You have user write permission\n",
        "You do not have user read permission\n",
    );
    push_line(
        &mut output,
        perm.user_permissions.has_permission(USER_EXECUTE_PERMISSION),
        "You have user execute permission\n",
        "You do not have user read permission\n",
    );
    push_line(
        &mut output,
        perm.user_permissions.has_permission(USER_DELETE_PERMISSION),
        "You have user delete permission\n",
        "You do not have user read permission\n",
    );
    assert(output@ =~= spec_user_lines(*perm));
    output.append("\n");
    let mut admin = String::new();
    push_line(
        &mut admin,
        perm.admin_permissions.has_permission(ADMIN_READ_PERMISSION),
        "You have admin read permission\n",
        "You do not have admin read permission\n",
    );
    push_line(
        &mut admin,
        perm.admin_permissions.has_permission(ADMIN_WRITE_PERMISSION),
        "You have admin write permission\n",
        "You do not have admin read permission\n",
    );
    push_line(
        &mut admin,
        perm.admin_permissions.has_permission(ADMIN_EXECUTE_PERMISSION),
        "You have admin execute permission\n",
        "You do not have admin read permission\n",
    );
    push_line(
        &mut admin,
        perm.admin_permissions.has_permission(ADMIN_DELETE_PERMISSION),
        "You have admin delete permission\n",
        "You do not have admin read permission\n",
    );
    assert(admin@ =~= spec_admin_lines(*perm));
    output.append(admin.as_str());
    output.append("\n");
    let mut equipment = String::new();
    push_line(
        &mut equipment,
        perm.equipment_permissions.has_permission(EQUIP_READ_PERMISSION),
        "You have equip read permission\n",
        "You do not have equip read permission\n",
    );
    push_line(
        &mut equipment,
        perm.equipment_permissions.has_permission(EQUIP_WRITE_PERMISSION),
        "You have equip write permission\n",
        "You do not have equip read permission\n",
    );
    push_line(
        &mut equipment,
        perm.equipment_permissions.has_permission(EQUIP_EXECUTE_PERMISSION),
        "You have equip execute permission\n",
        "You do not have equip read permission\n",
    );
    push_line(
        &mut equipment,
        perm.equipment_permissions.has_permission(EQUIP_DELETE_PERMISSION),
        "You have equip delete permission\n",
        "You do not have equip read permission\n",
    );
    assert(equipment@ =~= spec_equipment_lines(*perm));
    output.append(equipment.as_str());
    output.append("\nYour permission string is: ");
    let token = perm.to_permissions_bitwise();
    output.append(token.as_str());
    output
}

/// The report for a bearer, after read on admin and everything on users
/// and on equipment has been added to the bearer's permissions.
pub fn probe(permissions: PermissionsManager) -> (r: String)
    ensures
        r@ == spec_report(spec_probe_grants(permissions)),
{
    let mut perm = permissions;
    perm.admin_permissions.set_permission(ADMIN_READ_PERMISSION);
    perm.user_permissions.set_permission(USER_FULL_ACCESS);
    perm.equipment_permissions.set_permission(USER_FULL_ACCESS);
    report(&perm)
}

/// The greeting of the protected area.
pub open spec fn spec_protected_success(permissions: PermissionsManager, user: UserModel) -> Seq<
    char,
> {
    "Welcome to the protected area "@ + user.username@ + ", \n Your name is: "@ + user.first_name@
        + " "@ + user.last_name@ + " \n Your discord is: "@ + user.discord_username@
        + " \n Your steam is: "@ + user.steam_url@ + "\n"@ + "Your permission string is: "@
        + permissions.spec_token()
}

/// Writes the greeting of the protected area for a user.
pub fn protected_success(permissions: &PermissionsManager, user: &UserModel) -> (r: String)
    ensures
        r@ == spec_protected_success(*permissions, *user),
{
    let mut output_str = String::from_str("Welcome to the protected area ");
    output_str.append(user.username.as_str());
    output_str.append(", \n Your name is: ");
    output_str.append(user.first_name.as_str());
    output_str.append(" ");
    output_str.append(user.last_name.as_str());
    output_str.append(" \n Your discord is: ");
    output_str.append(user.discord_username.as_str());
    output_str.append(" \n Your steam is: ");
    output_str.append(user.steam_url.as_str());
    output_str.append("\n");
    output_str.append("Your permission string is: ");
    let token = permissions.to_permissions_bitwise();
    output_str.append(token.as_str());
    output_str
}

/// The answer of the protected area, once the store has answered for the
/// bearer: the greeting, or the status and text for a bearer who is gone.
pub fn protected(permissions: &PermissionsManager, full_user: Option<&UserModel>) -> (r: (
    u16,
    String,
))
    ensures
        match full_user {
            Some(user) => r.0 == 200 && r.1@ == spec_protected_success(*permissions, *user),
            None => r.0 == 204 && r.1@ == "User not found"@,
        },
{
    match full_user {
        Some(user) => (200, protected_success(permissions, user)),
        None => (204, String::from_str("User not found")),
    }
}

} // verus!
