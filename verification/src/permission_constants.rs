//! The capability bits of each feature area, and the groups built from them.

use vstd::prelude::*;

verus! {

/// The admin area: read, write, execute, delete, and the groups of them.
pub const ADMIN_READ_PERMISSION: u32 = 0b0001;

pub const ADMIN_WRITE_PERMISSION: u32 = 0b0010;

pub const ADMIN_EXECUTE_PERMISSION: u32 = 0b0100;

pub const ADMIN_DELETE_PERMISSION: u32 = 0b1000;

pub const ADMIN_READ_WRITE: u32 = 0b0011;

pub const ADMIN_FULL_ACCESS: u32 = 0b1111;

/// The user area.
pub const USER_READ_PERMISSION: u32 = 0b0001;

pub const USER_WRITE_PERMISSION: u32 = 0b0010;

pub const USER_EXECUTE_PERMISSION: u32 = 0b0100;

pub const USER_DELETE_PERMISSION: u32 = 0b1000;

pub const USER_READ_WRITE: u32 = 0b0011;

pub const USER_FULL_ACCESS: u32 = 0b1111;

/// The equipment area.
pub const EQUIP_READ_PERMISSION: u32 = 0b0001;

pub const EQUIP_WRITE_PERMISSION: u32 = 0b0010;

pub const EQUIP_EXECUTE_PERMISSION: u32 = 0b0100;

pub const EQUIP_DELETE_PERMISSION: u32 = 0b1000;

pub const EQUIP_READ_WRITE: u32 = 0b0011;

pub const EQUIP_FULL_ACCESS: u32 = 0b1111;

} // verus!
