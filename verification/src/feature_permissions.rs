//! One feature area's capability flags, held as a bitmask of fixed width.

use vstd::prelude::*;
use crate::binary_text::{binary_value, is_segment, padded_binary, parse_segment, to_binary_string};
use crate::text::chars_of;

verus! {

/// Why a permission string was refused.
#[derive(Debug, Clone, Copy, PartialEq, Eq, Structural)]
pub enum PermissionError {
    /// The string does not split into exactly three segments.
    InvalidFormat,
    /// A segment is not a binary numeral of the fixed width.
    InvalidEncoding,
}

/// Number of capability flags, and of binary digits, per feature area.
pub const PERMISSION_WIDTH: usize = 4;

/// Smallest value that no longer fits in `PERMISSION_WIDTH` bits.
pub const PERMISSION_LIMIT: u32 = 16;

/// The capability flags of one feature area.
#[derive(Debug, Clone, Copy, PartialEq, Eq, Structural)]
pub struct FeaturePermissions {
    pub bits: u32,
}

impl FeaturePermissions {
    /// The mask fits in the fixed width.
    pub open spec fn wf(&self) -> bool {
        self.bits < PERMISSION_LIMIT
    }

    /// At least one bit of `permission` is set.
    pub open spec fn spec_has(&self, permission: u32) -> bool {
        self.bits & permission != 0
    }

    /// Every bit of `group` is set.
    pub open spec fn spec_has_group(&self, group: u32) -> bool {
        self.bits & group == group
    }

    /// These permissions with every bit of `mask` set.
    pub open spec fn spec_with(&self, mask: u32) -> FeaturePermissions {
        FeaturePermissions { bits: self.bits | mask }
    }

    /// These permissions with every bit of `mask` cleared.
    pub open spec fn spec_without(&self, mask: u32) -> FeaturePermissions {
        FeaturePermissions { bits: self.bits & !mask }
    }

    /// No flag set.
    pub fn new() -> (r: Self)
        ensures
            r.bits == 0,
            r.wf(),
    {
        FeaturePermissions { bits: 0 }
    }

    /// The segment that stands for this mask in a permission string.
    pub open spec fn spec_segment(&self) -> Seq<char> {
        padded_binary(self.bits as nat, PERMISSION_WIDTH as nat)
    }

    /// What `from_string` makes of `s`.
    pub open spec fn spec_from_string(s: Seq<char>) -> Result<FeaturePermissions, PermissionError> {
        if is_segment(s) {
            Ok(FeaturePermissions { bits: binary_value(s) as u32 })
        } else {
            Err(PermissionError::InvalidEncoding)
        }
    }

    /// Reads one segment: exactly `PERMISSION_WIDTH` binary digits.
    pub fn from_string(permissions_bitwise: &String) -> (r: Result<Self, PermissionError>)
        ensures
            r == Self::spec_from_string(permissions_bitwise@),
            r matches Ok(p) ==> p.wf(),
    {
        let chars = chars_of(permissions_bitwise.as_str());
        assert(chars@.subrange(0, chars@.len() as int) =~= permissions_bitwise@);
        match parse_segment(&chars, 0, chars.len()) {
            Some(bits) => {
                proof {
                    crate::binary_text::lemma_value_bound(permissions_bitwise@);
                }
                Ok(FeaturePermissions { bits })
            },
            None => Err(PermissionError::InvalidEncoding),
        }
    }

    /// Writes the mask as a binary numeral, zero-padded to `PERMISSION_WIDTH`
    /// digits.
    pub fn to_string(&self) -> (r: String)
        ensures
            r@ == self.spec_segment(),
    {
        to_binary_string(self.bits)
    }

    /// Sets every bit of `permission`. A mask wider than the fixed width is
    /// taken as it is; it is the caller who keeps masks within the width.
    pub fn set_permission(&mut self, permission: u32)
        ensures
            *final(self) == old(self).spec_with(permission),
            old(self).wf() && permission < PERMISSION_LIMIT ==> final(self).wf(),
    {
        proof {
            let a = self.bits;
            assert(a < 16 && permission < 16 ==> (a | permission) < 16) by (bit_vector);
        }
        self.bits |= permission;
    }

    /// Clears every bit of `permission`.
    pub fn remove_permission(&mut self, permission: u32)
        ensures
            *final(self) == old(self).spec_without(permission),
            old(self).wf() ==> final(self).wf(),
    {
        proof {
            let a = self.bits;
            assert(a < 16 ==> (a & !permission) < 16) by (bit_vector);
        }
        self.bits &= !permission;
    }

    /// Whether at least one bit of `permission` is set.
    pub fn has_permission(&self, permission: u32) -> (r: bool)
        ensures
            r == self.spec_has(permission),
    {
        (self.bits & permission) != 0
    }

    /// Sets every bit of `group`.
    pub fn set_permission_group(&mut self, group: u32)
        ensures
            *final(self) == old(self).spec_with(group),
            old(self).wf() && group < PERMISSION_LIMIT ==> final(self).wf(),
    {
        proof {
            let a = self.bits;
            assert(a < 16 && group < 16 ==> (a | group) < 16) by (bit_vector);
        }
        self.bits |= group;
    }

    /// Clears every bit of `group`.
    pub fn remove_permission_group(&mut self, group: u32)
        ensures
            *final(self) == old(self).spec_without(group),
            old(self).wf() ==> final(self).wf(),
    {
        proof {
            let a = self.bits;
            assert(a < 16 ==> (a & !group) < 16) by (bit_vector);
        }
        self.bits &= !group;
    }

    /// Whether every bit of `group` is set. Partial overlap is not enough.
    pub fn has_permission_group(&self, group: u32) -> (r: bool)
        ensures
            r == self.spec_has_group(group),
    {
        (self.bits & group) == group
    }

    /// Whether any flag is set.
    pub fn any_permission(&self) -> (r: bool)
        ensures
            r == (self.bits != 0),
    {
        self.bits != 0
    }

    /// Clears every flag.
    pub fn clear_permissions(&mut self)
        ensures
            final(self).bits == 0,
            final(self).wf(),
    {
        self.bits = 0;
    }
}

/// Setting a mask makes the whole mask held and takes nothing away.
pub proof fn lemma_set_grants(p: FeaturePermissions, mask: u32, other: u32)
    ensures
        p.spec_with(mask).spec_has_group(mask),
        p.spec_has_group(other) ==> p.spec_with(mask).spec_has_group(other),
        p.spec_has(other) ==> p.spec_with(mask).spec_has(other),
{
    let bits = p.bits;
    assert((bits | mask) & mask == mask) by (bit_vector);
    assert(bits & other == other ==> (bits | mask) & other == other) by (bit_vector);
    assert(bits & other != 0 ==> (bits | mask) & other != 0) by (bit_vector);
}

/// Removing a mask leaves no bit of it held and grants nothing.
pub proof fn lemma_remove_revokes(p: FeaturePermissions, mask: u32, other: u32)
    ensures
        !p.spec_without(mask).spec_has(mask),
        p.spec_without(mask).spec_has(other) ==> p.spec_has(other),
        p.spec_without(mask).spec_has_group(other) ==> p.spec_has_group(other),
{
    let bits = p.bits;
    assert((bits & !mask) & mask == 0) by (bit_vector);
    assert((bits & !mask) & other != 0 ==> bits & other != 0) by (bit_vector);
    assert((bits & !mask) & other == other ==> bits & other == other) by (bit_vector);
}

/// Setting and removing touch no bit outside the mask, and doing either
/// twice is doing it once.
pub proof fn lemma_set_and_remove_are_local(p: FeaturePermissions, mask: u32, other: u32)
    ensures
        other & mask == 0 ==> p.spec_with(mask).bits & other == p.bits & other,
        other & mask == 0 ==> p.spec_without(mask).bits & other == p.bits & other,
        p.spec_with(mask).spec_with(mask) == p.spec_with(mask),
        p.spec_without(mask).spec_without(mask) == p.spec_without(mask),
{
    let bits = p.bits;
    assert(other & mask == 0 ==> (bits | mask) & other == bits & other) by (bit_vector);
    assert(other & mask == 0 ==> (bits & !mask) & other == bits & other) by (bit_vector);
    assert((bits | mask) | mask == bits | mask) by (bit_vector);
    assert((bits & !mask) & !mask == bits & !mask) by (bit_vector);
}

/// The empty mask holds nothing: no bit of any mask, and no group but the
/// empty one.
pub proof fn lemma_empty_holds_nothing(p: FeaturePermissions, mask: u32)
    requires
        p.bits == 0,
    ensures
        !p.spec_has(mask),
        p.spec_has_group(mask) <==> mask == 0,
{
    assert(0u32 & mask == 0) by (bit_vector);
}

} // verus!
