//! The permission set of one identity: one mask per feature area, and the
//! string form `B-B-B` that carries it in a token, in the fixed order admin,
//! user, equipment.

use vstd::prelude::*;
use vstd::string::*;
use crate::binary_text::{is_segment, parse_segment};
use crate::feature_permissions::{FeaturePermissions, PermissionError};
use crate::permission_constants::{EQUIP_READ_PERMISSION, USER_READ_PERMISSION};
use crate::text::chars_of;

verus! {

/// A feature area that has a mask of its own.
#[derive(Debug, Clone, Copy, PartialEq, Eq, Structural)]
pub enum FeatureArea {
    Admin,
    User,
    Equipment,
}

/// The permissions of one identity, one mask per feature area.
#[derive(Debug, Clone, Copy, PartialEq, Eq, Structural)]
pub struct PermissionsManager {
    pub admin_permissions: FeaturePermissions,
    pub user_permissions: FeaturePermissions,
    pub equipment_permissions: FeaturePermissions,
}

/// Index of the first `-` in `s`, or the length of `s` where it has none.
pub open spec fn first_dash(s: Seq<char>) -> int
    decreases s.len(),
{
    if s.len() == 0 {
        0
    } else if s[0] == '-' {
        0
    } else {
        1 + first_dash(s.drop_first())
    }
}

/// The pieces of `s` between its `-` characters; one piece more than `s` has
/// dashes, so a string without any is a single piece.
pub open spec fn split_on_dash(s: Seq<char>) -> Seq<Seq<char>>
    decreases s.len(),
{
    let i = first_dash(s);
    if i < 0 || i >= s.len() {
        seq![s]
    } else {
        seq![s.take(i)] + split_on_dash(s.skip(i + 1))
    }
}

/// `first_dash` is the one index with a dash (or the end) behind a run
/// without dashes.
pub proof fn lemma_first_dash_is(s: Seq<char>, i: int)
    requires
        0 <= i <= s.len(),
        forall|j: int| 0 <= j < i ==> s[j] != '-',
        i < s.len() ==> s[i] == '-',
    ensures
        first_dash(s) == i,
    decreases i,
{
    if i > 0 {
        let t = s.drop_first();
        assert forall|j: int| 0 <= j < i - 1 implies t[j] != '-' by {
            assert(t[j] == s[j + 1]);
        }
        lemma_first_dash_is(t, i - 1);
    }
}

/// Splitting gives at least one piece.
pub proof fn lemma_split_is_not_empty(s: Seq<char>)
    ensures
        split_on_dash(s).len() >= 1,
    decreases s.len(),
{
    let i = first_dash(s);
    if !(i < 0 || i >= s.len()) {
        lemma_split_is_not_empty(s.skip(i + 1));
    }
}

/// The pieces of `s`, from the places of its first three dashes: `d1` is the
/// first dash of `s` (or its end), `d2` the first behind `d1`, `d3` the first
/// behind `d2`.
pub proof fn lemma_split_by_dashes(s: Seq<char>, d1: int, d2: int, d3: int)
    requires
        0 <= d1 <= s.len(),
        d1 == first_dash(s),
        d1 < s.len() ==> d1 < d2 <= s.len() && d2 - (d1 + 1) == first_dash(s.skip(d1 + 1)),
        d1 < s.len() && d2 < s.len() ==> d2 < d3 <= s.len() && d3 - (d2 + 1) == first_dash(
            s.skip(d2 + 1),
        ),
    ensures
        d1 == s.len() ==> split_on_dash(s).len() == 1,
        d1 < s.len() && d2 == s.len() ==> split_on_dash(s).len() == 2,
        d1 < s.len() && d2 < s.len() && d3 < s.len() ==> split_on_dash(s).len() >= 4,
        d1 < s.len() && d2 < s.len() && d3 == s.len() ==> split_on_dash(s) == seq![
            s.subrange(0, d1),
            s.subrange(d1 + 1, d2),
            s.subrange(d2 + 1, s.len() as int),
        ],
{
    if d1 < s.len() {
        let s1 = s.skip(d1 + 1);
        assert(split_on_dash(s) == seq![s.take(d1)] + split_on_dash(s1));
        assert(s.take(d1) =~= s.subrange(0, d1));
        if d2 == s.len() {
            assert(split_on_dash(s1) == seq![s1]);
        } else {
            let s2 = s.skip(d2 + 1);
            assert(s1.skip(d2 - d1) =~= s2);
            assert(split_on_dash(s1) == seq![s1.take(d2 - d1 - 1)] + split_on_dash(s2));
            assert(s1.take(d2 - d1 - 1) =~= s.subrange(d1 + 1, d2));
            if d3 < s.len() {
                let s3 = s2.skip(d3 - d2);
                lemma_split_is_not_empty(s3);
                assert(split_on_dash(s2) == seq![s2.take(d3 - d2 - 1)] + split_on_dash(s3));
            } else {
                assert(split_on_dash(s2) == seq![s2]);
                assert(s2 =~= s.subrange(d2 + 1, s.len() as int));
                assert(split_on_dash(s) =~= seq![
                    s.subrange(0, d1),
                    s.subrange(d1 + 1, d2),
                    s.subrange(d2 + 1, s.len() as int),
                ]);
            }
        }
    }
}

impl PermissionsManager {
    /// Every mask fits in the fixed width.
    pub open spec fn wf(&self) -> bool {
        &&& self.admin_permissions.wf()
        &&& self.user_permissions.wf()
        &&& self.equipment_permissions.wf()
    }

    /// The mask of one area.
    pub open spec fn spec_feature(&self, area: FeatureArea) -> FeaturePermissions {
        match area {
            FeatureArea::Admin => self.admin_permissions,
            FeatureArea::User => self.user_permissions,
            FeatureArea::Equipment => self.equipment_permissions,
        }
    }

    /// The string form: three segments joined by `-`.
    pub open spec fn spec_token(&self) -> Seq<char> {
        self.admin_permissions.spec_segment() + seq!['-'] + self.user_permissions.spec_segment()
            + seq!['-'] + self.equipment_permissions.spec_segment()
    }

    /// What `from_permissions_bitwise` makes of `s`.
    pub open spec fn spec_parse(s: Seq<char>) -> Result<PermissionsManager, PermissionError> {
        let parts = split_on_dash(s);
        if parts.len() != 3 {
            Err(PermissionError::InvalidFormat)
        } else if is_segment(parts[0]) && is_segment(parts[1]) && is_segment(parts[2]) {
            Ok(
                PermissionsManager {
                    admin_permissions: FeaturePermissions::spec_from_string(parts[0])->Ok_0,
                    user_permissions: FeaturePermissions::spec_from_string(parts[1])->Ok_0,
                    equipment_permissions: FeaturePermissions::spec_from_string(parts[2])->Ok_0,
                },
            )
        } else {
            Err(PermissionError::InvalidEncoding)
        }
    }

    /// The permissions that every identity has on sign-up: read on users and
    /// on equipment, nothing on admin.
    pub open spec fn spec_default() -> PermissionsManager {
        PermissionsManager {
            admin_permissions: FeaturePermissions { bits: 0 },
            user_permissions: FeaturePermissions { bits: USER_READ_PERMISSION },
            equipment_permissions: FeaturePermissions { bits: EQUIP_READ_PERMISSION },
        }
    }

    /// No permission in any area.
    pub fn new() -> (r: Self)
        ensures
            r.admin_permissions.bits == 0,
            r.user_permissions.bits == 0,
            r.equipment_permissions.bits == 0,
            r.wf(),
    {
        PermissionsManager {
            admin_permissions: FeaturePermissions::new(),
            user_permissions: FeaturePermissions::new(),
            equipment_permissions: FeaturePermissions::new(),
        }
    }

    /// The permissions of a newly registered identity.
    #[allow(non_snake_case)]
    pub fn Default() -> (r: Self)
        ensures
            r == Self::spec_default(),
            r.wf(),
            !r.admin_permissions.spec_has(crate::permission_constants::ADMIN_FULL_ACCESS),
            r.user_permissions.spec_has(USER_READ_PERMISSION),
            r.equipment_permissions.spec_has(EQUIP_READ_PERMISSION),
    {
        let mut default = PermissionsManager::new();
        default.user_permissions.set_permission(USER_READ_PERMISSION);
        default.equipment_permissions.set_permission(EQUIP_READ_PERMISSION);
        proof {
            assert(0u32 | 1u32 == 1u32) by (bit_vector);
            assert(0u32 & 0b1111u32 == 0u32) by (bit_vector);
            assert(1u32 & 1u32 != 0u32) by (bit_vector);
        }
        default
    }

    /// The string form of the sign-up permissions.
    pub fn get_default_permissions_bitwise() -> (r: String)
        ensures
            r@ == Self::spec_default().spec_token(),
    {
        PermissionsManager::Default().to_permissions_bitwise()
    }

    /// Reads the string form. Fails with `InvalidFormat` unless the string
    /// splits on `-` into exactly three pieces, and with `InvalidEncoding`
    /// unless each piece is a segment; never falls back to a default.
    pub fn from_permissions_bitwise(permissions_bitwise: &String) -> (r: Result<
        Self,
        PermissionError,
    >)
        ensures
            r == Self::spec_parse(permissions_bitwise@),
            r matches Ok(p) ==> p.wf(),
    {
        let v = chars_of(permissions_bitwise.as_str());
        let n = v.len();
        let d1 = find_dash(&v, 0);
        assert(v@.skip(0) =~= v@);
        if d1 == n {
            proof {
                lemma_split_by_dashes(v@, d1 as int, d1 as int, d1 as int);
            }
            return Err(PermissionError::InvalidFormat);
        }
        let d2 = find_dash(&v, d1 + 1);
        if d2 == n {
            proof {
                lemma_split_by_dashes(v@, d1 as int, d2 as int, d2 as int);
            }
            return Err(PermissionError::InvalidFormat);
        }
        let d3 = find_dash(&v, d2 + 1);
        proof {
            lemma_split_by_dashes(v@, d1 as int, d2 as int, d3 as int);
        }
        if d3 != n {
            return Err(PermissionError::InvalidFormat);
        }
        let admin = parse_segment(&v, 0, d1);
        let user = parse_segment(&v, d1 + 1, d2);
        let equipment = parse_segment(&v, d2 + 1, n);
        match (admin, user, equipment) {
            (Some(a), Some(u), Some(e)) => {
                proof {
                    crate::binary_text::lemma_value_bound(v@.subrange(0, d1 as int));
                    crate::binary_text::lemma_value_bound(v@.subrange(d1 + 1, d2 as int));
                    crate::binary_text::lemma_value_bound(v@.subrange(d2 + 1, n as int));
                }
                Ok(
                    PermissionsManager {
                        admin_permissions: FeaturePermissions { bits: a },
                        user_permissions: FeaturePermissions { bits: u },
                        equipment_permissions: FeaturePermissions { bits: e },
                    },
                )
            },
            _ => Err(PermissionError::InvalidEncoding),
        }
    }

    /// Writes the string form. Total: a mask that does not fit the width is
    /// written with all its digits.
    pub fn to_permissions_bitwise(&self) -> (r: String)
        ensures
            r@ == self.spec_token(),
    {
        let mut permissions_bitwise = self.admin_permissions.to_string();
        let user = self.user_permissions.to_string();
        let equipment = self.equipment_permissions.to_string();
        proof {
            reveal_strlit("-");
            assert("-"@ =~= seq!['-']);
        }
        permissions_bitwise.append("-");
        permissions_bitwise.append(user.as_str());
        permissions_bitwise.append("-");
        permissions_bitwise.append(equipment.as_str());
        permissions_bitwise
    }

    /// The mask of one area.
    pub fn feature(&self, area: FeatureArea) -> (r: FeaturePermissions)
        ensures
            r == self.spec_feature(area),
    {
        match area {
            FeatureArea::Admin => self.admin_permissions,
            FeatureArea::User => self.user_permissions,
            FeatureArea::Equipment => self.equipment_permissions,
        }
    }

    /// At least one bit of `permission` is set in `area`.
    pub fn has_permission(&self, area: FeatureArea, permission: u32) -> (r: bool)
        ensures
            r == self.spec_feature(area).spec_has(permission),
    {
        self.feature(area).has_permission(permission)
    }

    /// Every bit of `group` is set in `area`.
    pub fn has_permission_group(&self, area: FeatureArea, group: u32) -> (r: bool)
        ensures
            r == self.spec_feature(area).spec_has_group(group),
    {
        self.feature(area).has_permission_group(group)
    }
}

/// Position of the first `-` at or behind `from`, or the length of `v`.
fn find_dash(v: &Vec<char>, from: usize) -> (r: usize)
    requires
        from <= v.len(),
    ensures
        from <= r <= v.len(),
        r - from == first_dash(v@.skip(from as int)),
        r < v.len() ==> v@[r as int] == '-',
        forall|j: int| from <= j < r ==> v@[j] != '-',
{
    let mut i = from;
    while i < v.len() && v[i] != '-'
        invariant
            from <= i <= v.len(),
            forall|j: int| from <= j < i ==> v@[j] != '-',
        decreases v.len() - i,
    {
        i = i + 1;
    }
    proof {
        let t = v@.skip(from as int);
        assert forall|j: int| 0 <= j < i - from implies t[j] != '-' by {
            assert(t[j] == v@[from + j]);
        }
        lemma_first_dash_is(t, i - from);
    }
    i
}

} // verus!
