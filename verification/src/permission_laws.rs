//! What holds of every permission set and of every permission string.

use vstd::prelude::*;
use crate::binary_text::{
    binary_value,
    is_binary_digit,
    is_segment,
    lemma_segment_round_trip,
    padded_binary,
};
use crate::feature_permissions::{FeaturePermissions, PermissionError};
use crate::permission_manager::{
    first_dash,
    lemma_first_dash_is,
    split_on_dash,
    PermissionsManager,
};

verus! {

/// A segment holds no dash.
proof fn lemma_segment_has_no_dash(s: Seq<char>)
    requires
        is_segment(s),
    ensures
        forall|j: int| 0 <= j < s.len() ==> s[j] != '-',
{
    assert forall|j: int| 0 <= j < s.len() implies s[j] != '-' by {
        assert(is_binary_digit(s[j]));
    }
}

/// Three segments joined by dashes split back into the three segments.
pub proof fn lemma_split_of_joined_segments(a: Seq<char>, u: Seq<char>, e: Seq<char>)
    requires
        is_segment(a),
        is_segment(u),
        is_segment(e),
    ensures
        split_on_dash(a + seq!['-'] + u + seq!['-'] + e) == seq![a, u, e],
{
    let s0 = a + seq!['-'] + u + seq!['-'] + e;
    let s1 = u + seq!['-'] + e;
    lemma_segment_has_no_dash(a);
    lemma_segment_has_no_dash(u);
    lemma_segment_has_no_dash(e);
    assert forall|j: int| 0 <= j < 4 implies s0[j] != '-' by {
        assert(s0[j] == a[j]);
    }
    assert(s0[4] == '-');
    lemma_first_dash_is(s0, 4);
    assert(s0.skip(5) =~= s1);
    assert(s0.take(4) =~= a);
    assert forall|j: int| 0 <= j < 4 implies s1[j] != '-' by {
        assert(s1[j] == u[j]);
    }
    assert(s1[4] == '-');
    lemma_first_dash_is(s1, 4);
    assert(s1.skip(5) =~= e);
    assert(s1.take(4) =~= u);
    lemma_first_dash_is(e, 4);
    assert(split_on_dash(e) =~= seq![e]);
    assert(split_on_dash(s1) =~= seq![u, e]);
    assert(split_on_dash(s0) =~= seq![a, u, e]);
}

/// Reading the string form of a well-formed permission set gives the set
/// back.
pub proof fn lemma_token_round_trip(p: PermissionsManager)
    requires
        p.wf(),
    ensures
        PermissionsManager::spec_parse(p.spec_token()) == Ok::<
            PermissionsManager,
            PermissionError,
        >(p),
{
    let a = p.admin_permissions.spec_segment();
    let u = p.user_permissions.spec_segment();
    let e = p.equipment_permissions.spec_segment();
    lemma_segment_round_trip(p.admin_permissions.bits as nat);
    lemma_segment_round_trip(p.user_permissions.bits as nat);
    lemma_segment_round_trip(p.equipment_permissions.bits as nat);
    lemma_split_of_joined_segments(a, u, e);
    let q = PermissionsManager::spec_parse(p.spec_token())->Ok_0;
    assert(q.admin_permissions == p.admin_permissions);
    assert(q.user_permissions == p.user_permissions);
    assert(q.equipment_permissions == p.equipment_permissions);
}

/// A string that does not split into exactly three pieces is refused as
/// `InvalidFormat`; one that does, with a piece that is no segment, as
/// `InvalidEncoding`. Neither reads as any permission set.
pub proof fn lemma_malformed_token_is_refused(s: Seq<char>)
    ensures
        split_on_dash(s).len() != 3 ==> PermissionsManager::spec_parse(s) == Err::<
            PermissionsManager,
            PermissionError,
        >(PermissionError::InvalidFormat),
        split_on_dash(s).len() == 3 && (exists|i: int|
            0 <= i < 3 && !is_segment(#[trigger] split_on_dash(s)[i]))
            ==> PermissionsManager::spec_parse(s) == Err::<PermissionsManager, PermissionError>(
            PermissionError::InvalidEncoding,
        ),
{
}

/// A string is read as a permission set only where a well-formed set has
/// that string as its form: nothing else is accepted, and no two strings
/// stand for one set.
pub proof fn lemma_accepted_token_is_canonical(s: Seq<char>)
    requires
        PermissionsManager::spec_parse(s) is Ok,
    ensures
        PermissionsManager::spec_parse(s)->Ok_0.wf(),
        PermissionsManager::spec_parse(s)->Ok_0.spec_token() == s,
{
    let parts = split_on_dash(s);
    let p = PermissionsManager::spec_parse(s)->Ok_0;
    lemma_split_joins_back(s);
    lemma_segment_is_canonical(parts[0]);
    lemma_segment_is_canonical(parts[1]);
    lemma_segment_is_canonical(parts[2]);
    assert(p.spec_token() =~= s);
}

/// The pieces of a string that splits in three, joined by dashes, are the
/// string.
proof fn lemma_split_joins_back(s: Seq<char>)
    requires
        split_on_dash(s).len() == 3,
    ensures
        s == split_on_dash(s)[0] + seq!['-'] + split_on_dash(s)[1] + seq!['-'] + split_on_dash(
            s,
        )[2],
{
    let i = first_dash(s);
    lemma_first_dash_in_range(s);
    let s1 = s.skip(i + 1);
    let j = first_dash(s1);
    lemma_first_dash_in_range(s1);
    assert(i < s.len());
    assert(split_on_dash(s) =~= seq![s.take(i)] + split_on_dash(s1));
    assert(split_on_dash(s1).len() == 2);
    assert(j < s1.len());
    let s2 = s1.skip(j + 1);
    assert(split_on_dash(s1) =~= seq![s1.take(j)] + split_on_dash(s2));
    assert(split_on_dash(s2).len() == 1);
    lemma_first_dash_in_range(s2);
    crate::permission_manager::lemma_split_is_not_empty(s2.skip(first_dash(s2) + 1));
    assert(split_on_dash(s2) =~= seq![s2]);
    assert(s1 =~= s1.take(j) + seq!['-'] + s2);
    assert(s =~= s.take(i) + seq!['-'] + s1);
    assert(s =~= s.take(i) + seq!['-'] + s1.take(j) + seq!['-'] + s2);
}

proof fn lemma_first_dash_in_range(s: Seq<char>)
    ensures
        0 <= first_dash(s) <= s.len(),
        first_dash(s) < s.len() ==> s[first_dash(s)] == '-',
    decreases s.len(),
{
    if s.len() != 0 && s[0] != '-' {
        lemma_first_dash_in_range(s.drop_first());
    }
}

/// A segment is the padded numeral of the number it denotes.
pub proof fn lemma_segment_is_canonical(s: Seq<char>)
    requires
        is_segment(s),
    ensures
        binary_value(s) < 16,
        padded_binary(binary_value(s), 4) == s,
{
    crate::binary_text::lemma_value_bound(s);
    reveal_with_fuel(binary_value, 5);
    reveal_with_fuel(crate::binary_text::binary_digits, 6);
    let s3 = s.drop_last();
    let s2 = s3.drop_last();
    let s1 = s2.drop_last();
    let s0 = s1.drop_last();
    assert(is_binary_digit(s[0]) && is_binary_digit(s[1]) && is_binary_digit(s[2])
        && is_binary_digit(s[3]));
    assert(s3.last() == s[2] && s2.last() == s[1] && s1.last() == s[0]);
    assert(padded_binary(binary_value(s), 4) =~= s);
}

/// Bit `i` of `x` is set.
pub open spec fn bit_is_set(x: u32, i: u32) -> bool {
    (x >> i) & 1 == 1
}

/// A mask that is not zero has a bit that is set.
proof fn lemma_nonzero_has_a_bit(d: u32)
    requires
        d != 0,
    ensures
        exists|i: u32| i < 32 && bit_is_set(d, i),
{
    assert(d != 0 ==> ((d >> 0u32) & 1 == 1 || (d >> 1u32) & 1 == 1 || (d >> 2u32) & 1 == 1 || (d >> 3u32) & 1 == 1 || (d >> 4u32) & 1 == 1 || (d >> 5u32) & 1 == 1 || (d >> 6u32) & 1 == 1 || (d >> 7u32) & 1 == 1 || (d >> 8u32) & 1 == 1 || (d >> 9u32) & 1 == 1 || (d >> 10u32) & 1 == 1 || (d >> 11u32) & 1 == 1 || (d >> 12u32) & 1 == 1 || (d >> 13u32) & 1 == 1 || (d >> 14u32) & 1 == 1 || (d >> 15u32) & 1 == 1 || (d >> 16u32) & 1 == 1 || (d >> 17u32) & 1 == 1 || (d >> 18u32) & 1 == 1 || (d >> 19u32) & 1 == 1 || (d >> 20u32) & 1 == 1 || (d >> 21u32) & 1 == 1 || (d >> 22u32) & 1 == 1 || (d >> 23u32) & 1 == 1 || (d >> 24u32) & 1 == 1 || (d >> 25u32) & 1 == 1 || (d >> 26u32) & 1 == 1 || (d >> 27u32) & 1 == 1 || (d >> 28u32) & 1 == 1 || (d >> 29u32) & 1 == 1 || (d >> 30u32) & 1 == 1 || (d >> 31u32) & 1 == 1)) by (bit_vector);
    if (d >> 0u32) & 1 == 1 {
        assert(bit_is_set(d, 0));
    } else if (d >> 1u32) & 1 == 1 {
        assert(bit_is_set(d, 1));
    } else if (d >> 2u32) & 1 == 1 {
        assert(bit_is_set(d, 2));
    } else if (d >> 3u32) & 1 == 1 {
        assert(bit_is_set(d, 3));
    } else if (d >> 4u32) & 1 == 1 {
        assert(bit_is_set(d, 4));
    } else if (d >> 5u32) & 1 == 1 {
        assert(bit_is_set(d, 5));
    } else if (d >> 6u32) & 1 == 1 {
        assert(bit_is_set(d, 6));
    } else if (d >> 7u32) & 1 == 1 {
        assert(bit_is_set(d, 7));
    } else if (d >> 8u32) & 1 == 1 {
        assert(bit_is_set(d, 8));
    } else if (d >> 9u32) & 1 == 1 {
        assert(bit_is_set(d, 9));
    } else if (d >> 10u32) & 1 == 1 {
        assert(bit_is_set(d, 10));
    } else if (d >> 11u32) & 1 == 1 {
        assert(bit_is_set(d, 11));
    } else if (d >> 12u32) & 1 == 1 {
        assert(bit_is_set(d, 12));
    } else if (d >> 13u32) & 1 == 1 {
        assert(bit_is_set(d, 13));
    } else if (d >> 14u32) & 1 == 1 {
        assert(bit_is_set(d, 14));
    } else if (d >> 15u32) & 1 == 1 {
        assert(bit_is_set(d, 15));
    } else if (d >> 16u32) & 1 == 1 {
        assert(bit_is_set(d, 16));
    } else if (d >> 17u32) & 1 == 1 {
        assert(bit_is_set(d, 17));
    } else if (d >> 18u32) & 1 == 1 {
        assert(bit_is_set(d, 18));
    } else if (d >> 19u32) & 1 == 1 {
        assert(bit_is_set(d, 19));
    } else if (d >> 20u32) & 1 == 1 {
        assert(bit_is_set(d, 20));
    } else if (d >> 21u32) & 1 == 1 {
        assert(bit_is_set(d, 21));
    } else if (d >> 22u32) & 1 == 1 {
        assert(bit_is_set(d, 22));
    } else if (d >> 23u32) & 1 == 1 {
        assert(bit_is_set(d, 23));
    } else if (d >> 24u32) & 1 == 1 {
        assert(bit_is_set(d, 24));
    } else if (d >> 25u32) & 1 == 1 {
        assert(bit_is_set(d, 25));
    } else if (d >> 26u32) & 1 == 1 {
        assert(bit_is_set(d, 26));
    } else if (d >> 27u32) & 1 == 1 {
        assert(bit_is_set(d, 27));
    } else if (d >> 28u32) & 1 == 1 {
        assert(bit_is_set(d, 28));
    } else if (d >> 29u32) & 1 == 1 {
        assert(bit_is_set(d, 29));
    } else if (d >> 30u32) & 1 == 1 {
        assert(bit_is_set(d, 30));
    } else if (d >> 31u32) & 1 == 1 {
        assert(bit_is_set(d, 31));
    }
}

/// `has_permission_group` holds exactly where every bit of the mask is set.
pub proof fn lemma_group_means_every_bit(p: FeaturePermissions, mask: u32)
    ensures
        p.spec_has_group(mask) <==> (forall|i: u32|
            i < 32 && bit_is_set(mask, i) ==> bit_is_set(p.bits, i)),
{
    let bits = p.bits;
    if bits & mask == mask {
        assert forall|i: u32| i < 32 && bit_is_set(mask, i) implies bit_is_set(bits, i) by {
            assert(bits & mask == mask && i < 32 && (mask >> i) & 1 == 1 ==> (bits >> i) & 1 == 1)
                by (bit_vector);
        }
    } else {
        let d = mask & !bits;
        assert(bits & mask != mask ==> mask & !bits != 0) by (bit_vector);
        lemma_nonzero_has_a_bit(d);
        let i = choose|i: u32| i < 32 && bit_is_set(d, i);
        assert(i < 32 && ((mask & !bits) >> i) & 1 == 1 ==> (mask >> i) & 1 == 1 && (bits >> i) & 1
            != 1) by (bit_vector);
        assert(bit_is_set(mask, i) && !bit_is_set(bits, i));
    }
}

/// `has_permission` holds exactly where at least one bit of the mask is set.
pub proof fn lemma_has_means_some_bit(p: FeaturePermissions, mask: u32)
    ensures
        p.spec_has(mask) <==> (exists|i: u32|
            i < 32 && bit_is_set(mask, i) && bit_is_set(p.bits, i)),
{
    let bits = p.bits;
    if bits & mask != 0 {
        let d = bits & mask;
        lemma_nonzero_has_a_bit(d);
        let i = choose|i: u32| i < 32 && bit_is_set(d, i);
        assert(i < 32 && ((bits & mask) >> i) & 1 == 1 ==> (mask >> i) & 1 == 1 && (bits >> i) & 1
            == 1) by (bit_vector);
        assert(bit_is_set(mask, i) && bit_is_set(bits, i));
    } else {
        assert forall|i: u32| i < 32 && bit_is_set(mask, i) implies !bit_is_set(bits, i) by {
            assert(bits & mask == 0 && i < 32 && (mask >> i) & 1 == 1 ==> (bits >> i) & 1 != 1)
                by (bit_vector);
        }
    }
}

/// Holding a whole group implies holding some bit of it, unless the group is
/// empty; the converse fails wherever the mask has a bit that is not set.
pub proof fn lemma_group_implies_has(p: FeaturePermissions, mask: u32)
    ensures
        mask != 0 && p.spec_has_group(mask) ==> p.spec_has(mask),
        p.spec_has(mask) && !p.spec_has_group(mask) ==> mask & !p.bits != 0,
{
    let bits = p.bits;
    assert(mask != 0 && bits & mask == mask ==> bits & mask != 0) by (bit_vector);
    assert(bits & mask != mask ==> mask & !bits != 0) by (bit_vector);
}

} // verus!
