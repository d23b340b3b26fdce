//! Binary numerals as text: the digits of a number, the number of a digit
//! string, and the fixed-width form used for one feature area.

use vstd::prelude::*;
use vstd::string::*;
use crate::feature_permissions::PERMISSION_WIDTH;

verus! {

/// The character is `0` or `1`.
pub open spec fn is_binary_digit(c: char) -> bool {
    c == '0' || c == '1'
}

/// Every character is `0` or `1`.
pub open spec fn is_binary(s: Seq<char>) -> bool {
    forall|i: int| 0 <= i < s.len() ==> is_binary_digit(#[trigger] s[i])
}

/// Exactly `PERMISSION_WIDTH` binary digits.
pub open spec fn is_segment(s: Seq<char>) -> bool {
    s.len() == PERMISSION_WIDTH && is_binary(s)
}

/// The last binary digit of `n`.
pub open spec fn digit_char(n: nat) -> char {
    if n % 2 == 1 {
        '1'
    } else {
        '0'
    }
}

/// The binary numeral of `n`, most significant digit first, without leading
/// zeros; empty for zero.
pub open spec fn binary_digits(n: nat) -> Seq<char>
    decreases n,
{
    if n == 0 {
        Seq::empty()
    } else {
        binary_digits(n / 2).push(digit_char(n))
    }
}

/// `k` zeros.
pub open spec fn zeros(k: nat) -> Seq<char> {
    Seq::new(k, |i: int| '0')
}

/// The binary numeral of `n`, padded on the left with zeros to at least
/// `width` digits.
pub open spec fn padded_binary(n: nat, width: nat) -> Seq<char> {
    let d = binary_digits(n);
    if d.len() >= width {
        d
    } else {
        zeros((width - d.len()) as nat) + d
    }
}

/// The number that a binary numeral denotes. A character other than `1`
/// counts as zero; callers ask `is_binary` first.
pub open spec fn binary_value(s: Seq<char>) -> nat
    decreases s.len(),
{
    if s.len() == 0 {
        0
    } else {
        2 * binary_value(s.drop_last()) + if s.last() == '1' {
            1nat
        } else {
            0nat
        }
    }
}

/// The numeral of a number holds binary digits only and denotes the
/// number.
pub proof fn lemma_digits_are_binary(n: nat)
    ensures
        is_binary(binary_digits(n)),
        binary_value(binary_digits(n)) == n,
    decreases n,
{
    if n != 0 {
        lemma_digits_are_binary(n / 2);
        let d = binary_digits(n);
        assert(d.drop_last() =~= binary_digits(n / 2));
        assert(d.last() == digit_char(n));
    }
}

/// Zeros denote zero.
pub proof fn lemma_value_of_zeros(k: nat)
    ensures
        binary_value(zeros(k)) == 0,
    decreases k,
{
    if k != 0 {
        lemma_value_of_zeros((k - 1) as nat);
        assert(zeros(k).drop_last() =~= zeros((k - 1) as nat));
    }
}

/// Zeros in front of a numeral do not change what it denotes.
pub proof fn lemma_leading_zeros_keep_value(k: nat, d: Seq<char>)
    ensures
        binary_value(zeros(k) + d) == binary_value(d),
    decreases d.len(),
{
    if d.len() == 0 {
        assert(zeros(k) + d =~= zeros(k));
        lemma_value_of_zeros(k);
    } else {
        lemma_leading_zeros_keep_value(k, d.drop_last());
        assert((zeros(k) + d).drop_last() =~= zeros(k) + d.drop_last());
        assert((zeros(k) + d).last() == d.last());
    }
}

/// Four digits denote a number below sixteen.
pub proof fn lemma_value_bound(s: Seq<char>)
    requires
        s.len() == 4,
    ensures
        binary_value(s) < 16,
{
    lemma_prefix_value_bound(s);
}

/// A number below sixteen has at most four digits.
pub proof fn lemma_short_numbers_have_few_digits(n: nat)
    requires
        n < 16,
    ensures
        binary_digits(n).len() <= 4,
{
    reveal_with_fuel(binary_digits, 6);
}

/// A number below sixteen is written as one segment, and the segment reads
/// back as the number.
pub proof fn lemma_segment_round_trip(n: nat)
    requires
        n < 16,
    ensures
        is_segment(padded_binary(n, 4)),
        binary_value(padded_binary(n, 4)) == n,
{
    lemma_digits_are_binary(n);
    lemma_short_numbers_have_few_digits(n);
    let d = binary_digits(n);
    let k = (4 - d.len()) as nat;
    lemma_leading_zeros_keep_value(k, d);
    if d.len() < 4 {
        let p = zeros(k) + d;
        assert forall|i: int| 0 <= i < p.len() implies is_binary_digit(#[trigger] p[i]) by {
            if i >= k {
                assert(p[i] == d[i - k]);
            }
        }
    }
}

/// A number of sixteen or more is written with more digits than a segment
/// holds.
pub proof fn lemma_wide_numbers_overflow_segment(n: nat)
    requires
        n >= 16,
    ensures
        padded_binary(n, 4).len() > 4,
{
    reveal_with_fuel(binary_digits, 6);
}

/// The binary numeral of `n`, zero-padded to the segment width.
pub fn to_binary_string(n: u32) -> (r: String)
    ensures
        r@ == padded_binary(n as nat, PERMISSION_WIDTH as nat),
{
    let mut rest: u32 = n;
    let mut out = String::new();
    while rest > 0
        invariant
            binary_digits(n as nat) == binary_digits(rest as nat) + out@,
        decreases rest,
    {
        let digit = if rest % 2 == 1 {
            "1"
        } else {
            "0"
        };
        proof {
            reveal_strlit("1");
            reveal_strlit("0");
            assert(digit@ =~= seq![digit_char(rest as nat)]);
            assert(binary_digits(rest as nat) + out@ =~= binary_digits((rest / 2) as nat) + (digit@
                + out@));
        }
        out = String::from_str(digit).concat(out.as_str());
        rest = rest / 2;
    }
    assert(out@ =~= binary_digits(n as nat));
    let mut len: usize = out.as_str().unicode_len();
    while len < PERMISSION_WIDTH
        invariant
            len == out@.len(),
            len <= PERMISSION_WIDTH || out@ == binary_digits(n as nat),
            len <= PERMISSION_WIDTH ==> out@ == zeros((len - binary_digits(n as nat).len()) as nat)
                + binary_digits(n as nat),
            binary_digits(n as nat).len() <= len,
        decreases PERMISSION_WIDTH - len,
    {
        proof {
            reveal_strlit("0");
            let d = binary_digits(n as nat);
            let k = (len - d.len()) as nat;
            assert("0"@ + (zeros(k) + d) =~= zeros(k + 1) + d);
        }
        out = String::from_str("0").concat(out.as_str());
        len = len + 1;
    }
    proof {
        let d = binary_digits(n as nat);
        if d.len() < 4 {
            assert(len == 4);
        } else {
            assert(out@ =~= d);
        }
    }
    out
}

/// Reads `v[from..to]` as a segment.
pub(crate) fn parse_segment(v: &Vec<char>, from: usize, to: usize) -> (r: Option<u32>)
    requires
        from <= to <= v.len(),
    ensures
        is_segment(v@.subrange(from as int, to as int)) ==> r == Some(
            binary_value(v@.subrange(from as int, to as int)) as u32,
        ),
        !is_segment(v@.subrange(from as int, to as int)) ==> r is None,
{
    let ghost s = v@.subrange(from as int, to as int);
    if to - from != PERMISSION_WIDTH {
        return None;
    }
    let mut bits: u32 = 0;
    let mut i: usize = 0;
    while i < PERMISSION_WIDTH
        invariant
            i <= PERMISSION_WIDTH,
            to - from == PERMISSION_WIDTH,
            to <= v.len(),
            s == v@.subrange(from as int, to as int),
            is_binary(s.take(i as int)),
            bits == binary_value(s.take(i as int)),
            bits < 16,
        decreases PERMISSION_WIDTH - i,
    {
        let c = v[from + i];
        assert(c == s[i as int]);
        let ghost next = s.take(i + 1);
        assert(next.drop_last() =~= s.take(i as int));
        assert(next.last() == c);
        if c != '0' && c != '1' {
            assert(!is_binary_digit(s[i as int]));
            return None;
        }
        proof {
            lemma_prefix_value_bound(s.take(i as int));
        }
        bits = if c == '1' {
            2 * bits + 1
        } else {
            2 * bits
        };
        i = i + 1;
        proof {
            assert(is_binary(next)) by {
                assert forall|j: int| 0 <= j < next.len() implies is_binary_digit(
                    #[trigger] next[j],
                ) by {
                    if j < i - 1 {
                        assert(next[j] == s.take(i - 1)[j]);
                    }
                }
            }
            lemma_prefix_value_bound(next);
        }
    }
    assert(s.take(4) =~= s);
    Some(bits)
}

/// A numeral of at most four digits denotes a number below two to the power
/// of its length.
pub proof fn lemma_prefix_value_bound(s: Seq<char>)
    requires
        s.len() <= 4,
    ensures
        s.len() == 0 ==> binary_value(s) < 1,
        s.len() == 1 ==> binary_value(s) < 2,
        s.len() == 2 ==> binary_value(s) < 4,
        s.len() == 3 ==> binary_value(s) < 8,
        s.len() == 4 ==> binary_value(s) < 16,
    decreases s.len(),
{
    if s.len() > 0 {
        lemma_prefix_value_bound(s.drop_last());
    }
}

} // verus!
