//! Reading a type-level string made of decimal digits as an index.
use super::{TStr, TStrName};
use vstd::prelude::*;

verus! {

/// Whether `c` is one of the ASCII digits `'0'..='9'`.
pub open spec fn is_digit(c: char) -> bool {
    '0' <= c && c <= '9'
}

/// The value of the decimal digit `c`.
pub open spec fn digit_value(c: char) -> nat {
    (c as int - '0' as int) as nat
}

/// Whether every character of `s` is a decimal digit.
pub open spec fn is_decimal(s: Seq<char>) -> bool {
    forall|i: int| 0 <= i < s.len() ==> is_digit(#[trigger] s[i])
}

/// The number that the decimal digits `s` denote (`0` for the empty string).
pub open spec fn decimal_value(s: Seq<char>) -> nat
    decreases s.len(),
{
    if s.len() == 0 {
        0
    } else {
        decimal_value(s.drop_last()) * 10 + digit_value(s.last())
    }
}

/// A prefix of a decimal numeral never denotes more than the whole numeral.
pub proof fn lemma_decimal_prefix_le(s: Seq<char>, k: int)
    requires
        0 <= k <= s.len(),
    ensures
        decimal_value(s.take(k)) <= decimal_value(s),
    decreases s.len() - k,
{
    if k < s.len() {
        lemma_decimal_prefix_le(s, k + 1);
        assert(s.take(k + 1).drop_last() =~= s.take(k));
    } else {
        assert(s.take(k) =~= s);
    }
}

/// The decimal digit whose value is `d` (for `d < 10`).
pub open spec fn digit_char(d: nat) -> char {
    if d == 0 {
        '0'
    } else if d == 1 {
        '1'
    } else if d == 2 {
        '2'
    } else if d == 3 {
        '3'
    } else if d == 4 {
        '4'
    } else if d == 5 {
        '5'
    } else if d == 6 {
        '6'
    } else if d == 7 {
        '7'
    } else if d == 8 {
        '8'
    } else {
        '9'
    }
}

/// The decimal numeral of `n`, without leading zeros: the name of the field
/// at index `n`.
pub open spec fn decimal_name(n: nat) -> Seq<char>
    decreases n,
{
    if n < 10 {
        seq![digit_char(n)]
    } else {
        decimal_name(n / 10).push(digit_char(n % 10))
    }
}

/// The digit of value `d` has value `d`.
pub proof fn lemma_digit_char(d: nat)
    requires
        d < 10,
    ensures
        is_digit(digit_char(d)),
        digit_value(digit_char(d)) == d,
{
    assert('9' as int - '0' as int == 9);
    assert('1' as int - '0' as int == 1);
}

/// The numeral of `n` denotes `n`.
pub proof fn lemma_decimal_name_value(n: nat)
    ensures
        decimal_value(decimal_name(n)) == n,
        is_decimal(decimal_name(n)),
    decreases n,
{
    if n < 10 {
        lemma_digit_char(n);
        let s = decimal_name(n);
        assert(s.drop_last() =~= Seq::<char>::empty());
        assert(decimal_value(Seq::<char>::empty()) == 0);
        assert(decimal_value(s) == decimal_value(s.drop_last()) * 10 + digit_value(s.last()));
    } else {
        lemma_digit_char(n % 10);
        lemma_decimal_name_value(n / 10);
        let s = decimal_name(n);
        assert(s.drop_last() =~= decimal_name(n / 10));
        assert(s.last() == digit_char(n % 10));
        assert(n == (n / 10) * 10 + n % 10) by (nonlinear_arith);
        assert(decimal_value(s) == decimal_value(s.drop_last()) * 10 + digit_value(s.last()));
    }
}

/// Converts a string of decimal digits into the number it denotes,
/// such as `"99"` into `99`.
///
/// Every character must be a decimal digit, and the number must fit in a `usize`.
pub fn str_to_usize(s: &str) -> (r: usize)
    requires
        is_decimal(s@),
        decimal_value(s@) <= usize::MAX,
    ensures
        r == decimal_value(s@),
{
    proof {
        assert(vstd::string::is_ascii(s));
        vstd::string::is_ascii_spec_bytes(s);
    }
    let bytes = s.as_bytes();
    let mut curr: usize = 0;
    let mut index: usize = 0;
    while index < bytes.len()
        invariant
            bytes@.len() == s@.len(),
            forall|i: int| 0 <= i < s@.len() ==> bytes@[i] == s@[i] as u8,
            is_decimal(s@),
            decimal_value(s@) <= usize::MAX,
            index <= bytes@.len(),
            curr == decimal_value(s@.take(index as int)),
        decreases bytes@.len() - index,
    {
        let b: u8 = bytes[index];
        proof {
            assert(is_digit(s@[index as int]));
            assert(b == s@[index as int] as u8);
            assert(s@.take(index as int + 1).drop_last() =~= s@.take(index as int));
            assert(s@.take(index as int + 1).last() == s@[index as int]);
            lemma_decimal_prefix_le(s@, index as int + 1);
        }
        let digit: usize = (b - 48u8) as usize;
        curr = curr * 10 + digit;
        index = index + 1;
    }
    proof {
        assert(s@.take(index as int) =~= s@);
    }
    curr
}

/// A type-level string whose characters are decimal digits that denote a `usize`.
pub trait IndexName: TStrName {
    proof fn lemma_is_index()
        ensures
            is_decimal(Self::name_spec()),
            decimal_value(Self::name_spec()) <= usize::MAX,
    ;
}

/// A field path that denotes an index, such as the path of tuple field `0`.
pub trait ToUsize {
    spec fn usize_spec() -> nat;

    fn to_usize() -> (r: usize)
        ensures
            r == Self::usize_spec(),
    ;
}

impl<I: IndexName> ToUsize for TStr<I> {
    open spec fn usize_spec() -> nat {
        decimal_value(I::name_spec())
    }

    fn to_usize() -> (r: usize) {
        proof {
            I::lemma_is_index();
        }
        str_to_usize(I::name())
    }
}

} // verus!
