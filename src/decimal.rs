use vstd::prelude::*;

use crate::error::{NumberKind, ParseError};
use crate::text::{is_dec_digit, radix_value, split_char, split_on};

verus! {

/// A decimal number as the log writes it: `(-1)^negative * mantissa / 10^scale`.
#[derive(Debug, Clone, Copy, PartialEq, Eq, Structural)]
pub struct Decimal {
    pub negative: bool,
    pub mantissa: u64,
    pub scale: u32,
}

/// Every character is a decimal digit (the empty string included).
pub open spec fn all_dec(s: Seq<char>) -> bool {
    forall|i: int| 0 <= i < s.len() ==> is_dec_digit(#[trigger] s[i])
}

/// The text after an optional sign.
pub open spec fn unsigned_part(s: Seq<char>) -> Seq<char> {
    if s.len() > 0 && (s[0] == '-' || s[0] == '+') {
        s.drop_first()
    } else {
        s
    }
}

/// The digits after the point, if there is one.
pub open spec fn fraction_part(p: Seq<Seq<char>>) -> Seq<char> {
    if p.len() == 2 {
        p[1]
    } else {
        Seq::<char>::empty()
    }
}

/// The decimal that `s` writes: an optional sign, digits, and at most one
/// point, with at least one digit.
pub open spec fn decimal_of(s: Seq<char>) -> Option<Decimal> {
    let p = split_on(unsigned_part(s), '.');
    let whole = p[0];
    let frac = fraction_part(p);
    if (p.len() == 1 || p.len() == 2) && all_dec(whole) && all_dec(frac) && whole.len()
        + frac.len() > 0 && radix_value(whole + frac, 10) <= u64::MAX && frac.len()
        <= u32::MAX {
        Some(
            Decimal {
                negative: s.len() > 0 && s[0] == '-',
                mantissa: radix_value(whole + frac, 10) as u64,
                scale: frac.len() as u32,
            },
        )
    } else {
        None
    }
}

/// Reads the digits of `s` after those of `prefix`, whose value is `acc`.
fn extend_digits(s: &str, Ghost(prefix): Ghost<Seq<char>>, acc: u64) -> (r: Option<u64>)
    requires
        acc as nat == radix_value(prefix, 10),
    ensures
        r == (if all_dec(s@) && radix_value(prefix + s@, 10) <= u64::MAX {
            Some(radix_value(prefix + s@, 10) as u64)
        } else {
            None::<u64>
        }),
{
    let n = s.unicode_len();
    let mut acc = acc;
    let mut i: usize = 0;
    while i < n
        invariant
            n == s@.len(),
            0 <= i <= n,
            acc as nat == radix_value(prefix + s@.subrange(0, i as int), 10),
            forall|k: int| 0 <= k < i ==> is_dec_digit(#[trigger] s@[k]),
        decreases n - i,
    {
        let c = s.get_char(i);
        if !('0' <= c && c <= '9') {
            return None;
        }
        let d = (c as u32 - '0' as u32) as u64;
        let ghost whole = prefix + s@;
        let ghost upto = prefix + s@.subrange(0, i + 1);
        proof {
            assert(upto.drop_last() =~= prefix + s@.subrange(0, i as int));
            assert(whole.subrange(0, prefix.len() + i + 1) =~= upto);
            assert(whole.subrange(0, prefix.len() + i) =~= prefix + s@.subrange(0, i as int));
            lemma_value_prefix(whole, prefix.len() + i + 1);
        }
        if acc > (u64::MAX - d) / 10 {
            proof {
                let a = acc as int;
                let dd = d as int;
                assert(a * 10 + dd > u64::MAX) by (nonlinear_arith)
                    requires
                        a > (u64::MAX - dd) / 10,
                        0 <= dd <= 9,
                ;
            }
            return None;
        }
        proof {
            let a = acc as int;
            let dd = d as int;
            assert(a * 10 + dd <= u64::MAX) by (nonlinear_arith)
                requires
                    a <= (u64::MAX - dd) / 10,
                    0 <= dd <= 9,
            ;
        }
        acc = acc * 10 + d;
        i = i + 1;
    }
    assert(s@.subrange(0, n as int) =~= s@);
    Some(acc)
}

proof fn lemma_value_prefix(s: Seq<char>, i: int)
    requires
        0 <= i <= s.len(),
    ensures
        radix_value(s, 10) >= radix_value(s.subrange(0, i), 10),
    decreases s.len() - i,
{
    if i < s.len() {
        assert(s.subrange(0, i + 1).drop_last() =~= s.subrange(0, i));
        lemma_value_prefix(s, i + 1);
    } else {
        assert(s.subrange(0, i) =~= s);
    }
}

impl Decimal {
    /// Decodes a decimal field such as `-931.46`, `0.4119` or `3800.000000`.
    pub fn parse(s: &str) -> (r: Result<Decimal, ParseError>)
        ensures
            decimal_of(s@) matches Some(d) ==> r == Ok::<Decimal, ParseError>(d),
            decimal_of(s@) is None ==> (r matches Err(ParseError::InvalidNumber { field, expected })
                && field@ == s@ && expected == NumberKind::Decimal),
    {
        let n = s.unicode_len();
        let signed = n > 0 && (s.get_char(0) == '-' || s.get_char(0) == '+');
        let negative = n > 0 && s.get_char(0) == '-';
        let body = if signed {
            s.substring_char(1, n)
        } else {
            s
        };
        assert(body@ =~= unsigned_part(s@));
        let parts = split_char(body, '.');
        let ghost p = split_on(unsigned_part(s@), '.');
        let err = ParseError::InvalidNumber { field: s.to_owned(), expected: NumberKind::Decimal };
        if parts.len() > 2 {
            return Err(err);
        }
        let whole = parts[0];
        let frac = if parts.len() == 2 {
            parts[1]
        } else {
            ""
        };
        proof {
            reveal_strlit("");
        }
        assert(frac@ =~= fraction_part(p));
        if whole.unicode_len() == 0 && frac.unicode_len() == 0 {
            return Err(err);
        }
        let m1 = extend_digits(whole, Ghost(Seq::<char>::empty()), 0);
        assert(Seq::<char>::empty() + whole@ =~= whole@);
        proof {
            assert((whole@ + frac@).subrange(0, whole@.len() as int) =~= whole@);
            lemma_value_prefix(whole@ + frac@, whole@.len() as int);
        }
        let a = match m1 {
            Some(a) => a,
            None => {
                return Err(err);
            },
        };
        let m2 = extend_digits(frac, Ghost(whole@), a);
        let mantissa = match m2 {
            Some(m) => m,
            None => {
                return Err(err);
            },
        };
        let fl = frac.unicode_len();
        if fl > 4294967295usize {
            return Err(err);
        }
        Ok(Decimal { negative, mantissa, scale: fl as u32 })
    }
}

} // verus!
