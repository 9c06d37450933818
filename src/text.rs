use vstd::prelude::*;

verus! {

// ---------------------------------------------------------------------
// Characters and digit strings
// ---------------------------------------------------------------------

pub open spec fn is_dec_digit(c: char) -> bool {
    '0' <= c && c <= '9'
}

pub open spec fn is_hex_digit(c: char) -> bool {
    is_dec_digit(c) || ('a' <= c && c <= 'f') || ('A' <= c && c <= 'F')
}

/// A digit of the given base (10 or 16).
pub open spec fn is_radix_digit(c: char, base: nat) -> bool {
    if base == 16 {
        is_hex_digit(c)
    } else {
        is_dec_digit(c)
    }
}

/// The value of a decimal or hexadecimal digit.
pub open spec fn digit_value(c: char) -> nat {
    if is_dec_digit(c) {
        (c as u32 - '0' as u32) as nat
    } else if 'a' <= c && c <= 'f' {
        (c as u32 - 'a' as u32 + 10) as nat
    } else {
        (c as u32 - 'A' as u32 + 10) as nat
    }
}

/// The value of a string of digits, most significant first.
pub open spec fn radix_value(s: Seq<char>, base: nat) -> nat
    decreases s.len(),
{
    if s.len() == 0 {
        0
    } else {
        radix_value(s.drop_last(), base) * base + digit_value(s.last())
    }
}

/// A non-empty string of digits of the base.
pub open spec fn radix_ok(s: Seq<char>, base: nat) -> bool {
    s.len() > 0 && forall|i: int| 0 <= i < s.len() ==> is_radix_digit(#[trigger] s[i], base)
}

/// The digits of `s`, read as a number of at most `limit`.
pub open spec fn digits_of(s: Seq<char>, base: nat, limit: nat) -> Option<nat> {
    if radix_ok(s, base) && radix_value(s, base) <= limit {
        Some(radix_value(s, base))
    } else {
        None
    }
}

/// An unsigned number as Rust's integer parsers read it: an optional `+`,
/// then one or more digits, of a value of at most `limit`.
pub open spec fn unsigned_of(s: Seq<char>, base: nat, limit: nat) -> Option<nat> {
    if s.len() > 0 && s[0] == '+' {
        digits_of(s.drop_first(), base, limit)
    } else {
        digits_of(s, base, limit)
    }
}

/// What `u64::from_str` accepts, and the value.
pub open spec fn u64_of(s: Seq<char>) -> Option<u64> {
    match unsigned_of(s, 10, u64::MAX as nat) {
        Some(v) => Some(v as u64),
        None => None,
    }
}

/// What `u8::from_str` accepts, and the value.
pub open spec fn u8_of(s: Seq<char>) -> Option<u8> {
    match unsigned_of(s, 10, u8::MAX as nat) {
        Some(v) => Some(v as u8),
        None => None,
    }
}

/// What `u64::from_str_radix(_, 16)` accepts, and the value.
pub open spec fn hex_u64_of(s: Seq<char>) -> Option<u64> {
    match unsigned_of(s, 16, u64::MAX as nat) {
        Some(v) => Some(v as u64),
        None => None,
    }
}

/// What `u8::from_str_radix(_, 16)` accepts, and the value.
pub open spec fn hex_u8_of(s: Seq<char>) -> Option<u8> {
    match unsigned_of(s, 16, u8::MAX as nat) {
        Some(v) => Some(v as u8),
        None => None,
    }
}

/// A signed decimal number: an optional sign, then one or more digits.
pub open spec fn signed_of(s: Seq<char>, min: int, max: int) -> Option<int> {
    if s.len() > 0 && s[0] == '-' {
        match digits_of(s.drop_first(), 10, (-min) as nat) {
            Some(v) => Some(-v),
            None => None,
        }
    } else {
        match unsigned_of(s, 10, max as nat) {
            Some(v) => Some(v as int),
            None => None,
        }
    }
}

/// What `i64::from_str` accepts, and the value.
pub open spec fn i64_of(s: Seq<char>) -> Option<i64> {
    match signed_of(s, i64::MIN as int, i64::MAX as int) {
        Some(v) => Some(v as i64),
        None => None,
    }
}

/// What `i8::from_str` accepts, and the value.
pub open spec fn i8_of(s: Seq<char>) -> Option<i8> {
    match signed_of(s, i8::MIN as int, i8::MAX as int) {
        Some(v) => Some(v as i8),
        None => None,
    }
}

/// `s` with one leading `0x` removed, if it has one.
pub open spec fn strip_hex_prefix(s: Seq<char>) -> Seq<char> {
    if s.len() >= 2 && s[0] == '0' && s[1] == 'x' {
        s.subrange(2, s.len() as int)
    } else {
        s
    }
}

pub open spec fn starts_with(s: Seq<char>, p: Seq<char>) -> bool {
    p.len() <= s.len() && s.subrange(0, p.len() as int) == p
}

pub open spec fn ends_with(s: Seq<char>, p: Seq<char>) -> bool {
    p.len() <= s.len() && s.subrange(s.len() - p.len(), s.len() as int) == p
}

proof fn lemma_radix_value_step(s: Seq<char>, i: int, base: nat)
    requires
        0 <= i < s.len(),
    ensures
        radix_value(s.subrange(0, i + 1), base) == radix_value(s.subrange(0, i), base) * base
            + digit_value(s[i]),
{
    assert(s.subrange(0, i + 1).drop_last() =~= s.subrange(0, i));
}

proof fn lemma_radix_value_grows(s: Seq<char>, i: int, base: nat)
    requires
        0 <= i < s.len(),
        base >= 1,
    ensures
        radix_value(s.subrange(0, i + 1), base) >= radix_value(s.subrange(0, i), base),
{
    lemma_radix_value_step(s, i, base);
    let v = radix_value(s.subrange(0, i), base);
    assert(v * base >= v) by (nonlinear_arith)
        requires
            base >= 1,
    ;
}

// ---------------------------------------------------------------------
// Executable text helpers
// ---------------------------------------------------------------------

fn char_is_radix_digit(c: char, base: u64) -> (r: bool)
    ensures
        r == is_radix_digit(c, base as nat),
{
    if base == 16 {
        ('0' <= c && c <= '9') || ('a' <= c && c <= 'f') || ('A' <= c && c <= 'F')
    } else {
        '0' <= c && c <= '9'
    }
}

fn char_digit_value(c: char) -> (r: u64)
    requires
        is_hex_digit(c),
    ensures
        r as nat == digit_value(c),
        r < 16,
{
    if '0' <= c && c <= '9' {
        (c as u32 - '0' as u32) as u64
    } else if 'a' <= c && c <= 'f' {
        (c as u32 - 'a' as u32 + 10) as u64
    } else {
        (c as u32 - 'A' as u32 + 10) as u64
    }
}

/// Reads the whole of `s` as digits of `base`, with a value of at most `limit`.
pub fn parse_digits(s: &str, base: u64, limit: u64) -> (r: Option<u64>)
    requires
        base == 10 || base == 16,
        limit >= 16,
    ensures
        r == (match digits_of(s@, base as nat, limit as nat) {
            Some(v) => Some(v as u64),
            None => None::<u64>,
        }),
{
    let n = s.unicode_len();
    if n == 0 {
        return None;
    }
    let mut acc: u64 = 0;
    let mut over = false;
    let mut i: usize = 0;
    while i < n
        invariant
            n == s@.len(),
            0 <= i <= n,
            base == 10 || base == 16,
            limit >= 16,
            forall|k: int| 0 <= k < i ==> is_radix_digit(#[trigger] s@[k], base as nat),
            !over ==> acc as nat == radix_value(s@.subrange(0, i as int), base as nat) && acc
                <= limit,
            over ==> radix_value(s@.subrange(0, i as int), base as nat) > limit,
        decreases n - i,
    {
        let c = s.get_char(i);
        if !char_is_radix_digit(c, base) {
            assert(!radix_ok(s@, base as nat));
            return None;
        }
        let d = char_digit_value(c);
        proof {
            lemma_radix_value_step(s@, i as int, base as nat);
            lemma_radix_value_grows(s@, i as int, base as nat);
        }
        if !over {
            if acc > (limit - d) / base {
                proof {
                    let a = acc as int;
                    let b = base as int;
                    let l = limit as int;
                    let dd = d as int;
                    assert(a * b + dd > l) by (nonlinear_arith)
                        requires
                            a > (l - dd) / b,
                            b > 0,
                            dd >= 0,
                            l >= dd,
                    ;
                }
                over = true;
            } else {
                proof {
                    let a = acc as int;
                    let b = base as int;
                    let l = limit as int;
                    let dd = d as int;
                    assert(a * b + dd <= l) by (nonlinear_arith)
                        requires
                            a <= (l - dd) / b,
                            b > 0,
                            dd >= 0,
                            l >= dd,
                    ;
                }
                acc = acc * base + d;
            }
        }
        i = i + 1;
    }
    assert(s@.subrange(0, n as int) =~= s@);
    if over {
        None
    } else {
        Some(acc)
    }
}

/// Reads `s` as an unsigned number: an optional `+`, then digits.
pub fn parse_unsigned(s: &str, base: u64, limit: u64) -> (r: Option<u64>)
    requires
        base == 10 || base == 16,
        limit >= 16,
    ensures
        r == (match unsigned_of(s@, base as nat, limit as nat) {
            Some(v) => Some(v as u64),
            None => None::<u64>,
        }),
{
    let n = s.unicode_len();
    if n > 0 && s.get_char(0) == '+' {
        let rest = s.substring_char(1, n);
        assert(rest@ =~= s@.drop_first());
        parse_digits(rest, base, limit)
    } else {
        parse_digits(s, base, limit)
    }
}

/// Reads `s` as a signed decimal number within `[min, max]`.
pub fn parse_signed(s: &str, min: i64, max: i64) -> (r: Option<i64>)
    requires
        min <= -16,
        max >= 16,
    ensures
        r == (match signed_of(s@, min as int, max as int) {
            Some(v) => Some(v as i64),
            None => None::<i64>,
        }),
{
    let n = s.unicode_len();
    if n > 0 && s.get_char(0) == '-' {
        let rest = s.substring_char(1, n);
        assert(rest@ =~= s@.drop_first());
        let magnitude: u64 = if min == i64::MIN {
            9223372036854775808u64
        } else {
            (-min) as u64
        };
        match parse_digits(rest, 10, magnitude) {
            Some(m) => {
                if m == 9223372036854775808u64 {
                    Some(i64::MIN)
                } else {
                    Some(-(m as i64))
                }
            },
            None => None,
        }
    } else {
        match parse_unsigned(s, 10, max as u64) {
            Some(v) => Some(v as i64),
            None => None,
        }
    }
}

/// Compares two strings character by character.
pub fn str_eq(a: &str, b: &str) -> (r: bool)
    ensures
        r == (a@ == b@),
{
    let n = a.unicode_len();
    if n != b.unicode_len() {
        return false;
    }
    let mut i: usize = 0;
    while i < n
        invariant
            n == a@.len(),
            n == b@.len(),
            0 <= i <= n,
            forall|k: int| 0 <= k < i ==> a@[k] == b@[k],
        decreases n - i,
    {
        if a.get_char(i) != b.get_char(i) {
            return false;
        }
        i = i + 1;
    }
    assert(a@ =~= b@);
    true
}

/// Whether `s` begins with `p`.
pub fn has_prefix(s: &str, p: &str) -> (r: bool)
    ensures
        r == starts_with(s@, p@),
{
    let n = s.unicode_len();
    let m = p.unicode_len();
    if m > n {
        return false;
    }
    let mut i: usize = 0;
    while i < m
        invariant
            n == s@.len(),
            m == p@.len(),
            m <= n,
            0 <= i <= m,
            forall|k: int| 0 <= k < i ==> s@[k] == p@[k],
        decreases m - i,
    {
        if s.get_char(i) != p.get_char(i) {
            assert(s@.subrange(0, m as int)[i as int] != p@[i as int]);
            return false;
        }
        i = i + 1;
    }
    assert(s@.subrange(0, m as int) =~= p@);
    true
}

/// Whether `s` ends with `p`.
pub fn has_suffix(s: &str, p: &str) -> (r: bool)
    ensures
        r == ends_with(s@, p@),
{
    let n = s.unicode_len();
    let m = p.unicode_len();
    if m > n {
        return false;
    }
    let off = n - m;
    let mut i: usize = 0;
    while i < m
        invariant
            n == s@.len(),
            m == p@.len(),
            m <= n,
            off == n - m,
            0 <= i <= m,
            forall|k: int| 0 <= k < i ==> s@[off + k] == p@[k],
        decreases m - i,
    {
        if s.get_char(off + i) != p.get_char(i) {
            assert(s@.subrange(off as int, n as int)[i as int] != p@[i as int]);
            return false;
        }
        i = i + 1;
    }
    assert(s@.subrange(off as int, n as int) =~= p@);
    true
}

/// `s` without a leading `0x`, if it has one.
pub fn trim_hex_prefix(s: &str) -> (r: &str)
    ensures
        r@ == strip_hex_prefix(s@),
{
    let n = s.unicode_len();
    if n >= 2 && s.get_char(0) == '0' && s.get_char(1) == 'x' {
        s.substring_char(2, n)
    } else {
        s
    }
}

/// The pieces of `s` between occurrences of `c`, as `str::split` gives them.
pub open spec fn split_on(s: Seq<char>, c: char) -> Seq<Seq<char>>
    decreases s.len(),
{
    if s.len() == 0 {
        seq![Seq::<char>::empty()]
    } else {
        let init = split_on(s.drop_last(), c);
        if s.last() == c {
            init.push(Seq::<char>::empty())
        } else {
            init.update(init.len() - 1, init.last().push(s.last()))
        }
    }
}

/// The views of a sequence of string slices.
pub open spec fn views(v: Seq<&str>) -> Seq<Seq<char>> {
    v.map_values(|x: &str| x@)
}

pub proof fn lemma_split_on_nonempty(s: Seq<char>, c: char)
    ensures
        split_on(s, c).len() >= 1,
    decreases s.len(),
{
    if s.len() > 0 {
        lemma_split_on_nonempty(s.drop_last(), c);
    }
}

/// Splits `s` at each occurrence of `c`.
pub fn split_char<'a>(s: &'a str, c: char) -> (r: Vec<&'a str>)
    ensures
        views(r@) == split_on(s@, c),
        r@.len() == split_on(s@, c).len(),
        r@.len() >= 1,
        forall|i: int| 0 <= i < r@.len() ==> #[trigger] r@[i]@ == split_on(s@, c)[i],
{
    let n = s.unicode_len();
    let mut parts: Vec<&'a str> = Vec::new();
    let mut start: usize = 0;
    let mut i: usize = 0;
    proof {
        assert(s@.subrange(0, 0) =~= Seq::<char>::empty());
        assert(views(parts@).push(s@.subrange(0, 0)) =~= seq![Seq::<char>::empty()]);
    }
    while i < n
        invariant
            n == s@.len(),
            0 <= start <= i <= n,
            split_on(s@.subrange(0, i as int), c) == views(parts@).push(
                s@.subrange(start as int, i as int),
            ),
        decreases n - i,
    {
        let ch = s.get_char(i);
        let ghost pre = s@.subrange(0, i as int);
        let ghost next = s@.subrange(0, i + 1);
        proof {
            assert(next.drop_last() =~= pre);
            assert(next.last() == ch);
            lemma_split_on_nonempty(pre, c);
        }
        if ch == c {
            let piece = s.substring_char(start, i);
            let ghost before = parts@;
            parts.push(piece);
            start = i + 1;
            assert(views(parts@) =~= views(before).push(piece@));
            assert(s@.subrange(start as int, i + 1) =~= Seq::<char>::empty());
            assert(split_on(next, c) =~= views(parts@).push(s@.subrange(start as int, i + 1)));
        } else {
            assert(s@.subrange(start as int, i + 1) =~= s@.subrange(start as int, i as int).push(
                ch,
            ));
            assert(split_on(next, c) =~= views(parts@).push(s@.subrange(start as int, i + 1)));
        }
        i = i + 1;
    }
    let last = s.substring_char(start, n);
    let ghost before = parts@;
    parts.push(last);
    assert(s@.subrange(0, n as int) =~= s@);
    assert(views(parts@) =~= views(before).push(last@));
    assert forall|i: int| 0 <= i < parts@.len() implies #[trigger] parts@[i]@ == split_on(
        s@,
        c,
    )[i] by {
        assert(views(parts@)[i] == parts@[i]@);
    }
    parts
}

} // verus!
