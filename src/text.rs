//! Character-level text helpers shared by the protocol parser and the
//! configuration reader: searching, trimming and decimal integers, each
//! stated over `Seq<char>` with absolute indices.
use vstd::prelude::*;

verus! {

/// First index `i` in `[lo, hi - n.len()]` where `n` occurs in `h` inside the window `[lo, hi)`.
pub open spec fn find_in(h: Seq<char>, n: Seq<char>, lo: int, hi: int) -> Option<int>
    decreases hi - lo + 1,
{
    if lo < 0 || hi > h.len() || lo + n.len() > hi {
        None
    } else if h.subrange(lo, lo + n.len()) == n {
        Some(lo)
    } else {
        find_in(h, n, lo + 1, hi)
    }
}

/// First index in `[lo, hi)` whose character is `a` or `b`.
pub open spec fn find_either(h: Seq<char>, a: char, b: char, lo: int, hi: int) -> Option<int>
    decreases hi - lo,
{
    if lo < 0 || hi > h.len() || lo >= hi {
        None
    } else if h[lo] == a || h[lo] == b {
        Some(lo)
    } else {
        find_either(h, a, b, lo + 1, hi)
    }
}

/// Unicode `White_Space`, as `char::is_whitespace` decides it.
pub open spec fn is_ws(c: char) -> bool {
    ('\u{9}' <= c && c <= '\u{d}') || c == ' ' || c == '\u{85}' || c == '\u{a0}' || c == '\u{1680}'
        || ('\u{2000}' <= c && c <= '\u{200a}') || c == '\u{2028}' || c == '\u{2029}' || c
        == '\u{202f}' || c == '\u{205f}' || c == '\u{3000}'
}

/// Start of the window `[lo, hi)` once leading whitespace is skipped.
pub open spec fn skip_ws(h: Seq<char>, lo: int, hi: int) -> int
    decreases hi - lo,
{
    if lo < hi && 0 <= lo < h.len() && is_ws(h[lo]) {
        skip_ws(h, lo + 1, hi)
    } else {
        lo
    }
}

/// End of the window `[lo, hi)` once trailing whitespace is dropped.
pub open spec fn drop_ws(h: Seq<char>, lo: int, hi: int) -> int
    decreases hi - lo,
{
    if lo < hi && 0 < hi <= h.len() && is_ws(h[hi - 1]) {
        drop_ws(h, lo, hi - 1)
    } else {
        hi
    }
}

/// Start of the window `[lo, hi)` once leading copies of `c` are skipped.
pub open spec fn skip_char(h: Seq<char>, c: char, lo: int, hi: int) -> int
    decreases hi - lo,
{
    if lo < hi && 0 <= lo < h.len() && h[lo] == c {
        skip_char(h, c, lo + 1, hi)
    } else {
        lo
    }
}

/// End of the window `[lo, hi)` once trailing copies of `c` are dropped.
pub open spec fn drop_char(h: Seq<char>, c: char, lo: int, hi: int) -> int
    decreases hi - lo,
{
    if lo < hi && 0 < hi <= h.len() && h[hi - 1] == c {
        drop_char(h, c, lo, hi - 1)
    } else {
        hi
    }
}

pub open spec fn is_digit(c: char) -> bool {
    '0' <= c && c <= '9'
}

pub open spec fn all_digits(s: Seq<char>) -> bool {
    forall|i: int| 0 <= i < s.len() ==> is_digit(#[trigger] s[i])
}

/// Value of a string of decimal digits.
pub open spec fn digits_value(s: Seq<char>) -> int
    decreases s.len(),
{
    if s.len() == 0 {
        0
    } else {
        digits_value(s.drop_last()) * 10 + (s.last() as int - '0' as int)
    }
}

/// A decimal integer as Rust's integer `FromStr` reads it: an optional `+`
/// (or `-` where `signed`), then one or more ASCII digits, nothing else.
/// The value is not yet checked against a type's range.
pub open spec fn decimal_int(s: Seq<char>, signed: bool) -> Option<int> {
    if s.len() == 0 {
        None
    } else if s[0] == '+' || (signed && s[0] == '-') {
        let d = s.drop_first();
        if d.len() > 0 && all_digits(d) {
            Some(
                if s[0] == '-' {
                    -digits_value(d)
                } else {
                    digits_value(d)
                },
            )
        } else {
            None
        }
    } else if all_digits(s) {
        Some(digits_value(s))
    } else {
        None
    }
}

/// `decimal_int`, kept only where it lies in `[min, max]`.
pub open spec fn parse_in_range(s: Seq<char>, signed: bool, min: int, max: int) -> Option<int> {
    match decimal_int(s, signed) {
        Some(v) => if min <= v <= max {
            Some(v)
        } else {
            None
        },
        None => None,
    }
}

/// Digit `d` as a character.
pub open spec fn digit_char(d: int) -> char {
    if d == 0 {
        '0'
    } else if d == 1 {
        '1'
    } else if d == 2 {
        '2'
    } else if d == 3 {
        '3'
    } else if d == 4 {
        '4'
    } else if d == 5 {
        '5'
    } else if d == 6 {
        '6'
    } else if d == 7 {
        '7'
    } else if d == 8 {
        '8'
    } else {
        '9'
    }
}

/// Decimal rendering of a natural number, without leading zeros.
pub open spec fn decimal(n: nat) -> Seq<char>
    decreases n,
{
    if n < 10 {
        seq![digit_char(n as int)]
    } else {
        decimal(n / 10).push(digit_char((n % 10) as int))
    }
}

proof fn lemma_digits_value_nonneg(s: Seq<char>)
    requires
        all_digits(s),
    ensures
        digits_value(s) >= 0,
    decreases s.len(),
{
    if s.len() > 0 {
        assert(all_digits(s.drop_last()));
        lemma_digits_value_nonneg(s.drop_last());
    }
}

/// The value of a prefix of a digit string never exceeds the value of the whole.
proof fn lemma_digits_prefix_le(s: Seq<char>, k: int)
    requires
        all_digits(s),
        0 <= k <= s.len(),
    ensures
        digits_value(s.subrange(0, k)) <= digits_value(s),
    decreases s.len() - k,
{
    if k < s.len() {
        let p = s.subrange(0, k + 1);
        assert(p.drop_last() =~= s.subrange(0, k));
        assert(all_digits(s.subrange(0, k)));
        lemma_digits_value_nonneg(s.subrange(0, k));
        lemma_digits_prefix_le(s, k + 1);
    } else {
        assert(s.subrange(0, k) =~= s);
    }
}

/// `decimal` is one-to-one: two numbers with the same rendering are equal.
pub proof fn lemma_decimal_injective(a: nat, b: nat)
    requires
        decimal(a) == decimal(b),
    ensures
        a == b,
    decreases a,
{
    if a < 10 && b < 10 {
        assert(decimal(a)[0] == digit_char(a as int));
        assert(decimal(b)[0] == digit_char(b as int));
    } else if a >= 10 && b >= 10 {
        lemma_decimal_len(a / 10);
        lemma_decimal_len(b / 10);
        let da = decimal(a);
        let db = decimal(b);
        assert(da.drop_last() =~= decimal(a / 10));
        assert(db.drop_last() =~= decimal(b / 10));
        assert(da.last() == digit_char((a % 10) as int));
        assert(db.last() == digit_char((b % 10) as int));
        lemma_decimal_injective(a / 10, b / 10);
        assert(a % 10 == b % 10);
        assert(a == (a / 10) * 10 + a % 10);
        assert(b == (b / 10) * 10 + b % 10);
    } else {
        lemma_decimal_len(a);
        lemma_decimal_len(b);
    }
}

proof fn lemma_digit_char(d: int)
    requires
        0 <= d < 10,
    ensures
        is_digit(digit_char(d)),
        digit_char(d) as int - '0' as int == d,
{
}

/// `decimal` is read back by `decimal_int`: its characters are digits and
/// their value is the number.
pub proof fn lemma_decimal_value(n: nat)
    ensures
        all_digits(decimal(n)),
        digits_value(decimal(n)) == n,
        decimal(n).len() >= 1,
        is_digit(decimal(n)[0]),
        decimal_int(decimal(n), false) == Some(n as int),
    decreases n,
{
    let d = decimal(n);
    lemma_digit_char((n % 10) as int);
    if n < 10 {
        assert(n % 10 == n);
        assert(d.drop_last() =~= Seq::<char>::empty());
        assert(digits_value(d.drop_last()) == 0);
        assert(d.last() == digit_char(n as int));
        assert(digits_value(d) == digits_value(d.drop_last()) * 10 + (d.last() as int - '0' as int));
    } else {
        lemma_decimal_value(n / 10);
        assert(d.drop_last() =~= decimal(n / 10));
        assert(d.last() == digit_char((n % 10) as int));
        assert(d[0] == decimal(n / 10)[0]);
        assert(digits_value(d) == digits_value(d.drop_last()) * 10 + (d.last() as int - '0' as int));
        assert(n == (n / 10) * 10 + n % 10);
        assert forall|i: int| 0 <= i < d.len() implies is_digit(#[trigger] d[i]) by {
            if i < d.len() - 1 {
                assert(d[i] == decimal(n / 10)[i]);
            }
        }
    }
}

pub proof fn lemma_decimal_len(n: nat)
    ensures
        decimal(n).len() >= 1,
        n < 10 ==> decimal(n).len() == 1,
        n >= 10 ==> decimal(n).len() >= 2,
    decreases n,
{
    if n >= 10 {
        lemma_decimal_len(n / 10);
    }
}

/// The characters of a string.
pub fn to_chars(s: &str) -> (r: Vec<char>)
    ensures
        r@ == s@,
{
    let n = s.unicode_len();
    let mut r: Vec<char> = Vec::new();
    let mut i: usize = 0;
    while i < n
        invariant
            n == s@.len(),
            i <= n,
            r@ == s@.subrange(0, i as int),
        decreases n - i,
    {
        r.push(s.get_char(i));
        i += 1;
        assert(r@ =~= s@.subrange(0, i as int));
    }
    assert(r@ =~= s@);
    r
}

pub fn digit(d: u32) -> (c: char)
    requires
        d < 10,
    ensures
        c == digit_char(d as int),
{
    if d == 0 {
        '0'
    } else if d == 1 {
        '1'
    } else if d == 2 {
        '2'
    } else if d == 3 {
        '3'
    } else if d == 4 {
        '4'
    } else if d == 5 {
        '5'
    } else if d == 6 {
        '6'
    } else if d == 7 {
        '7'
    } else if d == 8 {
        '8'
    } else {
        '9'
    }
}

/// Appends the decimal digits of `num`.
pub fn write_u32_to_temp(s: &mut Vec<char>, num: u32)
    ensures
        final(s)@ == old(s)@ + decimal(num as nat),
    decreases num,
{
    if num >= 10 {
        write_u32_to_temp(s, num / 10);
    }
    s.push(digit(num % 10));
    assert(final(s)@ =~= old(s)@ + decimal(num as nat));
}

/// Appends the characters of `s`.
pub fn push_text(out: &mut Vec<char>, s: &str)
    ensures
        final(out)@ == old(out)@ + s@,
{
    let c = to_chars(s);
    let mut i: usize = 0;
    let ghost start = out@;
    while i < c.len()
        invariant
            c@ == s@,
            i <= c@.len(),
            out@ == start + c@.subrange(0, i as int),
        decreases c@.len() - i,
    {
        out.push(c[i]);
        i += 1;
        assert(out@ =~= start + c@.subrange(0, i as int));
    }
    assert(c@.subrange(0, i as int) =~= c@);
}

/// Whether `h[lo..hi]` is exactly `n`.
pub fn window_eq(h: &Vec<char>, lo: usize, hi: usize, n: &str) -> (r: bool)
    requires
        lo <= hi <= h@.len(),
    ensures
        r == (h@.subrange(lo as int, hi as int) == n@),
{
    let len = n.unicode_len();
    if hi - lo != len {
        return false;
    }
    let mut i: usize = 0;
    while i < len
        invariant
            len == n@.len(),
            hi - lo == len,
            lo <= hi <= h@.len(),
            i <= len,
            forall|j: int| 0 <= j < i ==> h@[lo + j] == n@[j],
        decreases len - i,
    {
        if h[lo + i] != n.get_char(i) {
            assert(h@.subrange(lo as int, hi as int)[i as int] != n@[i as int]);
            return false;
        }
        i += 1;
    }
    assert(h@.subrange(lo as int, hi as int) =~= n@);
    true
}

/// Whether `h[lo..hi]` is exactly the characters `n`.
pub fn window_eq_chars(h: &Vec<char>, lo: usize, hi: usize, n: &Vec<char>) -> (r: bool)
    requires
        lo <= hi <= h@.len(),
    ensures
        r == (h@.subrange(lo as int, hi as int) == n@),
{
    let len = n.len();
    if hi - lo != len {
        return false;
    }
    let mut i: usize = 0;
    while i < len
        invariant
            len == n@.len(),
            hi - lo == len,
            lo <= hi <= h@.len(),
            i <= len,
            forall|j: int| 0 <= j < i ==> h@[lo + j] == n@[j],
        decreases len - i,
    {
        if h[lo + i] != n[i] {
            assert(h@.subrange(lo as int, hi as int)[i as int] != n@[i as int]);
            return false;
        }
        i += 1;
    }
    assert(h@.subrange(lo as int, hi as int) =~= n@);
    true
}

/// First occurrence of the characters `n` in the window `[lo, hi)` of `h`.
pub fn find_chars(h: &Vec<char>, n: &Vec<char>, lo: usize, hi: usize) -> (r: Option<usize>)
    requires
        lo <= hi <= h@.len(),
    ensures
        r matches Some(i) ==> find_in(h@, n@, lo as int, hi as int) == Some(i as int) && lo <= i
            && i + n@.len() <= hi,
        r is None ==> find_in(h@, n@, lo as int, hi as int) is None,
{
    let len = n.len();
    if len == 0 {
        assert(h@.subrange(lo as int, lo as int) =~= n@);
        return Some(lo);
    }
    let mut i: usize = lo;
    while i <= hi && hi - i >= len
        invariant
            len == n@.len(),
            len > 0,
            lo <= i <= hi <= h@.len(),
            find_in(h@, n@, lo as int, hi as int) == find_in(h@, n@, i as int, hi as int),
        decreases hi - i,
    {
        if window_eq_chars(h, i, i + len, n) {
            return Some(i);
        }
        i += 1;
    }
    None
}

/// First occurrence of `n` in the window `[lo, hi)` of `h`.
pub fn find_str(h: &Vec<char>, n: &str, lo: usize, hi: usize) -> (r: Option<usize>)
    requires
        lo <= hi <= h@.len(),
    ensures
        r matches Some(i) ==> find_in(h@, n@, lo as int, hi as int) == Some(i as int) && lo <= i
            && i + n@.len() <= hi,
        r is None ==> find_in(h@, n@, lo as int, hi as int) is None,
{
    let len = n.unicode_len();
    if len == 0 {
        assert(h@.subrange(lo as int, lo as int) =~= n@);
        return Some(lo);
    }
    let mut i: usize = lo;
    while i <= hi && hi - i >= len
        invariant
            len == n@.len(),
            len > 0,
            lo <= i <= hi <= h@.len(),
            find_in(h@, n@, lo as int, hi as int) == find_in(h@, n@, i as int, hi as int),
        decreases hi - i,
    {
        if window_eq(h, i, i + len, n) {
            return Some(i);
        }
        i += 1;
    }
    None
}

/// First index in `[lo, hi)` holding `a` or `b`.
pub fn find_char(h: &Vec<char>, a: char, b: char, lo: usize, hi: usize) -> (r: Option<usize>)
    requires
        lo <= hi <= h@.len(),
    ensures
        r matches Some(i) ==> find_either(h@, a, b, lo as int, hi as int) == Some(i as int) && lo
            <= i < hi,
        r is None ==> find_either(h@, a, b, lo as int, hi as int) is None,
{
    let mut i: usize = lo;
    while i < hi
        invariant
            lo <= i <= hi <= h@.len(),
            find_either(h@, a, b, lo as int, hi as int) == find_either(h@, a, b, i as int, hi as int),
        decreases hi - i,
    {
        if h[i] == a || h[i] == b {
            return Some(i);
        }
        i += 1;
    }
    None
}

pub fn is_whitespace(c: char) -> (r: bool)
    ensures
        r == is_ws(c),
{
    ('\u{9}' <= c && c <= '\u{d}') || c == ' ' || c == '\u{85}' || c == '\u{a0}' || c == '\u{1680}'
        || ('\u{2000}' <= c && c <= '\u{200a}') || c == '\u{2028}' || c == '\u{2029}' || c
        == '\u{202f}' || c == '\u{205f}' || c == '\u{3000}'
}

/// The window `[lo, hi)` without leading and trailing whitespace.
pub fn trim_window(h: &Vec<char>, lo: usize, hi: usize) -> (r: (usize, usize))
    requires
        lo <= hi <= h@.len(),
    ensures
        r.0 == skip_ws(h@, lo as int, hi as int),
        r.1 == drop_ws(h@, r.0 as int, hi as int),
        lo <= r.0 <= r.1 <= hi,
{
    let mut a: usize = lo;
    while a < hi && is_whitespace(h[a])
        invariant
            lo <= a <= hi <= h@.len(),
            skip_ws(h@, lo as int, hi as int) == skip_ws(h@, a as int, hi as int),
        decreases hi - a,
    {
        a += 1;
    }
    let mut b: usize = hi;
    while b > a && is_whitespace(h[b - 1])
        invariant
            lo <= a <= b <= hi <= h@.len(),
            drop_ws(h@, a as int, hi as int) == drop_ws(h@, a as int, b as int),
        decreases b - a,
    {
        b -= 1;
    }
    (a, b)
}

/// The window `[lo, hi)` without leading and trailing copies of `c`.
pub fn trim_char_window(h: &Vec<char>, c: char, lo: usize, hi: usize) -> (r: (usize, usize))
    requires
        lo <= hi <= h@.len(),
    ensures
        r.0 == skip_char(h@, c, lo as int, hi as int),
        r.1 == drop_char(h@, c, r.0 as int, hi as int),
        lo <= r.0 <= r.1 <= hi,
{
    let mut a: usize = lo;
    while a < hi && h[a] == c
        invariant
            lo <= a <= hi <= h@.len(),
            skip_char(h@, c, lo as int, hi as int) == skip_char(h@, c, a as int, hi as int),
        decreases hi - a,
    {
        a += 1;
    }
    let mut b: usize = hi;
    while b > a && h[b - 1] == c
        invariant
            lo <= a <= b <= hi <= h@.len(),
            drop_char(h@, c, a as int, hi as int) == drop_char(h@, c, a as int, b as int),
        decreases b - a,
    {
        b -= 1;
    }
    (a, b)
}

/// Reads the window `[lo, hi)` as a decimal integer of the range `[min, max]`,
/// as Rust's `FromStr` for an integer type of that range does.
pub fn parse_int_window(h: &Vec<char>, lo: usize, hi: usize, signed: bool, min: i64, max: i64) -> (r:
    Option<i64>)
    requires
        lo <= hi <= h@.len(),
        -0x1_0000_0000 <= min <= 0 <= max <= 0x1_0000_0000,
    ensures
        r matches Some(v) ==> parse_in_range(h@.subrange(lo as int, hi as int), signed, min as int, max as int) == Some(v as int),
        r is None ==> parse_in_range(h@.subrange(lo as int, hi as int), signed, min as int, max as int) is None,
{
    let ghost s = h@.subrange(lo as int, hi as int);
    if lo == hi {
        return None;
    }
    let first = h[lo];
    assert(s[0] == first);
    let negative = signed && first == '-';
    let start: usize = if first == '+' || negative { lo + 1 } else { lo };
    if start == hi {
        assert(s.len() == 1);
        assert(s.drop_first().len() == 0);
        return None;
    }
    let ghost d = h@.subrange(start as int, hi as int);
    proof {
        if start > lo {
            assert(d =~= s.drop_first());
        } else {
            assert(d =~= s);
        }
    }
    let limit: i64 = if negative { -min } else { max };
    let mut acc: i64 = 0;
    let mut i: usize = start;
    while i < hi
        invariant
            lo <= start <= i <= hi <= h@.len(),
            start < hi,
            d == h@.subrange(start as int, hi as int),
            s == h@.subrange(lo as int, hi as int),
            s[0] == first,
            negative == (signed && first == '-'),
            start > lo ==> d == s.drop_first() && (first == '+' || negative),
            start == lo ==> d == s && first != '+' && !negative,
            limit as int == if negative { -(min as int) } else { max as int },
            0 <= limit <= 0x1_0000_0000,
            0 <= acc <= limit,
            all_digits(h@.subrange(start as int, i as int)),
            acc == digits_value(h@.subrange(start as int, i as int)),
        decreases hi - i,
    {
        let c = h[i];
        if !('0' <= c && c <= '9') {
            assert(d[i - start] == c);
            assert(!is_digit(d[i - start]));
            assert(!all_digits(d));
            return None;
        }
        let dv = (c as u32 - '0' as u32) as i64;
        let ghost p = h@.subrange(start as int, i as int + 1);
        assert(p.drop_last() =~= h@.subrange(start as int, i as int));
        assert(all_digits(p));
        assert(acc * 10 <= 0x1_0000_0000 * 10) by (nonlinear_arith)
            requires 0 <= acc <= 0x1_0000_0000;
        let next = acc * 10 + dv;
        assert(digits_value(p) == next);
        if next > limit {
            proof {
                let ghost k = i as int + 1 - start as int;
                if all_digits(d) {
                    assert(d.subrange(0, k) =~= p);
                    lemma_digits_prefix_le(d, k);
                }
            }
            return None;
        }
        acc = next;
        i += 1;
    }
    assert(h@.subrange(start as int, i as int) =~= d);
    if negative {
        Some(-acc)
    } else {
        Some(acc)
    }
}

} // verus!
