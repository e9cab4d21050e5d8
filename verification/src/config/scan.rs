//! Taking text apart.

use vstd::prelude::*;

verus! {

/// Whether a character is white space.
pub open spec fn is_white(c: char) -> bool {
    let n = c as u32;
    0x9 <= n <= 0xd || n == 0x20 || n == 0x85 || n == 0xa0 || n == 0x1680 || 0x2000 <= n <= 0x200a
        || n == 0x2028 || n == 0x2029 || n == 0x202f || n == 0x205f || n == 0x3000
}

/// Text without the white space at its start.
pub open spec fn trim_start(s: Seq<char>) -> Seq<char>
    decreases s.len(),
{
    if s.len() > 0 && is_white(s[0]) {
        trim_start(s.skip(1))
    } else {
        s
    }
}

/// Text without the white space at its end.
pub open spec fn trim_end(s: Seq<char>) -> Seq<char>
    decreases s.len(),
{
    if s.len() > 0 && is_white(s.last()) {
        trim_end(s.drop_last())
    } else {
        s
    }
}

/// Text without the white space around it.
pub open spec fn trimmed(s: Seq<char>) -> Seq<char> {
    trim_end(trim_start(s))
}

/// Where a character first occurs from `i` on, or the end of the text.
pub open spec fn find_from(s: Seq<char>, c: char, i: int) -> int
    decreases s.len() - i,
{
    if i < 0 || i >= s.len() || s[i] == c {
        i
    } else {
        find_from(s, c, i + 1)
    }
}

/// The stretches between separators from `i` on, whose first one starts there.
pub open spec fn split_from(s: Seq<char>, c: char, i: int) -> Seq<Seq<char>>
    decreases s.len() - i,
    when 0 <= i <= s.len()
    via split_ends
{
    let end = find_from(s, c, i);
    if end >= s.len() {
        seq![s.subrange(i, s.len() as int)]
    } else {
        seq![s.subrange(i, end)] + split_from(s, c, end + 1)
    }
}

#[via_fn]
proof fn split_ends(s: Seq<char>, c: char, i: int) {
    find_bounds(s, c, i);
}

/// The stretches between separators.
pub open spec fn split(s: Seq<char>, c: char) -> Seq<Seq<char>> {
    split_from(s, c, 0)
}

/// A search ends between its start and the end of the text.
pub proof fn find_bounds(s: Seq<char>, c: char, i: int)
    requires
        0 <= i <= s.len(),
    ensures
        i <= find_from(s, c, i) <= s.len(),
        forall|j: int| i <= j < find_from(s, c, i) ==> s[j] != c,
        find_from(s, c, i) < s.len() ==> s[find_from(s, c, i)] == c,
    decreases s.len() - i,
{
    if i < s.len() && s[i] != c {
        find_bounds(s, c, i + 1);
    }
}

/// The lower-case letter for an upper-case one, other characters as they are.
pub open spec fn lower_char(c: char) -> char {
    if 'A' <= c <= 'Z' {
        (c as u32 + 32) as char
    } else {
        c
    }
}

/// Text with its upper-case letters made lower-case.
pub open spec fn lower(s: Seq<char>) -> Seq<char> {
    Seq::new(s.len(), |i: int| lower_char(s[i]))
}

/// The value of a digit, or none for what is no digit.
pub open spec fn digit_value(c: char, radix: int) -> Option<int> {
    let v = if '0' <= c <= '9' {
        c as int - '0' as int
    } else if 'a' <= c <= 'z' {
        c as int - 'a' as int + 10
    } else if 'A' <= c <= 'Z' {
        c as int - 'A' as int + 10
    } else {
        99
    };
    if v < radix {
        Some(v)
    } else {
        None
    }
}

/// Whether text has nothing but digits.
pub open spec fn all_digits(s: Seq<char>, radix: int) -> bool {
    forall|i: int| 0 <= i < s.len() ==> digit_value(#[trigger] s[i], radix) is Some
}

/// The value of the first `n` digits.
pub open spec fn value_of(s: Seq<char>, radix: int, n: int) -> int
    decreases n,
{
    if n <= 0 {
        0
    } else {
        value_of(s, radix, n - 1) * radix + digit_value(s[n - 1], radix)->0
    }
}

/// Text without a plus sign at its start.
pub open spec fn unsigned(s: Seq<char>) -> Seq<char> {
    if s.len() > 0 && s[0] == '+' {
        s.skip(1)
    } else {
        s
    }
}

/// The number that text is, if it is one and not above `max`: digits, at least one,
/// perhaps behind a plus sign.
pub open spec fn number(s: Seq<char>, radix: int, max: int) -> Option<int> {
    let d = unsigned(s);
    if d.len() > 0 && all_digits(d, radix) && value_of(d, radix, d.len() as int) <= max {
        Some(value_of(d, radix, d.len() as int))
    } else {
        None
    }
}

pub(crate) fn to_chars(s: &str) -> (r: Vec<char>)
    ensures
        r@ == s@,
{
    let mut out: Vec<char> = Vec::new();
    for c in it: s.chars()
        invariant
            out@ == it.seq().take(it.index()),
            it.seq() == s@,
    {
        out.push(c);
        assert(out@ =~= it.seq().take(it.index() + 1));
    }
    assert(out@ =~= s@);
    out
}

fn white(c: char) -> (r: bool)
    ensures
        r == is_white(c),
{
    let n: u32 = c as u32;
    (0x9 <= n && n <= 0xd) || n == 0x20 || n == 0x85 || n == 0xa0 || n == 0x1680 || (0x2000 <= n
        && n <= 0x200a) || n == 0x2028 || n == 0x2029 || n == 0x202f || n == 0x205f || n == 0x3000
}

/// Text without the white space around it.
pub(crate) fn trim(s: &str) -> (r: &str)
    ensures
        r@ == trimmed(s@),
{
    let c: Vec<char> = to_chars(s);
    let mut a: usize = 0;
    assert(s@.skip(0) =~= s@);
    while a < c.len() && white(c[a])
        invariant
            c@ == s@,
            a <= c@.len(),
            trim_start(s@) == trim_start(s@.skip(a as int)),
        decreases c@.len() - a,
    {
        assert(s@.skip(a as int).skip(1) =~= s@.skip(a as int + 1));
        a += 1;
    }
    let ghost t = s@.skip(a as int);
    assert(trim_start(s@) == t);
    let mut b: usize = c.len();
    assert(t.take(t.len() as int) =~= t);
    while b > a && white(c[b - 1])
        invariant
            c@ == s@,
            a <= b <= c@.len(),
            t == s@.skip(a as int),
            trim_end(t) == trim_end(t.take(b - a)),
        decreases b,
    {
        assert(t.take(b - a).drop_last() =~= t.take(b - a - 1));
        assert(t.take(b - a).last() == s@[b - 1]);
        b -= 1;
    }
    proof {
        if b > a {
            assert(t.take(b - a).last() == s@[b - 1]);
        }
        assert(trim_end(t.take(b - a)) == t.take(b - a));
        assert(s@.subrange(a as int, b as int) =~= t.take(b - a));
    }
    s.substring_char(a, b)
}

/// Where a character first occurs, or the length of the text.
pub(crate) fn find(s: &str, c: char) -> (r: usize)
    ensures
        r == find_from(s@, c, 0),
        r <= s@.len(),
{
    let chars: Vec<char> = to_chars(s);
    let mut i: usize = 0;
    while i < chars.len() && chars[i] != c
        invariant
            chars@ == s@,
            i <= chars@.len(),
            find_from(s@, c, 0) == find_from(s@, c, i as int),
        decreases chars@.len() - i,
    {
        i += 1;
    }
    i
}

/// The stretches between separators.
pub(crate) fn split_at_each<'a>(s: &'a str, c: char) -> (r: Vec<&'a str>)
    ensures
        r@.len() == split(s@, c).len(),
        forall|i: int| 0 <= i < r@.len() ==> (#[trigger] r@[i])@ == split(s@, c)[i],
{
    let chars: Vec<char> = to_chars(s);
    let n: usize = chars.len();
    let mut out: Vec<&'a str> = Vec::new();
    let mut start: usize = 0;
    let mut i: usize = 0;
    let ghost all = split(s@, c);
    while i < n
        invariant
            chars@ == s@,
            n == chars@.len(),
            start <= i <= n,
            all == split(s@, c),
            find_from(s@, c, start as int) == find_from(s@, c, i as int),
            out@.len() + split_from(s@, c, start as int).len() == all.len(),
            forall|j: int| 0 <= j < out@.len() ==> (#[trigger] out@[j])@ == all[j],
            forall|j: int|
                0 <= j < split_from(s@, c, start as int).len() ==> #[trigger] split_from(
                    s@,
                    c,
                    start as int,
                )[j] == all[out@.len() + j],
        decreases n - i,
    {
        if chars[i] == c {
            let piece: &'a str = s.substring_char(start, i);
            let ghost rest = split_from(s@, c, i as int + 1);
            let ghost here = split_from(s@, c, start as int);
            assert(here == seq![s@.subrange(start as int, i as int)] + rest);
            assert(here[0] == s@.subrange(start as int, i as int));
            assert(piece@ == all[out@.len() as int]);
            assert forall|j: int| 0 <= j < rest.len() implies #[trigger] rest[j] == all[out@.len()
                + 1 + j] by {
                assert(rest[j] == here[j + 1]);
            }
            out.push(piece);
            start = i + 1;
        }
        i += 1;
    }
    let last: &'a str = s.substring_char(start, n);
    proof {
        let here = split_from(s@, c, start as int);
        assert(here == seq![s@.subrange(start as int, n as int)]);
        assert(here[0] == all[out@.len() as int]);
    }
    out.push(last);
    out
}

/// Whether two texts are the same.
pub(crate) fn same(a: &str, b: &str) -> (r: bool)
    ensures
        r == (a@ == b@),
{
    let x: Vec<char> = to_chars(a);
    let y: Vec<char> = to_chars(b);
    if x.len() != y.len() {
        return false;
    }
    let mut i: usize = 0;
    while i < x.len()
        invariant
            x@ == a@,
            y@ == b@,
            x@.len() == y@.len(),
            i <= x@.len(),
            forall|j: int| 0 <= j < i ==> x@[j] == y@[j],
        decreases x@.len() - i,
    {
        if x[i] != y[i] {
            return false;
        }
        i += 1;
    }
    assert(a@ =~= b@);
    true
}

fn to_lower(c: char) -> (r: char)
    ensures
        r == lower_char(c),
{
    match c {
        'A' => 'a',
        'B' => 'b',
        'C' => 'c',
        'D' => 'd',
        'E' => 'e',
        'F' => 'f',
        'G' => 'g',
        'H' => 'h',
        'I' => 'i',
        'J' => 'j',
        'K' => 'k',
        'L' => 'l',
        'M' => 'm',
        'N' => 'n',
        'O' => 'o',
        'P' => 'p',
        'Q' => 'q',
        'R' => 'r',
        'S' => 's',
        'T' => 't',
        'U' => 'u',
        'V' => 'v',
        'W' => 'w',
        'X' => 'x',
        'Y' => 'y',
        'Z' => 'z',
        _ => c,
    }
}

/// Whether text in lower case is a given one.
pub(crate) fn lower_is(a: &str, b: &str) -> (r: bool)
    ensures
        r == (lower(a@) == b@),
{
    let x: Vec<char> = to_chars(a);
    let y: Vec<char> = to_chars(b);
    if x.len() != y.len() {
        return false;
    }
    let mut i: usize = 0;
    while i < x.len()
        invariant
            x@ == a@,
            y@ == b@,
            x@.len() == y@.len(),
            i <= x@.len(),
            forall|j: int| 0 <= j < i ==> lower_char(x@[j]) == y@[j],
        decreases x@.len() - i,
    {
        if to_lower(x[i]) != y[i] {
            assert(lower(a@)[i as int] != b@[i as int]);
            return false;
        }
        i += 1;
    }
    assert(lower(a@) =~= b@);
    true
}

fn digit(c: char, radix: u32) -> (r: Option<u32>)
    requires
        radix <= 36,
    ensures
        match r {
            Some(v) => digit_value(c, radix as int) == Some(v as int),
            None => digit_value(c, radix as int) is None,
        },
{
    let n: u32 = c as u32;
    let v: u32 = if '0' <= c && c <= '9' {
        n - 48
    } else if 'a' <= c && c <= 'z' {
        n - 97 + 10
    } else if 'A' <= c && c <= 'Z' {
        n - 65 + 10
    } else {
        99
    };
    if v < radix {
        Some(v)
    } else {
        None
    }
}

proof fn values_grow(s: Seq<char>, radix: int, n: int, m: int)
    requires
        0 <= n <= m <= s.len(),
        radix >= 2,
        all_digits(s, radix),
    ensures
        0 <= value_of(s, radix, n) <= value_of(s, radix, m),
    decreases m,
{
    if n < m {
        values_grow(s, radix, n, m - 1);
        let v = value_of(s, radix, m - 1);
        assert(v * radix >= v) by (nonlinear_arith)
            requires
                v >= 0,
                radix >= 2,
        ;
    } else if m > 0 {
        values_grow(s, radix, m - 1, m - 1);
        let v = value_of(s, radix, m - 1);
        assert(v * radix >= 0) by (nonlinear_arith)
            requires
                v >= 0,
                radix >= 2,
        ;
    }
}

/// The number that text is, if it is one and not above `max`.
pub(crate) fn parse_number(s: &str, radix: u32, max: u64) -> (r: Option<u64>)
    requires
        2 <= radix <= 36,
    ensures
        match r {
            Some(v) => number(s@, radix as int, max as int) == Some(v as int),
            None => number(s@, radix as int, max as int) is None,
        },
{
    let c: Vec<char> = to_chars(s);
    let first: usize = if c.len() > 0 && c[0] == '+' {
        1
    } else {
        0
    };
    let ghost d = unsigned(s@);
    assert(d =~= s@.skip(first as int));
    if first >= c.len() {
        return None;
    }
    let mut v: u64 = 0;
    let mut i: usize = first;
    while i < c.len()
        invariant
            c@ == s@,
            2 <= radix <= 36,
            d == unsigned(s@),
            d == s@.skip(first as int),
            first <= i <= c@.len(),
            v <= max,
            v == value_of(d, radix as int, i - first),
            forall|j: int| 0 <= j < i - first ==> digit_value(#[trigger] d[j], radix as int) is Some,
        decreases c@.len() - i,
    {
        assert(c@[i as int] == d[i - first]);
        let digit: u32 = match digit(c[i], radix) {
            Some(x) => x,
            None => {
                assert(!all_digits(d, radix as int));
                return None;
            },
        };
        assert(v as int * radix as int <= u64::MAX * 36) by (nonlinear_arith)
            requires
                v <= u64::MAX,
                radix <= 36,
        ;
        let wide: u128 = v as u128 * radix as u128 + digit as u128;
        proof {
            assert(wide == value_of(d, radix as int, i - first + 1));
        }
        if wide > max as u128 {
            proof {
                if all_digits(d, radix as int) {
                    values_grow(d, radix as int, i - first + 1, d.len() as int);
                }
            }
            return None;
        }
        v = wide as u64;
        i += 1;
    }
    assert(i - first == d.len());
    Some(v)
}

} // verus!
