//! Character-level text handling: whitespace trimming, decimal numerals and
//! the characters that inline markup reserves.

use vstd::prelude::*;

verus! {

/// The characters with the Unicode `White_Space` property.
pub open spec fn is_whitespace(c: char) -> bool {
    let n = c as u32;
    ||| 0x09 <= n <= 0x0d
    ||| n == 0x20
    ||| n == 0x85
    ||| n == 0xa0
    ||| n == 0x1680
    ||| 0x2000 <= n <= 0x200a
    ||| n == 0x2028
    ||| n == 0x2029
    ||| n == 0x202f
    ||| n == 0x205f
    ||| n == 0x3000
}

/// Tells whether `c` is a whitespace character.
pub fn whitespace(c: char) -> (r: bool)
    ensures
        r == is_whitespace(c),
{
    let n: u32 = c as u32;
    (0x09 <= n && n <= 0x0d) || n == 0x20 || n == 0x85 || n == 0xa0 || n == 0x1680 || (0x2000 <= n
        && n <= 0x200a) || n == 0x2028 || n == 0x2029 || n == 0x202f || n == 0x205f || n == 0x3000
}

/// `s` without its leading whitespace.
pub open spec fn trim_start(s: Seq<char>) -> Seq<char>
    decreases s.len(),
{
    if s.len() > 0 && is_whitespace(s.first()) {
        trim_start(s.drop_first())
    } else {
        s
    }
}

/// `s` without its trailing whitespace.
pub open spec fn trim_end(s: Seq<char>) -> Seq<char>
    decreases s.len(),
{
    if s.len() > 0 && is_whitespace(s.last()) {
        trim_end(s.drop_last())
    } else {
        s
    }
}

/// `s` without leading and trailing whitespace.
pub open spec fn trimmed(s: Seq<char>) -> Seq<char> {
    trim_end(trim_start(s))
}

/// The characters of `s`, in order.
pub fn chars_of(s: &str) -> (v: Vec<char>)
    ensures
        v@ == s@,
{
    let mut v: Vec<char> = Vec::new();
    for c in it: s.chars()
        invariant
            it.seq() == s@,
            v@ == s@.take(it.index() as int),
    {
        v.push(c);
    }
    v
}

/// Finds the part of `s` that remains after trimming, as a half-open range of
/// positions.
fn trim_bounds(s: &Vec<char>) -> (r: (usize, usize))
    ensures
        r.0 <= r.1 <= s.len(),
        s@.subrange(r.0 as int, r.1 as int) == trimmed(s@),
{
    let n = s.len();
    let mut a: usize = 0;
    assert(s@.subrange(0, n as int) == s@);
    while a < n && whitespace(s[a])
        invariant
            a <= n == s.len(),
            trim_start(s@) == trim_start(s@.subrange(a as int, n as int)),
        decreases n - a,
    {
        assert(s@.subrange(a as int, n as int).drop_first() == s@.subrange(a + 1, n as int));
        a += 1;
    }
    assert(trim_start(s@) == s@.subrange(a as int, n as int));
    let mut b: usize = n;
    while b > a && whitespace(s[b - 1])
        invariant
            a <= b <= n == s.len(),
            trimmed(s@) == trim_end(s@.subrange(a as int, b as int)),
        decreases b,
    {
        assert(s@.subrange(a as int, b as int).drop_last() == s@.subrange(a as int, b - 1));
        b -= 1;
    }
    (a, b)
}

/// The characters of `text` without the whitespace around them.
pub fn trimmed_chars(text: &str) -> (v: Vec<char>)
    ensures
        v@ == trimmed(text@),
{
    let all = chars_of(text);
    let (from, to) = trim_bounds(&all);
    let mut v: Vec<char> = Vec::new();
    let mut i: usize = from;
    while i < to
        invariant
            from <= i <= to <= all.len(),
            v@ == all@.subrange(from as int, i as int),
        decreases to - i,
    {
        v.push(all[i]);
        i += 1;
    }
    v
}

/// Whether `chars` spells exactly `word`.
pub fn spells(chars: &Vec<char>, word: &str) -> (r: bool)
    ensures
        r == (chars@ == word@),
{
    let w = chars_of(word);
    if w.len() != chars.len() {
        return false;
    }
    let mut i: usize = 0;
    while i < w.len()
        invariant
            i <= w.len() == chars.len(),
            w@ == word@,
            chars@.take(i as int) == w@.take(i as int),
        decreases w.len() - i,
    {
        if chars[i] != w[i] {
            return false;
        }
        assert(chars@.take(i + 1) == chars@.take(i as int).push(chars[i as int]));
        assert(w@.take(i + 1) == w@.take(i as int).push(w[i as int]));
        i += 1;
    }
    assert(chars@.take(chars.len() as int) == chars@);
    assert(w@.take(w.len() as int) == w@);
    true
}

/// The ASCII decimal digits.
pub open spec fn is_digit(c: char) -> bool {
    0x30 <= c as u32 <= 0x39
}

/// The number that a decimal digit stands for; zero for any other character.
pub open spec fn digit_value(c: char) -> nat {
    if is_digit(c) {
        (c as u32 - 0x30) as nat
    } else {
        0
    }
}

/// Every character of `s` is a decimal digit.
pub open spec fn all_digits(s: Seq<char>) -> bool {
    forall|i: int| 0 <= i < s.len() ==> is_digit(#[trigger] s[i])
}

/// The number that `s` denotes when read as a decimal numeral, most
/// significant digit first.
pub open spec fn decimal_value(s: Seq<char>) -> nat
    decreases s.len(),
{
    if s.len() == 0 {
        0
    } else {
        10 * decimal_value(s.drop_last()) + digit_value(s.last())
    }
}

/// Why a text is not an unsigned 64-bit decimal number.
#[derive(Clone, Copy, Debug, PartialEq, Eq, Structural)]
pub enum ParseError {
    /// There is nothing to read.
    Empty,
    /// A character that is not a decimal digit stands where a digit is due, or
    /// no digit follows the sign.
    InvalidDigit,
    /// The digits read so far already denote more than `u64::MAX`.
    Overflow,
}

/// What follows an optional leading `+`.
pub open spec fn unsigned_part(t: Seq<char>) -> Seq<char> {
    if t.len() > 0 && t.first() == '+' {
        t.drop_first()
    } else {
        t
    }
}

/// Reading `d` from the left, the digits pass `u64::MAX` before anything
/// other than a digit is met.
pub open spec fn overflows(d: Seq<char>) -> bool {
    exists|k: int|
        0 <= k <= d.len() && all_digits(#[trigger] d.take(k)) && decimal_value(d.take(k))
            > u64::MAX
}

/// The number written in `t`: an optional `+` and then one or more decimal
/// digits, which may start with zeros, denoting at most `u64::MAX`.
pub open spec fn parse_unsigned(t: Seq<char>) -> Result<u64, ParseError> {
    let d = unsigned_part(t);
    if t.len() == 0 {
        Err(ParseError::Empty)
    } else if overflows(d) {
        Err(ParseError::Overflow)
    } else if d.len() == 0 || !all_digits(d) {
        Err(ParseError::InvalidDigit)
    } else {
        Ok(decimal_value(d) as u64)
    }
}

/// A longer run of digits denotes no less than any of its prefixes.
proof fn lemma_prefix_value(d: Seq<char>, j: int, k: int)
    requires
        0 <= j <= k <= d.len(),
    ensures
        decimal_value(d.take(j)) <= decimal_value(d.take(k)),
    decreases k - j,
{
    if j < k {
        lemma_prefix_value(d, j, k - 1);
        assert(d.take(k).drop_last() == d.take(k - 1));
    }
}

/// The value of a decimal digit, if `c` is one.
fn digit(c: char) -> (r: Option<u64>)
    ensures
        r == if is_digit(c) {
            Some(digit_value(c) as u64)
        } else {
            None::<u64>
        },
{
    let n: u32 = c as u32;
    if 0x30 <= n && n <= 0x39 {
        Some((n - 0x30) as u64)
    } else {
        None
    }
}

/// Reads the unsigned decimal number that `s` spells.
pub fn parse_chars(s: &Vec<char>) -> (r: Result<u64, ParseError>)
    ensures
        r == parse_unsigned(s@),
{
    let n = s.len();
    if n == 0 {
        return Err(ParseError::Empty);
    }
    let start: usize = if s[0] == '+' {
        1
    } else {
        0
    };
    let ghost d = unsigned_part(s@);
    assert(d == s@.subrange(start as int, n as int));
    let mut acc: u64 = 0;
    let mut i: usize = start;
    assert(d.take(0).len() == 0);
    while i < n
        invariant
            start <= i <= n == s.len(),
            0 < n,
            d == unsigned_part(s@),
            d == s@.subrange(start as int, n as int),
            all_digits(d.take(i - start)),
            acc == decimal_value(d.take(i - start)),
        decreases n - i,
    {
        let ghost j = i - start;
        assert(d.take(j + 1).drop_last() == d.take(j));
        assert(d.take(j + 1).last() == s[i as int]);
        match digit(s[i]) {
            None => {
                assert forall|k: int| 0 <= k <= d.len() implies !(all_digits(#[trigger] d.take(k))
                    && decimal_value(d.take(k)) > u64::MAX) by {
                    if k <= j {
                        lemma_prefix_value(d, k, j);
                    } else {
                        assert(d.take(k)[j] == d[j]);
                    }
                }
                assert(!is_digit(d[j]));
                return Err(ParseError::InvalidDigit);
            },
            Some(v) => {
                assert(all_digits(d.take(j + 1))) by {
                    assert forall|x: int| 0 <= x < j + 1 implies is_digit(
                        #[trigger] d.take(j + 1)[x],
                    ) by {
                        if x < j {
                            assert(d.take(j)[x] == d.take(j + 1)[x]);
                        }
                    }
                }
                assert(decimal_value(d.take(j + 1)) == 10 * acc + v);
                let next = match acc.checked_mul(10) {
                    None => None,
                    Some(m) => m.checked_add(v),
                };
                match next {
                    None => {
                        return Err(ParseError::Overflow);
                    },
                    Some(sum) => {
                        acc = sum;
                    },
                }
            },
        }
        i += 1;
    }
    assert(d.take(d.len() as int) == d);
    assert forall|k: int| 0 <= k <= d.len() implies !(all_digits(#[trigger] d.take(k))
        && decimal_value(d.take(k)) > u64::MAX) by {
        lemma_prefix_value(d, k, d.len() as int);
    }
    if start == n {
        Err(ParseError::InvalidDigit)
    } else {
        Ok(acc)
    }
}

/// Reads an unsigned decimal number from `text`, leaving aside the whitespace
/// around it.
pub fn parse_number(text: &str) -> (r: Result<u64, ParseError>)
    ensures
        r == parse_unsigned(trimmed(text@)),
{
    let chars = trimmed_chars(text);
    parse_chars(&chars)
}

/// The decimal digit for a number below ten.
pub open spec fn digit_char(d: nat) -> char {
    if d == 0 {
        '0'
    } else if d == 1 {
        '1'
    } else if d == 2 {
        '2'
    } else if d == 3 {
        '3'
    } else if d == 4 {
        '4'
    } else if d == 5 {
        '5'
    } else if d == 6 {
        '6'
    } else if d == 7 {
        '7'
    } else if d == 8 {
        '8'
    } else {
        '9'
    }
}

/// The decimal numeral of `n`, without leading zeros.
pub open spec fn decimal(n: nat) -> Seq<char>
    decreases n,
{
    if n < 10 {
        seq![digit_char(n)]
    } else {
        decimal(n / 10).push(digit_char(n % 10))
    }
}

/// Reading back the decimal numeral of a number gives that number.
pub proof fn lemma_decimal_round_trip(n: nat)
    ensures
        decimal(n).len() > 0,
        all_digits(decimal(n)),
        decimal_value(decimal(n)) == n,
    decreases n,
{
    let last = digit_char(n % 10);
    assert(is_digit(last) && digit_value(last) == n % 10);
    assert(decimal(n).last() == last);
    if n < 10 {
        assert(decimal(n).drop_last().len() == 0);
        assert(decimal_value(decimal(n).drop_last()) == 0);
    } else {
        lemma_decimal_round_trip(n / 10);
        assert(decimal(n).drop_last() == decimal(n / 10));
    }
}

/// The decimal digit for a number below ten, as a text of one character.
fn digit_text(d: u8) -> (text: &'static str)
    requires
        d < 10,
    ensures
        text@ == seq![digit_char(d as nat)],
{
    proof {
        reveal_strlit("0");
        reveal_strlit("1");
        reveal_strlit("2");
        reveal_strlit("3");
        reveal_strlit("4");
        reveal_strlit("5");
        reveal_strlit("6");
        reveal_strlit("7");
        reveal_strlit("8");
        reveal_strlit("9");
    }
    let text = match d {
        0 => "0",
        1 => "1",
        2 => "2",
        3 => "3",
        4 => "4",
        5 => "5",
        6 => "6",
        7 => "7",
        8 => "8",
        _ => "9",
    };
    assert(text@ =~= seq![digit_char(d as nat)]);
    text
}

/// Appends the decimal numeral of `n` to `out`.
pub fn push_decimal(out: &mut String, n: u128)
    ensures
        final(out)@ == old(out)@ + decimal(n as nat),
    decreases n,
{
    if n >= 10 {
        push_decimal(out, n / 10);
    }
    out.append(digit_text((n % 10) as u8));
    assert(final(out)@ =~= old(out)@ + decimal(n as nat));
}

/// The characters that inline markup gives a meaning of their own.
pub open spec fn is_reserved(c: char) -> bool {
    c == '<' || c == '>' || c == '&' || c == '\'' || c == '"'
}

/// No character of `s` is reserved by inline markup, so `s` reads the same
/// whether or not it is taken for markup.
pub open spec fn is_plain(s: Seq<char>) -> bool {
    forall|i: int| 0 <= i < s.len() ==> !is_reserved(#[trigger] s[i])
}

/// Joining two texts is plain exactly when both are.
pub proof fn lemma_plain_concat(a: Seq<char>, b: Seq<char>)
    ensures
        is_plain(a + b) <==> is_plain(a) && is_plain(b),
{
    if is_plain(a + b) {
        assert forall|i: int| 0 <= i < a.len() implies !is_reserved(#[trigger] a[i]) by {
            assert((a + b)[i] == a[i]);
        }
        assert forall|i: int| 0 <= i < b.len() implies !is_reserved(#[trigger] b[i]) by {
            assert((a + b)[a.len() + i] == b[i]);
        }
    }
}

/// A decimal numeral is plain.
pub proof fn lemma_decimal_plain(n: nat)
    ensures
        is_plain(decimal(n)),
{
    lemma_decimal_round_trip(n);
}

} // verus!
