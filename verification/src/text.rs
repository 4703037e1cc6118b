//! Decimal text, whitespace trimming and string building used by the domain rules.
//!
//! Integers are written and read in the decimal notation of Rust's standard
//! library: an optional sign followed by ASCII digits, with checked range.

use vstd::prelude::*;

verus! {

// ---------------------------------------------------------------------------
// Characters
// ---------------------------------------------------------------------------

/// Unicode `White_Space`: the characters that `str::trim` removes.
pub open spec fn is_white_space(c: char) -> bool {
    ||| ('\u{9}' <= c && c <= '\u{d}')
    ||| c == ' '
    ||| c == '\u{85}'
    ||| c == '\u{a0}'
    ||| c == '\u{1680}'
    ||| ('\u{2000}' <= c && c <= '\u{200a}')
    ||| c == '\u{2028}'
    ||| c == '\u{2029}'
    ||| c == '\u{202f}'
    ||| c == '\u{205f}'
    ||| c == '\u{3000}'
}

/// Whether `c` is an ASCII decimal digit.
pub open spec fn is_digit(c: char) -> bool {
    '0' <= c && c <= '9'
}

/// The value of an ASCII digit.
pub open spec fn digit_value(c: char) -> int {
    (c as int) - 48
}

/// The ASCII digit for a value below ten.
pub open spec fn digit_char(d: int) -> char {
    (d + 48) as char
}

/// ASCII upper case of one character; other characters are kept.
pub open spec fn ascii_upper(c: char) -> char {
    if 'a' <= c && c <= 'z' {
        ((c as int) - 32) as char
    } else {
        c
    }
}

/// ASCII lower case of one character; other characters are kept.
pub open spec fn ascii_lower(c: char) -> char {
    if 'A' <= c && c <= 'Z' {
        ((c as int) + 32) as char
    } else {
        c
    }
}

/// ASCII upper case of a whole text.
pub open spec fn upper_text(s: Seq<char>) -> Seq<char> {
    s.map_values(|c: char| ascii_upper(c))
}

/// ASCII lower case of a whole text.
pub open spec fn lower_text(s: Seq<char>) -> Seq<char> {
    s.map_values(|c: char| ascii_lower(c))
}

fn white_space(c: char) -> (r: bool)
    ensures
        r == is_white_space(c),
{
    ('\u{9}' <= c && c <= '\u{d}') || c == ' ' || c == '\u{85}' || c == '\u{a0}' || c == '\u{1680}'
        || ('\u{2000}' <= c && c <= '\u{200a}') || c == '\u{2028}' || c == '\u{2029}' || c
        == '\u{202f}' || c == '\u{205f}' || c == '\u{3000}'
}

fn upper_char(c: char) -> (r: char)
    ensures
        r == ascii_upper(c),
{
    if 'a' <= c && c <= 'z' {
        let u: u32 = c as u32 - 32;
        proof {
            assert(u == (c as int) - 32);
        }
        char_from_ascii(u)
    } else {
        c
    }
}

fn lower_char(c: char) -> (r: char)
    ensures
        r == ascii_lower(c),
{
    if 'A' <= c && c <= 'Z' {
        let u: u32 = c as u32 + 32;
        char_from_ascii(u)
    } else {
        c
    }
}

/// The character whose code is `u`, for ASCII codes.
fn char_from_ascii(u: u32) -> (r: char)
    requires
        u < 128,
    ensures
        r == (u as int) as char,
        r as int == u as int,
{
    let b: u8 = u as u8;
    b as char
}

/// The ASCII digit for `d`.
pub fn digit(d: u64) -> (c: char)
    requires
        d < 10,
    ensures
        c == digit_char(d as int),
        is_digit(c),
        digit_value(c) == d,
{
    char_from_ascii(d as u32 + 48)
}

/// The characters of `s`, in order.
pub fn chars_of(s: &str) -> (r: Vec<char>)
    ensures
        r@ == s@,
{
    let mut r: Vec<char> = Vec::new();
    for c in it: s.chars()
        invariant
            r@ == it.seq().take(it.index() as int),
    {
        r.push(c);
    }
    r
}

/// Appends one character to a string.
#[verifier::external_body]
fn string_push(s: &mut String, c: char)
    ensures
        final(s)@ == old(s)@.push(c),
{
    s.push(c);
}

/// Equality of two string slices, as `==` on `str` computes it.
#[verifier::external_body]
pub fn str_eq(a: &str, b: &str) -> (r: bool)
    ensures
        r == (a@ == b@),
{
    a == b
}

/// A new string holding the given characters.
pub fn string_of(cs: &Vec<char>) -> (r: String)
    ensures
        r@ == cs@,
{
    let mut r = String::new();
    let mut i: usize = 0;
    while i < cs.len()
        invariant
            i <= cs.len(),
            r@ == cs@.take(i as int),
        decreases cs.len() - i,
    {
        string_push(&mut r, cs[i]);
        assert(cs@.take(i + 1) == cs@.take(i as int).push(cs@[i as int]));
        i = i + 1;
    }
    assert(cs@.take(cs.len() as int) == cs@);
    r
}

/// `s` with `t` appended.
pub fn joined(s: String, t: &str) -> (r: String)
    ensures
        r@ == s@ + t@,
{
    s.concat(t)
}

/// ASCII upper case of `s`.
pub fn to_ascii_upper(s: &str) -> (r: String)
    ensures
        r@ == upper_text(s@),
{
    let cs = chars_of(s);
    let mut out: Vec<char> = Vec::new();
    let mut i: usize = 0;
    while i < cs.len()
        invariant
            cs@ == s@,
            i <= cs.len(),
            out@ == upper_text(cs@.take(i as int)),
        decreases cs.len() - i,
    {
        out.push(upper_char(cs[i]));
        assert(upper_text(cs@.take(i + 1)) == upper_text(cs@.take(i as int)).push(
            ascii_upper(cs@[i as int]),
        ));
        i = i + 1;
    }
    assert(cs@.take(cs.len() as int) == cs@);
    string_of(&out)
}

/// ASCII lower case of `s`.
pub fn to_ascii_lower(s: &str) -> (r: String)
    ensures
        r@ == lower_text(s@),
{
    let cs = chars_of(s);
    let mut out: Vec<char> = Vec::new();
    let mut i: usize = 0;
    while i < cs.len()
        invariant
            cs@ == s@,
            i <= cs.len(),
            out@ == lower_text(cs@.take(i as int)),
        decreases cs.len() - i,
    {
        out.push(lower_char(cs[i]));
        assert(lower_text(cs@.take(i + 1)) == lower_text(cs@.take(i as int)).push(
            ascii_lower(cs@[i as int]),
        ));
        i = i + 1;
    }
    assert(cs@.take(cs.len() as int) == cs@);
    string_of(&out)
}

// ---------------------------------------------------------------------------
// Trimming
// ---------------------------------------------------------------------------

/// `s` without its leading white space.
pub open spec fn trim_start(s: Seq<char>) -> Seq<char>
    decreases s.len(),
{
    if s.len() > 0 && is_white_space(s[0]) {
        trim_start(s.drop_first())
    } else {
        s
    }
}

/// `s` without its trailing white space.
pub open spec fn trim_end(s: Seq<char>) -> Seq<char>
    decreases s.len(),
{
    if s.len() > 0 && is_white_space(s.last()) {
        trim_end(s.drop_last())
    } else {
        s
    }
}

/// `s` without leading and trailing white space, as `str::trim` returns it.
pub open spec fn trimmed(s: Seq<char>) -> Seq<char> {
    trim_end(trim_start(s))
}

proof fn lemma_trim_start(s: Seq<char>, i: int)
    requires
        0 <= i <= s.len(),
        forall|k: int| 0 <= k < i ==> is_white_space(#[trigger] s[k]),
        i == s.len() || !is_white_space(s[i]),
    ensures
        trim_start(s) == s.subrange(i, s.len() as int),
    decreases i,
{
    if i == 0 {
        assert(s.subrange(0, s.len() as int) == s);
    } else {
        let t = s.drop_first();
        assert forall|k: int| 0 <= k < i - 1 implies is_white_space(#[trigger] t[k]) by {
            assert(t[k] == s[k + 1]);
        }
        lemma_trim_start(t, i - 1);
        assert(t.subrange(i - 1, t.len() as int) == s.subrange(i, s.len() as int));
    }
}

proof fn lemma_trim_end(s: Seq<char>, j: int)
    requires
        0 <= j <= s.len(),
        forall|k: int| j <= k < s.len() ==> is_white_space(#[trigger] s[k]),
        j == 0 || !is_white_space(s[j - 1]),
    ensures
        trim_end(s) == s.subrange(0, j),
    decreases s.len() - j,
{
    if j == s.len() {
        assert(s.subrange(0, j) == s);
    } else {
        let t = s.drop_last();
        assert forall|k: int| j <= k < t.len() implies is_white_space(#[trigger] t[k]) by {
            assert(t[k] == s[k]);
        }
        lemma_trim_end(t, j);
        assert(t.subrange(0, j) == s.subrange(0, j));
    }
}

/// Trimming a text that starts and ends with a character other than white space
/// leaves it as it is.
pub proof fn lemma_trimmed_plain(s: Seq<char>)
    requires
        s.len() > 0,
        !is_white_space(s[0]),
        !is_white_space(s.last()),
    ensures
        trimmed(s) == s,
{
    lemma_trim_start(s, 0);
    assert(s.subrange(0, s.len() as int) == s);
    lemma_trim_end(s, s.len() as int);
}

/// Trimming removes trailing white space appended to a text.
pub proof fn lemma_trimmed_push_white(s: Seq<char>, c: char)
    requires
        is_white_space(c),
    ensures
        trimmed(s.push(c)) == trimmed(s),
    decreases s.len(),
{
    let p = s.push(c);
    if s.len() > 0 && is_white_space(s[0]) {
        assert(p[0] == s[0]);
        assert(p.drop_first() == s.drop_first().push(c));
        lemma_trimmed_push_white(s.drop_first(), c);
    } else if s.len() == 0 {
        assert(p.drop_first() =~= Seq::<char>::empty());
        assert(trim_start(p.drop_first()) =~= Seq::<char>::empty());
        assert(trim_end(Seq::<char>::empty()) == Seq::<char>::empty());
    } else {
        assert(trim_start(p) == p);
        assert(trim_start(s) == s);
        assert(p.last() == c);
        assert(p.drop_last() == s);
    }
}

/// `s` without leading and trailing white space.
pub fn trim(s: &str) -> (r: &str)
    ensures
        r@ == trimmed(s@),
{
    let cs = chars_of(s);
    let n = cs.len();
    let mut i: usize = 0;
    while i < n && white_space(cs[i])
        invariant
            cs@ == s@,
            n == cs.len(),
            i <= n,
            forall|k: int| 0 <= k < i ==> is_white_space(#[trigger] cs@[k]),
        decreases n - i,
    {
        i = i + 1;
    }
    proof {
        lemma_trim_start(cs@, i as int);
    }
    let mut j: usize = n;
    while j > i && white_space(cs[j - 1])
        invariant
            cs@ == s@,
            n == cs.len(),
            i <= j <= n,
            forall|k: int| j <= k < n ==> is_white_space(#[trigger] cs@[k]),
        decreases j - i,
    {
        j = j - 1;
    }
    proof {
        let t = cs@.subrange(i as int, n as int);
        assert forall|k: int| j - i <= k < t.len() implies is_white_space(#[trigger] t[k]) by {
            assert(t[k] == cs@[k + i]);
        }
        if j > i {
            assert(t[j - i - 1] == cs@[j - 1]);
        }
        lemma_trim_end(t, j - i);
        assert(t.subrange(0, j - i) == cs@.subrange(i as int, j as int));
    }
    s.substring_char(i, j)
}

// ---------------------------------------------------------------------------
// Decimal text of integers
// ---------------------------------------------------------------------------

/// Decimal text of a natural number, without sign or leading zeros.
pub open spec fn nat_text(n: nat) -> Seq<char>
    decreases n,
{
    if n < 10 {
        seq![digit_char(n as int)]
    } else {
        nat_text(n / 10).push(digit_char((n % 10) as int))
    }
}

/// Decimal text of an integer, as `Display` writes it.
pub open spec fn int_text(i: int) -> Seq<char> {
    if i < 0 {
        seq!['-'] + nat_text((-i) as nat)
    } else {
        nat_text(i as nat)
    }
}

/// Decimal text of `n`.
pub fn u64_text(n: u64) -> (r: String)
    ensures
        r@ == nat_text(n as nat),
    decreases n,
{
    if n < 10 {
        let mut r = String::new();
        string_push(&mut r, digit(n));
        r
    } else {
        let mut r = u64_text(n / 10);
        string_push(&mut r, digit(n % 10));
        r
    }
}

/// Decimal text of `v`, with a leading `-` when negative.
pub fn i64_text(v: i64) -> (r: String)
    ensures
        r@ == int_text(v as int),
{
    if v < 0 {
        let magnitude: u64 = if v == i64::MIN {
            9223372036854775808u64
        } else {
            (-v) as u64
        };
        let mut r = String::new();
        string_push(&mut r, '-');
        let digits = u64_text(magnitude);
        let r = joined(r, digits.as_str());
        proof {
            assert(seq!['-'] == Seq::<char>::empty().push('-'));
        }
        r
    } else {
        u64_text(v as u64)
    }
}

// ---------------------------------------------------------------------------
// Reading integers
// ---------------------------------------------------------------------------

/// Why a text is not an `i64`, as `ParseIntError` reports it.
#[derive(Clone, Copy, Debug, PartialEq, Eq)]
pub enum EIntErrorKind {
    /// The text is empty.
    Empty,
    /// A character is not a digit, or a sign stands alone.
    InvalidDigit,
    /// The value is above `i64::MAX`.
    PosOverflow,
    /// The value is below `i64::MIN`.
    NegOverflow,
}

/// Reads the digits of `digits` left to right into `acc`, stopping at the first
/// character that is not a digit or at the first step out of the `i64` range.
pub open spec fn scan_digits(digits: Seq<char>, acc: int, negative: bool) -> Result<
    int,
    EIntErrorKind,
>
    decreases digits.len(),
{
    if digits.len() == 0 {
        Ok(acc)
    } else if !is_digit(digits[0]) {
        Err(EIntErrorKind::InvalidDigit)
    } else {
        let next = if negative {
            acc * 10 - digit_value(digits[0])
        } else {
            acc * 10 + digit_value(digits[0])
        };
        if next > i64::MAX {
            Err(EIntErrorKind::PosOverflow)
        } else if next < i64::MIN {
            Err(EIntErrorKind::NegOverflow)
        } else {
            scan_digits(digits.drop_first(), next, negative)
        }
    }
}

/// What `str::parse::<i64>` gives for `s`: an optional sign, then digits.
pub open spec fn parse_int(s: Seq<char>) -> Result<int, EIntErrorKind> {
    if s.len() == 0 {
        Err(EIntErrorKind::Empty)
    } else if (s[0] == '+' || s[0] == '-') && s.len() == 1 {
        Err(EIntErrorKind::InvalidDigit)
    } else if s[0] == '+' {
        scan_digits(s.drop_first(), 0, false)
    } else if s[0] == '-' {
        scan_digits(s.drop_first(), 0, true)
    } else {
        scan_digits(s, 0, false)
    }
}

/// Reads `s` as an `i64` with an optional sign.
pub fn parse_i64(s: &str) -> (r: Result<i64, EIntErrorKind>)
    ensures
        match r {
            Ok(v) => parse_int(s@) == Ok::<int, EIntErrorKind>(v as int),
            Err(e) => parse_int(s@) == Err::<int, EIntErrorKind>(e),
        },
{
    let cs = chars_of(s);
    let n = cs.len();
    if n == 0 {
        return Err(EIntErrorKind::Empty);
    }
    if (cs[0] == '+' || cs[0] == '-') && n == 1 {
        return Err(EIntErrorKind::InvalidDigit);
    }
    let negative = cs[0] == '-';
    let start: usize = if cs[0] == '+' || cs[0] == '-' {
        1
    } else {
        0
    };
    let ghost digits = cs@.subrange(start as int, n as int);
    proof {
        if start == 1 {
            assert(digits == s@.drop_first());
        } else {
            assert(digits == s@);
        }
        assert(parse_int(s@) == scan_digits(digits, 0, negative));
    }
    let mut acc: i64 = 0;
    let mut i: usize = start;
    while i < n
        invariant
            cs@ == s@,
            n == cs.len(),
            start <= i <= n,
            digits == cs@.subrange(start as int, n as int),
            parse_int(s@) == scan_digits(digits, 0, negative),
            negative ==> acc <= 0,
            !negative ==> acc >= 0,
            scan_digits(digits, 0, negative) == scan_digits(
                cs@.subrange(i as int, n as int),
                acc as int,
                negative,
            ),
        decreases n - i,
    {
        let c = cs[i];
        let ghost rest = cs@.subrange(i as int, n as int);
        assert(rest[0] == c);
        assert(rest.drop_first() == cs@.subrange(i + 1, n as int));
        if !('0' <= c && c <= '9') {
            return Err(EIntErrorKind::InvalidDigit);
        }
        let d: i64 = (c as u32 - 48) as i64;
        assert(d == digit_value(c));
        let ghost next: int = if negative {
            acc * 10 - d
        } else {
            acc * 10 + d
        };
        match acc.checked_mul(10) {
            None => {
                if negative {
                    assert(next < i64::MIN);
                    return Err(EIntErrorKind::NegOverflow);
                } else {
                    assert(next > i64::MAX);
                    return Err(EIntErrorKind::PosOverflow);
                }
            },
            Some(m) => {
                if negative {
                    match m.checked_sub(d) {
                        None => {
                            return Err(EIntErrorKind::NegOverflow);
                        },
                        Some(v) => {
                            acc = v;
                        },
                    }
                } else {
                    match m.checked_add(d) {
                        None => {
                            return Err(EIntErrorKind::PosOverflow);
                        },
                        Some(v) => {
                            acc = v;
                        },
                    }
                }
            },
        }
        i = i + 1;
    }
    Ok(acc)
}

/// The words that `ParseIntError` shows for each kind.
pub open spec fn int_error_text(e: EIntErrorKind) -> Seq<char> {
    match e {
        EIntErrorKind::Empty => "cannot parse integer from empty string"@,
        EIntErrorKind::InvalidDigit => "invalid digit found in string"@,
        EIntErrorKind::PosOverflow => "number too large to fit in target type"@,
        EIntErrorKind::NegOverflow => "number too small to fit in target type"@,
    }
}

/// The words that `ParseIntError` shows for `e`.
pub fn int_error_message(e: EIntErrorKind) -> (r: String)
    ensures
        r@ == int_error_text(e),
{
    match e {
        EIntErrorKind::Empty => String::from_str("cannot parse integer from empty string"),
        EIntErrorKind::InvalidDigit => String::from_str("invalid digit found in string"),
        EIntErrorKind::PosOverflow => String::from_str("number too large to fit in target type"),
        EIntErrorKind::NegOverflow => String::from_str("number too small to fit in target type"),
    }
}

} // verus!

verus! {

// ---------------------------------------------------------------------------
// Laws of the decimal notation
// ---------------------------------------------------------------------------

proof fn lemma_digit_char(d: int)
    requires
        0 <= d < 10,
    ensures
        is_digit(digit_char(d)),
        digit_value(digit_char(d)) == d,
        !is_white_space(digit_char(d)),
        digit_char(d) != '-',
        digit_char(d) != '+',
        (digit_char(d) as u32) < 0x80,
{
}

proof fn lemma_scan_push(s: Seq<char>, c: char, acc: int, negative: bool)
    ensures
        scan_digits(s.push(c), acc, negative) == (match scan_digits(s, acc, negative) {
            Ok(v) => scan_digits(seq![c], v, negative),
            Err(e) => Err(e),
        }),
    decreases s.len(),
{
    let p = s.push(c);
    if s.len() == 0 {
        assert(p == seq![c]);
    } else {
        assert(p[0] == s[0]);
        assert(p.drop_first() == s.drop_first().push(c));
        if is_digit(s[0]) {
            let next = if negative {
                acc * 10 - digit_value(s[0])
            } else {
                acc * 10 + digit_value(s[0])
            };
            lemma_scan_push(s.drop_first(), c, next, negative);
        }
    }
}

proof fn lemma_scan_nat_text(n: nat, negative: bool)
    requires
        !negative ==> n <= i64::MAX,
        negative ==> n <= 0x8000_0000_0000_0000,
    ensures
        scan_digits(nat_text(n), 0, negative) == Ok::<int, EIntErrorKind>(
            if negative {
                -n
            } else {
                n as int
            },
        ),
        nat_text(n).len() > 0,
        forall|k: int| 0 <= k < nat_text(n).len() ==> is_digit(#[trigger] nat_text(n)[k]) && (
        nat_text(n)[k] as u32) < 0x80,
    decreases n,
{
    if n < 10 {
        lemma_digit_char(n as int);
        let s = nat_text(n);
        assert(s == seq![digit_char(n as int)]);
        assert(s.drop_first() =~= Seq::<char>::empty());
        let next: int = if negative { 0 - n } else { n as int };
        assert(scan_digits(s, 0, negative) == scan_digits(s.drop_first(), next, negative));
    } else {
        let q = n / 10;
        let d = (n % 10) as int;
        lemma_digit_char(d);
        lemma_scan_nat_text(q, negative);
        lemma_scan_push(nat_text(q), digit_char(d), 0, negative);
        let one = seq![digit_char(d)];
        assert(one.drop_first() =~= Seq::<char>::empty());
        assert(q * 10 + d == n);
        assert(nat_text(n) == nat_text(q).push(digit_char(d)));
        let v: int = if negative { -q } else { q as int };
        let next: int = if negative { v * 10 - d } else { v * 10 + d };
        assert(next == if negative { -n } else { n as int });
        assert(scan_digits(one, v, negative) == scan_digits(one.drop_first(), next, negative));
        let prefix = nat_text(q);
        assert forall|k: int| 0 <= k < nat_text(n).len() implies is_digit(
            #[trigger] nat_text(n)[k],
        ) && (nat_text(n)[k] as u32) < 0x80 by {
            if k < prefix.len() {
                assert(nat_text(n)[k] == prefix[k]);
            }
        }
    }
}

/// Reading back the decimal text of an `i64` gives the same value.
pub proof fn lemma_int_text_round_trip(v: int)
    requires
        i64::MIN <= v <= i64::MAX,
    ensures
        parse_int(int_text(v)) == Ok::<int, EIntErrorKind>(v),
{
    if v < 0 {
        let n = (-v) as nat;
        lemma_scan_nat_text(n, true);
        let s = int_text(v);
        assert(s[0] == '-');
        assert(s.drop_first() =~= nat_text(n));
    } else {
        lemma_scan_nat_text(v as nat, false);
        let s = nat_text(v as nat);
        assert(is_digit(s[0]));
    }
}

/// `10^k`.
pub open spec fn ten_pow(k: nat) -> nat
    decreases k,
{
    if k == 0 {
        1
    } else {
        10 * ten_pow((k - 1) as nat)
    }
}

/// The decimal text of a natural number below `10^k` has at most `k` digits, all of
/// them ASCII, the first and last being no white space.
pub proof fn lemma_nat_text_shape(n: nat, k: nat)
    requires
        n < ten_pow(k),
        k > 0,
    ensures
        nat_text(n).len() <= k,
        forall|i: int| 0 <= i < nat_text(n).len() ==> is_digit(#[trigger] nat_text(n)[i]) && (
        nat_text(n)[i] as u32) < 0x80,
        !is_white_space(nat_text(n)[0]),
        !is_white_space(nat_text(n).last()),
    decreases k,
{
    lemma_scan_nat_text_digits(n);
    if n >= 10 {
        if k == 1 {
            assert(ten_pow(0) == 1);
        } else {
            lemma_nat_text_shape(n / 10, (k - 1) as nat);
        }
    }
}

/// The decimal text of a natural number is non-empty and made of ASCII digits only.
pub proof fn lemma_scan_nat_text_digits(n: nat)
    ensures
        nat_text(n).len() > 0,
        forall|i: int| 0 <= i < nat_text(n).len() ==> is_digit(#[trigger] nat_text(n)[i]) && (
        nat_text(n)[i] as u32) < 0x80,
        !is_white_space(nat_text(n)[0]),
        !is_white_space(nat_text(n).last()),
        nat_text(n)[0] != '-',
        nat_text(n)[0] != '+',
    decreases n,
{
    if n < 10 {
        lemma_digit_char(n as int);
    } else {
        lemma_digit_char((n % 10) as int);
        lemma_scan_nat_text_digits(n / 10);
        let prefix = nat_text(n / 10);
        assert forall|i: int| 0 <= i < nat_text(n).len() implies is_digit(
            #[trigger] nat_text(n)[i],
        ) && (nat_text(n)[i] as u32) < 0x80 by {
            if i < prefix.len() {
                assert(nat_text(n)[i] == prefix[i]);
            }
        }
        assert(nat_text(n)[0] == prefix[0]);
    }
}

} // verus!

verus! {

/// The text that `bytes` encode in UTF-8, as `std::str::from_utf8` reads it, or
/// `None` when they are not valid UTF-8.
#[verifier::external_body]
pub fn utf8_text(bytes: &[u8]) -> (r: Option<&str>)
    ensures
        r is Some <==> vstd::utf8::valid_utf8(bytes@),
        r matches Some(s) ==> s@ == vstd::utf8::decode_utf8(bytes@),
{
    std::str::from_utf8(bytes).ok()
}

/// The UTF-8 encoding of ASCII characters has one byte per character.
pub proof fn lemma_ascii_encoding_length(s: Seq<char>)
    requires
        forall|i: int| 0 <= i < s.len() ==> (#[trigger] s[i] as u32) < 0x80,
    ensures
        vstd::utf8::encode_utf8(s).len() == s.len(),
    decreases s.len(),
{
    if s.len() > 0 {
        let t = s.drop_first();
        assert forall|i: int| 0 <= i < t.len() implies (#[trigger] t[i] as u32) < 0x80 by {
            assert(t[i] == s[i + 1]);
        }
        lemma_ascii_encoding_length(t);
        assert((s[0] as u32) < 0x80);
        assert(vstd::utf8::has_width_1_encoding(s[0] as u32));
    }
}

} // verus!
