//! Building and comparing text.

use vstd::prelude::*;
use vstd::string::*;
use vstd::utf8::is_ascii_chars;

verus! {

/// The character of a decimal digit.
pub open spec fn digit_char(d: nat) -> char {
    (48 + d) as char
}

/// The decimal notation of a natural number, without leading zeros.
pub open spec fn decimal(n: nat) -> Seq<char>
    decreases n,
{
    if n < 10 {
        seq![digit_char(n)]
    } else {
        decimal(n / 10).push(digit_char(n % 10))
    }
}

/// Appends one character to a string (`String::push`).
#[verifier::external_body]
pub fn push_char(s: &mut String, c: char)
    ensures
        final(s)@ == old(s)@.push(c),
{
    s.push(c);
}

fn digit(d: u64) -> (c: char)
    requires
        d < 10,
    ensures
        c == digit_char(d as nat),
{
    let b: u8 = 48u8 + (d as u8);
    b as char
}

/// Appends the decimal notation of `n`.
pub fn push_decimal(s: &mut String, n: u64)
    ensures
        final(s)@ == old(s)@ + decimal(n as nat),
    decreases n,
{
    if n >= 10 {
        push_decimal(s, n / 10);
    }
    push_char(s, digit(n % 10));
    assert(s@ =~= old(s)@ + decimal(n as nat));
}

/// Whether two strings hold the same characters.
pub fn text_equals(a: &str, b: &str) -> (r: bool)
    ensures
        r == (a@ == b@),
{
    let n = a.unicode_len();
    if n != b.unicode_len() {
        return false;
    }
    let mut i: usize = 0;
    while i < n
        invariant
            n == a@.len(),
            n == b@.len(),
            i <= n,
            forall|j: int| 0 <= j < i ==> a@[j] == b@[j],
        decreases n - i,
    {
        if a.get_char(i) != b.get_char(i) {
            return false;
        }
        i = i + 1;
    }
    assert(a@ =~= b@);
    true
}

/// Whether `s` begins with `prefix`.
pub open spec fn has_prefix(s: Seq<char>, prefix: Seq<char>) -> bool {
    prefix.len() <= s.len() && s.subrange(0, prefix.len() as int) == prefix
}

/// Whether `s` begins with `prefix`.
pub fn starts_with_text(s: &str, prefix: &str) -> (r: bool)
    ensures
        r == has_prefix(s@, prefix@),
{
    let n = prefix.unicode_len();
    if n > s.unicode_len() {
        return false;
    }
    let mut i: usize = 0;
    while i < n
        invariant
            n == prefix@.len(),
            n <= s@.len(),
            i <= n,
            forall|j: int| 0 <= j < i ==> s@[j] == prefix@[j],
        decreases n - i,
    {
        if s.get_char(i) != prefix.get_char(i) {
            assert(s@.subrange(0, n as int)[i as int] != prefix@[i as int]);
            return false;
        }
        i = i + 1;
    }
    assert(s@.subrange(0, n as int) =~= prefix@);
    true
}

/// The lowercase form of a string as `str::to_lowercase` gives it.
pub uninterp spec fn lowercase_text(s: Seq<char>) -> Seq<char>;

/// The ASCII lowercase form of a character.
pub open spec fn ascii_lower(c: char) -> char {
    if 'A' <= c && c <= 'Z' {
        ((c as int) + 32) as char
    } else {
        c
    }
}

/// The text with each ASCII letter A-Z mapped to a-z.
pub open spec fn ascii_lowercase(s: Seq<char>) -> Seq<char> {
    s.map_values(|c: char| ascii_lower(c))
}

/// Wraps `str::to_lowercase`: the result is the Unicode lowercase form of
/// the text, named `lowercase_text`; for text made of ASCII characters alone
/// it is the text with each letter A-Z mapped to a-z (the Unicode lowercase
/// mapping of an ASCII character is its ASCII lowercase form).
#[verifier::external_body]
pub fn to_lowercase(s: &str) -> (r: String)
    ensures
        r@ == lowercase_text(s@),
        is_ascii_chars(s@) ==> r@ == ascii_lowercase(s@),
{
    s.to_lowercase()
}

} // verus!

verus! {

/// The digits after the decimal point of `f / 10000`, without trailing
/// zeros, for `0 < f < 10000`.
pub open spec fn fraction_digits(f: nat) -> Seq<char> {
    let d1 = digit_char(f / 1000);
    let d2 = digit_char((f / 100) % 10);
    let d3 = digit_char((f / 10) % 10);
    let d4 = digit_char(f % 10);
    if f % 1000 == 0 {
        seq![d1]
    } else if f % 100 == 0 {
        seq![d1, d2]
    } else if f % 10 == 0 {
        seq![d1, d2, d3]
    } else {
        seq![d1, d2, d3, d4]
    }
}

/// The shortest decimal notation of `m / 10000`.
pub open spec fn unsigned_fixed_text(m: nat) -> Seq<char> {
    if m % 10000 == 0 {
        decimal(m / 10000)
    } else {
        decimal(m / 10000) + seq!['.'] + fraction_digits(m % 10000)
    }
}

/// The shortest decimal notation of the fixed-point value `v / 10000`.
pub open spec fn fixed_point_text(v: int) -> Seq<char> {
    if v < 0 {
        seq!['-'] + unsigned_fixed_text((-v) as nat)
    } else {
        unsigned_fixed_text(v as nat)
    }
}

/// Appends the shortest decimal notation of `v / 10000`.
pub fn push_fixed_point(s: &mut String, v: i64)
    ensures
        final(s)@ == old(s)@ + fixed_point_text(v as int),
{
    let m: u64 = if v < 0 {
        push_char(s, '-');
        (0i128 - (v as i128)) as u64
    } else {
        v as u64
    };
    let ghost before = s@;
    push_decimal(s, m / 10000);
    let f = m % 10000;
    if f != 0 {
        push_char(s, '.');
        push_char(s, digit(f / 1000));
        if f % 1000 != 0 {
            push_char(s, digit((f / 100) % 10));
            if f % 100 != 0 {
                push_char(s, digit((f / 10) % 10));
                if f % 10 != 0 {
                    push_char(s, digit(f % 10));
                }
            }
        }
    }
    assert(s@ =~= before + unsigned_fixed_text(m as nat));
    assert(s@ =~= old(s)@ + fixed_point_text(v as int));
}

} // verus!
