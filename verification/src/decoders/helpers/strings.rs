//! Text building blocks shared by the decoders: decimal rendering of integers,
//! character pushes, string comparison and ASCII upper-casing.

use vstd::prelude::*;
use vstd::string::*;

verus! {

/// The character of a decimal digit.
pub open spec fn digit_char(d: nat) -> char {
    if d == 0 {
        '0'
    } else if d == 1 {
        '1'
    } else if d == 2 {
        '2'
    } else if d == 3 {
        '3'
    } else if d == 4 {
        '4'
    } else if d == 5 {
        '5'
    } else if d == 6 {
        '6'
    } else if d == 7 {
        '7'
    } else if d == 8 {
        '8'
    } else {
        '9'
    }
}

/// The decimal representation of a natural number, without leading zeros
/// (as `{}` formats an unsigned integer).
pub open spec fn decimal_digits(n: nat) -> Seq<char>
    decreases n,
{
    if n < 10 {
        seq![digit_char(n)]
    } else {
        decimal_digits(n / 10).push(digit_char(n % 10))
    }
}

/// The number a text of decimal digits spells, most significant digit first.
pub open spec fn digits_value(digits: Seq<char>) -> int
    decreases digits.len(),
{
    if digits.len() == 0 {
        0
    } else {
        digits_value(digits.drop_last()) * 10 + (digits.last() as int - '0' as int)
    }
}

proof fn lemma_digit_char_value(d: nat)
    requires
        d < 10,
    ensures
        digit_char(d) as int - '0' as int == d,
        '0' <= digit_char(d) <= '9',
{
}

/// The decimal text of a number is made of digits `0` to `9` only, spells
/// that number, and starts with `0` only for zero itself.
pub proof fn lemma_decimal_digits_value(n: nat)
    ensures
        decimal_digits(n).len() > 0,
        forall|i: int| 0 <= i < decimal_digits(n).len() ==> '0' <= #[trigger] decimal_digits(n)[i] <= '9',
        digits_value(decimal_digits(n)) == n,
        decimal_digits(n)[0] == '0' ==> n == 0,
    decreases n,
{
    lemma_digit_char_value(n % 10);
    if n < 10 {
        assert(decimal_digits(n) =~= seq![digit_char(n)]);
        assert(seq![digit_char(n)].drop_last() =~= Seq::<char>::empty());
        assert(digits_value(Seq::<char>::empty()) == 0);
        assert(digits_value(decimal_digits(n)) == digits_value(decimal_digits(n).drop_last()) * 10
            + (decimal_digits(n).last() as int - '0' as int));
    } else {
        lemma_decimal_digits_value(n / 10);
        let d = decimal_digits(n);
        assert(d.drop_last() =~= decimal_digits(n / 10));
        assert(d[0] == decimal_digits(n / 10)[0]);
        assert(d.last() == digit_char(n % 10));
        assert(digits_value(d) == digits_value(d.drop_last()) * 10 + (d.last() as int - '0' as int));
        assert(n == (n / 10) * 10 + n % 10);
    }
}

/// The decimal representation of an integer, with a leading `-` when negative
/// (as `{}` formats a signed integer).
pub open spec fn signed_decimal(n: int) -> Seq<char> {
    if n < 0 {
        seq!['-'] + decimal_digits((-n) as nat)
    } else {
        decimal_digits(n as nat)
    }
}

/// `String::push`: appends one character.
#[verifier::external_body]
pub fn push_char(s: &mut String, c: char)
    ensures
        final(s)@ == old(s)@.push(c),
{
    s.push(c)
}

fn digit_to_char(d: u64) -> (c: char)
    requires
        d < 10,
    ensures
        c == digit_char(d as nat),
{
    match d {
        0 => '0',
        1 => '1',
        2 => '2',
        3 => '3',
        4 => '4',
        5 => '5',
        6 => '6',
        7 => '7',
        8 => '8',
        _ => '9',
    }
}

/// Appends the decimal representation of `n` to `out`.
pub fn push_decimal(out: &mut String, n: u64)
    ensures
        final(out)@ == old(out)@ + decimal_digits(n as nat),
    decreases n,
{
    if n >= 10 {
        push_decimal(out, n / 10);
    }
    let c = digit_to_char(n % 10);
    push_char(out, c);
    proof {
        if n >= 10 {
            assert(old(out)@ + decimal_digits(n as nat) =~= old(out)@ + decimal_digits(
                (n / 10) as nat,
            ) + seq![c]);
        } else {
            assert(old(out)@ + decimal_digits(n as nat) =~= old(out)@ + seq![c]);
        }
    }
}

/// Appends the decimal representation of the signed integer `n` to `out`.
pub fn push_signed_decimal(out: &mut String, n: i64)
    ensures
        final(out)@ == old(out)@ + signed_decimal(n as int),
{
    if n < 0 {
        push_char(out, '-');
        let magnitude: u64 = (0i128 - n as i128) as u64;
        push_decimal(out, magnitude);
        assert(old(out)@.push('-') + decimal_digits(magnitude as nat) =~= old(out)@ + (seq!['-']
            + decimal_digits(magnitude as nat)));
    } else {
        push_decimal(out, n as u64);
    }
}

/// The decimal representation of `n` as a new `String`.
pub fn decimal_string(n: u64) -> (res: String)
    ensures
        res@ == decimal_digits(n as nat),
{
    let mut res = String::new();
    push_decimal(&mut res, n);
    assert(Seq::<char>::empty() + decimal_digits(n as nat) =~= decimal_digits(n as nat));
    res
}

/// The decimal representation of the signed integer `n` as a new `String`.
pub fn signed_decimal_string(n: i64) -> (res: String)
    ensures
        res@ == signed_decimal(n as int),
{
    let mut res = String::new();
    push_signed_decimal(&mut res, n);
    assert(Seq::<char>::empty() + signed_decimal(n as int) =~= signed_decimal(n as int));
    res
}

/// Whether two strings hold the same characters.
pub fn str_equals(a: &str, b: &str) -> (res: bool)
    ensures
        res == (a@ == b@),
{
    let len = a.unicode_len();
    if len != b.unicode_len() {
        return false;
    }
    let mut i: usize = 0;
    while i < len
        invariant
            len == a@.len(),
            len == b@.len(),
            i <= len,
            forall|j: int| 0 <= j < i ==> a@[j] == b@[j],
        decreases len - i,
    {
        if a.get_char(i) != b.get_char(i) {
            return false;
        }
        i = i + 1;
    }
    assert(a@ =~= b@);
    true
}

/// `text` begins with `prefix`.
pub open spec fn starts_with(text: Seq<char>, prefix: Seq<char>) -> bool {
    prefix.len() <= text.len() && text.subrange(0, prefix.len() as int) == prefix
}

/// `text` ends with `suffix`.
pub open spec fn ends_with(text: Seq<char>, suffix: Seq<char>) -> bool {
    suffix.len() <= text.len() && text.subrange(text.len() - suffix.len(), text.len() as int)
        == suffix
}

/// `part` occurs somewhere in `text`.
pub open spec fn contains_text(text: Seq<char>, part: Seq<char>) -> bool {
    exists|i: int|
        0 <= i && i + part.len() <= text.len() && #[trigger] text.subrange(i, i + part.len()) == part
}

/// What a text contains, the text extended at its end contains too.
pub broadcast proof fn lemma_contains_text_extend(text: Seq<char>, more: Seq<char>, part: Seq<char>)
    requires
        contains_text(text, part),
    ensures
        #[trigger] contains_text(text + more, part),
{
    let i = choose|i: int|
        0 <= i && i + part.len() <= text.len() && #[trigger] text.subrange(i, i + part.len()) == part;
    assert((text + more).subrange(i, i + part.len()) =~= text.subrange(i, i + part.len()));
}

/// What a text contains, the text with anything put in front contains too.
pub broadcast proof fn lemma_contains_text_after(before: Seq<char>, text: Seq<char>, part: Seq<char>)
    requires
        contains_text(text, part),
    ensures
        #[trigger] contains_text(before + text, part),
{
    let i = choose|i: int|
        0 <= i && i + part.len() <= text.len() && #[trigger] text.subrange(i, i + part.len()) == part;
    let j = before.len() + i;
    assert((before + text).subrange(j, j + part.len()) =~= text.subrange(i, i + part.len()));
}

/// A text contains itself.
pub broadcast proof fn lemma_contains_text_self(part: Seq<char>)
    ensures
        #[trigger] contains_text(part, part),
{
    assert(part.subrange(0, 0int + part.len()) =~= part);
}

/// The facts on contained texts that laws on assembled texts chain together.
pub broadcast group group_contains_text {
    lemma_contains_text_extend,
    lemma_contains_text_after,
    lemma_contains_text_self,
}

/// ASCII upper case of one character: `a` to `z` become `A` to `Z`, every
/// other character stays as it is.
pub open spec fn ascii_upper(c: char) -> char {
    if 'a' <= c && c <= 'z' {
        ((c as int) - 32) as char
    } else {
        c
    }
}

/// ASCII upper case of a text, character by character.
pub open spec fn ascii_upper_text(s: Seq<char>) -> Seq<char> {
    s.map_values(|c: char| ascii_upper(c))
}

/// The ASCII upper case of a character: `a` to `z` become `A` to `Z`.
fn char_to_ascii_uppercase(c: char) -> (res: char)
    ensures
        res == ascii_upper(c),
{
    if 'a' <= c && c <= 'z' {
        let code: u8 = c as u8;
        (code - 32) as char
    } else {
        c
    }
}

/// The text with every ASCII lower case letter replaced by its upper case.
pub fn to_ascii_uppercase(s: &str) -> (res: String)
    ensures
        res@ == ascii_upper_text(s@),
{
    let len = s.unicode_len();
    let mut res = String::new();
    let mut i: usize = 0;
    while i < len
        invariant
            len == s@.len(),
            i <= len,
            res@ == ascii_upper_text(s@.subrange(0, i as int)),
        decreases len - i,
    {
        let c = char_to_ascii_uppercase(s.get_char(i));
        push_char(&mut res, c);
        assert(ascii_upper_text(s@.subrange(0, i + 1)) =~= ascii_upper_text(s@.subrange(0, i as int)).push(c));
        i = i + 1;
    }
    assert(s@.subrange(0, len as int) =~= s@);
    res
}

/// Upper-casing a text twice changes nothing more than upper-casing it once.
pub proof fn lemma_ascii_upper_idempotent(s: Seq<char>)
    ensures
        ascii_upper_text(ascii_upper_text(s)) == ascii_upper_text(s),
{
    assert(ascii_upper_text(ascii_upper_text(s)) =~= ascii_upper_text(s));
}

/// Upper-casing turns each ASCII lower case letter into the upper case letter
/// 32 code points below it, keeps every other character, keeps the length, and
/// leaves no ASCII lower case letter in the text.
pub proof fn lemma_ascii_upper_text_chars(s: Seq<char>)
    ensures
        ascii_upper_text(s).len() == s.len(),
        forall|i: int|
            0 <= i < s.len() && 'a' <= s[i] && s[i] <= 'z' ==> #[trigger] ascii_upper_text(s)[i] as int
                == s[i] as int - 32,
        forall|i: int|
            0 <= i < s.len() && !('a' <= s[i] && s[i] <= 'z') ==> #[trigger] ascii_upper_text(s)[i]
                == s[i],
        forall|i: int|
            0 <= i < s.len() ==> !('a' <= #[trigger] ascii_upper_text(s)[i] && ascii_upper_text(s)[i]
                <= 'z'),
{
}

} // verus!
