//! Mode A code (squawk) of an aircraft (`squawk` in aircraft.json), kept with
//! at least four digits.

use vstd::prelude::*;
use vstd::string::*;
use vstd::utf8::*;

use crate::decoders::helpers::strings::push_char;

verus! {

#[derive(Debug, Clone, PartialEq, Eq, PartialOrd)]
pub enum Squawk {
    String(String),
}

/// `n` copies of `0`.
pub open spec fn zeros(n: nat) -> Seq<char> {
    Seq::new(n, |i: int| '0')
}

/// Number of `0` put in front of a text to make it at least four bytes long.
pub open spec fn four_digit_padding(text: Seq<char>) -> nat {
    let byte_len = encode_utf8(text).len();
    if byte_len < 4 {
        (4 - byte_len) as nat
    } else {
        0
    }
}

/// A text padded with leading `0` to a UTF-8 length of at least four bytes.
pub open spec fn four_digit_text(text: Seq<char>) -> Seq<char> {
    zeros(four_digit_padding(text)) + text
}

impl Squawk {
    /// The code's text.
    pub open spec fn text(self) -> Seq<char> {
        match self {
            Squawk::String(code) => code@,
        }
    }

    /// The human readable text of this code: the code itself.
    pub fn to_string(&self) -> (res: String)
        ensures
            res@ == self.text(),
    {
        match self {
            Squawk::String(s) => s.clone(),
        }
    }
}

impl<'a> From<&'a str> for Squawk {
    fn from(s: &'a str) -> (res: Self)
        ensures
            res.text() == four_digit_text(s@),
    {
        Squawk::String(ensure_at_least_four_digits(s))
    }
}

impl<'a> vstd::std_specs::convert::FromSpecImpl<&'a str> for Squawk {
    /// The result holds a new `String`, which no spec value can name; `from`
    /// states its text itself.
    open spec fn obeys_from_spec() -> bool {
        false
    }

    open spec fn from_spec(s: &'a str) -> Self {
        arbitrary()
    }
}

impl From<String> for Squawk {
    fn from(s: String) -> (res: Self)
        ensures
            res.text() == four_digit_text(s@),
    {
        Squawk::String(ensure_at_least_four_digits(s.as_str()))
    }
}

impl vstd::std_specs::convert::FromSpecImpl<String> for Squawk {
    /// The result holds a new `String`, which no spec value can name; `from`
    /// states its text itself.
    open spec fn obeys_from_spec() -> bool {
        false
    }

    open spec fn from_spec(s: String) -> Self {
        arbitrary()
    }
}

/// The text with `0` put in front until it is at least four bytes long.
pub fn ensure_at_least_four_digits(s: &str) -> (res: String)
    ensures
        res@ == four_digit_text(s@),
{
    let byte_len = s.as_bytes().len();
    let padding: usize = if byte_len < 4 {
        4 - byte_len
    } else {
        0
    };
    let mut res = String::new();
    let mut i: usize = 0;
    while i < padding
        invariant
            i <= padding,
            res@ == zeros(i as nat),
        decreases padding - i,
    {
        push_char(&mut res, '0');
        i = i + 1;
        assert(res@ =~= zeros(i as nat));
    }
    assert(byte_len == encode_utf8(s@).len());
    assert(padding == four_digit_padding(s@));
    res.append(s);
    res
}

proof fn lemma_encode_utf8_leading_zeros(n: nat, text: Seq<char>)
    ensures
        encode_utf8(zeros(n) + text).len() == n + encode_utf8(text).len(),
    decreases n,
{
    if n > 0 {
        let rest = zeros((n - 1) as nat) + text;
        assert((zeros(n) + text).drop_first() =~= rest);
        assert((zeros(n) + text)[0] == '0');
        lemma_encode_utf8_leading_zeros((n - 1) as nat, text);
    } else {
        assert(zeros(n) + text =~= text);
    }
}

/// A code read from any text is at least four bytes long and ends with that
/// text; a text of four bytes or more is kept as it is.
pub proof fn lemma_squawk_four_digits(text: Seq<char>)
    ensures
        encode_utf8(four_digit_text(text)).len() >= 4,
        four_digit_text(text).subrange(
            four_digit_text(text).len() - text.len(),
            four_digit_text(text).len() as int,
        ) == text,
        encode_utf8(text).len() >= 4 ==> four_digit_text(text) == text,
{
    lemma_encode_utf8_leading_zeros(four_digit_padding(text), text);
    assert(four_digit_text(text).subrange(
        four_digit_text(text).len() - text.len(),
        four_digit_text(text).len() as int,
    ) =~= text);
    if encode_utf8(text).len() >= 4 {
        assert(four_digit_text(text) =~= text);
    }
}

} // verus!
