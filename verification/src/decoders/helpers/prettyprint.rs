//! Line-oriented pretty printing: `name: value` field lines and
//! `=====label=====` banner lines, appended to an output `String`.
//!
//! Values arrive already rendered as text, the way their display form reads.

use vstd::prelude::*;
use vstd::string::*;

use crate::decoders::helpers::strings::push_char;

verus! {

/// The line that `pretty_print_field` appends: the name, `": "` when the name
/// is not empty, the value, and a newline.
pub open spec fn field_line(field_name: Seq<char>, field: Seq<char>) -> Seq<char> {
    field_name + (if field_name.len() == 0 {
        Seq::<char>::empty()
    } else {
        seq![':', ' ']
    }) + field + seq!['\n']
}

/// The line for an optional field: its field line when present, nothing when
/// absent.
pub open spec fn optional_field_line(field_name: Seq<char>, field: Option<String>) -> Seq<char> {
    match field {
        Some(value) => field_line(field_name, value@),
        None => Seq::<char>::empty(),
    }
}

/// One field line per value, in order, all under the same name.
pub open spec fn field_lines(field_name: Seq<char>, fields: Seq<String>) -> Seq<char>
    decreases fields.len(),
{
    if fields.len() == 0 {
        Seq::<char>::empty()
    } else {
        field_lines(field_name, fields.drop_last()) + field_line(field_name, fields.last()@)
    }
}

/// Width in characters of the line that `pretty_print_label` centres a label
/// in.
pub open spec fn label_width() -> int {
    70
}

/// Number of `=` on each side of a label of `len` characters.
pub open spec fn label_padding(len: int) -> nat {
    ((label_width() - len) / 2) as nat
}

/// The character closing a banner: `=` when the padding could not be split
/// evenly between both sides, a space otherwise.
pub open spec fn label_closing(len: int) -> char {
    if (label_width() - len) % 2 != 0 {
        '='
    } else {
        ' '
    }
}

/// `n` copies of `=`.
pub open spec fn equals_bar(n: nat) -> Seq<char> {
    Seq::new(n, |i: int| '=')
}

/// The line that `pretty_print_label` appends for a label: the bar, the
/// label, the same bar, the closing character and a newline; the bar length
/// goes by the label's number of characters.
pub open spec fn label_line(label: Seq<char>) -> Seq<char> {
    let len = label.len() as int;
    equals_bar(label_padding(len)) + label + equals_bar(label_padding(len)) + seq![
        label_closing(len),
        '\n',
    ]
}

/// A banner centres its label in a 70 character line: for any label of at
/// most 70 characters, the first 70 characters of the line are `=`, the label
/// and `=` again, with as many `=` after the label as before it, or one more
/// when the padding is odd; a space (only when the padding is even) and a
/// newline end the line.
pub proof fn lemma_label_line_centred(label: Seq<char>)
    requires
        label.len() <= label_width(),
    ensures
        ({
            let line = label_line(label);
            let before = label_padding(label.len() as int);
            let after = (label_width() - label.len() - before) as nat;
            &&& after == before || after == before + 1
            &&& line.subrange(0, label_width()) == equals_bar(before) + label + equals_bar(after)
            &&& line.subrange(label_width(), line.len() as int) == (if after == before {
                seq![' ', '\n']
            } else {
                seq!['\n']
            })
        }),
{
    let line = label_line(label);
    let n = label.len() as int;
    let before = label_padding(n);
    let after = (label_width() - n - before) as nat;
    assert(line.subrange(0, label_width()) =~= equals_bar(before) + label + equals_bar(after));
    if after == before {
        assert(line.subrange(label_width(), line.len() as int) =~= seq![' ', '\n']);
    } else {
        assert(line.subrange(label_width(), line.len() as int) =~= seq!['\n']);
    }
}

/// A text that is empty or ends with a newline: what follows it starts a
/// line.
pub open spec fn ends_line(text: Seq<char>) -> bool {
    text.len() > 0 ==> text.last() == '\n'
}

/// `text` holds `line` starting at the beginning of one of its lines.
pub open spec fn has_line(text: Seq<char>, line: Seq<char>) -> bool {
    exists|i: int|
        0 <= i && i + line.len() <= text.len() && (i == 0 || text[i - 1] == '\n')
            && #[trigger] text.subrange(i, i + line.len()) == line
}

/// A line of a text is still a line of the text extended at its end.
pub broadcast proof fn lemma_has_line_extend(text: Seq<char>, more: Seq<char>, line: Seq<char>)
    requires
        has_line(text, line),
    ensures
        #[trigger] has_line(text + more, line),
{
    let i = choose|i: int|
        0 <= i && i + line.len() <= text.len() && (i == 0 || text[i - 1] == '\n')
            && #[trigger] text.subrange(i, i + line.len()) == line;
    assert((text + more).subrange(i, i + line.len()) =~= text.subrange(i, i + line.len()));
}

/// A line of a text is a line of any text ending a line followed by it.
pub broadcast proof fn lemma_has_line_after(before: Seq<char>, text: Seq<char>, line: Seq<char>)
    requires
        ends_line(before),
        has_line(text, line),
    ensures
        #[trigger] has_line(before + text, line),
{
    let i = choose|i: int|
        0 <= i && i + line.len() <= text.len() && (i == 0 || text[i - 1] == '\n')
            && #[trigger] text.subrange(i, i + line.len()) == line;
    let j = before.len() + i;
    assert((before + text).subrange(j, j + line.len()) =~= text.subrange(i, i + line.len()));
}

/// A non-empty text is a line of itself.
pub broadcast proof fn lemma_has_line_self(line: Seq<char>)
    ensures
        #[trigger] has_line(line, line),
{
    assert(line.subrange(0, 0int + line.len()) =~= line);
}

/// Two texts ending lines, one after the other, end a line.
pub broadcast proof fn lemma_ends_line_concat(a: Seq<char>, b: Seq<char>)
    requires
        ends_line(a),
        ends_line(b),
    ensures
        #[trigger] ends_line(a + b),
{
}

/// A field line ends a line.
pub broadcast proof fn lemma_field_line_ends(field_name: Seq<char>, field: Seq<char>)
    ensures
        #[trigger] ends_line(field_line(field_name, field)),
{
}

/// A banner ends a line.
pub broadcast proof fn lemma_label_line_ends(label: Seq<char>)
    ensures
        #[trigger] ends_line(label_line(label)),
{
}

/// An optional field's line, present or not, ends a line.
pub broadcast proof fn lemma_optional_field_line_ends(field_name: Seq<char>, field: Option<String>)
    ensures
        #[trigger] ends_line(optional_field_line(field_name, field)),
{
}

/// The lines of a list end a line.
pub proof fn lemma_field_lines_end(field_name: Seq<char>, fields: Seq<String>)
    ensures
        ends_line(field_lines(field_name, fields)),
{
    if fields.len() > 0 {
        let text = field_lines(field_name, fields);
        let last = field_line(field_name, fields.last()@);
        assert(text == field_lines(field_name, fields.drop_last()) + last);
        assert(text.last() == last.last());
    }
}

/// Each value of a list has its own line among the list's lines, under the
/// list's name.
pub proof fn lemma_field_lines_hold(field_name: Seq<char>, fields: Seq<String>, k: int)
    requires
        0 <= k < fields.len(),
    ensures
        has_line(field_lines(field_name, fields), field_line(field_name, fields[k]@)),
    decreases fields.len(),
{
    let init = fields.drop_last();
    let last = field_line(field_name, fields.last()@);
    let line = field_line(field_name, fields[k]@);
    assert(field_lines(field_name, fields) == field_lines(field_name, init) + last);
    if k < init.len() {
        lemma_field_lines_hold(field_name, init, k);
        assert(init[k] == fields[k]);
        lemma_has_line_extend(field_lines(field_name, init), last, line);
    } else {
        lemma_field_lines_end(field_name, init);
        lemma_has_line_self(last);
        lemma_has_line_after(field_lines(field_name, init), last, last);
    }
}

/// The facts on lines that the report laws chain together.
pub broadcast group group_report_lines {
    lemma_has_line_extend,
    lemma_has_line_after,
    lemma_has_line_self,
    lemma_ends_line_concat,
    lemma_field_line_ends,
    lemma_label_line_ends,
    lemma_optional_field_line_ends,
}

/// Pretty print a field if it is present.
/// If the field is not present, do nothing.
pub fn pretty_print_field_from_option(
    field_name: &str,
    field: &Option<String>,
    output: &mut String,
)
    ensures
        final(output)@ == old(output)@ + optional_field_line(field_name@, *field),
{
    if let Some(value) = field {
        pretty_print_field(field_name, value.as_str(), output);
    } else {
        assert(final(output)@ =~= old(output)@ + optional_field_line(field_name@, *field));
    }
}

/// Pretty print each value of a list as a field line under the same name.
pub fn pretty_print_fields(field_name: &str, fields: &Vec<String>, output: &mut String)
    ensures
        final(output)@ == old(output)@ + field_lines(field_name@, fields@),
{
    let ghost start = output@;
    let mut i: usize = 0;
    while i < fields.len()
        invariant
            i <= fields.len(),
            output@ == start + field_lines(field_name@, fields@.subrange(0, i as int)),
        decreases fields.len() - i,
    {
        pretty_print_field(field_name, fields[i].as_str(), output);
        assert(fields@.subrange(0, i + 1).drop_last() =~= fields@.subrange(0, i as int));
        i = i + 1;
    }
    assert(fields@.subrange(0, fields@.len() as int) =~= fields@);
    assert(output@ =~= start + field_lines(field_name@, fields@));
}

/// Pretty print a field: `name: value` followed by a newline; an empty name
/// prints the value alone.
pub fn pretty_print_field(field_name: &str, field: &str, output: &mut String)
    ensures
        final(output)@ == old(output)@ + field_line(field_name@, field@),
{
    output.append(field_name);
    if !field_name.is_empty() {
        push_char(output, ':');
        push_char(output, ' ');
    }
    output.append(field);
    push_char(output, '\n');
    assert(final(output)@ =~= old(output)@ + field_line(field_name@, field@));
}

/// Pretty print a label. The label will be centered in a 70 character line
/// with '=' on either side.
pub fn pretty_print_label(label: &str, output: &mut String)
    requires
        label@.len() <= label_width(),
    ensures
        final(output)@ == old(output)@ + label_line(label@),
{
    let len: usize = label.unicode_len();
    let spaces: usize = (70 - len) / 2;
    let extra = if (70 - len) % 2 != 0 {
        '='
    } else {
        ' '
    };
    let mut buffer: String = String::new();
    let mut i: usize = 0;
    while i < spaces
        invariant
            i <= spaces,
            buffer@ == equals_bar(i as nat),
        decreases spaces - i,
    {
        push_char(&mut buffer, '=');
        i = i + 1;
        assert(buffer@ =~= equals_bar(i as nat));
    }
    output.append(buffer.as_str());
    output.append(label);
    output.append(buffer.as_str());
    push_char(output, extra);
    push_char(output, '\n');
    assert(final(output)@ =~= old(output)@ + label_line(label@));
}

} // verus!
