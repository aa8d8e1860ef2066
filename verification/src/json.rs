//! JSON framing of the requests sent to the phone.
//!
//! String values are quoted and escaped by `serde_json`; the objects around
//! them are framed here the way `serde_json` frames a struct in its compact
//! form: `{"key":value,"key":value}`.

use vstd::prelude::*;

verus! {

#[verifier::external_type_specification]
#[verifier::external_body]
pub struct ExJsonError(serde_json::Error);

/// The lower-case hexadecimal digit of `d` (`0 <= d < 16`).
pub open spec fn hex_digit(d: int) -> char {
    if d < 10 {
        ('0' as int + d) as char
    } else {
        ('a' as int + d - 10) as char
    }
}

/// The value of a lower-case hexadecimal digit.
pub open spec fn hex_value(c: char) -> int {
    if '0' <= c <= '9' {
        c as int - '0' as int
    } else {
        c as int - 'a' as int + 10
    }
}

/// How a JSON string literal spells one character: `"` and `\` and the
/// characters below U+0020 are escaped (with a short form for backspace,
/// tab, line feed, form feed and carriage return, `\u00xx` otherwise);
/// every other character stands for itself.
pub open spec fn json_escape_char(c: char) -> Seq<char> {
    if c == '"' {
        seq!['\\', '"']
    } else if c == '\\' {
        seq!['\\', '\\']
    } else if c == '\x08' {
        seq!['\\', 'b']
    } else if c == '\t' {
        seq!['\\', 't']
    } else if c == '\n' {
        seq!['\\', 'n']
    } else if c == '\x0C' {
        seq!['\\', 'f']
    } else if c == '\r' {
        seq!['\\', 'r']
    } else if (c as u32) < 0x20 {
        seq!['\\', 'u', '0', '0', hex_digit(((c as u32) / 16) as int), hex_digit(((c as u32) % 16) as int)]
    } else {
        seq![c]
    }
}

/// The characters of a JSON string literal between its quotes.
pub open spec fn json_escaped(text: Seq<char>) -> Seq<char>
    decreases text.len(),
{
    if text.len() == 0 {
        Seq::empty()
    } else {
        json_escape_char(text[0]) + json_escaped(text.drop_first())
    }
}

/// The JSON string literal of `text`, as `serde_json` writes it.
pub open spec fn json_string_literal(text: Seq<char>) -> Seq<char> {
    seq!['"'] + json_escaped(text) + seq!['"']
}

/// The character a short escape `\x` stands for.
pub open spec fn escape_meaning(x: char) -> char {
    if x == 'b' {
        '\x08'
    } else if x == 't' {
        '\t'
    } else if x == 'n' {
        '\n'
    } else if x == 'f' {
        '\x0C'
    } else if x == 'r' {
        '\r'
    } else {
        x
    }
}

/// Reads the characters between the quotes of a JSON string literal back
/// into the text they stand for.
pub open spec fn json_unescaped(s: Seq<char>) -> Seq<char>
    decreases s.len(),
{
    if s.len() == 0 {
        Seq::empty()
    } else if s[0] != '\\' {
        seq![s[0]] + json_unescaped(s.drop_first())
    } else if s.len() >= 6 && s[1] == 'u' {
        seq![(16 * hex_value(s[4]) + hex_value(s[5])) as char] + json_unescaped(s.skip(6))
    } else if s.len() >= 2 {
        seq![escape_meaning(s[1])] + json_unescaped(s.skip(2))
    } else {
        Seq::empty()
    }
}

/// Reading back one escaped character, and then the rest.
proof fn lemma_unescape_char(c: char, rest: Seq<char>)
    ensures
        json_unescaped(json_escape_char(c) + rest) == seq![c] + json_unescaped(rest),
{
    let e = json_escape_char(c);
    let s = e + rest;
    if e.len() == 1 {
        assert(s.drop_first() =~= rest);
    } else if e.len() == 2 {
        assert(s.skip(2) =~= rest);
    } else {
        assert(s.skip(6) =~= rest);
        let x = c as u32;
        assert(hex_value(hex_digit((x / 16) as int)) == x / 16);
        assert(hex_value(hex_digit((x % 16) as int)) == x % 16);
    }
}

/// A JSON string literal reads back to the text it was written from.
pub proof fn lemma_literal_reads_back(text: Seq<char>)
    ensures
        json_unescaped(json_escaped(text)) == text,
    decreases text.len(),
{
    if text.len() > 0 {
        lemma_literal_reads_back(text.drop_first());
        lemma_unescape_char(text[0], json_escaped(text.drop_first()));
        assert(seq![text[0]] + text.drop_first() =~= text);
    }
}

/// Different texts have different JSON string literals.
pub proof fn lemma_literal_injective(a: Seq<char>, b: Seq<char>)
    ensures
        json_string_literal(a) == json_string_literal(b) ==> a == b,
{
    if json_string_literal(a) == json_string_literal(b) {
        let la = json_string_literal(a);
        assert(json_escaped(a) =~= la.subrange(1, la.len() - 1));
        assert(json_escaped(b) =~= la.subrange(1, la.len() - 1));
        lemma_literal_reads_back(a);
        lemma_literal_reads_back(b);
    }
}

/// A character that JSON writes as itself inside a string literal.
pub open spec fn json_plain_char(c: char) -> bool {
    &&& c != '"'
    &&& c != '\\'
    &&& c as u32 >= 0x20
}

/// Text that `serde_json` quotes without escaping anything.
pub open spec fn json_plain(text: Seq<char>) -> bool {
    forall|i: int| 0 <= i < text.len() ==> json_plain_char(#[trigger] text[i])
}

/// Text without control characters (below U+0020), in particular without
/// a line break.
pub open spec fn single_line(text: Seq<char>) -> bool {
    forall|i: int| 0 <= i < text.len() ==> (#[trigger] text[i]) as u32 >= 0x20
}

/// `text` between two double quotes.
pub open spec fn quoted(text: Seq<char>) -> Seq<char> {
    seq!['"'] + text + seq!['"']
}

/// What is known of the JSON literal of `text` once it has been written:
/// it holds no control character, and plain text is only quoted.
pub open spec fn literal_known(text: Seq<char>) -> bool {
    &&& single_line(json_string_literal(text))
    &&& json_plain(text) ==> json_string_literal(text) == quoted(text)
}

/// Joining two single-line texts gives a single-line text.
pub proof fn lemma_single_line_concat(a: Seq<char>, b: Seq<char>)
    requires
        single_line(a),
        single_line(b),
    ensures
        single_line(a + b),
{
    assert forall|i: int| 0 <= i < (a + b).len() implies (#[trigger] (a + b)[i]) as u32 >= 0x20 by {
        if i < a.len() {
            assert((a + b)[i] == a[i]);
        } else {
            assert((a + b)[i] == b[i - a.len()]);
        }
    }
}

/// No escaped character is a control character.
proof fn lemma_escaped_single_line(text: Seq<char>)
    ensures
        single_line(json_escaped(text)),
    decreases text.len(),
{
    if text.len() > 0 {
        lemma_escaped_single_line(text.drop_first());
        let c = text[0];
        let e = json_escape_char(c);
        assert(single_line(e)) by {
            if e.len() == 6 {
                let x = c as u32;
                assert(x / 16 < 16 && x % 16 < 16);
                assert((hex_digit((x / 16) as int) as u32) >= 0x30);
                assert((hex_digit((x % 16) as int) as u32) >= 0x30);
            }
        }
        lemma_single_line_concat(e, json_escaped(text.drop_first()));
    }
}

/// Plain text is written as itself.
proof fn lemma_plain_escaped(text: Seq<char>)
    requires
        json_plain(text),
    ensures
        json_escaped(text) == text,
    decreases text.len(),
{
    if text.len() > 0 {
        assert(json_plain_char(text[0]));
        assert(json_plain(text.drop_first())) by {
            assert forall|i: int| 0 <= i < text.drop_first().len() implies json_plain_char(
                #[trigger] text.drop_first()[i],
            ) by {
                assert(text.drop_first()[i] == text[i + 1]);
            }
        }
        lemma_plain_escaped(text.drop_first());
        assert(seq![text[0]] + text.drop_first() =~= text);
    }
}

/// What is known of every JSON literal: it holds no control character,
/// and plain text is only quoted.
pub proof fn lemma_literal_known(text: Seq<char>)
    ensures
        literal_known(text),
{
    lemma_escaped_single_line(text);
    lemma_single_line_concat(seq!['"'], json_escaped(text));
    lemma_single_line_concat(seq!['"'] + json_escaped(text), seq!['"']);
    if json_plain(text) {
        lemma_plain_escaped(text);
    }
}

/// Calls `serde_json::to_string` on a string slice.
///
/// The contract claims what the crate's serializer does for a `str`: it
/// writes into a `Vec<u8>`, which cannot fail, so the result is always `Ok`;
/// and the result is the text between two `"`, with `"`, `\` and every
/// character below U+0020 escaped as `json_escape_char` spells them (the
/// escape table and `write_char_escape` of the crate), and every other
/// character copied as it is.
#[verifier::external_body]
fn serde_string_literal(text: &str) -> (r: Result<String, serde_json::Error>)
    ensures
        r is Ok,
        r matches Ok(q) ==> q@ == json_string_literal(text@),
{
    serde_json::to_string(text)
}

/// Quotes and escapes `text` as a JSON string literal.
pub fn quote(text: &str) -> (q: String)
    ensures
        q@ == json_string_literal(text@),
        q@.len() >= 2,
        q@[0] == '"',
        q@.last() == '"',
        single_line(q@),
        json_plain(text@) ==> q@ == seq!['"'] + text@ + seq!['"'],
        literal_known(text@),
{
    proof {
        lemma_literal_known(text@);
    }
    match serde_string_literal(text) {
        Ok(q) => q,
        Err(_) => {
            proof {
                assert(false);
            }
            String::new()
        },
    }
}

/// One `"key":value` member of a JSON object with a string value.
pub open spec fn json_member(field: (Seq<char>, Seq<char>)) -> Seq<char> {
    json_string_literal(field.0) + seq![':'] + json_string_literal(field.1)
}

/// The members of a JSON object, separated by commas.
pub open spec fn json_members(fields: Seq<(Seq<char>, Seq<char>)>) -> Seq<char>
    decreases fields.len(),
{
    if fields.len() == 0 {
        Seq::empty()
    } else if fields.len() == 1 {
        json_member(fields[0])
    } else {
        json_members(fields.drop_last()) + seq![','] + json_member(fields.last())
    }
}

/// A JSON object whose values are all strings, in compact form.
pub open spec fn json_object(fields: Seq<(Seq<char>, Seq<char>)>) -> Seq<char> {
    seq!['{'] + json_members(fields) + seq!['}']
}

/// The members of a two-member object, spelled out.
pub proof fn lemma_two_members(views: Seq<(Seq<char>, Seq<char>)>)
    requires
        views.len() == 2,
    ensures
        json_members(views) == json_member(views[0]) + seq![','] + json_member(views[1]),
{
    assert(views.drop_last() =~= seq![views[0]]);
    assert(json_members(seq![views[0]]) == json_member(views[0]));
}

/// The members of a three-member object, spelled out.
pub proof fn lemma_three_members(views: Seq<(Seq<char>, Seq<char>)>)
    requires
        views.len() == 3,
    ensures
        json_members(views) == json_member(views[0]) + seq![','] + json_member(views[1]) + seq![',']
            + json_member(views[2]),
{
    lemma_two_members(views.drop_last());
    assert(views.drop_last()[0] == views[0]);
    assert(views.drop_last()[1] == views[1]);
}

/// The views of key/value pairs.
pub open spec fn field_views(fields: Seq<(&str, String)>) -> Seq<(Seq<char>, Seq<char>)> {
    fields.map_values(|f: (&str, String)| (f.0@, f.1@))
}

/// Writes a JSON object with string values, members in the given order.
pub fn object(fields: &Vec<(&str, String)>) -> (out: String)
    ensures
        out@ == json_object(field_views(fields@)),
        forall|j: int|
            0 <= j < fields@.len() ==> literal_known(#[trigger] field_views(fields@)[j].0)
                && literal_known(field_views(fields@)[j].1),
{
    let ghost views = field_views(fields@);
    let mut body = String::new();
    let mut i: usize = 0;
    while i < fields.len()
        invariant
            0 <= i <= fields.len(),
            views == field_views(fields@),
            body@ == json_members(views.take(i as int)),
            forall|j: int| 0 <= j < i ==> literal_known(#[trigger] views[j].0) && literal_known(views[j].1),
        decreases fields.len() - i,
    {
        let key = quote(fields[i].0);
        let value = quote(fields[i].1.as_str());
        if i > 0 {
            body.append(",");
        }
        body.append(key.as_str());
        body.append(":");
        body.append(value.as_str());
        proof {
            reveal_strlit(",");
            reveal_strlit(":");
            assert(views[i as int] == (fields@[i as int].0@, fields@[i as int].1@));
            assert(views.take(i + 1).drop_last() =~= views.take(i as int));
            assert(views.take(i + 1).last() == views[i as int]);
        }
        i = i + 1;
    }
    assert(views.take(fields.len() as int) =~= views);
    proof {
        reveal_strlit("{");
        reveal_strlit("}");
    }
    let mut out = String::new();
    out.append("{");
    out.append(body.as_str());
    out.append("}");
    out
}

} // verus!
