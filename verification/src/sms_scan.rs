//! The pieces of a received message offered for copying: numbers, and
//! web or mail addresses, found by a regular expression.

use vstd::prelude::*;
use vstd::string::StringSliceAdditionalSpecFns;
use vstd::utf8::encode_utf8;
use crate::contact::string_views;

verus! {

#[verifier::external_type_specification]
#[verifier::external_body]
pub struct ExRegexError(regex::Error);

/// Whether `regex` accepts `pattern` (a valid pattern within its default
/// size limit).
pub uninterp spec fn regex_compiles(pattern: Seq<char>) -> bool;

/// The texts of the successive non-overlapping matches of `pattern` in
/// `text`, as `regex` finds them.
pub uninterp spec fn regex_match_texts(pattern: Seq<char>, text: Seq<char>) -> Seq<Seq<char>>;

/// Calls `regex::Regex::new` on `pattern` and then `find_iter` on `text`,
/// handing out the text of each match in order.
///
/// The contract claims that compiling succeeds exactly where the pattern is
/// accepted (`regex_compiles`, a function of the pattern alone) and that the
/// matches are `regex_match_texts(pattern, text)`; it says nothing more of
/// which pieces match.
#[verifier::external_body]
fn regex_find_all(pattern: &str, text: &str) -> (r: Result<Vec<String>, regex::Error>)
    ensures
        r is Ok <==> regex_compiles(pattern@),
        r matches Ok(found) ==> string_views(found@) == regex_match_texts(pattern@, text@),
{
    let re = regex::Regex::new(pattern)?;
    Ok(re.find_iter(text).map(|m| m.as_str().to_string()).collect())
}

/// The pattern of the pieces offered for copying: a run of digits, or
/// something shaped like a host name or mail address with an optional
/// path.
pub open spec fn sms_token_pattern() -> Seq<char> {
    r"(\d+)|([-a-zA-Z0-9@:%._\+~#=]{1,256}\.[a-zA-Z0-9()]{1,6}\b([-a-zA-Z0-9()@:%_\+.~#?&//=]*))"@
}

/// The label of a copy button: a clipboard sign, a space and the piece.
pub open spec fn copy_label(piece: Seq<char>) -> Seq<char> {
    "📋 "@ + piece
}

/// The length of a text in UTF-8 bytes, as a `usize` (which a text in
/// memory always fits).
pub open spec fn utf8_len(text: Seq<char>) -> usize {
    encode_utf8(text).len() as usize
}

/// The labels of the pieces longer than two bytes (in UTF-8), in order.
pub open spec fn copy_labels_of(pieces: Seq<Seq<char>>) -> Seq<Seq<char>>
    decreases pieces.len(),
{
    if pieces.len() == 0 {
        Seq::empty()
    } else {
        let rest = copy_labels_of(pieces.drop_last());
        if utf8_len(pieces.last()) > 2 {
            rest.push(copy_label(pieces.last()))
        } else {
            rest
        }
    }
}

/// The copy-button labels for the pieces found in a message: pieces of at
/// most two bytes are left out.
pub fn copy_labels(pieces: &Vec<String>) -> (labels: Vec<String>)
    ensures
        string_views(labels@) == copy_labels_of(string_views(pieces@)),
{
    let ghost views = string_views(pieces@);
    let mut labels: Vec<String> = Vec::new();
    let mut i: usize = 0;
    while i < pieces.len()
        invariant
            0 <= i <= pieces.len(),
            views == string_views(pieces@),
            string_views(labels@) == copy_labels_of(views.take(i as int)),
        decreases pieces.len() - i,
    {
        let piece = pieces[i].as_str();
        proof {
            assert(views.take(i + 1).drop_last() =~= views.take(i as int));
            assert(views.take(i + 1).last() == pieces@[i as int]@);
            assert(piece.spec_bytes() == encode_utf8(piece@));
        }
        let bytes = piece.len();
        proof {
            assert(bytes == utf8_len(piece@));
        }
        if bytes > 2 {
            let mut label = String::from_str("📋 ");
            label.append(piece);
            let ghost before = labels@;
            labels.push(label);
            proof {
                assert(string_views(labels@) =~= string_views(before).push(copy_label(piece@)));
            }
        }
        i = i + 1;
    }
    assert(views.take(pieces.len() as int) =~= views);
    labels
}

/// The copy-button labels for a received message's `body`; fails only if
/// the pattern is refused.
pub fn sms_copy_labels(body: &str) -> (r: Result<Vec<String>, regex::Error>)
    ensures
        r is Ok <==> regex_compiles(sms_token_pattern()),
        r matches Ok(labels) ==> string_views(labels@) == copy_labels_of(
            regex_match_texts(sms_token_pattern(), body@),
        ),
{
    let pattern =
        r"(\d+)|([-a-zA-Z0-9@:%._\+~#=]{1,256}\.[a-zA-Z0-9()]{1,6}\b([-a-zA-Z0-9()@:%_\+.~#?&//=]*))";
    match regex_find_all(pattern, body) {
        Ok(pieces) => Ok(copy_labels(&pieces)),
        Err(e) => Err(e),
    }
}

} // verus!
