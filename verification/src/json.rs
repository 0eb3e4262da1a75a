use crate::codec::hex_text_char;
use vstd::prelude::*;

verus! {

/// A character that a JSON string holds verbatim, with no escape
/// sequence: printable ASCII other than the double quote and the
/// backslash.
pub open spec fn json_plain_char(c: char) -> bool {
    &&& 0x20 <= c as int <= 0x7e
    &&& c != '"'
    &&& c != '\\'
}

pub open spec fn json_plain_seq(s: Seq<char>) -> bool {
    forall|i: int| 0 <= i < s.len() ==> json_plain_char(#[trigger] s[i])
}

/// One JSON string token: the characters between double quotes.
pub open spec fn json_quoted(s: Seq<char>) -> Seq<char> {
    seq!['"'] + s + seq!['"']
}

/// The inside of a JSON array of strings: the quoted elements with a
/// comma between two neighbours.
pub open spec fn json_items(ss: Seq<Seq<char>>) -> Seq<char>
    decreases ss.len(),
{
    if ss.len() == 0 {
        Seq::empty()
    } else if ss.len() == 1 {
        json_quoted(ss[0])
    } else {
        json_quoted(ss[0]) + seq![','] + json_items(ss.drop_first())
    }
}

/// The JSON text of an array of plain strings.
pub open spec fn json_array(ss: Seq<Seq<char>>) -> Seq<char> {
    seq!['['] + json_items(ss) + seq![']']
}

/// The characters of a hex encoding need no JSON escape.
pub proof fn lemma_hex_text_is_json_plain(c: char)
    requires
        hex_text_char(c),
    ensures
        json_plain_char(c),
{
}

/// Relies on serde_json::to_string: a vector of strings serializes as a
/// JSON array, `[` and `]` around the elements, a comma between two
/// neighbours, each element between double quotes, and a character that
/// needs no escape is written as it stands. Serializing a vector of
/// strings cannot fail.
#[verifier::external_body]
pub(crate) fn json_string_array(items: &Vec<String>) -> (r: String)
    requires
        forall|i: int| 0 <= i < items@.len() ==> json_plain_seq(#[trigger] items@[i]@),
    ensures
        r@ == json_array(items@.map_values(|s: String| s@)),
{
    match serde_json::to_string(items) {
        Ok(s) => s,
        Err(_) => String::new(),
    }
}

} // verus!
