//! JSON manifests, read and rewritten through `serde_json`.

use vstd::prelude::*;

verus! {

#[verifier::external_type_specification]
#[verifier::external_body]
pub struct ExJsonValue(serde_json::Value);

/// A JSON document parsed from a text, together with the string members set
/// in it since, oldest first.
pub(crate) struct JsonDocument {
    value: serde_json::Value,
    source: Ghost<Seq<char>>,
    edits: Ghost<Seq<(Seq<char>, Seq<char>)>>,
}

impl JsonDocument {
    /// The text the document was parsed from.
    pub(crate) closed spec fn source(&self) -> Seq<char> {
        self.source@
    }

    /// The `(key, value)` string members set on the top-level object since
    /// parsing, oldest first.
    pub(crate) closed spec fn edits(&self) -> Seq<(Seq<char>, Seq<char>)> {
        self.edits@
    }
}

/// What `serde_json::from_str::<Value>` reports for a text: `None` when the
/// text is one well-formed JSON value, otherwise the error's message.
pub uninterp spec fn json_parse_failure(text: Seq<char>) -> Option<Seq<char>>;

/// Parses a text as a JSON value with `serde_json::from_str`. The contract
/// claims only that success and the error message are those of that call.
#[verifier::external_body]
pub(crate) fn parse_json(text: &str) -> (r: Result<JsonDocument, String>)
    ensures
        match r {
            Ok(doc) => json_parse_failure(text@) is None && doc.source() == text@ && doc.edits()
                == Seq::<(Seq<char>, Seq<char>)>::empty(),
            Err(e) => json_parse_failure(text@) == Some(e@),
        },
{
    match serde_json::from_str::<serde_json::Value>(text) {
        Ok(value) => Ok(JsonDocument { value, source: Ghost(text@), edits: Ghost(Seq::empty()) }),
        Err(e) => Err(e.to_string()),
    }
}


/// What `value[key].as_str()` gives on the top-level value of the document
/// parsed from `text` after the string members `edits` were set in order.
pub uninterp spec fn json_string_member(
    text: Seq<char>,
    edits: Seq<(Seq<char>, Seq<char>)>,
    key: Seq<char>,
) -> Option<Seq<char>>;

/// Reads a member of the top-level object as a string, with `serde_json`'s
/// indexing (`value[key]`, which gives `null` for a missing member or a
/// non-object) and `Value::as_str`. The contract claims only that the result
/// is that of those calls.
#[verifier::external_body]
pub(crate) fn string_member(doc: &JsonDocument, key: &str) -> (r: Option<String>)
    ensures
        match r {
            Some(s) => json_string_member(doc.source(), doc.edits(), key@) == Some(s@),
            None => json_string_member(doc.source(), doc.edits(), key@) is None,
        },
{
    match doc.value[key].as_str() {
        Some(s) => Some(s.to_owned()),
        None => None,
    }
}

/// Sets a member of the top-level object to a JSON string with
/// `serde_json`'s `value[key] = Value::String(..)`. Assignment through the
/// index panics unless the value is an object or null; a member that reads
/// as a string shows that the value is an object. The contract claims that
/// reading the member back gives the string just set and that every other
/// member reads as before, as the object map's `entry(..).or_insert(..)`
/// followed by the assignment shows.
#[verifier::external_body]
pub(crate) fn set_string_member(doc: &mut JsonDocument, key: &str, value: &str)
    requires
        json_string_member(old(doc).source(), old(doc).edits(), key@) is Some,
    ensures
        final(doc).source() == old(doc).source(),
        final(doc).edits() == old(doc).edits().push((key@, value@)),
        json_string_member(final(doc).source(), final(doc).edits(), key@) == Some(value@),
        forall|k: Seq<char>|
            k != key@ ==> #[trigger] json_string_member(final(doc).source(), final(doc).edits(), k)
                == json_string_member(old(doc).source(), old(doc).edits(), k),
{
    doc.value[key] = serde_json::Value::String(value.to_owned());
    doc.edits = Ghost(doc.edits@.push((key@, value@)));
}

/// What `serde_json::to_string_pretty` writes for the document parsed from
/// `text` after the string members `edits` were set.
pub uninterp spec fn json_pretty(text: Seq<char>, edits: Seq<(Seq<char>, Seq<char>)>) -> Seq<char>;

/// Serialises the document with `serde_json::to_string_pretty`. A `Value`
/// holds only string map keys and is written into a `Vec`, so the call
/// cannot fail (no `preserve_order` or `arbitrary_precision` feature is in
/// use). The contract claims that the text is that of the call, and that
/// reading it back with `serde_json` succeeds and gives a `Value` equal to
/// the document, so every string member of the top-level object reads as
/// the document holds it: strings are written with the escapes the parser
/// decodes, integers exactly, floats in their shortest form that the parser
/// reads back exactly under the `float_roundtrip` feature in use, and the
/// output nests no deeper than the text the document was parsed from.
#[verifier::external_body]
pub(crate) fn to_pretty_json(doc: &JsonDocument) -> (r: String)
    ensures
        r@ == json_pretty(doc.source(), doc.edits()),
        json_parse_failure(r@) is None,
        json_values_equal(r@, Seq::empty(), doc.source(), doc.edits()),
        forall|k: Seq<char>|
            #[trigger] json_string_member(r@, Seq::empty(), k) == json_string_member(
                doc.source(),
                doc.edits(),
                k,
            ),
{
    serde_json::to_string_pretty(&doc.value).expect("a JSON value always serialises")
}

/// Whether the documents parsed from `text_a` and `text_b`, after the string
/// members `edits_a` and `edits_b` were set, are equal `serde_json::Value`s.
pub uninterp spec fn json_values_equal(
    text_a: Seq<char>,
    edits_a: Seq<(Seq<char>, Seq<char>)>,
    text_b: Seq<char>,
    edits_b: Seq<(Seq<char>, Seq<char>)>,
) -> bool;

/// Compares two documents with `Value`'s `==`. The contract claims that the
/// result is that of the comparison, and that equal values read the same
/// string for every member, as indexing and `as_str` depend on the value
/// alone.
#[verifier::external_body]
pub(crate) fn same_json_value(a: &JsonDocument, b: &JsonDocument) -> (r: bool)
    ensures
        r == json_values_equal(a.source(), a.edits(), b.source(), b.edits()),
        r ==> forall|k: Seq<char>|
            #[trigger] json_string_member(a.source(), a.edits(), k) == json_string_member(
                b.source(),
                b.edits(),
                k,
            ),
{
    a.value == b.value
}

} // verus!
