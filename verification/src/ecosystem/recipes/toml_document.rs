//! TOML manifests, read and rewritten through `toml_edit`, which keeps the
//! formatting of everything it does not change.

use vstd::prelude::*;

verus! {

#[verifier::external_type_specification]
#[verifier::external_body]
pub struct ExDocumentMut(toml_edit::DocumentMut);

/// A TOML document parsed from a text, together with the string values set
/// in it since, oldest first.
pub(crate) struct TomlDocument {
    doc: toml_edit::DocumentMut,
    source: Ghost<Seq<char>>,
    edits: Ghost<Seq<(Seq<char>, Seq<char>, Seq<char>)>>,
}

impl TomlDocument {
    /// The text the document was parsed from.
    pub(crate) closed spec fn source(&self) -> Seq<char> {
        self.source@
    }

    /// The `(table, key, value)` strings set since parsing, oldest first.
    pub(crate) closed spec fn edits(&self) -> Seq<(Seq<char>, Seq<char>, Seq<char>)> {
        self.edits@
    }
}

/// What parsing a text as a `toml_edit::DocumentMut` reports: `None` when the
/// text is a TOML document, otherwise the error's message.
pub uninterp spec fn toml_parse_failure(text: Seq<char>) -> Option<Seq<char>>;

/// Parses a text as a `toml_edit::DocumentMut` (its `FromStr`). The
/// contract claims only that success and the error message are those of the
/// call.
#[verifier::external_body]
pub(crate) fn parse_toml(text: &str) -> (r: Result<TomlDocument, String>)
    ensures
        match r {
            Ok(doc) => toml_parse_failure(text@) is None && doc.source() == text@ && doc.edits()
                == Seq::<(Seq<char>, Seq<char>, Seq<char>)>::empty(),
            Err(e) => toml_parse_failure(text@) == Some(e@),
        },
{
    match text.parse::<toml_edit::DocumentMut>() {
        Ok(doc) => Ok(TomlDocument { doc, source: Ghost(text@), edits: Ghost(Seq::empty()) }),
        Err(e) => Err(e.to_string()),
    }
}

/// What `doc[table][key].as_str()` gives on the document parsed from `text`
/// after the strings `edits` were set in order, with a missing table or key
/// giving `None`.
pub uninterp spec fn toml_string_at(
    text: Seq<char>,
    edits: Seq<(Seq<char>, Seq<char>, Seq<char>)>,
    table: Seq<char>,
    key: Seq<char>,
) -> Option<Seq<char>>;

/// Reads `key` of the top-level `table` as a string, with `toml_edit`'s
/// `get` on the document and on the table item and `Item::as_str` (the
/// lookups of `doc[table][key]`, without its panic on a missing entry). The
/// contract claims only that the result is that of those calls.
#[verifier::external_body]
pub(crate) fn string_at(doc: &TomlDocument, table: &str, key: &str) -> (r: Option<String>)
    ensures
        match r {
            Some(s) => toml_string_at(doc.source(), doc.edits(), table@, key@) == Some(s@),
            None => toml_string_at(doc.source(), doc.edits(), table@, key@) is None,
        },
{
    doc.doc.get(table).and_then(|t| t.get(key)).and_then(|v| v.as_str()).map(|s| s.to_owned())
}

/// Sets `key` of the top-level `table` to a TOML string with
/// `doc[table][key] = toml_edit::value(..)`. The indexing panics unless the
/// entry under `table` is a table or an inline table; a key there that
/// reads as a string shows that it is. The contract claims that reading the
/// entry back gives the string just set and that every other entry reads as
/// before, as the indexing's insert-or-replace of that one entry shows.
#[verifier::external_body]
pub(crate) fn set_string_at(doc: &mut TomlDocument, table: &str, key: &str, value: &str)
    requires
        toml_string_at(old(doc).source(), old(doc).edits(), table@, key@) is Some,
    ensures
        final(doc).source() == old(doc).source(),
        final(doc).edits() == old(doc).edits().push((table@, key@, value@)),
        toml_string_at(final(doc).source(), final(doc).edits(), table@, key@) == Some(value@),
        forall|t: Seq<char>, k: Seq<char>|
            (t, k) != (table@, key@) ==> #[trigger] toml_string_at(
                final(doc).source(),
                final(doc).edits(),
                t,
                k,
            ) == toml_string_at(old(doc).source(), old(doc).edits(), t, k),
{
    doc.doc[table][key] = toml_edit::value(value);
    doc.edits = Ghost(doc.edits@.push((table@, key@, value@)));
}

/// The text `toml_edit` writes for the document parsed from `text` after the
/// strings `edits` were set.
pub uninterp spec fn toml_render(text: Seq<char>, edits: Seq<(Seq<char>, Seq<char>, Seq<char>)>) -> Seq<
    char,
>;

/// Writes the document out as text (its `Display`). The contract claims
/// that the text is that of the call, and that `toml_edit` reads it back as
/// a document whose string entries are those of this one: the document is
/// written out as it was parsed, each value in its own (possibly replaced)
/// representation, which its parser reads again.
#[verifier::external_body]
pub(crate) fn render_toml(doc: &TomlDocument) -> (r: String)
    ensures
        r@ == toml_render(doc.source(), doc.edits()),
        toml_parse_failure(r@) is None,
        forall|t: Seq<char>, k: Seq<char>|
            #[trigger] toml_string_at(r@, Seq::empty(), t, k) == toml_string_at(
                doc.source(),
                doc.edits(),
                t,
                k,
            ),
{
    doc.doc.to_string()
}

} // verus!
