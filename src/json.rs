use vstd::prelude::*;

verus! {

/// The string that stands at a JSON pointer of a JSON text, if the text parses and a
/// string stands there.
pub uninterp spec fn json_str_at(text: Seq<char>, pointer: Seq<char>) -> Option<Seq<char>>;

/// The boolean that stands at a JSON pointer of a JSON text, if the text parses and a
/// boolean stands there.
pub uninterp spec fn json_bool_at(text: Seq<char>, pointer: Seq<char>) -> Option<bool>;

/// A string written as a JSON string literal, quotes and escapes included.
pub uninterp spec fn json_quoted(s: Seq<char>) -> Seq<char>;

/// The characters of an optional string.
pub open spec fn opt_text(o: Option<String>) -> Option<Seq<char>> {
    match o {
        Some(s) => Some(s@),
        None => None,
    }
}

/// Relies on serde_json::from_str (into a serde_json::Value), Value::pointer and
/// Value::as_str: the string at `pointer` in the document `text`, if any.
#[verifier::external_body]
pub(crate) fn str_at(text: &str, pointer: &str) -> (r: Option<String>)
    ensures
        opt_text(r) == json_str_at(text@, pointer@),
{
    let doc: serde_json::Value = serde_json::from_str(text).ok()?;
    doc.pointer(pointer).and_then(|v| v.as_str()).map(|v| v.to_string())
}

/// Relies on serde_json::from_str (into a serde_json::Value), Value::pointer and
/// Value::as_bool: the boolean at `pointer` in the document `text`, if any.
#[verifier::external_body]
pub(crate) fn bool_at(text: &str, pointer: &str) -> (r: Option<bool>)
    ensures
        r == json_bool_at(text@, pointer@),
{
    let doc: serde_json::Value = serde_json::from_str(text).ok()?;
    doc.pointer(pointer).and_then(|v| v.as_bool())
}

/// Relies on serde_json::to_string on a `str`: the JSON string literal for `s`. It
/// writes into a `Vec`, whose writer never fails, so the result is always `Ok`.
#[verifier::external_body]
pub(crate) fn quote(s: &str) -> (r: Option<String>)
    ensures
        r is Some,
        r matches Some(q) ==> q@ == json_quoted(s@),
{
    serde_json::to_string(s).ok()
}

} // verus!
