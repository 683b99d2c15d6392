//! JSON text as `serde_json` reads and writes it.
use vstd::prelude::*;

verus! {

/// What `serde_json` makes of `text` read as a `serde_json::Value`: the
/// compact JSON text that the value writes back when `text` is JSON, or the
/// text of the parse error otherwise. This depends on the text alone.
pub uninterp spec fn json_parsed(text: Seq<char>) -> Result<Seq<char>, Seq<char>>;

/// `serde_json::from_str::<serde_json::Value>`, with the value written back
/// by its `Display` impl and the parse error rendered by its `Display` impl.
/// The contract claims that the result is what `json_parsed` names: the
/// compact text on success, the error's text on failure.
#[verifier::external_body]
pub(crate) fn compact_json(text: &str) -> (r: Result<String, String>)
    ensures
        match json_parsed(text@) {
            Ok(t) => r is Ok && r->Ok_0@ == t,
            Err(e) => r is Err && r->Err_0@ == e,
        },
{
    serde_json::from_str::<serde_json::Value>(text).map(|v| v.to_string()).map_err(|e| e.to_string())
}

} // verus!
