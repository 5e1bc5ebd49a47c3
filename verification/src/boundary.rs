use vstd::prelude::*;

verus! {

/// Whether serde_json reads a run of bytes as one JSON document.
pub uninterp spec fn json_accepts(bytes: Seq<u8>) -> bool;

/// Whether the `http` crate, which hyper re-exports, takes a text as a URI.
pub uninterp spec fn uri_accepts(text: Seq<char>) -> bool;

/// Hands `bytes` to `serde_json::from_slice`, asking for a
/// `serde_json::Value`, and reports whether the parser returned a value.
/// Nothing is proved of the parser: `json_accepts` is only a name for its
/// verdict, which depends on the bytes alone.
#[verifier::external_body]
pub(crate) fn parses_as_json(bytes: &[u8]) -> (ok: bool)
    ensures
        ok == json_accepts(bytes@),
{
    serde_json::from_slice::<serde_json::Value>(bytes).is_ok()
}

/// Hands `text` to the `FromStr` impl of `hyper::Uri`, which is the `http`
/// crate's `Uri`, and reports whether it returned a URI. Nothing is proved
/// of the parser: `uri_accepts` is only a name for its verdict, which
/// depends on the text alone.
#[verifier::external_body]
pub(crate) fn parses_as_uri(text: &str) -> (ok: bool)
    ensures
        ok == uri_accepts(text@),
{
    text.parse::<hyper::Uri>().is_ok()
}

} // verus!
