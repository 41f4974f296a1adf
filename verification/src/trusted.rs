//! The contracts this crate takes on trust: JSON values, URLs and gzip
//! decoding are the work of `serde_json`, `url` (through `lsp_types`) and
//! `flate2`. Verus believes what is stated here and proves the rest from it.

use vstd::prelude::*;
use lsp_types::Url;
use serde_json::Value;

verus! {

/// A JSON document, as `serde_json` holds it. Nothing of its inside is
/// visible to proofs; the names below say what reading it gives.
#[verifier::external_type_specification]
#[verifier::external_body]
pub struct ExValue(serde_json::Value);

/// The error of `serde_json` when a document does not fit a type.
#[verifier::external_type_specification]
#[verifier::external_body]
pub struct ExJsonError(serde_json::Error);

/// A parsed URL, as the `url` crate holds it.
#[verifier::external_type_specification]
#[verifier::external_body]
pub struct ExUrl(lsp_types::Url);

/// What `Value::get` finds under a string key: the member of that name when
/// the value is an object that has one.
pub uninterp spec fn json_member(value: Value, key: Seq<char>) -> Option<Value>;

/// What `Value::as_str` finds: the text, when the value is a JSON string.
pub uninterp spec fn json_text(value: Value) -> Option<Seq<char>>;

/// What decoding a document as the parameters of `initialize` gives: nothing
/// when the document does not have their shape, else the initialization
/// options it carries, which may be absent.
pub uninterp spec fn initialization_options(params: Value) -> Option<Option<Value>>;

/// What `Url::parse` makes of a text, when it is an absolute URL.
pub uninterp spec fn url_parse(input: Seq<char>) -> Option<Url>;

/// What `Url::join` makes of a reference resolved against a base.
pub uninterp spec fn url_join(base: Url, reference: Seq<char>) -> Option<Url>;

/// What a single-member gzip decoder makes of a byte stream, when the stream
/// is a complete gzip member whose checksum and length agree.
pub uninterp spec fn gzip_decoded(compressed: Seq<u8>) -> Option<Seq<u8>>;

/// `serde_json::Value::get` with a string key. The result is the member that
/// `json_member` names, borrowed from the value.
#[verifier::external_body]
pub(crate) fn json_get<'a>(value: &'a Value, key: &str) -> (r: Option<&'a Value>)
    ensures
        r is Some <==> json_member(*value, key@) is Some,
        r matches Some(m) ==> json_member(*value, key@) == Some(*m),
{
    value.get(key)
}

/// `serde_json::Value::as_str`. The result is the text that `json_text`
/// names, borrowed from the value.
#[verifier::external_body]
pub(crate) fn json_as_str<'a>(value: &'a Value) -> (r: Option<&'a str>)
    ensures
        r is Some <==> json_text(*value) is Some,
        r matches Some(t) ==> json_text(*value) == Some(t@),
{
    value.as_str()
}

/// `serde_json::from_value` at `lsp_types::InitializeParams`, keeping the
/// initialization options of what was decoded. It succeeds exactly when
/// `initialization_options` names a result, and then returns it.
#[verifier::external_body]
pub(crate) fn decode_initialize(params: Value) -> (r: Result<Option<Value>, serde_json::Error>)
    ensures
        r is Ok <==> initialization_options(params) is Some,
        r matches Ok(options) ==> initialization_options(params) == Some(options),
{
    match serde_json::from_value::<lsp_types::InitializeParams>(params) {
        Ok(decoded) => Ok(decoded.initialization_options),
        Err(e) => Err(e),
    }
}

/// `Url::parse`. The result is the URL that `url_parse` names.
#[verifier::external_body]
pub(crate) fn parse_url(input: &str) -> (r: Option<Url>)
    ensures
        r == url_parse(input@),
{
    Url::parse(input).ok()
}

/// `Url::join`. The result is the URL that `url_join` names.
#[verifier::external_body]
pub(crate) fn join_url(base: &Url, reference: &str) -> (r: Option<Url>)
    ensures
        r == url_join(*base, reference@),
{
    base.join(reference).ok()
}

/// `flate2::read::GzDecoder` over the bytes, read to its end. The result is
/// the content that `gzip_decoded` names; a stream that is cut short or
/// damaged gives nothing.
#[verifier::external_body]
pub(crate) fn gunzip(compressed: &[u8]) -> (r: Option<Vec<u8>>)
    ensures
        r is Some <==> gzip_decoded(compressed@) is Some,
        r matches Some(bytes) ==> gzip_decoded(compressed@) == Some(bytes@),
{
    let mut decoded = Vec::new();
    match std::io::Read::read_to_end(&mut flate2::read::GzDecoder::new(compressed), &mut decoded) {
        Ok(_) => Some(decoded),
        Err(_) => None,
    }
}

} // verus!
