use vstd::prelude::*;

verus! {

#[verifier::external_type_specification]
#[verifier::external_body]
pub struct ExJsonValue(serde_json::Value);

#[verifier::external_type_specification]
#[verifier::external_body]
pub struct ExJsonError(serde_json::Error);

#[verifier::external_type_specification]
#[verifier::external_body]
pub struct ExTomlValue(toml::Value);

#[verifier::external_type_specification]
#[verifier::external_body]
pub struct ExTomlDeError(toml::de::Error);

#[verifier::external_type_specification]
#[verifier::external_body]
pub struct ExTomlDocument(toml_edit::Document);

#[verifier::external_type_specification]
#[verifier::external_body]
pub struct ExTomlEditError(toml_edit::TomlError);

/// Whether serde_json accepts `text` as one JSON value.
pub uninterp spec fn json_accepts(text: Seq<char>) -> bool;

/// Whether the toml crate accepts `text` as a TOML document.
pub uninterp spec fn toml_accepts(text: Seq<char>) -> bool;

/// Whether toml_edit accepts `text` as a format-preserving document.
pub uninterp spec fn toml_document_accepts(text: Seq<char>) -> bool;

/// The value serde_json decodes from `text`, where it accepts it.
pub uninterp spec fn json_value_of(text: Seq<char>) -> serde_json::Value;

/// The compact JSON text serde_json writes for `value`.
pub uninterp spec fn json_text_of(value: serde_json::Value) -> Seq<char>;

/// The value the toml crate decodes from `text`, where it accepts it.
pub uninterp spec fn toml_value_of(text: Seq<char>) -> toml::Value;

/// `doc` is what toml_edit parses from `text`. A relation, since a
/// document's tables carry per-map hashers and two parses of one text need
/// not be the same value.
pub uninterp spec fn document_parsed_from(text: Seq<char>, doc: toml_edit::Document) -> bool;

/// The final component of a path, as std's `Path::file_name` gives it.
pub uninterp spec fn file_name_of(path: Seq<char>) -> Option<Seq<char>>;

pub open spec fn name_view(name: Option<String>) -> Option<Seq<char>> {
    match name {
        Some(n) => Some(n@),
        None => None,
    }
}

/// Relies on serde_json::from_str into serde_json::Value: whether the text
/// is accepted, and the value decoded, depend on the text alone.
#[verifier::external_body]
pub(crate) fn decode_json(text: &str) -> (r: Result<serde_json::Value, serde_json::Error>)
    ensures
        r is Ok <==> json_accepts(text@),
        r matches Ok(v) ==> v == json_value_of(text@),
{
    serde_json::from_str(text)
}

/// Relies on serde_json::to_string of a serde_json::Value: a `Value` has
/// string map keys only and is written into memory, so encoding succeeds,
/// and the text depends on the value alone.
#[verifier::external_body]
pub(crate) fn encode_json_value(value: &serde_json::Value) -> (r: Result<String, serde_json::Error>)
    ensures
        r is Ok,
        r matches Ok(s) ==> s@ == json_text_of(*value),
{
    serde_json::to_string(value)
}

/// Relies on toml::from_str into toml::Value: whether the text is accepted,
/// and the value decoded, depend on the text alone.
#[verifier::external_body]
pub(crate) fn decode_toml(text: &str) -> (r: Result<toml::Value, toml::de::Error>)
    ensures
        r is Ok <==> toml_accepts(text@),
        r matches Ok(v) ==> v == toml_value_of(text@),
{
    toml::from_str(text)
}

/// Relies on toml_edit's `FromStr` for `Document`: whether the text is
/// accepted depends on the text alone, and the document is parsed from it.
#[verifier::external_body]
pub(crate) fn decode_toml_document(text: &str) -> (r: Result<toml_edit::Document, toml_edit::TomlError>)
    ensures
        r is Ok <==> toml_document_accepts(text@),
        r matches Ok(d) ==> document_parsed_from(text@, d),
{
    text.parse::<toml_edit::Document>()
}

/// Relies on std::path::Path::file_name: the final component of the path,
/// which depends on the path alone.
#[verifier::external_body]
pub(crate) fn file_name(path: &str) -> (r: Option<String>)
    ensures
        name_view(r) == file_name_of(path@),
{
    std::path::Path::new(path).file_name().map(|n| n.to_string_lossy().into_owned())
}

} // verus!
