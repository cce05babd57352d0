use vstd::prelude::*;
use crate::codec::{
    decode_json, decode_toml, decode_toml_document, document_parsed_from, encode_json_value,
    file_name, file_name_of, json_accepts, json_text_of, json_value_of, name_view, toml_accepts,
    toml_document_accepts, toml_value_of,
};
use crate::error::{ErrorKind, FsError};
use crate::messages::{
    create_message, json_parse_message, quote_path, read_message, remove_message, toml_label,
    toml_parse_message, write_message,
};

verus! {

/// `e` is an error of kind `kind` whose message is `message`.
pub open spec fn fails_with(e: FsError, kind: ErrorKind, message: Seq<char>) -> bool {
    e.kind == kind && e.message@ == message
}

/// The result of wrapping the outcome of a filesystem call that returns
/// nothing: success stays success, a failure becomes an I/O error with
/// `message`, keeping the failure's text as its cause.
pub open spec fn io_wrapped(outcome: Result<(), String>, r: Result<(), FsError>, message: Seq<char>) -> bool {
    match (outcome, r) {
        (Ok(()), Ok(())) => true,
        (Err(c), Err(e)) => fails_with(e, ErrorKind::Io, message) && e.cause@ == c@,
        _ => false,
    }
}

/// What a read whose outcome was `read` becomes: the text itself, or an
/// I/O error naming the path.
pub open spec fn read_wrapped(path: Seq<char>, read: Result<String, String>, r: Result<String, FsError>) -> bool {
    match (read, r) {
        (Ok(t), Ok(s)) => s@ == t@,
        (Err(c), Err(e)) => fails_with(e, ErrorKind::Io, read_message(path)) && e.cause@ == c@,
        _ => false,
    }
}

/// Where the read failed, `r` is the I/O error naming the path.
pub open spec fn read_failed_as<T>(path: Seq<char>, read: Result<String, String>, r: Result<T, FsError>) -> bool {
    match (read, r) {
        (Err(c), Err(e)) => fails_with(e, ErrorKind::Io, read_message(path)) && e.cause@ == c@,
        _ => false,
    }
}

/// The message of a TOML parse failure for the file at `path`.
pub open spec fn toml_failure_message(path: Seq<char>) -> Seq<char> {
    toml_parse_message(toml_label(file_name_of(path)), path)
}

fn io_outcome(message: String, outcome: Result<(), String>) -> (r: Result<(), FsError>)
    ensures
        io_wrapped(outcome, r, message@),
{
    match outcome {
        Ok(()) => Ok(()),
        Err(cause) => Err(FsError::new(ErrorKind::Io, message, cause)),
    }
}

/// The error for a file at `path` that could not be read.
pub fn read_failure(path: &str, cause: String) -> (r: FsError)
    ensures
        fails_with(r, ErrorKind::Io, read_message(path@)),
        r.cause@ == cause@,
{
    FsError::new(ErrorKind::Io, quote_path("could not read `", path), cause)
}

/// Gives the text that was read from `path`, or, where the read failed, the
/// I/O error that names the path.
pub fn read_to_string(path: &str, read: Result<String, String>) -> (r: Result<String, FsError>)
    ensures
        read_wrapped(path@, read, r),
{
    match read {
        Ok(text) => Ok(text),
        Err(cause) => Err(read_failure(path, cause)),
    }
}

/// The error for a JSON file at `path` whose content was refused.
pub fn json_parse_failure(path: &str, cause: String) -> (r: FsError)
    ensures
        fails_with(r, ErrorKind::Parse, json_parse_message(path@)),
        r.cause@ == cause@,
{
    FsError::new(ErrorKind::Parse, quote_path("could not parse the JSON file at `", path), cause)
}

/// Decodes the text read from `path` as JSON.
pub fn read_json(path: &str, read: Result<String, String>) -> (r: Result<serde_json::Value, FsError>)
    ensures
        match read {
            Ok(t) => (r is Ok <==> json_accepts(t@)) && (r matches Ok(v) ==> v == json_value_of(t@))
                && (r matches Err(e) ==> fails_with(e, ErrorKind::Parse, json_parse_message(path@))),
            Err(_) => read_failed_as(path@, read, r),
        },
{
    match read {
        Ok(text) => match decode_json(text.as_str()) {
            Ok(v) => Ok(v),
            Err(e) => Err(json_parse_failure(path, e.to_string())),
        },
        Err(cause) => Err(read_failure(path, cause)),
    }
}

/// What a TOML file is called in messages, given its final path component:
/// "manifest" for a file named exactly `Cargo.toml`, else "TOML file".
pub fn toml_label_for(name: Option<String>) -> (r: String)
    ensures
        r@ == toml_label(name_view(name)),
{
    let manifest = String::from_str("Cargo.toml");
    match name {
        Some(n) => {
            if n == manifest {
                String::from_str("manifest")
            } else {
                String::from_str("TOML file")
            }
        },
        None => String::from_str("TOML file"),
    }
}

/// The error for a TOML file at `path` whose content was refused.
pub fn toml_parse_failure(path: &str, cause: String) -> (r: FsError)
    ensures
        fails_with(r, ErrorKind::Parse, toml_failure_message(path@)),
        r.cause@ == cause@,
{
    let label = toml_label_for(file_name(path));
    let mut prefix = String::from_str("could not parse the ");
    prefix.append(label.as_str());
    prefix.append(" at `");
    FsError::new(ErrorKind::Parse, quote_path(prefix.as_str(), path), cause)
}

/// Decodes the text read from `path` as TOML.
pub fn read_toml(path: &str, read: Result<String, String>) -> (r: Result<toml::Value, FsError>)
    ensures
        match read {
            Ok(t) => (r is Ok <==> toml_accepts(t@)) && (r matches Ok(v) ==> v == toml_value_of(t@))
                && (r matches Err(e) ==> fails_with(e, ErrorKind::Parse, toml_failure_message(path@))),
            Err(_) => read_failed_as(path@, read, r),
        },
{
    match read {
        Ok(text) => match decode_toml(text.as_str()) {
            Ok(v) => Ok(v),
            Err(e) => Err(toml_parse_failure(path, e.to_string())),
        },
        Err(cause) => Err(read_failure(path, cause)),
    }
}

/// Decodes the text read from `path` twice: as a TOML value, and as a
/// document that keeps the original formatting. The value is decoded first;
/// where it is refused the document is not attempted. Either refusal is the
/// same parse error naming the path.
pub fn read_toml_preserving(path: &str, read: Result<String, String>) -> (r: Result<
    (toml::Value, toml_edit::Document),
    FsError,
>)
    ensures
        match read {
            Ok(t) => (r is Ok <==> toml_accepts(t@) && toml_document_accepts(t@)) && (r matches Ok(p)
                ==> p.0 == toml_value_of(t@) && document_parsed_from(t@, p.1)) && (r matches Err(e)
                ==> fails_with(e, ErrorKind::Parse, toml_failure_message(path@))),
            Err(_) => read_failed_as(path@, read, r),
        },
{
    match read {
        Ok(text) => match decode_toml(text.as_str()) {
            Ok(value) => match decode_toml_document(text.as_str()) {
                Ok(doc) => Ok((value, doc)),
                Err(e) => Err(toml_parse_failure(path, e.to_string())),
            },
            Err(e) => Err(toml_parse_failure(path, e.to_string())),
        },
        Err(cause) => Err(read_failure(path, cause)),
    }
}

/// Wraps the outcome of writing the file at `path`.
pub fn write(path: &str, outcome: Result<(), String>) -> (r: Result<(), FsError>)
    ensures
        io_wrapped(outcome, r, write_message(path@)),
{
    io_outcome(quote_path("could not write `", path), outcome)
}

/// The compact JSON text to write for `value`; an encoder failure would be
/// passed on with the encoder's own message.
pub fn write_json(value: &serde_json::Value) -> (r: Result<String, FsError>)
    ensures
        r is Ok,
        r matches Ok(s) ==> s@ == json_text_of(*value),
{
    match encode_json_value(value) {
        Ok(text) => Ok(text),
        Err(e) => {
            let cause = e.to_string();
            let message = cause.clone();
            Err(FsError::new(ErrorKind::Encode, message, cause))
        },
    }
}

/// Wraps the outcome of removing the file at `path`.
pub fn remove_file(path: &str, outcome: Result<(), String>) -> (r: Result<(), FsError>)
    ensures
        io_wrapped(outcome, r, remove_message(path@)),
{
    io_outcome(quote_path("could not remove `", path), outcome)
}

/// Wraps the outcome of creating the directory at `path` and its missing
/// ancestors.
pub fn create_dir_all(path: &str, outcome: Result<(), String>) -> (r: Result<(), FsError>)
    ensures
        io_wrapped(outcome, r, create_message(path@)),
{
    io_outcome(quote_path("could not create `", path), outcome)
}

} // verus!
