use vstd::prelude::*;
use crate::codec::file_name_of;
use crate::file_util::toml_failure_message;
use crate::messages::{
    contains, json_parse_message, lemma_quoted_contains_path, lemma_quoted_contains_prefix_part,
    read_message,
};

verus! {

/// A failed read reports the path it tried to read.
pub proof fn read_error_names_path(path: Seq<char>)
    ensures
        contains(read_message(path), path),
{
    lemma_quoted_contains_path("could not read `"@, path);
}

/// A refused JSON file is reported as JSON, with its path.
pub proof fn json_error_names_format_and_path(path: Seq<char>)
    ensures
        contains(json_parse_message(path), "JSON"@),
        contains(json_parse_message(path), path),
{
    let prefix = "could not parse the JSON file at `"@;
    reveal_strlit("could not parse the JSON file at `");
    reveal_strlit("JSON");
    assert(prefix.subrange(20, 24) =~= "JSON"@);
    lemma_quoted_contains_prefix_part(prefix, path, 20, "JSON"@);
    lemma_quoted_contains_path(prefix, path);
}

/// A refused TOML file is called "manifest" when its final path component
/// is exactly `Cargo.toml`, and "TOML file" otherwise; either way the
/// message names the path.
pub proof fn toml_error_names_kind_and_path(path: Seq<char>)
    ensures
        file_name_of(path) == Some("Cargo.toml"@) ==> contains(
            toml_failure_message(path),
            "manifest"@,
        ),
        file_name_of(path) != Some("Cargo.toml"@) ==> contains(
            toml_failure_message(path),
            "TOML file"@,
        ),
        contains(toml_failure_message(path), path),
{
    let head = "could not parse the "@;
    reveal_strlit("could not parse the ");
    let label = if file_name_of(path) == Some("Cargo.toml"@) {
        "manifest"@
    } else {
        "TOML file"@
    };
    let prefix = head + label + " at `"@;
    assert(prefix.subrange(20, 20 + label.len() as int) =~= label);
    lemma_quoted_contains_prefix_part(prefix, path, 20, label);
    lemma_quoted_contains_path(prefix, path);
}

} // verus!
