use vstd::prelude::*;

verus! {

/// `t` occurs in `s` as a contiguous run.
pub open spec fn contains(s: Seq<char>, t: Seq<char>) -> bool {
    exists|i: int| 0 <= i <= s.len() - t.len() && #[trigger] s.subrange(i, i + t.len()) == t
}

/// `<prefix><path>` followed by a closing backquote.
pub open spec fn quoted(prefix: Seq<char>, path: Seq<char>) -> Seq<char> {
    prefix + path + "`"@
}

pub open spec fn read_message(path: Seq<char>) -> Seq<char> {
    quoted("could not read `"@, path)
}

pub open spec fn write_message(path: Seq<char>) -> Seq<char> {
    quoted("could not write `"@, path)
}

pub open spec fn remove_message(path: Seq<char>) -> Seq<char> {
    quoted("could not remove `"@, path)
}

pub open spec fn create_message(path: Seq<char>) -> Seq<char> {
    quoted("could not create `"@, path)
}

pub open spec fn json_parse_message(path: Seq<char>) -> Seq<char> {
    quoted("could not parse the JSON file at `"@, path)
}

/// What a TOML file is called in messages: a file named exactly
/// `Cargo.toml` is "the manifest", any other "the TOML file".
pub open spec fn toml_label(file_name: Option<Seq<char>>) -> Seq<char> {
    if file_name == Some("Cargo.toml"@) {
        "manifest"@
    } else {
        "TOML file"@
    }
}

pub open spec fn toml_parse_message(label: Seq<char>, path: Seq<char>) -> Seq<char> {
    quoted("could not parse the "@ + label + " at `"@, path)
}

/// Builds `<prefix><path>` and a closing backquote.
pub fn quote_path(prefix: &str, path: &str) -> (r: String)
    ensures
        r@ == quoted(prefix@, path@),
{
    let mut r = String::from_str(prefix);
    r.append(path);
    r.append("`");
    r
}

/// A message built by `quoted` holds the path.
pub proof fn lemma_quoted_contains_path(prefix: Seq<char>, path: Seq<char>)
    ensures
        contains(quoted(prefix, path), path),
{
    let s = quoted(prefix, path);
    assert(s.subrange(prefix.len() as int, prefix.len() + path.len() as int) =~= path);
}

/// A message built by `quoted` holds its prefix.
pub proof fn lemma_quoted_contains_prefix_part(prefix: Seq<char>, path: Seq<char>, start: int, part: Seq<char>)
    requires
        0 <= start,
        start + part.len() <= prefix.len(),
        prefix.subrange(start, start + part.len()) == part,
    ensures
        contains(quoted(prefix, path), part),
{
    let s = quoted(prefix, path);
    assert(s.subrange(start, start + part.len()) =~= prefix.subrange(start, start + part.len()));
}

} // verus!
