use fsutil::error::ErrorKind;
use fsutil::file_util::{
    create_dir_all, json_parse_failure, read_failure, read_json, read_to_string, read_toml,
    read_toml_preserving, remove_file, toml_label_for, toml_parse_failure, write_json,
};

fn text(s: &str) -> Result<String, String> {
    Ok(s.to_string())
}

#[test]
fn read_passes_text_through() {
    let content = "line one\nline two\n\u{e9}\n";
    let r = read_to_string("notes.txt", text(content)).unwrap();
    assert_eq!(r, content);
}

#[test]
fn read_of_empty_file_is_empty_text() {
    assert_eq!(read_to_string("empty.txt", text("")).unwrap(), "");
}

#[test]
fn read_failure_names_path() {
    let e = read_to_string("/no/such/file", Err("No such file or directory".to_string()))
        .unwrap_err();
    assert_eq!(e.kind, ErrorKind::Io);
    assert_eq!(e.message, "could not read `/no/such/file`");
    assert!(e.message.contains("/no/such/file"));
    assert_eq!(e.cause, "No such file or directory");
}

#[test]
fn describe_joins_message_and_cause() {
    let e = read_failure("a.txt", "denied".to_string());
    assert_eq!(e.describe(), "could not read `a.txt`: denied");
}

#[test]
fn invalid_json_is_parse_error() {
    let e = read_json("data/config.json", text("{ not valid json")).unwrap_err();
    assert_eq!(e.kind, ErrorKind::Parse);
    assert_eq!(e.message, "could not parse the JSON file at `data/config.json`");
    assert!(e.message.contains("JSON"));
    assert!(e.message.contains("data/config.json"));
    assert!(!e.cause.is_empty());
}

#[test]
fn json_read_failure_is_io_error() {
    let e = read_json("gone.json", Err("not found".to_string())).unwrap_err();
    assert_eq!(e.kind, ErrorKind::Io);
    assert_eq!(e.message, "could not read `gone.json`");
}

#[test]
fn valid_json_is_decoded() {
    let v = read_json("a.json", text("{\"a\": [1, 2], \"b\": \"x\"}")).unwrap();
    assert_eq!(v["a"][1], serde_json::Value::from(2));
    assert_eq!(v["b"], serde_json::Value::from("x"));
}

#[test]
fn json_round_trip() {
    let mut map = serde_json::Map::new();
    map.insert("name".to_string(), serde_json::Value::from("fsutil"));
    map.insert("count".to_string(), serde_json::Value::from(3));
    map.insert("tags".to_string(), serde_json::Value::from(vec!["a", "b"]));
    let v = serde_json::Value::Object(map);
    let encoded = write_json(&v).unwrap();
    assert_eq!(encoded, "{\"count\":3,\"name\":\"fsutil\",\"tags\":[\"a\",\"b\"]}");
    let back = read_json("v.json", Ok(encoded)).unwrap();
    assert_eq!(back, v);
}

#[test]
fn json_parse_failure_message() {
    let e = json_parse_failure("x.json", "eof".to_string());
    assert_eq!(e.kind, ErrorKind::Parse);
    assert_eq!(e.message, "could not parse the JSON file at `x.json`");
    assert_eq!(e.cause, "eof");
}

#[test]
fn malformed_manifest_is_called_manifest() {
    let e = read_toml("project/Cargo.toml", text("[package\nname = ")).unwrap_err();
    assert_eq!(e.kind, ErrorKind::Parse);
    assert_eq!(e.message, "could not parse the manifest at `project/Cargo.toml`");
    assert!(e.message.contains("manifest"));
}

#[test]
fn malformed_other_toml_is_called_toml_file() {
    let e = read_toml("project/config.toml", text("[package\nname = ")).unwrap_err();
    assert_eq!(e.kind, ErrorKind::Parse);
    assert_eq!(e.message, "could not parse the TOML file at `project/config.toml`");
    assert!(e.message.contains("TOML file"));
}

#[test]
fn toml_label_depends_on_exact_file_name() {
    assert_eq!(toml_label_for(Some("Cargo.toml".to_string())), "manifest");
    assert_eq!(toml_label_for(Some("cargo.toml".to_string())), "TOML file");
    assert_eq!(toml_label_for(Some("Cargo.toml.bak".to_string())), "TOML file");
    assert_eq!(toml_label_for(None), "TOML file");
}

#[test]
fn toml_failure_uses_final_component() {
    let e = toml_parse_failure("a/b/Cargo.toml", "bad".to_string());
    assert_eq!(e.message, "could not parse the manifest at `a/b/Cargo.toml`");
    let e = toml_parse_failure("Cargo.toml/inner.toml", "bad".to_string());
    assert_eq!(e.message, "could not parse the TOML file at `Cargo.toml/inner.toml`");
    let e = toml_parse_failure("Cargo.toml", "bad".to_string());
    assert_eq!(e.message, "could not parse the manifest at `Cargo.toml`");
}

#[test]
fn valid_toml_is_decoded() {
    let v = read_toml("c.toml", text("[package]\nname = \"x\"\nversion = 3\n")).unwrap();
    assert_eq!(v["package"]["name"].as_str(), Some("x"));
    assert_eq!(v["package"]["version"].as_integer(), Some(3));
}

#[test]
fn toml_read_failure_is_io_error() {
    let e = read_toml("Cargo.toml", Err("denied".to_string())).unwrap_err();
    assert_eq!(e.kind, ErrorKind::Io);
    assert_eq!(e.message, "could not read `Cargo.toml`");
}

#[test]
fn preserving_read_keeps_text() {
    let input = "# top comment\n[package]\nname   = \"x\"  # trailing\n\n[dependencies]\nserde = \"1\"\n";
    let (value, doc) = read_toml_preserving("Cargo.toml", text(input)).unwrap();
    assert_eq!(value["package"]["name"].as_str(), Some("x"));
    assert_eq!(value["dependencies"]["serde"].as_str(), Some("1"));
    assert_eq!(doc.to_string(), input);
}

#[test]
fn preserving_read_of_malformed_text_fails() {
    let e = read_toml_preserving("w/Cargo.toml", text("a = = 1")).unwrap_err();
    assert_eq!(e.kind, ErrorKind::Parse);
    assert_eq!(e.message, "could not parse the manifest at `w/Cargo.toml`");
    let e = read_toml_preserving("w/x.toml", Err("gone".to_string())).unwrap_err();
    assert_eq!(e.kind, ErrorKind::Io);
    assert_eq!(e.message, "could not read `w/x.toml`");
}

#[test]
fn write_outcomes() {
    assert!(fsutil::file_util::write("out.txt", Ok(())).is_ok());
    let e = fsutil::file_util::write("missing/out.txt", Err("no parent".to_string())).unwrap_err();
    assert_eq!(e.kind, ErrorKind::Io);
    assert_eq!(e.message, "could not write `missing/out.txt`");
    assert_eq!(e.cause, "no parent");
}

#[test]
fn remove_of_removed_file_is_io_error() {
    assert!(remove_file("t.txt", Ok(())).is_ok());
    let e = remove_file("t.txt", Err("No such file or directory".to_string())).unwrap_err();
    assert_eq!(e.kind, ErrorKind::Io);
    assert_eq!(e.message, "could not remove `t.txt`");
}

#[test]
fn create_directory_twice_succeeds() {
    assert!(create_dir_all("a/b/c", Ok(())).is_ok());
    assert!(create_dir_all("a/b/c", Ok(())).is_ok());
    let e = create_dir_all("/root/x", Err("denied".to_string())).unwrap_err();
    assert_eq!(e.kind, ErrorKind::Io);
    assert_eq!(e.message, "could not create `/root/x`");
}

#[test]
fn preserving_and_plain_reads_agree() {
    let input = "title = \"t\"\n[owner]\nname = \"n\"\n";
    let plain = read_toml("a/Cargo.toml", text(input)).unwrap();
    let other = read_toml("a/other.toml", text(input)).unwrap();
    let (value, _) = read_toml_preserving("a/Cargo.toml", text(input)).unwrap();
    assert_eq!(plain, value);
    assert_eq!(plain, other);
}
