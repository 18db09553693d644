use save_as_file::args::{extract_request, ArgValue, ArgumentBag};
use save_as_file::emitter::SaveAsFile;
use save_as_file::error::SaveError;
use save_as_file::path::{contains_parent_ref, join_path, resolve, sandbox_path};
use save_as_file::payload::materialize;

use base64::Engine;

fn bag(entries: &[(&str, ArgValue)]) -> ArgumentBag {
    let mut b = ArgumentBag::new();
    for (k, v) in entries {
        b.insert(k.to_string(), v.clone());
    }
    b
}

fn text(s: &str) -> ArgValue {
    ArgValue::Str(s.to_string())
}

#[test]
fn writes_text_below_root() {
    let emitter = SaveAsFile::new("/out".to_string());
    let plan = emitter
        .plan(&bag(&[("path", text("a/b.txt")), ("data", text("x"))]))
        .unwrap();
    assert_eq!(plan.target.absolute_path, "/out/a/b.txt");
    assert_eq!(plan.target.parent_directory, "/out/a");
    assert_eq!(plan.contents, b"x".to_vec());
}

#[test]
fn text_payload_is_written_verbatim() {
    let emitter = SaveAsFile::new("/out".to_string());
    let plan = emitter
        .plan(&bag(&[("path", text("hello.txt")), ("data", text("hello"))]))
        .unwrap();
    assert_eq!(plan.contents, b"hello".to_vec());
    let plan = emitter
        .plan(&bag(&[
            ("path", text("hello.txt")),
            ("data", text("hello")),
            ("base64", ArgValue::Bool(false)),
        ]))
        .unwrap();
    assert_eq!(plan.contents, b"hello".to_vec());
}

#[test]
fn non_ascii_text_is_written_as_utf8() {
    let plan = SaveAsFile::new("/out".to_string())
        .plan(&bag(&[("path", text("u.txt")), ("data", text("é✓"))]))
        .unwrap();
    assert_eq!(plan.contents, "é✓".as_bytes().to_vec());
}

#[test]
fn base64_payload_round_trips() {
    let raw: Vec<u8> = vec![0, 1, 2, 254, 255, 10, 13];
    let encoded = base64::engine::general_purpose::STANDARD.encode(&raw);
    let plan = SaveAsFile::new("/out".to_string())
        .plan(&bag(&[
            ("path", text("bin/blob")),
            ("data", text(&encoded)),
            ("base64", ArgValue::Bool(true)),
        ]))
        .unwrap();
    assert_eq!(plan.contents, raw);
    assert_eq!(plan.target.absolute_path, "/out/bin/blob");
}

#[test]
fn base64_decodes_hello() {
    assert_eq!(materialize("aGVsbG8=", true), Ok(b"hello".to_vec()));
    assert_eq!(materialize("aGVsbG8=", false), Ok(b"aGVsbG8=".to_vec()));
    assert_eq!(materialize("", true), Ok(Vec::new()));
}

#[test]
fn malformed_base64_is_an_encoding_error() {
    let r = SaveAsFile::new("/out".to_string()).plan(&bag(&[
        ("path", text("a.bin")),
        ("data", text("not base64!")),
        ("base64", ArgValue::Bool(true)),
    ]));
    assert!(matches!(r, Err(SaveError::Encoding(_))));
    assert!(matches!(materialize("aGVsbG8", true), Err(SaveError::Encoding(_))));
    assert!(matches!(materialize("a===", true), Err(SaveError::Encoding(_))));
}

#[test]
fn leading_slash_is_relative_to_root() {
    let emitter = SaveAsFile::new("/out".to_string());
    let slash = emitter
        .plan(&bag(&[("path", text("/a/b.txt")), ("data", text("x"))]))
        .unwrap();
    let plain = emitter
        .plan(&bag(&[("path", text("a/b.txt")), ("data", text("x"))]))
        .unwrap();
    assert_eq!(slash.target.absolute_path, "/out/./a/b.txt");
    assert_eq!(
        std::path::Path::new(&slash.target.absolute_path),
        std::path::Path::new(&plain.target.absolute_path)
    );
    assert_eq!(
        std::path::Path::new(&slash.target.parent_directory),
        std::path::Path::new(&plain.target.parent_directory)
    );
    assert_eq!(slash.contents, plain.contents);
}

#[test]
fn sandboxing_rewrites_only_a_leading_slash() {
    assert_eq!(sandbox_path("/a"), Ok("./a".to_string()));
    assert_eq!(sandbox_path("//a"), Ok(".//a".to_string()));
    assert_eq!(sandbox_path("a/b"), Ok("a/b".to_string()));
    assert_eq!(sandbox_path(""), Ok("".to_string()));
    assert_eq!(sandbox_path("a/../b"), Err(SaveError::PathSecurity));
}

#[test]
fn parent_reference_is_refused() {
    let emitter = SaveAsFile::new("/out".to_string());
    for p in ["a/../b", "/..", "x/..", "/../etc/passwd", "a/..b"] {
        let r = emitter.plan(&bag(&[("path", text(p)), ("data", text("x"))]));
        assert_eq!(r, Err(SaveError::PathSecurity), "{}", p);
    }
    let r = emitter.plan(&bag(&[
        ("path", text("a/../b")),
        ("data", text("@@@")),
        ("base64", ArgValue::Bool(true)),
    ]));
    assert_eq!(r, Err(SaveError::PathSecurity));
}

#[test]
fn traversal_check_is_a_substring_match() {
    assert!(contains_parent_ref("/.."));
    assert!(contains_parent_ref("a/..b"));
    assert!(!contains_parent_ref("../a"));
    assert!(!contains_parent_ref("a/./b"));
    assert!(!contains_parent_ref(""));
    assert!(!contains_parent_ref("a.."));
}

#[test]
fn same_path_overwrites() {
    let emitter = SaveAsFile::new("/out".to_string());
    let first = emitter
        .plan(&bag(&[("path", text("f.txt")), ("data", text("one"))]))
        .unwrap();
    let second = emitter
        .plan(&bag(&[("path", text("f.txt")), ("data", text("two"))]))
        .unwrap();
    assert_eq!(first.target, second.target);
    assert_eq!(second.contents, b"two".to_vec());
}

#[test]
fn missing_path_is_an_argument_error() {
    let r = SaveAsFile::new("/out".to_string()).plan(&bag(&[("data", text("x"))]));
    assert_eq!(r, Err(SaveError::Argument("path".to_string())));
    let r = SaveAsFile::new("/out".to_string())
        .plan(&bag(&[("path", ArgValue::Bool(true)), ("data", text("x"))]));
    assert_eq!(r, Err(SaveError::Argument("path".to_string())));
}

#[test]
fn missing_data_is_an_argument_error() {
    let r = SaveAsFile::new("/out".to_string()).plan(&bag(&[("path", text("a"))]));
    assert_eq!(r, Err(SaveError::Argument("data".to_string())));
    let r = SaveAsFile::new("/out".to_string())
        .plan(&bag(&[("path", text("a")), ("data", ArgValue::Other)]));
    assert_eq!(r, Err(SaveError::Argument("data".to_string())));
}

#[test]
fn wrongly_typed_base64_is_an_argument_error() {
    let r = SaveAsFile::new("/out".to_string()).plan(&bag(&[
        ("path", text("a")),
        ("data", text("x")),
        ("base64", text("true")),
    ]));
    assert_eq!(r, Err(SaveError::Argument("base64".to_string())));
}

#[test]
fn unknown_arguments_are_ignored() {
    let req = extract_request(&bag(&[
        ("colour", ArgValue::Other),
        ("path", text("p")),
        ("data", text("d")),
        ("extra", text("e")),
    ]))
    .unwrap();
    assert_eq!(req.relative_path, "p");
    assert_eq!(req.payload, "d");
    assert!(!req.payload_is_base64);
}

#[test]
fn first_entry_of_a_name_counts() {
    let req = extract_request(&bag(&[
        ("path", text("first")),
        ("path", text("second")),
        ("data", text("d")),
        ("base64", ArgValue::Bool(true)),
        ("base64", ArgValue::Other),
    ]))
    .unwrap();
    assert_eq!(req.relative_path, "first");
    assert!(req.payload_is_base64);
}

#[test]
fn joining_inserts_one_separator() {
    assert_eq!(join_path("/out", "a"), "/out/a");
    assert_eq!(join_path("/out/", "a"), "/out/a");
    assert_eq!(join_path("", "a"), "a");
    assert_eq!(join_path("/out", "/abs"), "/abs");
    assert_eq!(join_path("/out", ""), "/out/");
}

#[test]
fn resolve_gives_the_parent_directory() {
    let t = resolve("/out", "a/b/c.txt").unwrap();
    assert_eq!(t.absolute_path, "/out/a/b/c.txt");
    assert_eq!(t.parent_directory, "/out/a/b");
    let t = resolve("/out", "c.txt").unwrap();
    assert_eq!(t.parent_directory, "/out");
    let t = resolve("/out", "").unwrap();
    assert_eq!(t.absolute_path, "/out/");
    assert_eq!(t.parent_directory, "/");
}

#[test]
fn a_target_without_parent_is_an_io_error() {
    assert!(matches!(resolve("", ""), Err(SaveError::Io(_))));
    assert!(matches!(resolve("/", ""), Err(SaveError::Io(_))));
}

#[test]
fn emitter_keeps_its_root() {
    let emitter = SaveAsFile::new("/srv/public".to_string());
    assert_eq!(emitter.output_path(), "/srv/public");
}
