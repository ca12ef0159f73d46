//! Macro expansion: sources, module trees, and the code of a call.

use trillium_grpc::codegen::GeneratedFiles;
use trillium_grpc::expand::{
    build_tree, emit_tree, expand, file_stem, plan, resolve, show_contents, tracking,
    ExpandError, Half, Source,
};

fn source(path: &str, exists: bool, parent: Option<&str>) -> Source {
    Source { path: path.to_string(), exists, parent: parent.map(str::to_string) }
}

fn files(list: &[(&str, &str)]) -> GeneratedFiles {
    let mut out = GeneratedFiles::new();
    for (name, body) in list {
        out.insert(name.to_string(), body.to_string());
    }
    out
}

#[test]
fn packages_become_nested_modules() {
    let tree = build_tree(&files(&[
        ("greeter.v1.rs", "struct A;"),
        ("greeter.v2.rs", "struct B;"),
        ("greeter.rs", "struct C;"),
        ("_.rs", "struct D;"),
    ]))
    .unwrap();
    assert_eq!(
        emit_tree(&tree),
        "pub mod _ { struct D;\n} pub mod greeter { struct C;\npub mod v1 { struct A;\n} pub mod v2 { struct B;\n} } "
    );
}

#[test]
fn module_order_does_not_depend_on_insertion() {
    let one = build_tree(&files(&[("b.rs", "1"), ("a.c.rs", "2"), ("a.b.rs", "3")])).unwrap();
    let two = build_tree(&files(&[("a.b.rs", "3"), ("b.rs", "1"), ("a.c.rs", "2")])).unwrap();
    assert_eq!(emit_tree(&one), emit_tree(&two));
}

#[test]
fn duplicate_packages_are_refused() {
    let err = build_tree(&files(&[("a.b.rs", "1"), ("a.b.txt", "2")])).unwrap_err();
    assert!(matches!(&err, ExpandError::Duplicate(stem) if stem == "a.b"));
    assert_eq!(err.message(), "duplicate codegen output for package a.b");
}

#[test]
fn file_names_without_a_stem_are_refused() {
    let err = build_tree(&files(&[("..", "1")])).unwrap_err();
    assert_eq!(err.message(), "unexpected codegen output filename: ..");
}

#[test]
fn file_stems() {
    assert_eq!(file_stem("a.b.rs").unwrap(), "a.b");
    assert_eq!(file_stem("a").unwrap(), "a");
    assert_eq!(file_stem(".rs").unwrap(), ".rs");
    assert_eq!(file_stem("a.").unwrap(), "a");
    assert!(file_stem("").is_none());
    assert!(file_stem(".").is_none());
    assert_eq!(file_stem("a/b.rs").unwrap(), "b");
    assert_eq!(file_stem("/a.d/b.v1.rs/./").unwrap(), "b.v1");
    assert_eq!(file_stem("./.rs").unwrap(), ".rs");
    assert_eq!(file_stem("...").unwrap(), "..");
    assert!(file_stem("a/..").is_none());
    assert!(file_stem("/").is_none());
    for path in ["a/b.rs", "a.d/b", "a/", "a//.", "..", "../x.y", "a/../", ".x.y", "/..."] {
        let expected = std::path::Path::new(path).file_stem().and_then(|stem| stem.to_str());
        assert_eq!(file_stem(path).as_deref(), expected, "{path}");
    }
}

#[test]
fn files_in_directories_are_named_by_their_last_piece() {
    let tree = build_tree(&files(&[("a/b.c.rs", "struct A;")])).unwrap();
    assert_eq!(emit_tree(&tree), "pub mod b { pub mod c { struct A;\n} } ");
    let err = build_tree(&files(&[("a/b.rs", "1"), ("b.rs", "2")])).unwrap_err();
    assert_eq!(err.message(), "duplicate codegen output for package b");
}

#[test]
fn paths_are_resolved_against_the_calling_crate() {
    assert_eq!(resolve("/abs/a.proto", "/crate"), "/abs/a.proto");
    assert_eq!(resolve("proto/a.proto", "/crate"), "/crate/proto/a.proto");
    assert_eq!(resolve("a.proto", "/crate/"), "/crate/a.proto");
    let found = Source::new("/crate/proto/a.proto".to_string(), true);
    assert_eq!(found.path, "/crate/proto/a.proto");
    assert!(found.exists);
    assert_eq!(found.parent.unwrap(), "/crate/proto");
    let root = Source::new("/".to_string(), false);
    assert!(!root.exists && root.parent.is_none());
}

#[test]
fn broken_code_becomes_a_report() {
    let tree = build_tree(&files(&[("a.rs", "struct A {")])).unwrap();
    let code = emit_tree(&tree);
    assert!(code.starts_with("pub mod a { "));
    assert!(code.contains("compile_error"));
    assert!(!code.contains("struct A"));
    assert_eq!(show_contents(None, "x"), "x\n");
    assert_eq!(show_contents(Some("r".to_string()), "x"), "r\n");
}

#[test]
fn plans_and_their_refusals() {
    let sources = vec![
        source("/p/a.proto", true, Some("/p")),
        source("/q/b.proto", true, Some("/q")),
        source("/p/c.proto", true, Some("/p")),
        source("/", true, None),
    ];
    let options = plan(Half::Both, true, &sources).unwrap();
    assert_eq!(options.include_paths, ["/p", "/q"]);
    assert!(!options.format && options.client && options.server);
    let options = plan(Half::Client, true, &sources).unwrap();
    assert!(options.client && !options.server);
    let options = plan(Half::Server, true, &sources).unwrap();
    assert!(!options.client && options.server);

    let err = plan(Half::Both, true, &Vec::new()).unwrap_err();
    assert_eq!(
        err.message(),
        "trillium_grpc::generate! requires at least one .proto path"
    );
    let err = plan(Half::Both, false, &sources).unwrap_err();
    assert_eq!(
        err.message(),
        "CARGO_MANIFEST_DIR not set; trillium_grpc::generate! must run under cargo"
    );
    let missing = vec![source("/p/a.proto", true, None), source("/x.proto", false, None)];
    let err = plan(Half::Both, true, &missing).unwrap_err();
    assert_eq!(err.message(), ".proto file not found: /x.proto");
}

#[test]
fn expansion_tracks_sources() {
    let sources = vec![source("/p/a \"b\".proto", true, None)];
    let code = expand(&sources, Ok(files(&[("p.rs", "struct A;")]))).unwrap();
    assert_eq!(
        code,
        "const _ : & [u8] = include_bytes ! (\"/p/a \\\"b\\\".proto\") ; pub mod p { struct A;\n} "
    );
    assert_eq!(
        tracking(&vec!["\"x\"".to_string(), "\"y\"".to_string()]),
        "const _ : & [u8] = include_bytes ! (\"x\") ; const _ : & [u8] = include_bytes ! (\"y\") ; "
    );
    let parsed: proc_macro2::TokenStream = code.parse().unwrap();
    assert!(!parsed.is_empty());

    let err = expand(&sources, Err("boom".to_string())).unwrap_err();
    assert_eq!(err.message(), "trillium-grpc codegen failed: boom");
    let err = expand(&sources, Ok(files(&[("a.rs", "1"), ("a.txt", "2")]))).unwrap_err();
    assert!(matches!(err, ExpandError::Duplicate(_)));
}
