use css_deps::extract;
use css_deps::parse;

#[test]
fn it_works() {
    let result = parse(
        r#"
@import "./base.css";

.foo {
  background: url(foo.png);
  width: 32px;

  & .inner {
    background-image: url("./other.png")
  }
}

.bar {
  background: url(bar.png);
}
"#,
        None,
    );

    assert_eq!(result.imports, ["./base.css"]);
    assert_eq!(result.urls, ["foo.png", "./other.png", "bar.png"]);
}

#[test]
fn single_import_and_nothing_else() {
    let result = parse("@import \"X\";", None);
    assert_eq!(result.imports, ["X"]);
    assert!(result.urls.is_empty());
}

#[test]
fn url_quotes_are_stripped() {
    let result = parse(
        ".a { background: url(Y.png); }\n.b { background: url(\"Z.png\"); }",
        None,
    );
    assert!(result.imports.is_empty());
    assert_eq!(result.urls, ["Y.png", "Z.png"]);
}

#[test]
fn order_follows_serialization() {
    let result = parse(
        "@import \"one.css\";\n@import \"two.css\";\n.a { background: url(a.png); }\n.b { background: url(b.png); }",
        None,
    );
    assert_eq!(result.imports, ["one.css", "two.css"]);
    assert_eq!(result.urls, ["a.png", "b.png"]);
}

#[test]
fn extraction_is_repeatable() {
    let source = "@import \"a.css\";\n.x { background: url(b.png); }";
    let first = extract(source, None).expect("well-formed input must extract");
    let second = extract(source, None).expect("well-formed input must extract");
    assert_eq!(first.imports, second.imports);
    assert_eq!(first.urls, second.urls);
}

#[test]
fn empty_input_yields_empty_lists() {
    let result = extract("", None).expect("empty input must extract");
    assert!(result.imports.is_empty());
    assert!(result.urls.is_empty());
}

#[test]
fn recoverable_mistakes_keep_discoverable_deps() {
    let result = extract(
        ".broken { color: }\n.ok { background: url(kept.png); }",
        None,
    )
    .expect("recovery must carry the parse past the broken declaration");
    assert!(result.imports.is_empty());
    assert_eq!(result.urls, ["kept.png"]);
}

#[test]
fn filename_is_diagnostic_only() {
    let source = "@import \"a.css\";\n.x { background: url(b.png); }";
    let named = parse(source, Some("styles/main.css".to_string()));
    let unnamed = parse(source, None);
    assert_eq!(named.imports, unnamed.imports);
    assert_eq!(named.urls, unnamed.urls);
}

#[test]
fn import_with_media_query_is_reported() {
    let result = parse("@import \"print.css\" print;", None);
    assert_eq!(result.imports, ["print.css"]);
    assert!(result.urls.is_empty());
}
