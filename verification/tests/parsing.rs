use lavish::ast::{
    schema_file_name, schema_not_found, BaseType, Kind, RustTargetWrapper, Side, Target, TypeKind,
    LAVISH_EXT, VENDOR_DIR,
};
use lavish::diag::{error_context_notes, error_kind_name, error_message};
use lavish::grammar::{Context, ContextEntry, ErrorKind, ParseError};
use lavish::parser::{parse_rules, parse_schema};

fn chars(s: &str) -> Vec<char> {
    s.chars().collect()
}

#[test]
fn target_rust() {
    let rules = parse_rules(&chars("target rust {\n    wrapper = lib\n}\n")).unwrap();
    match rules.target {
        Target::Rust(t) => assert_eq!(t.wrapper, RustTargetWrapper::Lib),
        _ => panic!("expected a rust target"),
    }
    assert_eq!(rules.builds.len(), 0);
}

#[test]
fn target_rust_default_wrapper() {
    let rules = parse_rules(&chars("target rust\n")).unwrap();
    match rules.target {
        Target::Rust(t) => assert_eq!(t.wrapper, RustTargetWrapper::Mod),
        _ => panic!("expected a rust target"),
    }
}

#[test]
fn target_rust_last_wrapper_wins() {
    let rules =
        parse_rules(&chars("target rust { wrapper = none wrapper = lib wrapper = mod }")).unwrap();
    match rules.target {
        Target::Rust(t) => assert_eq!(t.wrapper, RustTargetWrapper::Mod),
        _ => panic!("expected a rust target"),
    }
}

#[test]
fn target_go() {
    let rules = parse_rules(&chars("target go\n")).unwrap();
    assert!(matches!(rules.target, Target::Go(_)));
}

#[test]
fn target_typescript() {
    let rules = parse_rules(&chars("target typescript\n")).unwrap();
    assert!(matches!(rules.target, Target::TypeScript(_)));
}

#[test]
fn target_unknown() {
    let err = parse_rules(&chars("target cobol\n")).unwrap_err();
    assert_eq!(err.kind, ErrorKind::Tag);
    assert!(err.fatal);
}

#[test]
fn build_local() {
    let rules = parse_rules(&chars("target rust\n\nbuild cookies\n")).unwrap();
    assert_eq!(rules.builds.len(), 1);
    assert_eq!(rules.builds[0].name.text, "cookies");
    assert!(rules.builds[0].from.is_none());
}

#[test]
fn build_remote() {
    let rules = parse_rules(&chars(
        "target rust\n// remote one\nbuild cookies from \"github.com/example/cookies\"\n",
    ))
    .unwrap();
    assert_eq!(rules.builds.len(), 1);
    let from = rules.builds[0].from.as_ref().unwrap();
    assert_eq!(from.path.value, "github.com/example/cookies");
}

#[test]
fn struct_cookie() {
    let schema = parse_schema(&chars(
        "struct Cookie {\n    key: string,\n    value: string,\n    expires: Option<timestamp>,\n}\n",
    ))
    .unwrap();
    let body = &schema.body;
    assert_eq!(body.structs.len(), 1);
    let st = &body.structs[0];
    assert_eq!(st.name.text, "Cookie");
    assert_eq!(st.fields.len(), 3);
    assert_eq!(st.fields[0].name.text, "key");
    assert!(matches!(st.fields[0].typ.kind, TypeKind::Base(BaseType::String)));
    match &st.fields[2].typ.kind {
        TypeKind::Option(o) => {
            assert!(matches!(o.inner.kind, TypeKind::Base(BaseType::Timestamp)))
        }
        _ => panic!("expected an option type"),
    }
}

#[test]
fn struct_comments() {
    let schema = parse_schema(&chars(
        "// A cookie\n// with two lines\nstruct Cookie {\n    // The key\n    key: string,\n}\n",
    ))
    .unwrap();
    let st = &schema.body.structs[0];
    let comment = st.comment.as_ref().unwrap();
    assert_eq!(comment.lines, vec!["A cookie".to_string(), "with two lines".to_string()]);
    let fc = st.fields[0].comment.as_ref().unwrap();
    assert_eq!(fc.lines, vec!["The key".to_string()]);
}

#[test]
fn struct_incomplete() {
    let err = parse_schema(&chars("struct Cookie {\n    key: string,\n")).unwrap_err();
    assert_eq!(err.kind, ErrorKind::Char('}'));
    assert!(err.fatal);
}

#[test]
fn fn_simple() {
    let schema = parse_schema(&chars(
        "server fn get_cookie(name: string) -> (value: Option<string>)\n",
    ))
    .unwrap();
    let f = &schema.body.functions[0];
    assert_eq!(f.name.text, "get_cookie");
    assert_eq!(f.side, Side::Server);
    assert_eq!(f.kind, Kind::Request);
    assert_eq!(f.params.len(), 1);
    assert_eq!(f.results.len(), 1);
    assert!(f.body.is_none());
}

#[test]
fn fn_namespaced() {
    let schema = parse_schema(&chars(
        "namespace cookies {\n    server fn get(name: string) -> (value: string)\n}\n",
    ))
    .unwrap();
    assert_eq!(schema.body.namespaces.len(), 1);
    let ns = &schema.body.namespaces[0];
    assert_eq!(ns.name.text, "cookies");
    assert_eq!(ns.body.functions.len(), 1);
    assert_eq!(ns.body.functions[0].name.text, "get");
}

#[test]
fn fn_nested() {
    let schema = parse_schema(&chars(
        "server fn session() {\n    client fn confirm(code: uint32) -> (ok: bool)\n}\n",
    ))
    .unwrap();
    let f = &schema.body.functions[0];
    let body = f.body.as_ref().unwrap();
    assert_eq!(body.functions.len(), 1);
    assert_eq!(body.functions[0].side, Side::Client);
    assert_eq!(body.functions[0].name.text, "confirm");
}

#[test]
fn nf_simple() {
    let schema = parse_schema(&chars("client nf log(message: string)\n")).unwrap();
    let f = &schema.body.functions[0];
    assert_eq!(f.kind, Kind::Notification);
    assert_eq!(f.side, Side::Client);
    assert_eq!(f.results.len(), 0);
}

#[test]
fn schema_imports_and_map_type() {
    let schema = parse_schema(&chars(
        "import cookies from \"github.com/example/cookies\"\nimport other\n\nstruct Jar {\n    by_name: Map<string, Array<int32>>,\n}\n",
    ))
    .unwrap();
    assert_eq!(schema.imports.len(), 2);
    assert_eq!(schema.imports[0].name.text, "cookies");
    assert!(schema.imports[1].from.is_none());
    match &schema.body.structs[0].fields[0].typ.kind {
        TypeKind::Mapping(m) => {
            assert!(matches!(m.keys.kind, TypeKind::Base(BaseType::String)));
            assert!(matches!(m.values.kind, TypeKind::Array(_)));
        }
        _ => panic!("expected a map type"),
    }
}

#[test]
fn schema_empty() {
    let schema = parse_schema(&chars("")).unwrap();
    assert_eq!(schema.body.functions.len(), 0);
    assert_eq!(schema.body.structs.len(), 0);
}

#[test]
fn schema_trailing_garbage() {
    let err = parse_schema(&chars("struct A {}\n%%%\n")).unwrap_err();
    assert!(!err.fatal);
}

#[test]
fn identifier_spans() {
    let schema = parse_schema(&chars("struct Cookie {}\n")).unwrap();
    let name = &schema.body.structs[0].name;
    assert_eq!(name.span.offset, 7);
    assert_eq!(name.span.len, 6);
}

#[test]
fn struct_incomplete_message() {
    let source = chars("struct Cookie {\n    key: string\n    value: string\n}\n");
    let err = parse_schema(&source).unwrap_err();
    assert_eq!(err.kind, ErrorKind::Char('}'));
    let m = error_message(&source, &err);
    assert_eq!(m.text, "expected '}', found v");
    assert_eq!(m.highlight, "");
}

#[test]
fn target_unknown_message() {
    let source = chars("target cobol\n");
    let err = parse_rules(&source).unwrap_err();
    let m = error_message(&source, &err);
    assert_eq!(m.text, "parsing error: ");
    assert_eq!(m.highlight, "Tag");
    assert_eq!(format!("{}{}", m.text, m.highlight), "parsing error: Tag");
}

#[test]
fn error_kind_names() {
    assert_eq!(error_kind_name(ErrorKind::TakeWhile1), "TakeWhile1");
    assert_eq!(error_kind_name(ErrorKind::SeparatedList), "SeparatedList");
    assert_eq!(error_kind_name(ErrorKind::Eof), "Eof");
    let e = ParseError { fatal: false, pos: 0, kind: ErrorKind::Many1, contexts: Vec::new() };
    let m = error_message(&chars(""), &e);
    assert_eq!(m.highlight, "Many1");
}

#[test]
fn schema_file_names() {
    assert_eq!(schema_file_name("cookies"), "cookies.lavish");
    assert!(schema_file_name("cookies").ends_with(LAVISH_EXT));
    assert_eq!(VENDOR_DIR, "lavish-vendor");
    assert_eq!(schema_not_found("cookies"), "cookies not found. Try running `lavish fetch`");
}

#[test]
fn documented_base_types() {
    let names = [
        ("bool", BaseType::Bool),
        ("int32", BaseType::Int32),
        ("int64", BaseType::Int64),
        ("uint32", BaseType::UInt32),
        ("uint64", BaseType::UInt64),
        ("float32", BaseType::Float32),
        ("float64", BaseType::Float64),
        ("string", BaseType::String),
        ("bytes", BaseType::Bytes),
        ("timestamp", BaseType::Timestamp),
    ];
    for (name, b) in names.iter() {
        let source = format!("struct S {{\n    f: {},\n}}\n", name);
        let schema = parse_schema(&chars(&source)).unwrap();
        let typ = &schema.body.structs[0].fields[0].typ;
        assert!(matches!(typ.kind, TypeKind::Base(k) if k == *b));
        assert_eq!(typ.text, *name);
    }
}

#[test]
fn documented_wrapper_types() {
    let schema = parse_schema(&chars(
        "struct S {\n    a: Array<bool>,\n    m: Map<bool, string>,\n    o: Option < int64 >,\n}\n",
    ))
    .unwrap();
    let fields = &schema.body.structs[0].fields;
    match &fields[0].typ.kind {
        TypeKind::Array(a) => assert!(matches!(a.inner.kind, TypeKind::Base(BaseType::Bool))),
        _ => panic!("expected an array type"),
    }
    match &fields[1].typ.kind {
        TypeKind::Mapping(m) => {
            assert!(matches!(m.keys.kind, TypeKind::Base(BaseType::Bool)));
            assert!(matches!(m.values.kind, TypeKind::Base(BaseType::String)));
        }
        _ => panic!("expected a map type"),
    }
    match &fields[2].typ.kind {
        TypeKind::Option(o) => assert!(matches!(o.inner.kind, TypeKind::Base(BaseType::Int64))),
        _ => panic!("expected an option type"),
    }
}

fn entry(pos: usize, context: Context) -> ContextEntry {
    ContextEntry { pos, context }
}

#[test]
fn struct_incomplete_contexts() {
    let err = parse_schema(&chars("struct Cookie {\n    key: string,\n")).unwrap_err();
    assert_eq!(err.contexts, vec![entry(7, Context::StructDeclaration)]);
    let notes = error_context_notes(&err);
    assert_eq!(notes.len(), 1);
    assert_eq!(notes[0].pos, 7);
    assert_eq!(notes[0].text, "In struct declaration");
}

#[test]
fn nested_failure_contexts() {
    let source = chars("namespace n {\n    server fn f(a: ) \n}\n");
    let err = parse_schema(&source).unwrap_err();
    assert!(err.fatal);
    assert_eq!(err.pos, 33);
    assert_eq!(
        err.contexts,
        vec![
            entry(31, Context::Field),
            entry(29, Context::ParameterList),
            entry(28, Context::FunctionDeclaration),
            entry(10, Context::NamespaceDeclaration),
        ]
    );
    let notes: Vec<(usize, String)> = error_context_notes(&err).into_iter().map(|n| (n.pos, n.text)).collect();
    assert_eq!(
        notes,
        vec![
            (10, "In namespace declaration".to_string()),
            (28, "In function declaration".to_string()),
            (29, "In parameter list".to_string()),
            (31, "In field".to_string()),
        ]
    );
}

#[test]
fn function_body_contexts() {
    let err = parse_schema(&chars("server fn f() {\n    struct S {\n")).unwrap_err();
    assert_eq!(
        err.contexts,
        vec![
            entry(27, Context::StructDeclaration),
            entry(20, Context::FunctionBody),
            entry(10, Context::FunctionDeclaration),
        ]
    );
}

#[test]
fn rules_failure_contexts() {
    let err = parse_rules(&chars("target rust { wrapper = x }\n")).unwrap_err();
    assert_eq!(err.kind, ErrorKind::Tag);
    assert_eq!(err.pos, 24);
    assert_eq!(
        err.contexts,
        vec![entry(22, Context::RustTargetWrapper), entry(12, Context::RustTarget), entry(7, Context::TargetDirective)]
    );
    let err = parse_rules(&chars("target cobol\n")).unwrap_err();
    assert_eq!(err.contexts, vec![entry(7, Context::TargetDirective)]);
    let err = parse_rules(&chars("target rust\nbuild\n")).unwrap_err();
    assert_eq!(err.contexts, vec![entry(18, Context::BuildDirective)]);
    let err = parse_schema(&chars("import x from\n")).unwrap_err();
    assert_eq!(err.contexts, vec![entry(14, Context::FromDirective), entry(7, Context::Import)]);
}

#[test]
fn recovered_failures_leave_no_context() {
    let err = parse_schema(&chars("struct A {}\n%%%\n")).unwrap_err();
    assert!(err.contexts.is_empty());
}
