use lavish::ast::Side;
use lavish::checker::{check, redefinitions, side_mismatches, DeclKind};
use lavish::parser::parse_schema;

fn chars(s: &str) -> Vec<char> {
    s.chars().collect()
}

#[test]
fn check_accepts_clean_schema() {
    let schema = parse_schema(&chars(
        "namespace cookies {\n    server fn get(name: string) {\n        client fn confirm()\n    }\n}\n",
    ))
    .unwrap();
    assert!(check(&schema).is_ok());
}

#[test]
fn redefined_struct_is_reported() {
    let source = "namespace n {\n    struct A {}\n    struct A {}\n}\n";
    let schema = parse_schema(&chars(source)).unwrap();
    let r = redefinitions(&schema);
    assert_eq!(r.len(), 1);
    assert_eq!(r[0].kind, DeclKind::Struct);
    assert_eq!(r[0].name, "A");
    assert_eq!(r[0].at.offset, 41);
    assert_eq!(r[0].first.offset, 25);
    match check(&schema) {
        Err(e) => assert_eq!(e.num_errors, 1),
        Ok(()) => panic!("a redefinition must be refused"),
    }
}

#[test]
fn redefined_field_points_to_latest_earlier() {
    let schema =
        parse_schema(&chars("namespace n {\nstruct A {\n    x: u8,\n    x: u8,\n    x: u8,\n}\n}\n"))
            .unwrap();
    let r = redefinitions(&schema);
    assert_eq!(r.len(), 2);
    assert_eq!(r[0].kind, DeclKind::Field);
    assert_eq!(r[1].first.offset, r[0].at.offset);
    assert_eq!(DeclKind::Field.word(), "field");
}

#[test]
fn redefined_param_and_result() {
    let schema = parse_schema(&chars(
        "namespace n {\n    server fn f(a: u8, a: u8) -> (b: u8, b: u8)\n}\n",
    ))
    .unwrap();
    let r = redefinitions(&schema);
    assert_eq!(r.len(), 2);
    assert_eq!(r[0].kind, DeclKind::Param);
    assert_eq!(r[1].kind, DeclKind::ResultValue);
}

#[test]
fn nested_function_on_same_side_is_reported() {
    let schema = parse_schema(&chars(
        "namespace n {\n    server fn outer() {\n        server fn inner()\n    }\n}\n",
    ))
    .unwrap();
    let m = side_mismatches(&schema);
    assert_eq!(m.len(), 1);
    assert_eq!(m[0].name, "inner");
    assert_eq!(m[0].expected, Side::Client);
    assert_eq!(m[0].parent, "outer");
    assert_eq!(m[0].parent_side, Side::Server);
    match check(&schema) {
        Err(e) => assert_eq!(e.num_errors, 1),
        Ok(()) => panic!("a function on the wrong side must be refused"),
    }
}

#[test]
fn root_functions_are_not_side_checked() {
    let schema =
        parse_schema(&chars("server fn outer() {\n    server fn inner()\n}\n")).unwrap();
    assert_eq!(side_mismatches(&schema).len(), 0);
    assert!(check(&schema).is_ok());
}

#[test]
fn redefinitions_are_reported_before_sides() {
    let schema = parse_schema(&chars(
        "namespace m {\n    struct A {}\n    struct A {}\n}\nnamespace n {\n    server fn outer() {\n        server fn inner()\n        server fn inner2()\n    }\n}\n",
    ))
    .unwrap();
    match check(&schema) {
        Err(e) => assert_eq!(e.num_errors, 1),
        Ok(()) => panic!("expected errors"),
    }
}

#[test]
fn side_other_is_an_involution() {
    assert_eq!(Side::Client.other(), Side::Server);
    assert_eq!(Side::Server.other().other(), Side::Server);
    assert_eq!(Side::Client.as_str(), "client");
}

#[test]
fn top_level_structs_and_functions_are_not_redefinition_checked() {
    let schema = parse_schema(&chars(
        "struct A {}\nstruct A {}\nserver fn f(a: u8, a: u8)\nserver fn f()\n",
    ))
    .unwrap();
    assert_eq!(redefinitions(&schema).len(), 0);
    assert!(check(&schema).is_ok());
}

#[test]
fn top_level_namespaces_are_redefinition_checked() {
    let schema = parse_schema(&chars("namespace n {}\nnamespace n {}\n")).unwrap();
    let r = redefinitions(&schema);
    assert_eq!(r.len(), 1);
    assert_eq!(r[0].kind, DeclKind::Namespace);
}
