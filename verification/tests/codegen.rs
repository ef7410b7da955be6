use lavish::anchored::{FrameKind, LookupMode, Stack, Symbol, SyntheticFrame};
use lavish::ast::{BaseType, EnumVariant, Identifier, RustTarget, RustTargetWrapper, Side, Span, Target};
use lavish::codegen::{codegen, prelude_text, workspace_mod_text, Generator};
use lavish::outline::{outline, EntryKind};
use lavish::common::{Mods, Structs, Traits};
use lavish::lang::{_enum, quoted, serde_untagged};
use lavish::naming::{RustFn, RustStack, RustStruct};
use lavish::parser::parse_schema;
use lavish::types::{as_rust, base_rust, split_at_dots};

fn chars(s: &str) -> Vec<char> {
    s.chars().collect()
}

#[test]
fn module_and_item_paths() {
    assert_eq!(Mods::lavish(), "::lavish");
    assert_eq!(Mods::io(), "::std::io");
    assert_eq!(Mods::facts(), "::lavish::facts");
    assert_eq!(Mods::chrono(), "::lavish::chrono");
    assert_eq!(Mods::collections(), "::std::collections");
    assert_eq!(Mods::sync(), "::std::sync");
    assert_eq!(Mods::es(), "::lavish::erased_serde");
    assert_eq!(Mods::serde(), "::lavish::serde");
    assert_eq!(Mods::serde_derive(), "::lavish::serde_derive");
    assert_eq!(Traits::Serialize(), "::lavish::serde_derive::Serialize");
    assert_eq!(Traits::Deserialize(), "::lavish::serde_derive::Deserialize");
    assert_eq!(Traits::Factual(), "::lavish::facts::Factual");
    assert_eq!(Traits::Atom(), "::lavish::Atom");
    assert_eq!(Traits::Read(), "::std::io::Read");
    assert_eq!(Traits::Write(), "::std::io::Write");
    assert_eq!(Structs::Deserializer(), "::lavish::erased_serde::Deserializer");
    assert_eq!(Structs::Error(), "::lavish::Error");
    assert_eq!(Structs::FactsError(), "::lavish::facts::Error");
    assert_eq!(Structs::Arc(), "::std::sync::Arc");
    assert_eq!(Structs::HashMap(), "::std::collections::HashMap");
}

#[test]
fn attributes() {
    assert_eq!(lavish::lang::allow().non_camel_case().unused().to_string(), "#[allow(non_camel_case_types, unused)]\n");
    assert_eq!(lavish::lang::allow().to_string(), "#[allow()]\n");
    assert_eq!(
        lavish::lang::derive().debug().serialize().deserialize().to_string(),
        "#[derive(Debug, ::lavish::serde_derive::Serialize, ::lavish::serde_derive::Deserialize)]\n"
    );
    assert_eq!(serde_untagged(), "#[serde(untagged)]\n");
}

#[test]
fn quoting() {
    assert_eq!(quoted("session.login"), "\"session.login\"");
    assert_eq!(quoted("a\"b\n"), "\"a\\\"b\\n\"");
}

#[test]
fn enums() {
    let mut e = _enum("Flavor");
    e.kw_pub().variant("Vanilla").variant("Chocolate");
    assert_eq!(e.to_string(), "pub enum Flavor {\n    Vanilla,\n    Chocolate,\n}\n");
    let empty = _enum("Nothing");
    assert_eq!(empty.to_string(), "enum Nothing {}\n");
}

#[test]
fn enum_variant_hash_is_crc32c_of_name() {
    let v = EnumVariant {
        loc: Span { offset: 0, len: 9 },
        comment: None,
        name: Identifier { span: Span { offset: 0, len: 9 }, text: "123456789".to_string() },
    };
    assert_eq!(v.hash(), 0xE306_9283);
    let empty = EnumVariant {
        loc: Span { offset: 0, len: 0 },
        comment: None,
        name: Identifier { span: Span { offset: 0, len: 0 }, text: String::new() },
    };
    assert_eq!(empty.hash(), 0);
}

#[test]
fn base_types_in_rust() {
    assert_eq!(base_rust(BaseType::UInt32), "u32");
    assert_eq!(base_rust(BaseType::String), "String");
    assert_eq!(base_rust(BaseType::Bytes), "::lavish::facts::Bin");
    assert_eq!(
        base_rust(BaseType::Timestamp),
        "::lavish::chrono::DateTime<::lavish::chrono::offset::Utc>"
    );
}

#[test]
fn splitting_type_paths() {
    assert_eq!(split_at_dots("a.b.C"), vec!["a", "b", "C"]);
    assert_eq!(split_at_dots("C"), vec!["C"]);
    assert_eq!(split_at_dots("a..b."), vec!["a", "", "b", ""]);
    assert_eq!(split_at_dots(""), vec![""]);
}

const SCHEMA: &str = "namespace session {\n    struct Token {\n        owner: User,\n    }\n    server fn attempt_login(user: string)\n}\nstruct User {\n    token: session.Token,\n    tokens: Array<session.Token>,\n    extra: Map<string, Option<uint64>>,\n    bad: session.Nope,\n    deep: session.Token.x,\n}\n";

#[test]
fn lookups() {
    let schema = parse_schema(&chars(SCHEMA)).unwrap();
    let root = Stack::new(FrameKind::Schema(&schema));
    let ns = &schema.body.namespaces[0];
    let inner = root.push(FrameKind::Namespace(ns));
    assert_eq!(root.len(), 1);
    assert_eq!(inner.len(), 2);
    assert_eq!(inner.names(), vec!["session"]);

    let p = root.lookup_struct(LookupMode::Relaxed, &["session", "Token"]).unwrap();
    assert_eq!(p.up, 0);
    assert_eq!(p.down, vec!["session", "Token"]);
    assert!(matches!(p.symbol, Symbol::Struct(s) if s.name.text == "Token"));
    assert_eq!(p.symbol.to_debug_string(), "Struct(\"Token\")");
    let ns = root.lookup_struct(LookupMode::Relaxed, &["session"]).unwrap();
    assert_eq!(ns.symbol.to_debug_string(), "Namespace(\"session\")");

    let q = inner.lookup_struct(LookupMode::Relaxed, &["User"]).unwrap();
    assert_eq!(q.up, 1);
    assert!(inner.lookup_struct(LookupMode::Strict, &["User"]).is_none());
    assert!(root.lookup_struct(LookupMode::Relaxed, &["session"]).is_some());
    assert!(root.lookup_struct(LookupMode::Relaxed, &[]).is_none());
    assert!(root.lookup_struct(LookupMode::Relaxed, &["User", "token"]).is_none());

    let synthetic = SyntheticFrame::new("params");
    let deeper = inner.push(FrameKind::Synthetic(&synthetic));
    assert_eq!(deeper.names(), vec!["session"]);
    let r = deeper.lookup_struct(LookupMode::Relaxed, &["Token"]).unwrap();
    assert_eq!(r.up, 1);
}

#[test]
fn types_in_rust() {
    let schema = parse_schema(&chars(SCHEMA)).unwrap();
    let root = Stack::new(FrameKind::Schema(&schema));
    let user = &schema.body.structs[0];
    assert_eq!(as_rust(&user.fields[0].typ, &root).unwrap(), "session::Token");
    assert_eq!(as_rust(&user.fields[1].typ, &root).unwrap(), "Vec<session::Token>");
    assert_eq!(
        as_rust(&user.fields[2].typ, &root).unwrap(),
        "::std::collections::HashMap<String, Option<u64>>"
    );
    let bad = as_rust(&user.fields[3].typ, &root).unwrap_err();
    assert_eq!(bad.text, "session.Nope");
    assert!(as_rust(&user.fields[4].typ, &root).is_err());

    let ns = &schema.body.namespaces[0];
    let inner = root.push(FrameKind::Namespace(ns));
    let token = &ns.body.structs[0];
    assert_eq!(as_rust(&token.fields[0].typ, &inner).unwrap(), "super::User");
}

#[test]
fn stack_names() {
    let schema = parse_schema(&chars(SCHEMA)).unwrap();
    let root = Stack::new(FrameKind::Schema(&schema));
    let ns = &schema.body.namespaces[0];
    let inner = root.push(FrameKind::Namespace(ns));
    assert_eq!(root.root(), "super::");
    assert_eq!(inner.root(), "super::super::");
    assert_eq!(inner.protocol(), "super::super::protocol");
    assert_eq!(inner.schema(), "super::super::schema");
    assert_eq!(root.Caller(), "super::protocol::Caller");
    assert_eq!(root.Callable(), "super::protocol::Callable");
    assert_eq!(root.Implementable(), "super::protocol::Implementable");
    assert_eq!(root.TranslationTables(), "super::protocol::TranslationTables");
    assert_eq!(root.Slottable(), "super::protocol::Slottable");
    assert_eq!(root.SideClient(Side::Server), "super::server::Client");
    assert_eq!(
        root.triplet(),
        "super::protocol::Params, super::protocol::NotificationParams, super::protocol::Results"
    );
}

#[test]
fn function_names() {
    let schema = parse_schema(&chars(SCHEMA)).unwrap();
    let root = Stack::new(FrameKind::Schema(&schema));
    let ns = &schema.body.namespaces[0];
    let inner = root.push(FrameKind::Namespace(ns));
    let f = inner.anchor(&ns.body.functions[0]);
    assert_eq!(f.names(), vec!["session", "attempt_login"]);
    assert_eq!(f.name(), "attempt_login");
    assert_eq!(f.method(), "session.attempt_login");
    assert_eq!(f.rust_name(), "session__attempt_login");
    assert_eq!(f.slot(), "on_session__attempt_login");
    assert_eq!(RustFn::variant(&f), "Session_AttemptLogin");
    assert_eq!(f.module(&root), "super::schema::session::attempt_login");
    assert_eq!(f.Params(&root), "super::schema::session::attempt_login::Params");
    assert_eq!(f.Results(&root), "super::schema::session::attempt_login::Results");
    assert_eq!(f.Client(&root), "super::schema::session::attempt_login::Client");
    assert_eq!(f.Handler(&root), "super::schema::session::attempt_login::Handler");

    let s = inner.anchor(&ns.body.structs[0]);
    assert_eq!(s.names(), vec!["session", "Token"]);
    assert_eq!(RustStruct::variant(&s), "Session_Token");
    let field = inner.anchor(&ns.body.structs[0].fields[0]);
    assert_eq!(field.name(), "owner");
}

#[test]
fn workspace_module_text() {
    let prelude = "// This file is generated by lavish: DO NOT EDIT\n// https://github.com/fasterthanlime/lavish\n\n#![cfg_attr(rustfmt, rustfmt_skip)]\n#![allow(clippy::all, unknown_lints, unused, non_snake_case)]\n\n";
    assert_eq!(prelude_text(), prelude);
    assert_eq!(
        workspace_mod_text(&vec!["cookies", "session"]),
        format!("{}pub mod cookies;\npub mod session;\n", prelude)
    );
}

#[test]
fn generator_for_rust_target() {
    let t = RustTarget { wrapper: RustTargetWrapper::Lib };
    assert_eq!(codegen(&Target::Rust(t)).target, t);
    assert_eq!(Generator::new(t).target.wrapper, RustTargetWrapper::Lib);
}

#[test]
fn schema_outline() {
    let schema = parse_schema(&chars(
        "namespace n {\n    // Holds a key\n    struct S {\n        k: string,\n    }\n    server fn f(a: u8) -> (b: u8) {\n        client fn g()\n    }\n}\n",
    ))
    .unwrap();
    let o = outline(&schema);
    let got: Vec<(usize, EntryKind, &str)> =
        o.iter().map(|e| (e.depth, e.kind, e.name.as_str())).collect();
    assert_eq!(
        got,
        vec![
            (1, EntryKind::Schema, "schema"),
            (2, EntryKind::Namespace, "n"),
            (3, EntryKind::Struct, "S"),
            (4, EntryKind::Field, "k"),
            (3, EntryKind::Function, "f"),
            (4, EntryKind::Field, "a"),
            (4, EntryKind::Field, "b"),
            (5, EntryKind::Function, "g"),
        ]
    );
    assert_eq!(o[2].comment.as_deref(), Some("Holds a key"));
    assert_eq!(o[3].typ, "string");
}

#[test]
fn positions_and_carets() {
    let src = chars("ab\ncd\n\nef");
    assert_eq!(lavish::diag::position(&src, 0), lavish::diag::Position { line: 0, column: 0 });
    assert_eq!(lavish::diag::position(&src, 4), lavish::diag::Position { line: 1, column: 1 });
    assert_eq!(lavish::diag::position(&src, 6), lavish::diag::Position { line: 2, column: 0 });
    assert_eq!(lavish::diag::position(&src, 9), lavish::diag::Position { line: 3, column: 2 });
    assert_eq!(lavish::diag::caret_text(3, 4), "   ^~~~");
    assert_eq!(lavish::diag::caret_text(0, 0), "^");
}

#[test]
fn schema_traversals() {
    let schema = parse_schema(&chars(
        "struct A {}\nserver fn f() {\n    struct B {}\n    client fn g()\n}\nnamespace n {\n    struct C {}\n    server fn h()\n}\n",
    ))
    .unwrap();
    let root = Stack::new(FrameKind::Schema(&schema));
    let body = root.anchor(&schema.body);

    let funs = body.for_each_fun_of_schema();
    let names: Vec<Vec<&str>> = funs.iter().map(|f| f.names()).collect();
    assert_eq!(names, vec![vec!["f", "g"], vec!["f"], vec!["n", "h"]]);
    assert_eq!(funs[1].method(), "f");

    let structs = body.for_each_struct_of_schema();
    let names: Vec<Vec<&str>> = structs.iter().map(|s| s.names()).collect();
    assert_eq!(names, vec![vec!["A"], vec!["f", "B"], vec!["n", "C"]]);

    assert_eq!(body.for_each_fun().len(), 1);
    assert_eq!(body.for_each_struct().len(), 1);
    let nss = body.for_each_namespace();
    assert_eq!(nss.len(), 1);
    assert_eq!(nss[0].stack.names(), vec!["n"]);

    let f = root.anchor(&schema.body.functions[0]);
    let inner: Vec<&str> = f.for_each_fun_of_schema().iter().map(|g| g.name()).collect();
    assert_eq!(inner, vec!["g"]);
    assert_eq!(f.for_each_struct_of_schema().len(), 1);
}

#[test]
fn outline_prefixes() {
    assert_eq!(lavish::outline::indent_prefix(1), "|");
    assert_eq!(lavish::outline::indent_prefix(0), "|");
    assert_eq!(lavish::outline::indent_prefix(2), "    |");
    assert_eq!(lavish::outline::indent_prefix(3), "      |");
}
