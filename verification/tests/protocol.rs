use lavish::anchored::{FrameKind, Stack};
use lavish::ast::{EnumDecl, EnumVariant, Identifier, Kind, Span};
use lavish::parser::parse_schema;
use lavish::protocol::Protocol;
use lavish::symbols::factual_impl_text;

fn chars(s: &str) -> Vec<char> {
    s.chars().collect()
}

fn ident(text: &str) -> Identifier {
    Identifier { span: Span { offset: 0, len: text.len() }, text: text.to_string() }
}

fn variant(text: &str) -> EnumVariant {
    EnumVariant { loc: Span { offset: 0, len: 0 }, comment: None, name: ident(text) }
}

#[test]
fn translation_tables() {
    let mut schema = parse_schema(&chars(
        "struct Cookie {\n    key: string,\n    value: string,\n}\n\
         server fn get(name: string) -> (c: Cookie)\n\
         client nf log(m: string)\n\
         namespace jar {\n    struct Lid {}\n    server fn open()\n}\n",
    ))
    .unwrap();
    schema.body.enums.push(EnumDecl {
        loc: Span { offset: 0, len: 0 },
        comment: None,
        name: ident("Flavor"),
        variants: vec![variant("Vanilla"), variant("Chocolate")],
    });
    let root = Stack::new(FrameKind::Schema(&schema));
    let proto = Protocol { body: root.anchor(&schema.body) };
    let expected = "use ::lavish::facts::{OffsetList, TypeMapping};\n\
#[derive(Debug)]\n\
pub struct ProtocolMapping {\n\
\x20   // builtins\n\
\x20   pub __Params: TypeMapping,\n\
\x20   pub __Results: TypeMapping,\n\
\x20   pub __NotificationParams: TypeMapping,\n\
\x20   // structs\n\
\x20   pub Cookie: TypeMapping,\n\
\x20   pub Jar_Lid: TypeMapping,\n\
\x20   // enums\n\
\x20   pub Flavor: TypeMapping,\n\
}\n\
\n\
impl Default for ProtocolMapping {\n\
\x20   fn default() -> Self {\n\
\x20       Self {\n\
\x20           // builtins\n\
\x20           __Params: TypeMapping::Mapped(OffsetList(vec![0, 1])),\n\
\x20           __Results: TypeMapping::Mapped(OffsetList(vec![0, 1])),\n\
\x20           __NotificationParams: TypeMapping::Mapped(OffsetList(vec![0])),\n\
\x20           // structs\n\
\x20           Cookie: TypeMapping::Mapped(OffsetList(vec![0, 1])),\n\
\x20           Jar_Lid: TypeMapping::Mapped(OffsetList(vec![])),\n\
\x20           // enums\n\
\x20           Flavor: TypeMapping::Mapped(OffsetList(vec![0, 1])),\n\
\x20       }\n\
\x20   }\n\
}\n\
impl ::lavish::facts::Mapping for ProtocolMapping {}\n";
    assert_eq!(proto.translation_tables_text(), expected);
}

#[test]
fn translation_tables_of_empty_schema() {
    let schema = parse_schema(&chars("")).unwrap();
    let root = Stack::new(FrameKind::Schema(&schema));
    let proto = Protocol { body: root.anchor(&schema.body) };
    let text = proto.translation_tables_text();
    assert!(text.contains("__Params: TypeMapping::Mapped(OffsetList(vec![])),\n"));
    assert!(text.contains("// structs\n    // enums\n}\n"));
}

#[test]
fn atom_of_requests() {
    let schema = parse_schema(&chars(
        "server fn get(name: string)\nclient nf log(m: string)\nnamespace jar {\n    server fn open()\n}\n",
    ))
    .unwrap();
    let root = Stack::new(FrameKind::Schema(&schema));
    let proto = Protocol { body: root.anchor(&schema.body) };
    let ns = &schema.body.namespaces[0];
    let inner = root.push(FrameKind::Namespace(ns));
    let funs = vec![root.anchor(&schema.body.functions[0]), inner.anchor(&ns.body.functions[0])];
    let expected = String::from(
        "#[derive(Clone, Debug)]\n\
#[allow(non_camel_case_types, unused)]\n\
pub enum Params {\n\
\x20   Get(super::schema::get::Params),\n\
\x20   Jar_Open(super::schema::jar::open::Params),\n\
}\n\
impl ::lavish::Atom<ProtocolMapping> for Params {\n\
\x20   fn method(&self) -> &'static str {\n\
\x20       match self {\n\
\x20           Params::Get(_) => \"get\",\n\
\x20           Params::Jar_Open(_) => \"jar.open\",\n\
\x20       }\n\
\x20   }\n\
}\n",
    ) + &factual_impl_text(&root, "Params", &funs);
    assert_eq!(proto.atom_text("Params", Kind::Request), expected);
    let log = vec![root.anchor(&schema.body.functions[1])];
    let notifications = proto.atom_text("NotificationParams", Kind::Notification);
    assert!(notifications.contains("    Log(super::schema::log::NotificationParams),\n"));
    assert!(notifications.ends_with(&factual_impl_text(&root, "NotificationParams", &log)));
}

#[test]
fn atom_without_functions() {
    let schema = parse_schema(&chars("server fn get()\n")).unwrap();
    let root = Stack::new(FrameKind::Schema(&schema));
    let proto = Protocol { body: root.anchor(&schema.body) };
    let text = proto.atom_text("NotificationParams", Kind::Notification);
    assert!(text.starts_with(
        "#[derive(Clone, Debug)]\n\
#[allow(non_camel_case_types, unused)]\n\
pub enum NotificationParams {}\n\
impl ::lavish::Atom<ProtocolMapping> for NotificationParams {\n\
\x20   fn method(&self) -> &'static str {\n\
\x20       panic!(\"no variants for NotificationParams\")\n\
\x20   }\n\
}\n"
    ));
    assert!(text.contains("match typ {\n            _ => unreachable!(),\n"));
}
