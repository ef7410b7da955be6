use lavish::anchored::{FrameKind, Stack};
use lavish::parser::parse_schema;
use lavish::ast::{Comment, EnumDecl, EnumVariant, Identifier, Span};
use lavish::symbols::{decimal_text, enum_symbol_text, factual_impl_text, function_symbol_text, struct_symbol_text, symbols_text};

fn chars(s: &str) -> Vec<char> {
    s.chars().collect()
}

#[test]
fn struct_symbol() {
    let schema = parse_schema(&chars(
        "struct Cookie {\n    // The key\n    key: string,\n    data: bytes,\n    jar: Jar,\n}\nstruct Jar {}\n",
    ))
    .unwrap();
    let root = Stack::new(FrameKind::Schema(&schema));
    let node = root.anchor(&schema.body.structs[0]);
    let text = struct_symbol_text(&node).unwrap();
    let expected = "#[derive(Clone, Debug, ::lavish::serde_derive::Serialize, ::lavish::serde_derive::Deserialize)]\n\
pub struct Cookie {\n\
\x20   /// The key\n\
\x20   pub key: String,\n\
\x20   #[serde(with = \"::lavish::serde_bytes\")]\n\
\x20   pub data: ::lavish::facts::Bin,\n\
\x20   pub jar: Jar,\n\
}\n\
\n\
impl ::lavish::facts::Factual<super::protocol::TranslationTables> for Cookie {\n\
\x20   fn read<R>(rd: &mut ::lavish::facts::Reader<R>) -> Result<Self, ::lavish::facts::Error>\n\
\x20   where\n\
\x20       Self: Sized,\n\
\x20       R: ::std::io::Read,\n\
\x20    {\n\
\x20       rd.expect_array_len(3)?;\n\
\x20       Ok(Self {\n\
\x20           key: Self::subread(rd)?,\n\
\x20           data: Self::subread(rd)?,\n\
\x20           jar: Self::subread(rd)?,\n\
\x20       })\n\
\x20   }\n\
\n\
\x20   fn write<W>(&self, tt: &super::protocol::TranslationTables, wr: &mut W) -> Result<(), ::lavish::facts::Error>\n\
\x20   where\n\
\x20       Self: Sized,\n\
\x20       W: ::std::io::Write,\n\
\x20    {\n\
\x20       tt.Cookie.write(wr, |wr, i| match i {\n\
\x20           0 => self.key.write(tt, wr),\n\
\x20           1 => self.data.write(tt, wr),\n\
\x20           2 => self.jar.write(tt, wr),\n\
\x20           _ => unreachable!(),\n\
\x20       })\n\
\x20   }\n\
}\n";
    assert_eq!(text, expected);
}

#[test]
fn struct_symbol_with_unknown_type() {
    let schema = parse_schema(&chars("struct S {\n    a: bool,\n    b: Nope,\n    c: AlsoNope,\n}\n")).unwrap();
    let root = Stack::new(FrameKind::Schema(&schema));
    let node = root.anchor(&schema.body.structs[0]);
    let err = struct_symbol_text(&node).unwrap_err();
    assert_eq!(err.text, "Nope");
}

#[test]
fn decimal_numbers() {
    assert_eq!(decimal_text(0), "0");
    assert_eq!(decimal_text(7), "7");
    assert_eq!(decimal_text(10), "10");
    assert_eq!(decimal_text(4096), "4096");
}

fn ident(text: &str) -> Identifier {
    Identifier { span: Span { offset: 0, len: text.len() }, text: text.to_string() }
}

#[test]
fn enum_symbol() {
    let schema = parse_schema(&chars("")).unwrap();
    let root = Stack::new(FrameKind::Schema(&schema));
    let e = EnumDecl {
        loc: Span { offset: 0, len: 0 },
        comment: Some(Comment { lines: vec!["Flavors".to_string()] }),
        name: ident("Flavor"),
        variants: vec![
            EnumVariant { loc: Span { offset: 0, len: 0 }, comment: None, name: ident("Vanilla") },
            EnumVariant {
                loc: Span { offset: 0, len: 0 },
                comment: Some(Comment { lines: vec!["The best".to_string()] }),
                name: ident("Chocolate"),
            },
        ],
    };
    let node = root.anchor(&e);
    let expected = "/// Flavors\n\
#[derive(Clone, Copy, Debug, ::lavish::serde_derive::Serialize, ::lavish::serde_derive::Deserialize)]\n\
#[repr(u32)]\n\
pub enum Flavor {\n\
\x20   Vanilla = 0,\n\
\x20   /// The best\n\
\x20   Chocolate = 1,\n\
}\n\
\n\
impl ::lavish::facts::Factual<super::protocol::TranslationTables> for Flavor {\n\
\x20   fn read<R>(rd: &mut ::lavish::facts::Reader<R>) -> Result<Self, ::lavish::facts::Error>\n\
\x20   where\n\
\x20       Self: Sized,\n\
\x20       R: ::std::io::Read,\n\
\x20    {\n\
\x20       let value: u32 = rd.read_int()?;\n\
\x20       use Flavor as E;\n\
\x20       Ok(match value {\n\
\x20           0 => E::Vanilla,\n\
\x20           1 => E::Chocolate,\n\
\x20           _ => return Err(::lavish::facts::Error::IncompatibleSchema(format!(\"Received unrecognized enum variant for Flavor: {:#?}\", value))),\n\
\x20       })\n\
\x20   }\n\
\n\
\x20   fn write<W>(&self, tt: &super::protocol::TranslationTables, wr: &mut W) -> Result<(), ::lavish::facts::Error>\n\
\x20   where\n\
\x20       Self: Sized,\n\
\x20       W: ::std::io::Write,\n\
\x20    {\n\
\x20       let offsets = tt.Flavor.validate()?;\n\
\x20       match offsets.get(*self as usize)\n\
\x20        {\n\
\x20           Some(value) => value.write(tt, wr),\n\
\x20           None => Err(::lavish::facts::Error::IncompatibleSchema(format!(\"Enum variant for Flavor not known by the peer: {:#?}\", self))),\n\
\x20       }\n\
\x20   }\n\
}\n";
    assert_eq!(enum_symbol_text(&node), expected);
}

#[test]
fn factual_impl_of_params() {
    let schema = parse_schema(&chars(
        "server fn ping()\nnamespace cookies {\n    server fn get_one(name: string)\n}\n",
    ))
    .unwrap();
    let root = Stack::new(FrameKind::Schema(&schema));
    let ns = &schema.body.namespaces[0];
    let inner = root.push(FrameKind::Namespace(ns));
    let funs = vec![root.anchor(&schema.body.functions[0]), inner.anchor(&ns.body.functions[0])];
    let expected = "impl ::lavish::facts::Factual<super::protocol::ProtocolMapping> for Params {\n\
\x20   fn read<R>(rd: &mut ::lavish::facts::Reader<R>) -> Result<Self, ::lavish::facts::Error>\n\
\x20   where\n\
\x20       Self: Sized,\n\
\x20       R: ::std::io::Read,\n\
\x20    {\n\
\x20       let len = rd.read_array_len()?;\n\
\x20       if len != 2 {\n\
\x20           unreachable!();\n\
\x20       }\n\
\x20       let typ: u32 = rd.read_int()?;\n\
\x20       match typ {\n\
\x20           0 => Ok(Params::Ping(Self::subread(rd)?)),\n\
\x20           1 => Ok(Params::Cookies_GetOne(Self::subread(rd)?)),\n\
\x20           _ => unreachable!(),\n\
\x20       }\n\
\x20   }\n\
\n\
\x20   fn write<W>(&self, mapping: &super::protocol::ProtocolMapping, wr: &mut W) -> Result<(), ::lavish::facts::Error>\n\
\x20   where\n\
\x20       W: ::std::io::Write,\n\
\x20    {\n\
\x20       let o = &mapping.__Params;\n\
\x20       match self {\n\
\x20           Params::Ping(value) =>\n\
\x20               o.write_union(wr, mapping, \"Params\", \"Ping\", 0, value),\n\
\x20           Params::Cookies_GetOne(value) =>\n\
\x20               o.write_union(wr, mapping, \"Params\", \"Cookies_GetOne\", 1, value),\n\
\x20           _ => unreachable!(),\n\
\x20       }\n\
\x20   }\n\
}\n";
    assert_eq!(factual_impl_text(&root, "Params", &funs), expected);
}

fn empty_struct_in_module(name: &str, variant: &str) -> String {
    format!(
        "    #[derive(Clone, Debug, ::lavish::serde_derive::Serialize, ::lavish::serde_derive::Deserialize)]\n\
\x20   pub struct {name} {{\n\
\x20   }}\n\
\n\
\x20   impl ::lavish::facts::Factual<super::super::protocol::TranslationTables> for {name} {{\n\
\x20       fn read<R>(rd: &mut ::lavish::facts::Reader<R>) -> Result<Self, ::lavish::facts::Error>\n\
\x20       where\n\
\x20           Self: Sized,\n\
\x20           R: ::std::io::Read,\n\
\x20        {{\n\
\x20           rd.expect_array_len(0)?;\n\
\x20           Ok(Self {{\n\
\x20           }})\n\
\x20       }}\n\
\n\
\x20       fn write<W>(&self, tt: &super::super::protocol::TranslationTables, wr: &mut W) -> Result<(), ::lavish::facts::Error>\n\
\x20       where\n\
\x20           Self: Sized,\n\
\x20           W: ::std::io::Write,\n\
\x20        {{\n\
\x20           tt.{variant}.write(wr, |wr, i| match i {{\n\
\x20               _ => unreachable!(),\n\
\x20           }})\n\
\x20       }}\n\
\x20   }}\n"
    )
}

#[test]
fn function_symbol() {
    let schema = parse_schema(&chars("server fn ping()\n")).unwrap();
    let root = Stack::new(FrameKind::Schema(&schema));
    let node = root.anchor(&schema.body.functions[0]);
    let text = function_symbol_text(&node).unwrap();
    let expected = String::from("pub use ping::method as ping;\npub mod ping {\n")
        + "    pub fn method() -> super::super::protocol::Slottable<Params, Results> {\n"
        + "        super::super::protocol::Slottable { phantom: std::marker::PhantomData }\n"
        + "    }\n"
        + &empty_struct_in_module("Params", "Ping_Params")
        + &empty_struct_in_module("Results", "Ping_Results")
        + "\n"
        + "    impl super::super::protocol::Callable<Results> for Params {\n"
        + "        fn upcast_params(self) -> super::super::protocol::Params {\n"
        + "            super::super::protocol::Params::Ping(self)\n"
        + "        }\n"
        + "        fn downcast_results(results: super::super::protocol::Results) -> Option<Results> {\n"
        + "            match results {\n"
        + "                super::super::protocol::Results::Ping(r) => Some(r),\n"
        + "                _ => None,\n"
        + "            }\n"
        + "        }\n"
        + "    }\n"
        + "\n"
        + "    impl super::super::protocol::Implementable<Params> for Results {\n"
        + "        fn method() -> &'static str {\n"
        + "            \"ping\"\n"
        + "        }\n"
        + "        fn upcast_results(self) -> super::super::protocol::Results {\n"
        + "            super::super::protocol::Results::Ping(self)\n"
        + "        }\n"
        + "        fn downcast_params(params: super::super::protocol::Params) -> Option<Params> {\n"
        + "            match params {\n"
        + "                super::super::protocol::Params::Ping(p) => Some(p),\n"
        + "                _ => None,\n"
        + "            }\n"
        + "        }\n"
        + "    }\n"
        + "}\n";
    assert_eq!(text, expected);
}

#[test]
fn function_symbol_nested() {
    let schema = parse_schema(&chars(
        "server fn session() {\n    client fn confirm(code: uint32) -> (ok: bool)\n}\n",
    ))
    .unwrap();
    let root = Stack::new(FrameKind::Schema(&schema));
    let node = root.anchor(&schema.body.functions[0]);
    let text = function_symbol_text(&node).unwrap();
    assert!(text.starts_with("pub use session::method as session;\npub mod session {\n"));
    assert!(text.contains("\n\n    pub use confirm::method as confirm;\n    pub mod confirm {\n"));
    assert!(text.contains("            \"session.confirm\"\n"));
    assert!(text.contains("super::super::super::protocol::Params::Session_Confirm(self)\n"));
    assert!(text.contains("        pub code: u32,\n"));
    assert!(text.contains("tt.Session_Confirm_Results.write("));
    assert!(text.ends_with("        }\n    }\n}\n"));
}

#[test]
fn function_symbol_with_unknown_type() {
    let schema = parse_schema(&chars(
        "server fn outer(a: Nope) {\n    server fn inner(b: AlsoNope)\n}\n",
    ))
    .unwrap();
    let root = Stack::new(FrameKind::Schema(&schema));
    let node = root.anchor(&schema.body.functions[0]);
    assert_eq!(function_symbol_text(&node).unwrap_err().text, "Nope");
    let schema = parse_schema(&chars(
        "server fn outer(a: bool) {\n    server fn inner(b: AlsoNope)\n}\n",
    ))
    .unwrap();
    let root = Stack::new(FrameKind::Schema(&schema));
    let node = root.anchor(&schema.body.functions[0]);
    assert_eq!(function_symbol_text(&node).unwrap_err().text, "AlsoNope");
}

fn indent(text: &str) -> String {
    text.lines()
        .map(|l| if l.is_empty() { "\n".to_string() } else { format!("    {}\n", l) })
        .collect()
}

#[test]
fn symbols_of_body() {
    let schema = parse_schema(&chars(
        "struct Cookie {\n    key: string,\n}\nserver fn ping()\nnamespace jar {\n    struct Lid {}\n}\n",
    ))
    .unwrap();
    let root = Stack::new(FrameKind::Schema(&schema));
    let text = symbols_text(&root.anchor(&schema.body)).unwrap();
    let cookie = struct_symbol_text(&root.anchor(&schema.body.structs[0])).unwrap();
    let ping = function_symbol_text(&root.anchor(&schema.body.functions[0])).unwrap();
    let ns = &schema.body.namespaces[0];
    let inner = root.push(FrameKind::Namespace(ns));
    let lid = struct_symbol_text(&inner.anchor(&ns.body.structs[0])).unwrap();
    assert!(lid.contains("tt.Jar_Lid.write("));
    assert!(lid.contains("super::super::protocol::TranslationTables"));
    let expected = cookie + &ping + "pub mod jar {\n" + &indent(&lid) + "}\n";
    assert_eq!(text, expected);
}

#[test]
fn symbols_of_body_with_unknown_type() {
    let schema = parse_schema(&chars(
        "struct Cookie {\n    key: string,\n}\nnamespace jar {\n    struct Lid {\n        x: Missing,\n    }\n}\n",
    ))
    .unwrap();
    let root = Stack::new(FrameKind::Schema(&schema));
    let err = symbols_text(&root.anchor(&schema.body)).unwrap_err();
    assert_eq!(err.text, "Missing");
}
