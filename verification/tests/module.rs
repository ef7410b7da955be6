use lavish::ast::BaseType;
use lavish::ir::{Fun, Protocol};
use lavish::codegen::{codegen, workspace_mod_text};
use lavish::ast::{RustTarget, RustTargetWrapper, Target};
use lavish::member::{member_file_text, member_module_text};
use lavish::module::{all_funs, base_type_rust, ns_body_text, plain_type, struct_module_text};
use lavish::parser::parse_schema;

fn chars(s: &str) -> Vec<char> {
    s.chars().collect()
}

/// Four blanks before each line that is not empty.
fn indent(s: &str) -> String {
    s.split_inclusive('\n')
        .map(|l| if l == "\n" { l.to_string() } else { format!("    {}", l) })
        .collect()
}

fn downgrade(side: &str, variant: &str) -> String {
    indent(&format!(
        "pub fn downgrade(p: __::{side}) -> Option<Self> {{\n{}}}\n",
        indent(&format!(
            "match p {{\n{}}}\n",
            indent(&format!("__::{side}::{variant}(p) => Some(p),\n_ => None,\n"))
        ))
    ))
}

const SCHEMA: &str = "// A cookie\nstruct Cookie {\n    // its key\n    key: string,\n    value: Map<string, Array<bytes>>,\n}\nnamespace session {\n    server fn login(name: string) -> (token: Option<Token>)\n    client nf ping(n: int32)\n}\n";

#[test]
fn schema_module_text() {
    let schema = parse_schema(&chars(SCHEMA)).unwrap();
    let login_inner = format!(
        "use futures::prelude::*;\nuse lavish_rpc::serde_derive::*;\nuse super::super::super::__;\n\n\
         #[derive(Serialize, Deserialize, Debug)]\npub struct Params {{\n    pub name: String,\n}}\n\
         \nimpl Params {{\n{}}}\n\
         \n#[derive(Serialize, Deserialize, Debug)]\npub struct Results {{\n    pub token: Option<super::Token>,\n}}\n\
         \nimpl Results {{\n{}}}\n",
        downgrade("Params", "session__login"),
        downgrade("Results", "session__login"),
    );
    let ping_inner = format!(
        "use futures::prelude::*;\nuse lavish_rpc::serde_derive::*;\nuse super::super::super::__;\n\n\
         #[derive(Serialize, Deserialize, Debug)]\npub struct Params {{\n    pub n: i32,\n}}\n\
         \nimpl Params {{\n{}}}\n",
        downgrade("NotificationParams", "session__ping"),
    );
    let session_body = format!(
        "use lavish_rpc::serde_derive::*;\n\npub mod login {{\n{}}}\n\npub mod ping {{\n{}}}\n\n",
        indent(&login_inner),
        indent(&ping_inner),
    );
    let expected = format!(
        "pub mod session {{\n{}}}\n\nuse lavish_rpc::serde_derive::*;\n\n\
         /// A cookie\n#[derive(Serialize, Deserialize, Debug)]\npub struct Cookie {{\n    /// its key\n    pub key: String,\n    pub value: ::std::collections::HashMap<String, Vec<Vec<u8>>>,\n}}\n\n",
        indent(&session_body),
    );
    assert_eq!(ns_body_text(&schema.body, 0), expected);
}

#[test]
fn schema_module_depth_counts_supers() {
    let schema = parse_schema(&chars("server fn f()\n")).unwrap();
    let text = ns_body_text(&schema.body, 2);
    assert!(text.contains("use super::super::super::super::__;\n"));
    assert!(text.starts_with("use lavish_rpc::serde_derive::*;\n\npub mod f {\n"));
}

#[test]
fn same_named_declarations_keep_the_first_place_and_the_last_body() {
    let schema = parse_schema(&chars(
        "struct A {\n    x: bool,\n}\nstruct B {}\nstruct A {\n    y: bool,\n}\n",
    ))
    .unwrap();
    let text = ns_body_text(&schema.body, 0);
    let a = text.find("pub struct A").unwrap();
    let b = text.find("pub struct B").unwrap();
    assert!(a < b);
    assert!(text.contains("pub y: bool,"));
    assert!(!text.contains("pub x: bool,"));
    assert_eq!(text.matches("pub struct A").count(), 1);
}

#[test]
fn plain_rust_types() {
    assert_eq!(base_type_rust(BaseType::UInt64), "u64");
    assert_eq!(base_type_rust(BaseType::Timestamp), "::lavish_rpc::DateTime");
    let schema = parse_schema(&chars("struct S {\n    a: Option<Array<float64>>,\n    u: foo.Bar,\n}\n")).unwrap();
    let f = &schema.body.structs[0].fields;
    assert_eq!(plain_type(&f[0].typ), "Option<Vec<f64>>");
    assert_eq!(plain_type(&f[1].typ), "super::foo.Bar");
    assert_eq!(
        struct_module_text(&schema.body.structs[0]),
        "#[derive(Serialize, Deserialize, Debug)]\npub struct S {\n    pub a: Option<Vec<f64>>,\n    pub u: super::foo.Bar,\n}\n\n"
    );
}

#[test]
fn functions_of_a_schema_in_order() {
    let schema = parse_schema(&chars(
        "server fn top() {\n    client fn inner()\n}\nnamespace a {\n    namespace b {\n        server fn deep()\n    }\n    server fn mid()\n}\n",
    ))
    .unwrap();
    let funs = all_funs(&schema.body);
    let names: Vec<String> = funs.iter().map(|f| f.rpc_name()).collect();
    assert_eq!(names, vec!["a.b.deep", "a.mid", "top", "top.inner"]);
    assert_eq!(funs[0].variant(), "a__b__deep");
    assert_eq!(funs[3].qualified_name(), "top::inner");
}

#[test]
fn same_named_functions_are_listed_once() {
    let schema = parse_schema(&chars("server fn f(a: bool)\nserver fn g()\nserver fn f()\n")).unwrap();
    let funs = all_funs(&schema.body);
    let names: Vec<String> = funs.iter().map(|f| f.rpc_name()).collect();
    assert_eq!(names, vec!["f", "g"]);
    assert_eq!(funs[0].params().is_empty(), true);
}

#[test]
fn member_module_of_an_empty_schema() {
    let schema = parse_schema(&chars("")).unwrap();
    let funs = all_funs(&schema.body);
    let refs: Vec<&Fun> = funs.iter().collect();
    let text = member_module_text(&refs, &schema.body);
    let proto = Protocol { funs: &refs, depth: 0 }.to_string();
    let head = format!(
        "// This file is generated by lavish: DO NOT EDIT\n// https://github.com/fasterthanlime/lavish\n\n\
         #![cfg_attr(rustfmt, rustfmt_skip)]\n#![allow(clippy::all)]\n#![allow(unknown_lints)]\n#![allow(unused)]\n\n\
         pub use __::*;\n\n\n//============= FIXME: experimental (start)\n{}\n//============= FIXME: experimental (end)\n\nmod __ {{\n",
        proto
    );
    assert!(text.starts_with(&head));
    assert!(text.ends_with("    {\n        PeerBuilder::new(conn, pool)\n    }\n}\n"));
    assert!(text.contains("    pub enum Params {\n    }\n"));
    assert!(text.contains("    impl rpc::Atom for Params {\n        fn method(&self) -> &'static str {\n            match self {\n                _ => unimplemented!()\n            }\n        }\n"));
    assert!(text.contains("\n    use lavish_rpc::serde_derive::*;\n\n"));
}

#[test]
fn member_module_of_a_request() {
    let schema = parse_schema(&chars("server fn get(key: string) -> (value: string)\nclient nf ping()\n")).unwrap();
    let funs = all_funs(&schema.body);
    let refs: Vec<&Fun> = funs.iter().collect();
    let text = member_module_text(&refs, &schema.body);
    assert!(text.contains("    pub enum Params {\n        get(get::Params),\n    }\n"));
    assert!(text.contains("    pub enum NotificationParams {\n        ping(ping::Params),\n    }\n"));
    assert!(text.contains(
        "    impl Client {\n        pub async fn get(&self, p: get::Params) -> Result<get::Results, lavish_rpc::Error> {\n            self.root.call(\n                Params::get(p),\n                get::Results::downgrade,\n            ).await\n        }\n\n    }\n"
    ));
    assert!(text.contains("                Params::get(_) => \"get\",\n"));
    assert!(text.contains("                \"get\" =>\n                    Ok(Params::get(deser::<get::Params>(de)?)),\n"));
    assert!(text.contains("        state: Arc<T>,\n        get: Slot<T>,\n"));
    assert!(text.contains("                get: None,\n"));
    assert!(text.contains(
        "        pub fn on_get<F, FT> (&mut self, f: F)\n        where\n            F: Fn(Call<T, get::Params>) -> FT + Sync + Send + 'static,\n            FT: Future<Output = Result<get::Results, lavish_rpc::Error>> + Send + 'static,\n        {\n            self.get = Some(Box::new(move |state, client, params| {\n                Box::pin(\n                    f(Call {\n                        state, client,\n                        params: get::Params::downgrade(params).unwrap(),\n                    }).map_ok(Results::get)\n                )\n            }));\n        }\n"
    ));
    assert!(text.contains("                Params::get(_) => self.get.as_ref(),\n"));
    assert!(text.contains("    pub mod get {\n        use futures::prelude::*;\n"));
}

#[test]
fn workspace_outputs() {
    let a = parse_schema(&chars("server fn ping()\n")).unwrap();
    let b = parse_schema(&chars("struct S {\n    x: bool,\n}\nclient nf note(m: string)\n")).unwrap();
    let g = codegen(&Target::Rust(RustTarget { wrapper: RustTargetWrapper::Mod }));
    let names = vec!["alpha", "beta"];
    let files = g.emit_workspace(&names, &vec![&a.body, &b.body]);
    assert_eq!(files.len(), 3);
    assert_eq!(files[0].path, "alpha/mod.rs");
    assert_eq!(files[1].path, "beta/mod.rs");
    assert_eq!(files[2].path, "mod.rs");
    for (file, schema) in files.iter().zip([&a, &b]) {
        let funs = all_funs(&schema.body);
        let refs: Vec<&Fun> = funs.iter().collect();
        assert_eq!(file.text, member_module_text(&refs, &schema.body));
        assert_eq!(file.text, member_file_text(&schema.body));
    }
    assert!(files[0].text.contains("ping"));
    assert_eq!(files[2].text, workspace_mod_text(&names));
    assert!(files[2].text.ends_with("pub mod alpha;\npub mod beta;\n"));
}
