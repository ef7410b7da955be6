use lavish::merged::merged_modules_text;
use lavish::parser::parse_schema;

fn chars(s: &str) -> Vec<char> {
    s.chars().collect()
}

fn line(ind: usize, s: &str) -> String {
    format!("{}{}\n", " ".repeat(ind), s)
}

fn header() -> String {
    let lines: Vec<(usize, &str)> = vec![
        (0, "// This file is generated by lavish: DO NOT EDIT"),
        (0, "// https://github.com/fasterthanlime/lavish"),
        (0, ""),
        (0, "// Disable some lints, since this file is generated."),
        (0, "#![allow(clippy)]"),
        (0, "#![allow(unknown_lints)]"),
        (0, ""),
        (0, "#[derive(Debug)]"),
        (0, "enum Message {"),
        (4, "Request {"),
        (8, "id: u32,"),
        (8, "params: Params,"),
        (4, "}"),
        (4, "Response {"),
        (8, "id: u32,"),
        (8, "error: Option<string>,"),
        (8, "results: Results,"),
        (4, "}"),
        (4, "Notification {"),
        (8, "params: NotificationParams,"),
        (4, "}"),
        (0, "}"),
        (0, ""),
        (0, "impl Serialize for Message {"),
        (4, "fn serialize<S>(&self, s: S) -> Result<S::Ok, S::Error>"),
        (8, "where S: Serializer,"),
        (4, "{"),
        (8, "match self {"),
        (12, "Message::Request { id, params, .. } => {"),
        (16, "let mut seq = s.serialize_seq(Some(4))?;"),
        (16, "seq.serialize_element(&0)?;"),
        (16, "seq.serialize_element(&id)?;"),
        (16, "seq.serialize_element(params.method())?;"),
        (16, "seq.serialize_element(&params)?;"),
        (16, "seq.end()"),
        (12, "}"),
        (12, "Message::Response { id, error, results, .. } => {"),
        (16, "let mut seq = s.serialize_seq(Some(4))?;"),
        (16, "seq.serialize_element(&1)?;"),
        (16, "seq.serialize_element(&id)?;"),
        (16, "seq.serialize_element(error)?;"),
        (16, "seq.serialize_element(&results)?;"),
        (16, "seq.end()"),
        (12, "}"),
        (12, "Message::Notification { params, method, .. } => {"),
        (16, "let mut seq = s.serialize_seq(Some(4))?;"),
        (16, "seq.serialize_element(&2)?;"),
        (16, "seq.serialize_element(params.method())?;"),
        (16, "seq.serialize_element(&params)?;"),
        (16, "seq.end()"),
        (12, "}"),
        (8, "}"),
        (4, "}"),
        (0, "}")
    ];
    lines.iter().map(|(i, s)| line(*i, s)).collect()
}

fn fun_block(ind: usize, comment: Option<&str>, name: &str, params: &[&str], results: &[&str]) -> String {
    let mut s = String::new();
    if let Some(c) = comment {
        s += &line(ind, &format!("// {}", c));
    }
    s += &line(ind, &format!("pub mod {} {{", name));
    s += &line(ind + 4, "use serde_derive::*;");
    s += &line(ind + 4, "");
    for (kind, fields) in [("Params", params), ("Results", results)].iter() {
        if *kind == "Results" {
            s += &line(ind + 4, "");
        }
        s += &line(ind + 4, "#[derive(Serialize, Deserialize, Debug)]");
        s += &line(ind + 4, &format!("pub struct {} {{", kind));
        for f in fields.iter() {
            s += &line(ind + 8, f);
        }
        s += &line(ind + 4, "}");
    }
    s += &line(ind, "}");
    s += &line(ind, "");
    s
}

#[test]
fn namespaces_of_several_schemas_are_merged() {
    let a = parse_schema(&chars(
        "namespace cookies {\n    // Gets one\n    server fn get(name: string) -> (value: string)\n}\n",
    ))
    .unwrap();
    let b = parse_schema(&chars(
        "namespace cookies {\n    namespace jar {\n        server fn open_it()\n    }\n    server fn set(name: string)\n}\nnamespace other {}\n",
    ))
    .unwrap();
    let text = merged_modules_text(&vec![a, b]);
    let mut expected = header();
    expected += &line(0, "");
    expected += &line(0, "pub mod cookies {");
    expected += &line(4, "pub mod jar {");
    expected += &fun_block(8, None, "open_it", &[], &[]);
    expected += &line(4, "}");
    expected += &line(4, "");
    // A comment line followed by a line end does not attach to the function
    // after it: the schema grammar reads it as a comment line of its own.
    expected += &fun_block(4, None, "get", &["name: string,"], &["value: string,"]);
    expected += &fun_block(4, None, "set", &["name: string,"], &[]);
    expected += &line(0, "}");
    expected += &line(0, "");
    expected += &line(0, "");
    expected += &line(0, "pub mod other {");
    expected += &line(0, "}");
    expected += &line(0, "");
    expected += &line(0, "// Should list \"cookies.jar.OpenIt\" in params");
    expected += &line(0, "// Should list \"cookies.Get\" in params");
    expected += &line(0, "// Should list \"cookies.Set\" in params");
    assert_eq!(text, expected);
}

#[test]
fn a_later_function_of_the_same_name_replaces_the_earlier() {
    let a = parse_schema(&chars("namespace n {\n    server fn f(a: bool)\n    server fn g()\n}\n")).unwrap();
    let b = parse_schema(&chars("namespace n {\n    server fn f(b: bool)\n}\n")).unwrap();
    let text = merged_modules_text(&vec![a, b]);
    assert!(text.contains("b: bool,"));
    assert!(!text.contains("a: bool,"));
    let f = text.find("pub mod f {").unwrap();
    let g = text.find("pub mod g {").unwrap();
    assert!(f < g);
}

#[test]
fn no_schemas_give_the_header_alone() {
    assert_eq!(merged_modules_text(&vec![]), header());
}

#[test]
fn call_names_use_mixed_and_camel_case() {
    let a = parse_schema(&chars("namespace my_ns {\n    server fn get_all()\n}\n")).unwrap();
    let text = merged_modules_text(&vec![a]);
    assert!(text.ends_with("// Should list \"myNs.GetAll\" in params\n"));
    assert!(text.contains("    pub mod get_all {\n"));
}
