use lavish::ast::Comment;
use lavish::output::{join_strs, Brackets, CommaList, Scope, Writer};

#[test]
fn test_scope() {
    let mut s = Scope::new();
    s.line("fn sample() {");
    s.push_scope();
    s.line("let a = {");
    s.push_scope();
    let val = 7;
    s.line(&format!("let tmp = {val};", val = val));
    s.line("// a blank line follows");
    s.lf();
    s.line("tmp + 3");
    s.pop_scope();
    s.line("};");
    s.pop_scope();
    s.line("}");
    assert_eq!(
        s.into_string(),
        r#"fn sample() {
    let a = {
        let tmp = 7;
        // a blank line follows

        tmp + 3
    };
}
"#,
    );
}

#[test]
fn write_indents_each_line_of_a_text() {
    let mut s = Scope::new();
    s.push_scope();
    s.write("a\nb\n\nc");
    assert_eq!(s.into_string(), "    a\n    b\n\n    c");
}

#[test]
fn writing_in_two_parts_equals_writing_once() {
    let mut a = Scope::new();
    a.push_scope();
    a.write("x = 1;\ny");
    a.write(" = 2;\n");
    let mut b = Scope::new();
    b.push_scope();
    b.write("x = 1;\ny = 2;\n");
    assert_eq!(a.into_string(), b.into_string());
}

#[test]
fn pop_scope_resumes_the_outer_line() {
    let mut s = Scope::new();
    s.write("let v = ");
    s.push_scope();
    s.write("inner");
    s.pop_scope();
    s.write(";");
    assert_eq!(s.into_string(), "let v =     inner;");
}

#[test]
fn blocks_and_comments() {
    let mut s = Scope::new();
    s.write("fn f()");
    s.open_block();
    s.comment(&Some(Comment { lines: vec!["does f".to_string(), "twice".to_string()] }));
    s.line("g();");
    s.close_block();
    assert_eq!(s.into_string(), "fn f() {\n    /// does f\n    /// twice\n    g();\n}\n");
}

#[test]
fn no_comment_writes_nothing() {
    let mut s = Scope::new();
    s.comment(&None);
    s.comment(&Some(Comment::default()));
    assert_eq!(s.into_string(), "");
}

#[test]
fn brackets_pairs() {
    assert_eq!(Brackets::Round.pair(), ('(', ')'));
    assert_eq!(Brackets::Squares.open(), '[');
    assert_eq!(Brackets::Curly.close(), '}');
    assert_eq!(Brackets::Angle.pair(), ('<', '>'));
}

#[test]
fn comma_lists() {
    let mut l = CommaList::new(Brackets::Angle);
    assert_eq!(l.text(), "<>");
    l.omit_empty();
    assert_eq!(l.text(), "");
    l.item("T");
    l.item("U: Clone");
    assert_eq!(l.text(), "<T, U: Clone>");
    let mut r = CommaList::new(Brackets::Round);
    r.item("self");
    assert_eq!(r.text(), "(self)");
}

#[test]
fn joins() {
    assert_eq!(join_strs(&vec!["a", "b", "c"], "::"), "a::b::c");
    assert_eq!(join_strs(&vec![], "::"), "");
    assert_eq!(join_strs(&vec!["one"], ", "), "one");
}

#[test]
fn writer_gives_back_its_sink() {
    let w = Writer::new(vec![1u8, 2, 3]);
    assert_eq!(w.into_inner(), vec![1u8, 2, 3]);
}

#[test]
fn struct_definitions_and_brackets() {
    let mut s = Scope::new();
    s.def_struct("Cookie", "key: String,\nvalue: String,\n");
    s.write("f");
    s.in_brackets(Brackets::Round, "a, b");
    s.lf();
    assert_eq!(
        s.into_string(),
        "#[derive(Serialize, Deserialize, Debug)]\npub struct Cookie {\n    key: String,\n    value: String,\n}\nf(a, b)\n"
    );
}
