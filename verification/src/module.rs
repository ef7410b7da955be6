//! The schema part of a generated member module: one Rust module per
//! namespace, a struct per schema struct, and per function a module with
//! its `Params` and `Results` structs.
//!
//! Declarations are taken by name, as an insertion-ordered map keyed by
//! name takes them: each name appears once, where it was first declared,
//! and stands for the last declaration that bears it.
use crate::ast::{
    body_view, fields_view, fun_view, lemma_funs_view_index, lemma_nss_view_index, ns_view,
    structs_view, BaseType, Comment, Field, FunctionDecl, Kind, NamespaceBody, NamespaceDecl,
    SpecComment, SpecField, SpecFunctionDecl, SpecIdentifier, SpecNamespaceBody,
    SpecNamespaceDecl, SpecStructDecl, SpecType, SpecTypeKind, StructDecl, Type, TypeKind,
};
use crate::checker::{
    fun_names, lemma_fun_names, lemma_ns_names, lemma_struct_names,
    names_of, ns_names, struct_names, Named,
};
use crate::ir::{Fun, lowercase_text, replace_dots, replace_dots_exec, snake_case, to_lowercase, to_snake_case};
use crate::lang::indented;
use crate::naming::repeat;
use crate::types::split_dots;
use crate::output::{comment_text, emit, ScopeState};
use indexmap::IndexMap;
use vstd::prelude::*;

verus! {

/// `t` written one level in.
pub open spec fn ind(t: Seq<char>) -> Seq<char> {
    emit(4, ScopeState::NeedIndent, t).0
}

#[verifier::external_type_specification]
#[verifier::external_body]
#[verifier::reject_recursive_types(K)]
#[verifier::reject_recursive_types(V)]
#[verifier::reject_recursive_types(S)]
pub struct ExIndexMap<K, V, S>(IndexMap<K, V, S>);

/// What an `IndexMap` from names to indices holds: its entries, in its
/// order.
pub uninterp spec fn map_entries(m: IndexMap<String, usize>) -> Seq<(Seq<char>, usize)>;

/// The place of the entry whose key is `k`, if there is one.
pub open spec fn key_pos(e: Seq<(Seq<char>, usize)>, k: Seq<char>) -> Option<int>
    decreases e.len(),
{
    if e.len() == 0 {
        None
    } else if e.last().0 == k {
        Some(e.len() - 1)
    } else {
        key_pos(e.drop_last(), k)
    }
}

/// The entries after inserting `k` with `v`: an entry with that key keeps
/// its place and takes `v`; otherwise the new entry goes last.
pub open spec fn entry_insert(e: Seq<(Seq<char>, usize)>, k: Seq<char>, v: usize) -> Seq<(Seq<char>, usize)> {
    match key_pos(e, k) {
        Some(j) => e.update(j, (k, v)),
        None => e.push((k, v)),
    }
}

/// Calls `indexmap::IndexMap::new`: a map with no entry.
#[verifier::external_body]
fn new_name_map() -> (m: IndexMap<String, usize>)
    ensures
        map_entries(m) == Seq::<(Seq<char>, usize)>::empty(),
{
    IndexMap::new()
}

/// Calls `IndexMap::insert`: an entry whose key is equal to `key` keeps its
/// place, takes `value`, and its old value is returned; otherwise the new
/// entry goes last and nothing is returned.
#[verifier::external_body]
fn insert_name(m: &mut IndexMap<String, usize>, key: String, value: usize) -> (r: Option<usize>)
    ensures
        map_entries(*final(m)) == entry_insert(map_entries(*old(m)), key@, value),
        r == match key_pos(map_entries(*old(m)), key@) {
            Some(j) => Some(map_entries(*old(m))[j].1),
            None => None::<usize>,
        },
{
    m.insert(key, value)
}

/// Calls `IndexMap::get_index`: the entry at place `i` in the map's order,
/// if there is one; here, its value.
#[verifier::external_body]
fn value_at(m: &IndexMap<String, usize>, i: usize) -> (r: Option<usize>)
    ensures
        i < map_entries(*m).len() ==> r == Some(map_entries(*m)[i as int].1),
        i >= map_entries(*m).len() ==> r is None,
{
    match m.get_index(i) {
        Some((_, v)) => Some(*v),
        None => None,
    }
}

/// Calls `IndexMap::len`: the number of entries.
#[verifier::external_body]
fn entry_count(m: &IndexMap<String, usize>) -> (n: usize)
    ensures
        n == map_entries(*m).len(),
{
    m.len()
}

/// The entries of an insertion-ordered map after the first `n` names are
/// inserted in turn, each with its own index.
pub open spec fn inserted(names: Seq<SpecIdentifier>, n: int) -> Seq<(Seq<char>, usize)>
    decreases n,
{
    if n <= 0 || n > names.len() {
        Seq::empty()
    } else {
        entry_insert(inserted(names, n - 1), names[n - 1].text, (n - 1) as usize)
    }
}

/// The declarations kept when the first `n` names are inserted in turn
/// into a map keyed by name: in the order in which each name first
/// appears, the index of the last declaration that bears it.
pub open spec fn map_order(names: Seq<SpecIdentifier>, n: int) -> Seq<int> {
    inserted(names, n).map_values(|e: (Seq<char>, usize)| e.1 as int)
}

proof fn lemma_key_pos(e: Seq<(Seq<char>, usize)>, k: Seq<char>)
    ensures
        key_pos(e, k) matches Some(j) ==> 0 <= j < e.len(),
    decreases e.len(),
{
    if e.len() > 0 {
        lemma_key_pos(e.drop_last(), k);
    }
}

/// Every index kept is one of the first `n`.
proof fn lemma_inserted_bounds(names: Seq<SpecIdentifier>, n: int)
    requires
        0 <= n <= names.len(),
    ensures
        forall|j: int| 0 <= j < inserted(names, n).len() ==> (#[trigger] inserted(names, n)[j]).1 < n,
    decreases n,
{
    if n > 0 {
        lemma_inserted_bounds(names, n - 1);
        lemma_key_pos(inserted(names, n - 1), names[n - 1].text);
    }
}

/// The Rust name of a built-in type.
pub open spec fn base_type_name(b: BaseType) -> Seq<char> {
    match b {
        BaseType::Bool => "bool"@,
        BaseType::Int32 => "i32"@,
        BaseType::Int64 => "i64"@,
        BaseType::UInt32 => "u32"@,
        BaseType::UInt64 => "u64"@,
        BaseType::Float32 => "f32"@,
        BaseType::Float64 => "f64"@,
        BaseType::String => "String"@,
        BaseType::Bytes => "Vec<u8>"@,
        BaseType::Timestamp => "::lavish_rpc::DateTime"@,
    }
}

/// A schema type as a Rust type; a user type is named from the parent
/// module, as written.
pub open spec fn plain_type_text(t: SpecType) -> Seq<char>
    decreases t,
{
    match t.kind {
        SpecTypeKind::Base(b) => base_type_name(b),
        SpecTypeKind::Mapping(k, v) => "::std::collections::HashMap<"@ + plain_type_text(*k) + ", "@
            + plain_type_text(*v) + ">"@,
        SpecTypeKind::Option(i) => "Option<"@ + plain_type_text(*i) + ">"@,
        SpecTypeKind::Array(i) => "Vec<"@ + plain_type_text(*i) + ">"@,
        SpecTypeKind::User => "super::"@ + t.text,
    }
}

pub open spec fn doc_text(c: Option<SpecComment>) -> Seq<char> {
    match c {
        Some(c) => comment_text(c.lines),
        None => Seq::empty(),
    }
}

/// `pub name: type,` for each field, each preceded by its comment when
/// `with_comments`.
pub open spec fn fields_text(v: Seq<SpecField>, with_comments: bool) -> Seq<char>
    decreases v.len(),
{
    if v.len() == 0 {
        Seq::empty()
    } else {
        let f = v.last();
        fields_text(v.drop_last(), with_comments) + (if with_comments {
            doc_text(f.comment)
        } else {
            Seq::empty()
        }) + "pub "@ + f.name.text + ": "@ + plain_type_text(f.typ) + ",\n"@
    }
}

/// A serializable struct declaration.
pub open spec fn def_struct_text(name: Seq<char>, fields: Seq<char>) -> Seq<char> {
    "#[derive(Serialize, Deserialize, Debug)]\n"@ + "pub struct "@ + name + " {\n"@ + ind(fields)
        + "}\n"@
}

/// A schema struct: its comment, its declaration, then a blank line.
pub open spec fn struct_text(s: SpecStructDecl) -> Seq<char> {
    doc_text(s.comment) + def_struct_text(s.name.text, fields_text(s.fields, true)) + "\n"@
}

pub open spec fn structs_text(v: Seq<SpecStructDecl>, order: Seq<int>, n: int) -> Seq<char>
    decreases n,
{
    if n <= 0 || n > order.len() {
        Seq::empty()
    } else {
        let k = order[n - 1];
        structs_text(v, order, n - 1) + if 0 <= k < v.len() {
            struct_text(v[k])
        } else {
            Seq::empty()
        }
    }
}

/// The function that picks a function's own variant out of a protocol enum.
pub open spec fn downgrade_text(side: Seq<char>, variant: Seq<char>) -> Seq<char> {
    ind(
        "pub fn downgrade(p: __::"@ + side + ") -> Option<Self> {\n"@ + ind(
            "match p {\n"@ + ind(
                "__::"@ + side + "::"@ + variant + "(p) => Some(p),\n"@ + "_ => None,\n"@,
            ) + "}\n"@,
        ) + "}\n"@,
    )
}

/// The variant that stands for the function `name` declared under `prefix`.
pub open spec fn fun_variant(prefix: Seq<char>, name: Seq<char>) -> Seq<char> {
    lowercase_text(replace_dots(prefix + name))
}

/// The text of a namespace body under `prefix`, `depth` modules below the
/// member module: its namespaces, then its structs, then its functions.
pub open spec fn body_text(b: SpecNamespaceBody, prefix: Seq<char>, depth: nat) -> Seq<char>
    decreases b, 0int,
{
    let no = map_order(ns_names(b.namespaces), b.namespaces.len() as int);
    let so = map_order(struct_names(b.structs), b.structs.len() as int);
    let fo = map_order(fun_names(b.functions), b.functions.len() as int);
    nss_text(b.namespaces, no, no.len() as int, prefix, depth) + "use lavish_rpc::serde_derive::*;\n"@
        + "\n"@ + structs_text(b.structs, so, so.len() as int) + funs_text(
        b.functions,
        fo,
        fo.len() as int,
        prefix,
        depth,
    )
}

pub open spec fn nss_text(
    v: Seq<SpecNamespaceDecl>,
    order: Seq<int>,
    n: int,
    prefix: Seq<char>,
    depth: nat,
) -> Seq<char>
    decreases v, n,
{
    if n <= 0 || n > order.len() {
        Seq::empty()
    } else {
        let k = order[n - 1];
        nss_text(v, order, n - 1, prefix, depth) + if 0 <= k < v.len() {
            ns_text(v[k], prefix, depth)
        } else {
            Seq::empty()
        }
    }
}

/// A namespace as `pub mod name { .. }` and a blank line; its body is one
/// module further down.
pub open spec fn ns_text(n: SpecNamespaceDecl, prefix: Seq<char>, depth: nat) -> Seq<char>
    decreases n, 0int,
{
    "pub mod "@ + n.name.text + " {\n"@ + ind(
        body_text(n.body, prefix + n.name.text + "."@, depth + 1),
    ) + "}\n"@ + "\n"@
}

pub open spec fn funs_text(
    v: Seq<SpecFunctionDecl>,
    order: Seq<int>,
    n: int,
    prefix: Seq<char>,
    depth: nat,
) -> Seq<char>
    decreases v, n,
{
    if n <= 0 || n > order.len() {
        Seq::empty()
    } else {
        let k = order[n - 1];
        funs_text(v, order, n - 1, prefix, depth) + if 0 <= k < v.len() {
            fun_text(v[k], prefix, depth)
        } else {
            Seq::empty()
        }
    }
}

/// What a function's module holds: imports, `Params`, and for a request
/// `Results`, each with its `downgrade`, then the functions nested in it.
pub open spec fn fun_inner_text(f: SpecFunctionDecl, prefix: Seq<char>, depth: nat) -> Seq<char>
    decreases f, 0int,
{
    let variant = fun_variant(prefix, f.name.text);
    let notification = f.kind == Kind::Notification;
    "use futures::prelude::*;\n"@ + "use lavish_rpc::serde_derive::*;\n"@ + "use "@ + repeat(
        "super::"@,
        depth + 2,
    ) + "__;\n"@ + "\n"@ + def_struct_text("Params"@, fields_text(f.params, false)) + "\n"@
        + "impl Params {\n"@ + downgrade_text(
        if notification {
            "NotificationParams"@
        } else {
            "Params"@
        },
        variant,
    ) + "}\n"@ + (if notification {
        Seq::empty()
    } else {
        "\n"@ + def_struct_text("Results"@, fields_text(f.results, false)) + "\n"@
            + "impl Results {\n"@ + downgrade_text("Results"@, variant) + "}\n"@
    }) + match f.body {
        Some(b) => body_text(b, prefix + f.name.text + "."@, depth + 1),
        None => Seq::empty(),
    }
}

/// A function as its comment, `pub mod snake_name { .. }` and a blank line.
pub open spec fn fun_text(f: SpecFunctionDecl, prefix: Seq<char>, depth: nat) -> Seq<char>
    decreases f, 1int,
{
    doc_text(f.comment) + "pub mod "@ + snake_case(f.name.text) + " {\n"@ + ind(
        fun_inner_text(f, prefix, depth),
    ) + "}\n"@ + "\n"@
}


pub open spec fn ints(v: Seq<usize>) -> Seq<int> {
    v.map_values(|k: usize| k as int)
}

/// The indices that `map_order` keeps, for the names of `items`: each name
/// is inserted, with its index, into an insertion-ordered map.
pub(crate) fn order_of<T: Named>(items: &Vec<T>) -> (r: Vec<usize>)
    ensures
        ints(r@) == map_order(names_of(items@), items.len() as int),
        forall|j: int| 0 <= j < r.len() ==> #[trigger] r@[j] < items.len(),
{
    let ghost names = names_of(items@);
    let n = items.len();
    let mut m = new_name_map();
    for i in 0..n
        invariant
            n == items.len(),
            names == names_of(items@),
            map_entries(m) == inserted(names, i as int),
    {
        let name = items[i].name();
        assert(names[i as int] == name@);
        let key = name.text.clone();
        insert_name(&mut m, key, i);
    }
    proof {
        lemma_inserted_bounds(names, n as int);
    }
    let ghost kept = inserted(names, n as int);
    let count = entry_count(&m);
    let mut out: Vec<usize> = Vec::new();
    for j in 0..count
        invariant
            count == kept.len(),
            map_entries(m) == kept,
            kept == inserted(names, n as int),
            n == items.len(),
            forall|k: int| 0 <= k < kept.len() ==> (#[trigger] kept[k]).1 < n,
            out@ == kept.map_values(|e: (Seq<char>, usize)| e.1).subrange(0, j as int),
    {
        match value_at(&m, j) {
            Some(v) => {
                out.push(v);
            },
            None => {},
        }
        assert(out@ =~= kept.map_values(|e: (Seq<char>, usize)| e.1).subrange(0, j + 1));
    }
    assert(out@ =~= kept.map_values(|e: (Seq<char>, usize)| e.1));
    assert(ints(out@) =~= map_order(names, n as int));
    out
}

fn cat(a: String, b: &str) -> (r: String)
    ensures
        r@ == a@ + b@,
{
    let mut r = a;
    r.append(b);
    r
}

/// The Rust name of a built-in type.
pub fn base_type_rust(b: BaseType) -> (r: &'static str)
    ensures
        r@ == base_type_name(b),
{
    match b {
        BaseType::Bool => "bool",
        BaseType::Int32 => "i32",
        BaseType::Int64 => "i64",
        BaseType::UInt32 => "u32",
        BaseType::UInt64 => "u64",
        BaseType::Float32 => "f32",
        BaseType::Float64 => "f64",
        BaseType::String => "String",
        BaseType::Bytes => "Vec<u8>",
        BaseType::Timestamp => "::lavish_rpc::DateTime",
    }
}

/// A schema type as a Rust type named from the parent module.
pub fn plain_type(t: &Type) -> (r: String)
    ensures
        r@ == plain_type_text(t@),
    decreases t,
{
    match &t.kind {
        TypeKind::Base(b) => String::from_str(base_type_rust(*b)),
        TypeKind::Mapping(m) => {
            let k = plain_type(&m.keys);
            let v = plain_type(&m.values);
            let r = String::from_str("::std::collections::HashMap<");
            let r = cat(r, k.as_str());
            let r = cat(r, ", ");
            let r = cat(r, v.as_str());
            cat(r, ">")
        },
        TypeKind::Option(o) => {
            let i = plain_type(&o.inner);
            cat(cat(String::from_str("Option<"), i.as_str()), ">")
        },
        TypeKind::Array(a) => {
            let i = plain_type(&a.inner);
            cat(cat(String::from_str("Vec<"), i.as_str()), ">")
        },
        TypeKind::User => cat(String::from_str("super::"), t.text.as_str()),
    }
}

pub(crate) fn doc_exec(c: &Option<Comment>) -> (r: String)
    ensures
        r@ == doc_text(crate::ast::opt_comment_view(*c)),
{
    let mut r = String::new();
    match c {
        None => {},
        Some(c) => {
            let ghost lines = c@.lines;
            let n = c.lines.len();
            assert(lines.subrange(0, 0) =~= Seq::<Seq<char>>::empty());
            for i in 0..n
                invariant
                    n == c.lines.len(),
                    lines == c@.lines,
                    lines.len() == n,
                    forall|j: int| 0 <= j < n ==> #[trigger] lines[j] == c.lines@[j]@,
                    r@ == comment_text(lines.subrange(0, i as int)),
            {
                assert(lines.subrange(0, i + 1).drop_last() =~= lines.subrange(0, i as int));
                r.append("/// ");
                r.append(c.lines[i].as_str());
                r.append("\n");
                proof {
                    reveal_strlit("\n");
                }
                assert(r@ =~= comment_text(lines.subrange(0, i + 1)));
            }
            assert(lines.subrange(0, n as int) =~= lines);
        },
    }
    r
}

fn fields_exec(v: &Vec<Field>, with_comments: bool) -> (r: String)
    ensures
        r@ == fields_text(fields_view(v@), with_comments),
{
    let ghost fv = fields_view(v@);
    let mut r = String::new();
    let n = v.len();
    assert(fv.subrange(0, 0) =~= Seq::<SpecField>::empty());
    for i in 0..n
        invariant
            n == v.len(),
            fv == fields_view(v@),
            r@ == fields_text(fv.subrange(0, i as int), with_comments),
    {
        let f = &v[i];
        assert(fv.subrange(0, i + 1).drop_last() =~= fv.subrange(0, i as int));
        assert(fv.subrange(0, i + 1).last() == f@);
        if with_comments {
            let d = doc_exec(&f.comment);
            r.append(d.as_str());
        }
        r.append("pub ");
        r.append(f.name.text.as_str());
        r.append(": ");
        let ty = plain_type(&f.typ);
        r.append(ty.as_str());
        r.append(",\n");
        assert(r@ =~= fields_text(fv.subrange(0, i + 1), with_comments));
    }
    assert(fv.subrange(0, n as int) =~= fv);
    r
}

fn def_struct_exec(name: &str, fields: &str) -> (r: String)
    ensures
        r@ == def_struct_text(name@, fields@),
{
    let mut r = String::from_str("#[derive(Serialize, Deserialize, Debug)]\n");
    r.append("pub struct ");
    r.append(name);
    r.append(" {\n");
    let f = indented(fields);
    r.append(f.as_str());
    r.append("}\n");
    r
}

/// A schema struct: its comment, its declaration, then a blank line.
pub fn struct_module_text(s: &StructDecl) -> (r: String)
    ensures
        r@ == struct_text(s@),
{
    let mut r = doc_exec(&s.comment);
    let fields = fields_exec(&s.fields, true);
    let d = def_struct_exec(s.name.text.as_str(), fields.as_str());
    r.append(d.as_str());
    r.append("\n");
    r
}

fn downgrade_exec(side: &str, variant: &str) -> (r: String)
    ensures
        r@ == downgrade_text(side@, variant@),
{
    let mut arms = String::from_str("__::");
    arms.append(side);
    arms.append("::");
    arms.append(variant);
    arms.append("(p) => Some(p),\n");
    arms.append("_ => None,\n");
    let mut m = String::from_str("match p {\n");
    let a = indented(arms.as_str());
    m.append(a.as_str());
    m.append("}\n");
    let mut f = String::from_str("pub fn downgrade(p: __::");
    f.append(side);
    f.append(") -> Option<Self> {\n");
    let mi = indented(m.as_str());
    f.append(mi.as_str());
    f.append("}\n");
    indented(f.as_str())
}

fn variant_exec(prefix: &str, name: &str) -> (r: String)
    ensures
        r@ == fun_variant(prefix@, name@),
{
    let full = cat(String::from_str(prefix), name);
    let d = replace_dots_exec(full.as_str());
    to_lowercase(d.as_str())
}

fn structs_exec(v: &Vec<StructDecl>) -> (r: String)
    ensures
        r@ == structs_text(
            structs_view(v@),
            map_order(struct_names(structs_view(v@)), v.len() as int),
            map_order(struct_names(structs_view(v@)), v.len() as int).len() as int,
        ),
{
    let order = order_of(v);
    proof {
        lemma_struct_names(v@);
    }
    let ghost sv = structs_view(v@);
    let ghost o = ints(order@);
    let mut r = String::new();
    let m = order.len();
    for j in 0..m
        invariant
            m == order.len(),
            o == ints(order@),
            sv == structs_view(v@),
            forall|i: int| 0 <= i < m ==> #[trigger] order@[i] < v.len(),
            r@ == structs_text(sv, o, j as int),
    {
        let k = order[j];
        assert(order@[j as int] < v.len());
        assert(o[j as int] == k as int);
        let s = struct_module_text(&v[k]);
        r.append(s.as_str());
        assert(r@ =~= structs_text(sv, o, j + 1));
    }
    r
}

fn nss_exec(v: &Vec<NamespaceDecl>, prefix: &str, up: &str, Ghost(depth): Ghost<nat>) -> (r: String)
    requires
        up@ == repeat("super::"@, depth + 2),
    ensures
        r@ == nss_text(
            crate::ast::nss_view(*v, v.len() as int),
            map_order(ns_names(crate::ast::nss_view(*v, v.len() as int)), v.len() as int),
            map_order(ns_names(crate::ast::nss_view(*v, v.len() as int)), v.len() as int).len() as int,
            prefix@,
            depth,
        ),
    decreases v, 2int,
{
    let order = order_of(v);
    let ghost mv = crate::ast::nss_view(*v, v.len() as int);
    proof {
        lemma_ns_names(*v);
        lemma_nss_view_index(*v, v.len() as int);
    }
    let ghost o = ints(order@);
    let mut r = String::new();
    let m = order.len();
    for j in 0..m
        invariant
            m == order.len(),
            o == ints(order@),
            mv == crate::ast::nss_view(*v, v.len() as int),
            mv.len() == v.len(),
            forall|i: int| 0 <= i < v.len() ==> #[trigger] mv[i] == ns_view(v@[i]),
            forall|i: int| 0 <= i < m ==> #[trigger] order@[i] < v.len(),
            up@ == repeat("super::"@, depth + 2),
            r@ == nss_text(mv, o, j as int, prefix@, depth),
    {
        let k = order[j];
        assert(order@[j as int] < v.len());
        assert(o[j as int] == k as int);
        assert(mv[k as int] == ns_view(v@[k as int]));
        let s = ns_exec(&v[k], prefix, up, Ghost(depth));
        r.append(s.as_str());
        assert(r@ =~= nss_text(mv, o, j + 1, prefix@, depth));
    }
    r
}

fn ns_exec(n: &NamespaceDecl, prefix: &str, up: &str, Ghost(depth): Ghost<nat>) -> (r: String)
    requires
        up@ == repeat("super::"@, depth + 2),
    ensures
        r@ == ns_text(ns_view(*n), prefix@, depth),
    decreases n, 1int,
{
    let inner_prefix = cat(cat(String::from_str(prefix), n.name.text.as_str()), ".");
    let inner_up = cat(String::from_str(up), "super::");
    let b = body_exec(&n.body, inner_prefix.as_str(), inner_up.as_str(), Ghost(depth + 1));
    let mut r = String::from_str("pub mod ");
    r.append(n.name.text.as_str());
    r.append(" {\n");
    let bi = indented(b.as_str());
    r.append(bi.as_str());
    r.append("}\n");
    r.append("\n");
    r
}

fn funs_exec(v: &Vec<FunctionDecl>, prefix: &str, up: &str, Ghost(depth): Ghost<nat>) -> (r: String)
    requires
        up@ == repeat("super::"@, depth + 2),
    ensures
        r@ == funs_text(
            crate::ast::funs_view(*v, v.len() as int),
            map_order(fun_names(crate::ast::funs_view(*v, v.len() as int)), v.len() as int),
            map_order(fun_names(crate::ast::funs_view(*v, v.len() as int)), v.len() as int).len() as int,
            prefix@,
            depth,
        ),
    decreases v, 2int,
{
    let order = order_of(v);
    let ghost mv = crate::ast::funs_view(*v, v.len() as int);
    proof {
        lemma_fun_names(*v);
        lemma_funs_view_index(*v, v.len() as int);
    }
    let ghost o = ints(order@);
    let mut r = String::new();
    let m = order.len();
    for j in 0..m
        invariant
            m == order.len(),
            o == ints(order@),
            mv == crate::ast::funs_view(*v, v.len() as int),
            mv.len() == v.len(),
            forall|i: int| 0 <= i < v.len() ==> #[trigger] mv[i] == fun_view(v@[i]),
            forall|i: int| 0 <= i < m ==> #[trigger] order@[i] < v.len(),
            up@ == repeat("super::"@, depth + 2),
            r@ == funs_text(mv, o, j as int, prefix@, depth),
    {
        let k = order[j];
        assert(order@[j as int] < v.len());
        assert(o[j as int] == k as int);
        assert(mv[k as int] == fun_view(v@[k as int]));
        let s = fun_exec(&v[k], prefix, up, Ghost(depth));
        r.append(s.as_str());
        assert(r@ =~= funs_text(mv, o, j + 1, prefix@, depth));
    }
    r
}

fn fun_exec(f: &FunctionDecl, prefix: &str, up: &str, Ghost(depth): Ghost<nat>) -> (r: String)
    requires
        up@ == repeat("super::"@, depth + 2),
    ensures
        r@ == fun_text(fun_view(*f), prefix@, depth),
    decreases f, 1int,
{
    let variant = variant_exec(prefix, f.name.text.as_str());
    let notification = match f.kind {
        Kind::Notification => true,
        Kind::Request => false,
    };
    let mut inner = String::from_str("use futures::prelude::*;\n");
    inner.append("use lavish_rpc::serde_derive::*;\n");
    inner.append("use ");
    inner.append(up);
    inner.append("__;\n");
    inner.append("\n");
    let pf = fields_exec(&f.params, false);
    let ps = def_struct_exec("Params", pf.as_str());
    inner.append(ps.as_str());
    inner.append("\n");
    inner.append("impl Params {\n");
    let side = if notification {
        "NotificationParams"
    } else {
        "Params"
    };
    let pd = downgrade_exec(side, variant.as_str());
    inner.append(pd.as_str());
    inner.append("}\n");
    let ghost before_results = inner@;
    if !notification {
        inner.append("\n");
        let rf = fields_exec(&f.results, false);
        let rs = def_struct_exec("Results", rf.as_str());
        inner.append(rs.as_str());
        inner.append("\n");
        inner.append("impl Results {\n");
        let rd = downgrade_exec("Results", variant.as_str());
        inner.append(rd.as_str());
        inner.append("}\n");
    }
    let ghost before_body = inner@;
    match &f.body {
        Some(b) => {
            let inner_prefix = cat(cat(String::from_str(prefix), f.name.text.as_str()), ".");
            let inner_up = cat(String::from_str(up), "super::");
            let bt = body_exec(b, inner_prefix.as_str(), inner_up.as_str(), Ghost(depth + 1));
            inner.append(bt.as_str());
        },
        None => {},
    }
    assert(inner@ =~= fun_inner_text(fun_view(*f), prefix@, depth));
    let mut r = doc_exec(&f.comment);
    r.append("pub mod ");
    let sn = to_snake_case(f.name.text.as_str());
    r.append(sn.as_str());
    r.append(" {\n");
    let ii = indented(inner.as_str());
    r.append(ii.as_str());
    r.append("}\n");
    r.append("\n");
    r
}

fn body_exec(b: &NamespaceBody, prefix: &str, up: &str, Ghost(depth): Ghost<nat>) -> (r: String)
    requires
        up@ == repeat("super::"@, depth + 2),
    ensures
        r@ == body_text(body_view(*b), prefix@, depth),
    decreases b, 3int,
{
    let mut r = nss_exec(&b.namespaces, prefix, up, Ghost(depth));
    let ghost r0 = r@;
    r.append("use lavish_rpc::serde_derive::*;\n");
    r.append("\n");
    let s = structs_exec(&b.structs);
    r.append(s.as_str());
    let f = funs_exec(&b.functions, prefix, up, Ghost(depth));
    r.append(f.as_str());
    proof {
        lemma_nss_view_index(b.namespaces, b.namespaces.len() as int);
        lemma_funs_view_index(b.functions, b.functions.len() as int);
        let bv = body_view(*b);
        assert(bv.namespaces == crate::ast::nss_view(b.namespaces, b.namespaces.len() as int));
        assert(bv.structs == structs_view(b.structs@));
        assert(bv.functions == crate::ast::funs_view(b.functions, b.functions.len() as int));
        let no = map_order(ns_names(bv.namespaces), bv.namespaces.len() as int);
        assert(r0 == nss_text(bv.namespaces, no, no.len() as int, prefix@, depth));
        assert(s@ == structs_text(bv.structs, map_order(struct_names(bv.structs), bv.structs.len() as int), map_order(struct_names(bv.structs), bv.structs.len() as int).len() as int));
        assert(f@ == funs_text(bv.functions, map_order(fun_names(bv.functions), bv.functions.len() as int), map_order(fun_names(bv.functions), bv.functions.len() as int).len() as int, prefix@, depth));
    }
    assert(r@ =~= body_text(body_view(*b), prefix@, depth));
    r
}

/// The schema part of a member module, for a namespace body `depth`
/// modules below the member module: its namespaces as modules, its
/// structs, and a module per function.
pub fn ns_body_text(body: &NamespaceBody, depth: usize) -> (r: String)
    ensures
        r@ == body_text(body@, Seq::empty(), depth as nat),
{
    let mut up = String::new();
    let mut i: usize = 0;
    while i < depth
        invariant
            i <= depth,
            up@ == repeat("super::"@, i as nat),
        decreases depth - i,
    {
        up.append("super::");
        i = i + 1;
    }
    up.append("super::");
    up.append("super::");
    proof {
        assert(repeat("super::"@, (depth + 1) as nat) == repeat("super::"@, depth as nat) + "super::"@);
        assert(repeat("super::"@, (depth + 2) as nat) == repeat("super::"@, (depth + 1) as nat) + "super::"@);
        reveal_strlit("");
    }
    let r = body_exec(body, "", up.as_str(), Ghost(depth as nat));
    assert(""@ =~= Seq::<char>::empty());
    r
}

/// The functions of a body under `prefix`, each with its full dotted name:
/// those of its namespaces first, then each of its own functions followed
/// by the functions nested in it.
pub open spec fn body_funs(b: SpecNamespaceBody, prefix: Seq<char>) -> Seq<(Seq<char>, SpecFunctionDecl)>
    decreases b, 0int,
{
    let no = map_order(ns_names(b.namespaces), b.namespaces.len() as int);
    let fo = map_order(fun_names(b.functions), b.functions.len() as int);
    nss_funs(b.namespaces, no, no.len() as int, prefix) + funs_funs(
        b.functions,
        fo,
        fo.len() as int,
        prefix,
    )
}

pub open spec fn nss_funs(v: Seq<SpecNamespaceDecl>, order: Seq<int>, n: int, prefix: Seq<char>) -> Seq<(Seq<char>, SpecFunctionDecl)>
    decreases v, n,
{
    if n <= 0 || n > order.len() {
        Seq::empty()
    } else {
        let k = order[n - 1];
        nss_funs(v, order, n - 1, prefix) + if 0 <= k < v.len() {
            ns_funs(v[k], prefix)
        } else {
            Seq::empty()
        }
    }
}

pub open spec fn ns_funs(n: SpecNamespaceDecl, prefix: Seq<char>) -> Seq<(Seq<char>, SpecFunctionDecl)>
    decreases n, 0int,
{
    body_funs(n.body, prefix + n.name.text + "."@)
}

pub open spec fn funs_funs(v: Seq<SpecFunctionDecl>, order: Seq<int>, n: int, prefix: Seq<char>) -> Seq<(Seq<char>, SpecFunctionDecl)>
    decreases v, n,
{
    if n <= 0 || n > order.len() {
        Seq::empty()
    } else {
        let k = order[n - 1];
        funs_funs(v, order, n - 1, prefix) + if 0 <= k < v.len() {
            fun_funs(v[k], prefix)
        } else {
            Seq::empty()
        }
    }
}

/// A function, then the functions nested in it.
pub open spec fn fun_funs(f: SpecFunctionDecl, prefix: Seq<char>) -> Seq<(Seq<char>, SpecFunctionDecl)>
    decreases f, 0int,
{
    seq![(prefix + f.name.text, f)] + match f.body {
        Some(b) => body_funs(b, prefix + f.name.text + "."@),
        None => Seq::empty(),
    }
}

/// The functions of `r` are those of `s`, in order: same full names,
/// same declarations.
pub open spec fn funs_match<'a>(r: Seq<Fun<'a>>, s: Seq<(Seq<char>, SpecFunctionDecl)>) -> bool {
    &&& r.len() == s.len()
    &&& forall|i: int|
        0 <= i < r.len() ==> #[trigger] r[i].spec_tokens() == split_dots(s[i].0) && r[i].spec_decl()@
            == s[i].1
}

proof fn lemma_match_concat<'a>(
    r1: Seq<Fun<'a>>,
    s1: Seq<(Seq<char>, SpecFunctionDecl)>,
    r2: Seq<Fun<'a>>,
    s2: Seq<(Seq<char>, SpecFunctionDecl)>,
)
    requires
        funs_match(r1, s1),
        funs_match(r2, s2),
    ensures
        funs_match(r1 + r2, s1 + s2),
{
    assert forall|i: int| 0 <= i < (r1 + r2).len() implies #[trigger] (r1 + r2)[i].spec_tokens()
        == split_dots((s1 + s2)[i].0) && (r1 + r2)[i].spec_decl()@ == (s1 + s2)[i].1 by {
        if i < r1.len() {
            assert((r1 + r2)[i] == r1[i]);
            assert((s1 + s2)[i] == s1[i]);
            assert(r1[i].spec_tokens() == split_dots(s1[i].0));
        } else {
            let j = i - r1.len();
            assert((r1 + r2)[i] == r2[j]);
            assert((s1 + s2)[i] == s2[j]);
            assert(r2[j].spec_tokens() == split_dots(s2[j].0));
        }
    }
}

fn append_funs<'a>(out: &mut Vec<Fun<'a>>, more: Vec<Fun<'a>>, Ghost(s1): Ghost<Seq<(Seq<char>, SpecFunctionDecl)>>, Ghost(s2): Ghost<Seq<(Seq<char>, SpecFunctionDecl)>>)
    requires
        funs_match(old(out)@, s1),
        funs_match(more@, s2),
    ensures
        funs_match(final(out)@, s1 + s2),
{
    let mut more = more;
    let ghost m = more@;
    let ghost o = out@;
    out.append(&mut more);
    proof {
        lemma_match_concat(o, s1, m, s2);
    }
}

fn body_funs_exec<'a>(b: &'a NamespaceBody, prefix: &str) -> (r: Vec<Fun<'a>>)
    ensures
        funs_match(r@, body_funs(body_view(*b), prefix@)),
    decreases b, 3int,
{
    let mut out: Vec<Fun<'a>> = Vec::new();
    let v = &b.namespaces;
    let order = order_of(v);
    let ghost mv = crate::ast::nss_view(*v, v.len() as int);
    proof {
        lemma_ns_names(*v);
        lemma_nss_view_index(*v, v.len() as int);
        lemma_funs_view_index(b.functions, b.functions.len() as int);
        assert(funs_match(out@, Seq::empty()));
    }
    let ghost o = ints(order@);
    let m = order.len();
    for j in 0..m
        invariant
            m == order.len(),
            o == ints(order@),
            mv == crate::ast::nss_view(*v, v.len() as int),
            mv.len() == v.len(),
            v == &b.namespaces,
            forall|i: int| 0 <= i < v.len() ==> #[trigger] mv[i] == ns_view(v@[i]),
            forall|i: int| 0 <= i < m ==> #[trigger] order@[i] < v.len(),
            funs_match(out@, nss_funs(mv, o, j as int, prefix@)),
    {
        let k = order[j];
        assert(order@[j as int] < v.len());
        assert(o[j as int] == k as int);
        assert(mv[k as int] == ns_view(v@[k as int]));
        let ns = &v[k];
        let p2 = cat(cat(String::from_str(prefix), ns.name.text.as_str()), ".");
        let more = body_funs_exec(&ns.body, p2.as_str());
        append_funs(&mut out, more, Ghost(nss_funs(mv, o, j as int, prefix@)), Ghost(ns_funs(mv[k as int], prefix@)));
        assert(nss_funs(mv, o, j + 1, prefix@) == nss_funs(mv, o, j as int, prefix@) + ns_funs(mv[k as int], prefix@));
    }
    let ghost after_nss = out@;
    let w = &b.functions;
    let forder = order_of(w);
    let ghost fv = crate::ast::funs_view(*w, w.len() as int);
    proof {
        lemma_fun_names(*w);
    }
    let ghost fo = ints(forder@);
    let fm = forder.len();
    let ghost base = nss_funs(mv, o, m as int, prefix@);
    for j in 0..fm
        invariant
            fm == forder.len(),
            fo == ints(forder@),
            fv == crate::ast::funs_view(*w, w.len() as int),
            fv.len() == w.len(),
            w == &b.functions,
            forall|i: int| 0 <= i < w.len() ==> #[trigger] fv[i] == fun_view(w@[i]),
            forall|i: int| 0 <= i < fm ==> #[trigger] forder@[i] < w.len(),
            funs_match(out@, base + funs_funs(fv, fo, j as int, prefix@)),
    {
        let k = forder[j];
        assert(forder@[j as int] < w.len());
        assert(fo[j as int] == k as int);
        assert(fv[k as int] == fun_view(w@[k as int]));
        let more = fun_funs_exec(&w[k], prefix);
        append_funs(&mut out, more, Ghost(base + funs_funs(fv, fo, j as int, prefix@)), Ghost(fun_funs(fv[k as int], prefix@)));
        assert(base + funs_funs(fv, fo, j + 1, prefix@) =~= base + funs_funs(fv, fo, j as int, prefix@) + fun_funs(fv[k as int], prefix@));
    }
    proof {
        let bv = body_view(*b);
        assert(bv.namespaces == mv);
        assert(bv.functions == fv);
        assert(body_funs(bv, prefix@) == base + funs_funs(fv, fo, fm as int, prefix@));
    }
    out
}

fn fun_funs_exec<'a>(f: &'a FunctionDecl, prefix: &str) -> (r: Vec<Fun<'a>>)
    ensures
        funs_match(r@, fun_funs(fun_view(*f), prefix@)),
    decreases f, 1int,
{
    let mut out: Vec<Fun<'a>> = Vec::new();
    out.push(Fun::new(prefix, f));
    let ghost head = seq![(prefix@ + f.name.text@, fun_view(*f))];
    proof {
        assert(funs_match(out@, head));
    }
    match &f.body {
        Some(b) => {
            let p2 = cat(cat(String::from_str(prefix), f.name.text.as_str()), ".");
            let more = body_funs_exec(b, p2.as_str());
            append_funs(&mut out, more, Ghost(head), Ghost(body_funs(body_view(*b), p2@)));
        },
        None => {
            assert(head + Seq::<(Seq<char>, SpecFunctionDecl)>::empty() =~= head);
        },
    }
    out
}

/// The functions of a schema, in the order generated code lists them,
/// each named by its full dotted path.
pub fn all_funs<'a>(body: &'a NamespaceBody) -> (r: Vec<Fun<'a>>)
    ensures
        funs_match(r@, body_funs(body@, Seq::empty())),
{
    proof {
        reveal_strlit("");
        assert(""@ =~= Seq::<char>::empty());
    }
    body_funs_exec(body, "")
}

} // verus!
