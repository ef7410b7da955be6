//! Semantic checks of a parsed schema: no name is declared twice in one
//! scope, and functions nested in a function belong to the other side.
use crate::ast::{
    fields_view, structs_view,
    fun_view, funs_view, lemma_funs_view_index, lemma_nss_view_index, ns_view, nss_view, Field,
    FunctionDecl, Identifier, NamespaceBody, NamespaceDecl, Schema, Side, Span, SpecField,
    SpecFunctionDecl, SpecIdentifier, SpecNamespaceBody, SpecNamespaceDecl, SpecSchema,
    SpecStructDecl, StructDecl, EnumDecl,
};
use vstd::prelude::*;

verus! {

/// The kinds of declarations whose names must be unique in their scope.
#[derive(Debug, Clone, Copy, PartialEq, Eq, Structural)]
pub enum DeclKind {
    Namespace,
    Struct,
    Function,
    Field,
    Param,
    ResultValue,
}

pub open spec fn spec_kind_word(k: DeclKind) -> Seq<char> {
    match k {
        DeclKind::Namespace => "namespace"@,
        DeclKind::Struct => "struct"@,
        DeclKind::Function => "function"@,
        DeclKind::Field => "field"@,
        DeclKind::Param => "param"@,
        DeclKind::ResultValue => "result"@,
    }
}

impl DeclKind {
    /// The word that names the kind in diagnostics.
    pub fn word(self) -> (r: &'static str)
        ensures
            r@ == spec_kind_word(self),
    {
        match self {
            DeclKind::Namespace => "namespace",
            DeclKind::Struct => "struct",
            DeclKind::Function => "function",
            DeclKind::Field => "field",
            DeclKind::Param => "param",
            DeclKind::ResultValue => "result",
        }
    }
}

/// A name declared again in the same scope: where, and where it was
/// declared the time before.
#[derive(Debug)]
pub struct Redefinition {
    pub kind: DeclKind,
    pub name: String,
    pub at: Span,
    pub first: Span,
}

pub struct SpecRedefinition {
    pub kind: DeclKind,
    pub name: Seq<char>,
    pub at: Span,
    pub first: Span,
}

impl View for Redefinition {
    type V = SpecRedefinition;

    open spec fn view(&self) -> SpecRedefinition {
        SpecRedefinition { kind: self.kind, name: self.name@, at: self.at, first: self.first }
    }
}

pub open spec fn redefs_view(v: Seq<Redefinition>) -> Seq<SpecRedefinition> {
    v.map_values(|r: Redefinition| r@)
}

/// Index of the last name in `names` spelled `text`.
pub open spec fn last_index_named(names: Seq<SpecIdentifier>, text: Seq<char>) -> Option<int>
    decreases names.len(),
{
    if names.len() == 0 {
        None
    } else if names.last().text == text {
        Some(names.len() - 1)
    } else {
        last_index_named(names.drop_last(), text)
    }
}

/// One redefinition for each name spelled like an earlier one; it points
/// back to the latest earlier one.
pub open spec fn dupes(kind: DeclKind, names: Seq<SpecIdentifier>) -> Seq<SpecRedefinition>
    decreases names.len(),
{
    if names.len() == 0 {
        Seq::empty()
    } else {
        let prev = names.drop_last();
        let cur = names.last();
        dupes(kind, prev) + match last_index_named(prev, cur.text) {
            Some(j) => seq![
                SpecRedefinition { kind, name: cur.text, at: cur.span, first: prev[j].span },
            ],
            None => Seq::empty(),
        }
    }
}

pub open spec fn ns_names(v: Seq<SpecNamespaceDecl>) -> Seq<SpecIdentifier> {
    v.map_values(|n: SpecNamespaceDecl| n.name)
}

pub open spec fn struct_names(v: Seq<SpecStructDecl>) -> Seq<SpecIdentifier> {
    v.map_values(|n: SpecStructDecl| n.name)
}

pub open spec fn fun_names(v: Seq<SpecFunctionDecl>) -> Seq<SpecIdentifier> {
    v.map_values(|n: SpecFunctionDecl| n.name)
}

pub open spec fn field_names(v: Seq<SpecField>) -> Seq<SpecIdentifier> {
    v.map_values(|n: SpecField| n.name)
}

/// Redefined fields in the first `n` structs.
pub open spec fn structs_redefs(v: Seq<SpecStructDecl>, n: int) -> Seq<SpecRedefinition>
    decreases n,
{
    if n <= 0 || n > v.len() {
        Seq::empty()
    } else {
        structs_redefs(v, n - 1) + dupes(DeclKind::Field, field_names(v[n - 1].fields))
    }
}

/// Redefinitions inside a body: namespaces, then inside each namespace, then
/// structs, their fields, functions, and inside each function.
pub open spec fn body_redefs(b: SpecNamespaceBody) -> Seq<SpecRedefinition>
    decreases b, 0int,
{
    dupes(DeclKind::Namespace, ns_names(b.namespaces)) + nss_redefs(
        b.namespaces,
        b.namespaces.len() as int,
    ) + dupes(DeclKind::Struct, struct_names(b.structs)) + structs_redefs(
        b.structs,
        b.structs.len() as int,
    ) + dupes(DeclKind::Function, fun_names(b.functions)) + funs_redefs(
        b.functions,
        b.functions.len() as int,
    )
}

pub open spec fn ns_redefs(n: SpecNamespaceDecl) -> Seq<SpecRedefinition>
    decreases n, 0int,
{
    body_redefs(n.body)
}

/// Redefined parameters, then results, then redefinitions in the body.
pub open spec fn fun_redefs(f: SpecFunctionDecl) -> Seq<SpecRedefinition>
    decreases f, 0int,
{
    dupes(DeclKind::Param, field_names(f.params)) + dupes(
        DeclKind::ResultValue,
        field_names(f.results),
    ) + match f.body {
        Some(b) => body_redefs(b),
        None => Seq::empty(),
    }
}

pub open spec fn nss_redefs(v: Seq<SpecNamespaceDecl>, n: int) -> Seq<SpecRedefinition>
    decreases v, n,
{
    if n <= 0 || n > v.len() {
        Seq::empty()
    } else {
        nss_redefs(v, n - 1) + ns_redefs(v[n - 1])
    }
}

pub open spec fn funs_redefs(v: Seq<SpecFunctionDecl>, n: int) -> Seq<SpecRedefinition>
    decreases v, n,
{
    if n <= 0 || n > v.len() {
        Seq::empty()
    } else {
        funs_redefs(v, n - 1) + fun_redefs(v[n - 1])
    }
}

/// All redefinitions in a schema: namespaces declared twice at the top
/// level, then the redefinitions inside each top-level namespace.  The
/// structs and functions of the top level itself are not looked at.
pub open spec fn schema_redefs(s: SpecSchema) -> Seq<SpecRedefinition> {
    dupes(DeclKind::Namespace, ns_names(s.body.namespaces)) + nss_redefs(
        s.body.namespaces,
        s.body.namespaces.len() as int,
    )
}

/// A declaration with a name.
pub trait Named {
    spec fn spec_name(&self) -> SpecIdentifier;

    fn name(&self) -> (r: &Identifier)
        ensures
            r@ == self.spec_name(),
    ;
}

impl Named for NamespaceDecl {
    open spec fn spec_name(&self) -> SpecIdentifier {
        self.name@
    }

    fn name(&self) -> (r: &Identifier) {
        &self.name
    }
}

impl Named for StructDecl {
    open spec fn spec_name(&self) -> SpecIdentifier {
        self.name@
    }

    fn name(&self) -> (r: &Identifier) {
        &self.name
    }
}

impl Named for FunctionDecl {
    open spec fn spec_name(&self) -> SpecIdentifier {
        self.name@
    }

    fn name(&self) -> (r: &Identifier) {
        &self.name
    }
}

impl Named for EnumDecl {
    open spec fn spec_name(&self) -> SpecIdentifier {
        self.name@
    }

    fn name(&self) -> (r: &Identifier) {
        &self.name
    }
}

impl Named for Field {
    open spec fn spec_name(&self) -> SpecIdentifier {
        self.name@
    }

    fn name(&self) -> (r: &Identifier) {
        &self.name
    }
}

pub open spec fn names_of<T: Named>(v: Seq<T>) -> Seq<SpecIdentifier> {
    v.map_values(|x: T| x.spec_name())
}

pub(crate) fn last_named<T: Named>(items: &Vec<T>, i: usize, text: &String) -> (r: Option<usize>)
    requires
        i <= items.len(),
    ensures
        match r {
            Some(j) => last_index_named(names_of(items@).subrange(0, i as int), text@) == Some(
                j as int,
            ) && j < i,
            None => last_index_named(names_of(items@).subrange(0, i as int), text@) is None,
        },
{
    let ghost names = names_of(items@);
    let mut k = i;
    while k > 0
        invariant
            k <= i <= items.len(),
            names == names_of(items@),
            last_index_named(names.subrange(0, i as int), text@) == last_index_named(
                names.subrange(0, k as int),
                text@,
            ),
        decreases k,
    {
        let cand = items[k - 1].name();
        assert(names.subrange(0, k as int).last() == names[k - 1]);
        assert(names.subrange(0, k as int).drop_last() =~= names.subrange(0, k - 1));
        if cand.text == *text {
            return Some(k - 1);
        }
        k = k - 1;
    }
    None
}

/// Reports each item whose name was already used by an earlier one.
fn check_dupes<T: Named>(kind: DeclKind, items: &Vec<T>, out: &mut Vec<Redefinition>)
    ensures
        redefs_view(final(out)@) == redefs_view(old(out)@) + dupes(kind, names_of(items@)),
{
    let ghost names = names_of(items@);
    let ghost start = redefs_view(out@);
    let n = items.len();
    proof {
        assert(names.subrange(0, 0) =~= Seq::<SpecIdentifier>::empty());
        assert(start + dupes(kind, names.subrange(0, 0)) =~= start);
    }
    for i in 0..n
        invariant
            n == items.len(),
            names == names_of(items@),
            redefs_view(out@) == start + dupes(kind, names.subrange(0, i as int)),
    {
        let cur = items[i].name();
        let ghost pre = redefs_view(out@);
        assert(names.subrange(0, i + 1).drop_last() =~= names.subrange(0, i as int));
        assert(names.subrange(0, i + 1).last() == cur@);
        match last_named(items, i, &cur.text) {
            Some(j) => {
                let first = items[j].name().span;
                assert(names.subrange(0, i as int)[j as int] == names[j as int]);
                out.push(
                    Redefinition { kind, name: cur.text.clone(), at: cur.span, first },
                );
                assert(redefs_view(out@) =~= pre + seq![
                    SpecRedefinition { kind, name: cur.text@, at: cur.span, first },
                ]);
            },
            None => {
                assert(dupes(kind, names.subrange(0, i + 1)) =~= dupes(
                    kind,
                    names.subrange(0, i as int),
                ) + Seq::empty());
            },
        }
    }
    assert(names.subrange(0, n as int) =~= names);
}

pub(crate) proof fn lemma_ns_names(v: Vec<NamespaceDecl>)
    ensures
        ns_names(nss_view(v, v.len() as int)) == names_of(v@),
{
    lemma_nss_view_index(v, v.len() as int);
    assert(ns_names(nss_view(v, v.len() as int)) =~= names_of(v@));
}

pub(crate) proof fn lemma_fun_names(v: Vec<FunctionDecl>)
    ensures
        fun_names(funs_view(v, v.len() as int)) == names_of(v@),
{
    lemma_funs_view_index(v, v.len() as int);
    assert(fun_names(funs_view(v, v.len() as int)) =~= names_of(v@));
}

pub(crate) proof fn lemma_struct_names(v: Seq<StructDecl>)
    ensures
        struct_names(structs_view(v)) == names_of(v),
{
    assert(struct_names(structs_view(v)) =~= names_of(v));
}

pub(crate) proof fn lemma_field_names(v: Seq<Field>)
    ensures
        field_names(fields_view(v)) == names_of(v),
{
    assert(field_names(fields_view(v)) =~= names_of(v));
}

fn noredef_nss(v: &Vec<NamespaceDecl>, out: &mut Vec<Redefinition>)
    ensures
        redefs_view(final(out)@) == redefs_view(old(out)@) + nss_redefs(
            nss_view(*v, v.len() as int),
            v.len() as int,
        ),
    decreases v, 2int,
{
    let ghost start = redefs_view(out@);
    let ghost mv = nss_view(*v, v.len() as int);
    proof {
        lemma_nss_view_index(*v, v.len() as int);
        assert(start + nss_redefs(mv, 0) =~= start);
    }
    let n = v.len();
    for i in 0..n
        invariant
            n == v.len(),
            mv == nss_view(*v, v.len() as int),
            mv.len() == n,
            forall|k: int| 0 <= k < n ==> #[trigger] mv[k] == ns_view(v@[k]),
            redefs_view(out@) == start + nss_redefs(mv, i as int),
    {
        noredef_body(&v[i].body, out);
        assert(mv[i as int] == ns_view(v@[i as int]));
        assert(ns_redefs(mv[i as int]) == body_redefs(v@[i as int].body@));
        assert(redefs_view(out@) =~= start + nss_redefs(mv, i + 1));
    }
}

fn noredef_fun(f: &FunctionDecl, out: &mut Vec<Redefinition>)
    ensures
        redefs_view(final(out)@) == redefs_view(old(out)@) + fun_redefs(f@),
    decreases f, 1int,
{
    let ghost start = redefs_view(out@);
    check_dupes(DeclKind::Param, &f.params, out);
    check_dupes(DeclKind::ResultValue, &f.results, out);
    proof {
        lemma_field_names(f.params@);
        lemma_field_names(f.results@);
    }
    match &f.body {
        Some(b) => {
            noredef_body(b, out);
        },
        None => {},
    }
    assert(redefs_view(out@) =~= start + fun_redefs(f@));
}

fn noredef_funs(v: &Vec<FunctionDecl>, out: &mut Vec<Redefinition>)
    ensures
        redefs_view(final(out)@) == redefs_view(old(out)@) + funs_redefs(
            funs_view(*v, v.len() as int),
            v.len() as int,
        ),
    decreases v, 2int,
{
    let ghost start = redefs_view(out@);
    let ghost mv = funs_view(*v, v.len() as int);
    proof {
        lemma_funs_view_index(*v, v.len() as int);
        assert(start + funs_redefs(mv, 0) =~= start);
    }
    let n = v.len();
    for i in 0..n
        invariant
            n == v.len(),
            mv == funs_view(*v, v.len() as int),
            mv.len() == n,
            forall|k: int| 0 <= k < n ==> #[trigger] mv[k] == fun_view(v@[k]),
            redefs_view(out@) == start + funs_redefs(mv, i as int),
    {
        noredef_fun(&v[i], out);
        assert(mv[i as int] == fun_view(v@[i as int]));
        assert(redefs_view(out@) =~= start + funs_redefs(mv, i + 1));
    }
}

fn noredef_structs(v: &Vec<StructDecl>, out: &mut Vec<Redefinition>)
    ensures
        redefs_view(final(out)@) == redefs_view(old(out)@) + structs_redefs(
            structs_view(v@),
            v.len() as int,
        ),
{
    let ghost start = redefs_view(out@);
    let ghost mv = structs_view(v@);
    proof {
        assert(start + structs_redefs(mv, 0) =~= start);
    }
    let n = v.len();
    for i in 0..n
        invariant
            n == v.len(),
            mv == structs_view(v@),
            redefs_view(out@) == start + structs_redefs(mv, i as int),
    {
        check_dupes(DeclKind::Field, &v[i].fields, out);
        proof {
            lemma_field_names(v@[i as int].fields@);
        }
        assert(redefs_view(out@) =~= start + structs_redefs(mv, i + 1));
    }
}

/// Collects the redefinitions in a body, in the order of [`body_redefs`].
fn noredef_body(b: &NamespaceBody, out: &mut Vec<Redefinition>)
    ensures
        redefs_view(final(out)@) == redefs_view(old(out)@) + body_redefs(b@),
    decreases b, 3int,
{
    let ghost start = redefs_view(out@);
    check_dupes(DeclKind::Namespace, &b.namespaces, out);
    noredef_nss(&b.namespaces, out);
    check_dupes(DeclKind::Struct, &b.structs, out);
    noredef_structs(&b.structs, out);
    check_dupes(DeclKind::Function, &b.functions, out);
    noredef_funs(&b.functions, out);
    proof {
        lemma_ns_names(b.namespaces);
        lemma_fun_names(b.functions);
        lemma_struct_names(b.structs@);
        assert(redefs_view(out@) =~= start + body_redefs(b@));
    }
}

/// All names declared twice in the same scope of a schema.
pub fn redefinitions(schema: &Schema) -> (r: Vec<Redefinition>)
    ensures
        redefs_view(r@) == schema_redefs(schema@),
{
    let mut out: Vec<Redefinition> = Vec::new();
    assert(redefs_view(out@) =~= Seq::empty());
    check_dupes(DeclKind::Namespace, &schema.body.namespaces, &mut out);
    noredef_nss(&schema.body.namespaces, &mut out);
    proof {
        lemma_ns_names(schema.body.namespaces);
    }
    assert(redefs_view(out@) =~= schema_redefs(schema@));
    out
}

/// Texts of a list of names.
pub open spec fn texts(names: Seq<SpecIdentifier>) -> Seq<Seq<char>> {
    names.map_values(|n: SpecIdentifier| n.text)
}

/// A name has a latest earlier occurrence exactly when its text was used before.
pub proof fn lemma_last_index_named(names: Seq<SpecIdentifier>, text: Seq<char>)
    ensures
        last_index_named(names, text) is Some <==> texts(names).contains(text),
        last_index_named(names, text) matches Some(j) ==> 0 <= j < names.len() && names[j].text
            == text,
    decreases names.len(),
{
    if names.len() > 0 {
        lemma_last_index_named(names.drop_last(), text);
        assert(texts(names.drop_last()) =~= texts(names).drop_last());
        if names.last().text == text {
            assert(texts(names)[names.len() - 1] == text);
        } else {
            if texts(names).contains(text) {
                let k = choose|k: int| 0 <= k < texts(names).len() && texts(names)[k] == text;
                assert(k != names.len() - 1);
                assert(texts(names.drop_last())[k] == text);
            }
        }
    }
}

/// Each name is either new or reported once as a redefinition: the
/// redefinitions and the distinct names together number the names.
pub proof fn lemma_dupes_count(kind: DeclKind, names: Seq<SpecIdentifier>)
    ensures
        dupes(kind, names).len() + texts(names).to_set().len() == names.len(),
    decreases names.len(),
{
    if names.len() == 0 {
        assert(texts(names).to_set() =~= Set::<Seq<char>>::empty());
    } else {
        let prev = names.drop_last();
        let cur = names.last();
        lemma_dupes_count(kind, prev);
        lemma_last_index_named(prev, cur.text);
        assert(texts(names) =~= texts(prev).push(cur.text));
        texts(prev).lemma_push_to_set_commute(cur.text);
        vstd::seq_lib::seq_to_set_is_finite(texts(prev));
        if texts(prev).contains(cur.text) {
            assert(texts(prev).to_set().contains(cur.text));
            assert(texts(prev).to_set().insert(cur.text) =~= texts(prev).to_set());
        } else {
            assert(!texts(prev).to_set().contains(cur.text));
        }
    }
}

/// A function nested in another one that is on the same side as its parent.
#[derive(Debug)]
pub struct SideMismatch {
    pub name: String,
    pub at: Span,
    pub expected: Side,
    pub parent: String,
    pub parent_at: Span,
    pub parent_side: Side,
}

pub struct SpecSideMismatch {
    pub name: Seq<char>,
    pub at: Span,
    pub expected: Side,
    pub parent: Seq<char>,
    pub parent_at: Span,
    pub parent_side: Side,
}

impl View for SideMismatch {
    type V = SpecSideMismatch;

    open spec fn view(&self) -> SpecSideMismatch {
        SpecSideMismatch {
            name: self.name@,
            at: self.at,
            expected: self.expected,
            parent: self.parent@,
            parent_at: self.parent_at,
            parent_side: self.parent_side,
        }
    }
}

pub open spec fn mismatches_view(v: Seq<SideMismatch>) -> Seq<SpecSideMismatch> {
    v.map_values(|m: SideMismatch| m@)
}

/// The first `n` functions of `fs` that are not on the side opposite to `parent`.
pub open spec fn wrong_sides(parent: SpecFunctionDecl, fs: Seq<SpecFunctionDecl>, n: int) -> Seq<
    SpecSideMismatch,
>
    decreases n,
{
    if n <= 0 || n > fs.len() {
        Seq::empty()
    } else {
        let f = fs[n - 1];
        let expected = parent.side.spec_other();
        wrong_sides(parent, fs, n - 1) + if f.side != expected {
            seq![
                SpecSideMismatch {
                    name: f.name.text,
                    at: f.name.span,
                    expected,
                    parent: parent.name.text,
                    parent_at: parent.name.span,
                    parent_side: parent.side,
                },
            ]
        } else {
            Seq::empty()
        }
    }
}

/// For a function with a body: its misplaced children, then those found
/// inside the body.
pub open spec fn fun_convos(f: SpecFunctionDecl) -> Seq<SpecSideMismatch>
    decreases f, 0int,
{
    match f.body {
        Some(b) => wrong_sides(f, b.functions, b.functions.len() as int) + body_convos(b),
        None => Seq::empty(),
    }
}

/// Inside a body: namespaces first, then functions.
pub open spec fn body_convos(b: SpecNamespaceBody) -> Seq<SpecSideMismatch>
    decreases b, 0int,
{
    nss_convos(b.namespaces, b.namespaces.len() as int) + funs_convos(
        b.functions,
        b.functions.len() as int,
    )
}

pub open spec fn ns_convos(n: SpecNamespaceDecl) -> Seq<SpecSideMismatch>
    decreases n, 0int,
{
    body_convos(n.body)
}

pub open spec fn nss_convos(v: Seq<SpecNamespaceDecl>, n: int) -> Seq<SpecSideMismatch>
    decreases v, n,
{
    if n <= 0 || n > v.len() {
        Seq::empty()
    } else {
        nss_convos(v, n - 1) + ns_convos(v[n - 1])
    }
}

pub open spec fn funs_convos(v: Seq<SpecFunctionDecl>, n: int) -> Seq<SpecSideMismatch>
    decreases v, n,
{
    if n <= 0 || n > v.len() {
        Seq::empty()
    } else {
        funs_convos(v, n - 1) + fun_convos(v[n - 1])
    }
}

/// Side mismatches of a schema: the namespaces at its root are visited,
/// the functions at its root are not.
pub open spec fn schema_convos(s: SpecSchema) -> Seq<SpecSideMismatch> {
    nss_convos(s.body.namespaces, s.body.namespaces.len() as int)
}

fn check_sides(parent: &FunctionDecl, fs: &Vec<FunctionDecl>, out: &mut Vec<SideMismatch>)
    ensures
        mismatches_view(final(out)@) == mismatches_view(old(out)@) + wrong_sides(
            parent@,
            funs_view(*fs, fs.len() as int),
            fs.len() as int,
        ),
{
    let ghost start = mismatches_view(out@);
    let ghost mv = funs_view(*fs, fs.len() as int);
    proof {
        lemma_funs_view_index(*fs, fs.len() as int);
        assert(start + wrong_sides(parent@, mv, 0) =~= start);
    }
    let expected = parent.side.other();
    let n = fs.len();
    assert(parent@.side == parent.side);
    assert(parent@.name == parent.name@);
    for i in 0..n
        invariant
            n == fs.len(),
            mv == funs_view(*fs, fs.len() as int),
            mv.len() == n,
            forall|k: int| 0 <= k < n ==> #[trigger] mv[k] == fun_view(fs@[k]),
            expected == parent.side.spec_other(),
            mismatches_view(out@) == start + wrong_sides(parent@, mv, i as int),
    {
        let f = &fs[i];
        let ghost pre = mismatches_view(out@);
        assert(mv[i as int] == fun_view(fs@[i as int]));
        assert(mv[i as int].side == f.side);
        assert(mv[i as int].name == f.name@);
        assert(wrong_sides(parent@, mv, i + 1) == wrong_sides(parent@, mv, i as int) + if f.side
            != expected {
            seq![
                SpecSideMismatch {
                    name: f.name.text@,
                    at: f.name.span,
                    expected,
                    parent: parent.name.text@,
                    parent_at: parent.name.span,
                    parent_side: parent.side,
                },
            ]
        } else {
            Seq::empty()
        });
        if f.side != expected {
            let m = SideMismatch {
                name: f.name.text.clone(),
                at: f.name.span,
                expected,
                parent: parent.name.text.clone(),
                parent_at: parent.name.span,
                parent_side: parent.side,
            };
            out.push(m);
            assert(mismatches_view(out@) =~= pre.push(m@));
        } else {
            assert(mismatches_view(out@) =~= pre);
        }
        assert(mismatches_view(out@) =~= start + wrong_sides(parent@, mv, i + 1));
    }
}

fn convos_nss(v: &Vec<NamespaceDecl>, out: &mut Vec<SideMismatch>)
    ensures
        mismatches_view(final(out)@) == mismatches_view(old(out)@) + nss_convos(
            nss_view(*v, v.len() as int),
            v.len() as int,
        ),
    decreases v, 2int,
{
    let ghost start = mismatches_view(out@);
    let ghost mv = nss_view(*v, v.len() as int);
    proof {
        lemma_nss_view_index(*v, v.len() as int);
        assert(start + nss_convos(mv, 0) =~= start);
    }
    let n = v.len();
    for i in 0..n
        invariant
            n == v.len(),
            mv == nss_view(*v, v.len() as int),
            mv.len() == n,
            forall|k: int| 0 <= k < n ==> #[trigger] mv[k] == ns_view(v@[k]),
            mismatches_view(out@) == start + nss_convos(mv, i as int),
    {
        convos_body(&v[i].body, out);
        assert(mv[i as int] == ns_view(v@[i as int]));
        assert(ns_convos(mv[i as int]) == body_convos(v@[i as int].body@));
        assert(mismatches_view(out@) =~= start + nss_convos(mv, i + 1));
    }
}

fn convos_fun(f: &FunctionDecl, out: &mut Vec<SideMismatch>)
    ensures
        mismatches_view(final(out)@) == mismatches_view(old(out)@) + fun_convos(f@),
    decreases f, 1int,
{
    let ghost start = mismatches_view(out@);
    match &f.body {
        Some(b) => {
            check_sides(f, &b.functions, out);
            convos_body(b, out);
            proof {
                lemma_funs_view_index(b.functions, b.functions.len() as int);
            }
        },
        None => {},
    }
    assert(mismatches_view(out@) =~= start + fun_convos(f@));
}

fn convos_funs(v: &Vec<FunctionDecl>, out: &mut Vec<SideMismatch>)
    ensures
        mismatches_view(final(out)@) == mismatches_view(old(out)@) + funs_convos(
            funs_view(*v, v.len() as int),
            v.len() as int,
        ),
    decreases v, 2int,
{
    let ghost start = mismatches_view(out@);
    let ghost mv = funs_view(*v, v.len() as int);
    proof {
        lemma_funs_view_index(*v, v.len() as int);
        assert(start + funs_convos(mv, 0) =~= start);
    }
    let n = v.len();
    for i in 0..n
        invariant
            n == v.len(),
            mv == funs_view(*v, v.len() as int),
            mv.len() == n,
            forall|k: int| 0 <= k < n ==> #[trigger] mv[k] == fun_view(v@[k]),
            mismatches_view(out@) == start + funs_convos(mv, i as int),
    {
        convos_fun(&v[i], out);
        assert(mv[i as int] == fun_view(v@[i as int]));
        assert(mismatches_view(out@) =~= start + funs_convos(mv, i + 1));
    }
}

fn convos_body(b: &NamespaceBody, out: &mut Vec<SideMismatch>)
    ensures
        mismatches_view(final(out)@) == mismatches_view(old(out)@) + body_convos(b@),
    decreases b, 3int,
{
    let ghost start = mismatches_view(out@);
    convos_nss(&b.namespaces, out);
    convos_funs(&b.functions, out);
    proof {
        lemma_funs_view_index(b.functions, b.functions.len() as int);
        lemma_nss_view_index(b.namespaces, b.namespaces.len() as int);
    }
    assert(mismatches_view(out@) =~= start + body_convos(b@));
}

/// All side mismatches of a schema.
pub fn side_mismatches(schema: &Schema) -> (r: Vec<SideMismatch>)
    ensures
        mismatches_view(r@) == schema_convos(schema@),
{
    let mut out: Vec<SideMismatch> = Vec::new();
    assert(mismatches_view(out@) =~= Seq::empty());
    convos_nss(&schema.body.namespaces, &mut out);
    proof {
        lemma_nss_view_index(schema.body.namespaces, schema.body.namespaces.len() as int);
    }
    assert(mismatches_view(out@) =~= schema_convos(schema@));
    out
}

/// The number of errors found by a check.
#[derive(Debug, Clone, Copy, PartialEq, Eq, Structural)]
pub struct Error {
    pub num_errors: i64,
}

/// A count of errors as reported: saturated at the largest `i64`.
pub open spec fn reported_count(n: nat) -> int {
    if n <= i64::MAX {
        n as int
    } else {
        i64::MAX as int
    }
}

fn count(n: usize) -> (r: i64)
    ensures
        r == reported_count(n as nat),
{
    if n as u64 <= i64::MAX as u64 {
        n as i64
    } else {
        i64::MAX
    }
}

/// Checks a schema: redefinitions are reported first; only when there are
/// none are side mismatches reported.
pub fn check(schema: &Schema) -> (r: Result<(), Error>)
    ensures
        schema_redefs(schema@).len() > 0 ==> r == Err::<(), Error>(
            Error { num_errors: reported_count(schema_redefs(schema@).len()) as i64 },
        ),
        schema_redefs(schema@).len() == 0 && schema_convos(schema@).len() > 0 ==> r == Err::<
            (),
            Error,
        >(Error { num_errors: reported_count(schema_convos(schema@).len()) as i64 }),
        schema_redefs(schema@).len() == 0 && schema_convos(schema@).len() == 0 ==> r is Ok,
{
    let redefs = redefinitions(schema);
    if redefs.len() > 0 {
        return Err(Error { num_errors: count(redefs.len()) });
    }
    let sides = side_mismatches(schema);
    if sides.len() > 0 {
        return Err(Error { num_errors: count(sides.len()) });
    }
    Ok(())
}


/// Everything `small` holds, `big` holds too.
pub open spec fn includes<T>(big: Seq<T>, small: Seq<T>) -> bool {
    forall|x: T| small.contains(x) ==> #[trigger] big.contains(x)
}

proof fn lemma_concat_includes<T>(a: Seq<T>, b: Seq<T>)
    ensures
        includes(a + b, a),
        includes(a + b, b),
{
    assert forall|x: T| a.contains(x) implies #[trigger] (a + b).contains(x) by {
        let k = choose|k: int| 0 <= k < a.len() && a[k] == x;
        assert((a + b)[k] == x);
    }
    assert forall|x: T| b.contains(x) implies #[trigger] (a + b).contains(x) by {
        let k = choose|k: int| 0 <= k < b.len() && b[k] == x;
        assert((a + b)[a.len() + k] == x);
    }
}

proof fn lemma_includes_trans<T>(a: Seq<T>, b: Seq<T>, c: Seq<T>)
    requires
        includes(a, b),
        includes(b, c),
    ensures
        includes(a, c),
{
}

/// The redefinition reported for the name at `j`, when an earlier name is
/// spelled the same.
proof fn lemma_dupes_report(kind: DeclKind, names: Seq<SpecIdentifier>, i: int, j: int)
    requires
        0 <= i < j < names.len(),
        names[i].text == names[j].text,
    ensures
        exists|r: SpecRedefinition|
            #[trigger] dupes(kind, names).contains(r) && r.kind == kind && r.name == names[j].text && r.at
                == names[j].span,
    decreases names.len(),
{
    let prev = names.drop_last();
    let cur = names.last();
    if j == names.len() - 1 {
        lemma_last_index_named(prev, cur.text);
        assert(texts(prev)[i] == cur.text);
        let k = last_index_named(prev, cur.text)->Some_0;
        let r = SpecRedefinition { kind, name: cur.text, at: cur.span, first: prev[k].span };
        lemma_concat_includes(dupes(kind, prev), seq![r]);
        assert(seq![r][0] == r);
        assert(dupes(kind, names).contains(r));
    } else {
        lemma_dupes_report(kind, prev, i, j);
        let r = choose|r: SpecRedefinition|
            #[trigger] dupes(kind, prev).contains(r) && r.kind == kind && r.name == prev[j].text && r.at
                == prev[j].span;
        let tail = match last_index_named(prev, cur.text) {
            Some(k) => seq![SpecRedefinition { kind, name: cur.text, at: cur.span, first: prev[k].span }],
            None => Seq::<SpecRedefinition>::empty(),
        };
        lemma_concat_includes(dupes(kind, prev), tail);
        assert(dupes(kind, names).contains(r));
    }
}

proof fn lemma_nss_redefs_include(v: Seq<SpecNamespaceDecl>, n: int, k: int)
    requires
        0 <= k < n <= v.len(),
    ensures
        includes(nss_redefs(v, n), body_redefs(v[k].body)),
    decreases n,
{
    lemma_concat_includes(nss_redefs(v, n - 1), ns_redefs(v[n - 1]));
    if k < n - 1 {
        lemma_nss_redefs_include(v, n - 1, k);
    }
}

proof fn lemma_funs_redefs_include(v: Seq<SpecFunctionDecl>, n: int, k: int)
    requires
        0 <= k < n <= v.len(),
    ensures
        includes(funs_redefs(v, n), fun_redefs(v[k])),
    decreases n,
{
    lemma_concat_includes(funs_redefs(v, n - 1), fun_redefs(v[n - 1]));
    if k < n - 1 {
        lemma_funs_redefs_include(v, n - 1, k);
    }
}

proof fn lemma_structs_redefs_include(v: Seq<SpecStructDecl>, n: int, k: int)
    requires
        0 <= k < n <= v.len(),
    ensures
        includes(structs_redefs(v, n), dupes(DeclKind::Field, field_names(v[k].fields))),
    decreases n,
{
    lemma_concat_includes(structs_redefs(v, n - 1), dupes(DeclKind::Field, field_names(v[n - 1].fields)));
    if k < n - 1 {
        lemma_structs_redefs_include(v, n - 1, k);
    }
}

proof fn lemma_body_redefs_parts(b: SpecNamespaceBody)
    ensures
        includes(body_redefs(b), dupes(DeclKind::Namespace, ns_names(b.namespaces))),
        includes(body_redefs(b), nss_redefs(b.namespaces, b.namespaces.len() as int)),
        includes(body_redefs(b), dupes(DeclKind::Struct, struct_names(b.structs))),
        includes(body_redefs(b), structs_redefs(b.structs, b.structs.len() as int)),
        includes(body_redefs(b), dupes(DeclKind::Function, fun_names(b.functions))),
        includes(body_redefs(b), funs_redefs(b.functions, b.functions.len() as int)),
{
    let a1 = dupes(DeclKind::Namespace, ns_names(b.namespaces));
    let a2 = nss_redefs(b.namespaces, b.namespaces.len() as int);
    let a3 = dupes(DeclKind::Struct, struct_names(b.structs));
    let a4 = structs_redefs(b.structs, b.structs.len() as int);
    let a5 = dupes(DeclKind::Function, fun_names(b.functions));
    let a6 = funs_redefs(b.functions, b.functions.len() as int);
    lemma_concat_includes(a1, a2);
    lemma_concat_includes(a1 + a2, a3);
    lemma_concat_includes(a1 + a2 + a3, a4);
    lemma_concat_includes(a1 + a2 + a3 + a4, a5);
    lemma_concat_includes(a1 + a2 + a3 + a4 + a5, a6);
}

/// In any scope, a namespace, struct or function named like an earlier
/// one of the same kind in that scope is reported as a redefinition of
/// that kind, at its own name.
pub proof fn lemma_scope_redefinitions(b: SpecNamespaceBody, i: int, j: int)
    ensures
        0 <= i < j < b.namespaces.len() && b.namespaces[i].name.text == b.namespaces[j].name.text
            ==> exists|r: SpecRedefinition|
            #[trigger] body_redefs(b).contains(r) && r.kind == DeclKind::Namespace && r.name
                == b.namespaces[j].name.text && r.at == b.namespaces[j].name.span,
        0 <= i < j < b.structs.len() && b.structs[i].name.text == b.structs[j].name.text
            ==> exists|r: SpecRedefinition|
            #[trigger] body_redefs(b).contains(r) && r.kind == DeclKind::Struct && r.name
                == b.structs[j].name.text && r.at == b.structs[j].name.span,
        0 <= i < j < b.functions.len() && b.functions[i].name.text == b.functions[j].name.text
            ==> exists|r: SpecRedefinition|
            #[trigger] body_redefs(b).contains(r) && r.kind == DeclKind::Function && r.name
                == b.functions[j].name.text && r.at == b.functions[j].name.span,
{
    lemma_body_redefs_parts(b);
    if 0 <= i < j < b.namespaces.len() && b.namespaces[i].name.text == b.namespaces[j].name.text {
        let names = ns_names(b.namespaces);
        lemma_dupes_report(DeclKind::Namespace, names, i, j);
        let r = choose|r: SpecRedefinition|
            #[trigger] dupes(DeclKind::Namespace, names).contains(r) && r.kind == DeclKind::Namespace
                && r.name == names[j].text && r.at == names[j].span;
        assert(body_redefs(b).contains(r));
    }
    if 0 <= i < j < b.structs.len() && b.structs[i].name.text == b.structs[j].name.text {
        let names = struct_names(b.structs);
        lemma_dupes_report(DeclKind::Struct, names, i, j);
        let r = choose|r: SpecRedefinition|
            #[trigger] dupes(DeclKind::Struct, names).contains(r) && r.kind == DeclKind::Struct
                && r.name == names[j].text && r.at == names[j].span;
        assert(body_redefs(b).contains(r));
    }
    if 0 <= i < j < b.functions.len() && b.functions[i].name.text == b.functions[j].name.text {
        let names = fun_names(b.functions);
        lemma_dupes_report(DeclKind::Function, names, i, j);
        let r = choose|r: SpecRedefinition|
            #[trigger] dupes(DeclKind::Function, names).contains(r) && r.kind == DeclKind::Function
                && r.name == names[j].text && r.at == names[j].span;
        assert(body_redefs(b).contains(r));
    }
}

/// In a struct of any scope, a field named like an earlier field of the
/// struct is reported as a field redefinition, at its own name.
pub proof fn lemma_field_redefinitions(b: SpecNamespaceBody, k: int, i: int, j: int)
    requires
        0 <= k < b.structs.len(),
        0 <= i < j < b.structs[k].fields.len(),
        b.structs[k].fields[i].name.text == b.structs[k].fields[j].name.text,
    ensures
        exists|r: SpecRedefinition|
            #[trigger] body_redefs(b).contains(r) && r.kind == DeclKind::Field && r.name
                == b.structs[k].fields[j].name.text && r.at == b.structs[k].fields[j].name.span,
{
    lemma_body_redefs_parts(b);
    lemma_structs_redefs_include(b.structs, b.structs.len() as int, k);
    let names = field_names(b.structs[k].fields);
    lemma_dupes_report(DeclKind::Field, names, i, j);
    let r = choose|r: SpecRedefinition|
        #[trigger] dupes(DeclKind::Field, names).contains(r) && r.kind == DeclKind::Field && r.name
            == names[j].text && r.at == names[j].span;
    assert(body_redefs(b).contains(r));
}

/// The redefinitions inside a namespace of a scope, and inside the body of
/// a function of a scope, are among the redefinitions of the scope: a scope
/// is checked at every depth.
pub proof fn lemma_nested_redefinitions(b: SpecNamespaceBody, k: int)
    ensures
        0 <= k < b.namespaces.len() ==> includes(body_redefs(b), body_redefs(b.namespaces[k].body)),
        0 <= k < b.functions.len() && b.functions[k].body is Some ==> includes(
            body_redefs(b),
            body_redefs(b.functions[k].body->Some_0),
        ),
{
    lemma_body_redefs_parts(b);
    if 0 <= k < b.namespaces.len() {
        lemma_nss_redefs_include(b.namespaces, b.namespaces.len() as int, k);
        lemma_includes_trans(
            body_redefs(b),
            nss_redefs(b.namespaces, b.namespaces.len() as int),
            body_redefs(b.namespaces[k].body),
        );
    }
    if 0 <= k < b.functions.len() && b.functions[k].body is Some {
        let f = b.functions[k];
        lemma_funs_redefs_include(b.functions, b.functions.len() as int, k);
        let pre = dupes(DeclKind::Param, field_names(f.params)) + dupes(
            DeclKind::ResultValue,
            field_names(f.results),
        );
        lemma_concat_includes(pre, body_redefs(f.body->Some_0));
        lemma_includes_trans(funs_redefs(b.functions, b.functions.len() as int), fun_redefs(f), body_redefs(f.body->Some_0));
        lemma_includes_trans(
            body_redefs(b),
            funs_redefs(b.functions, b.functions.len() as int),
            body_redefs(f.body->Some_0),
        );
    }
}

/// A schema reports the namespaces declared twice at its root and every
/// redefinition inside each of its root namespaces; so a check of a schema
/// with such a redefinition fails.
pub proof fn lemma_schema_redefinitions(s: SpecSchema, k: int)
    requires
        0 <= k < s.body.namespaces.len(),
    ensures
        includes(schema_redefs(s), dupes(DeclKind::Namespace, ns_names(s.body.namespaces))),
        includes(schema_redefs(s), body_redefs(s.body.namespaces[k].body)),
        body_redefs(s.body.namespaces[k].body).len() > 0 ==> schema_redefs(s).len() > 0,
{
    let a = dupes(DeclKind::Namespace, ns_names(s.body.namespaces));
    let c = nss_redefs(s.body.namespaces, s.body.namespaces.len() as int);
    lemma_concat_includes(a, c);
    lemma_nss_redefs_include(s.body.namespaces, s.body.namespaces.len() as int, k);
    lemma_includes_trans(schema_redefs(s), c, body_redefs(s.body.namespaces[k].body));
    let inner = body_redefs(s.body.namespaces[k].body);
    if inner.len() > 0 {
        assert(inner.contains(inner[0]));
        assert(schema_redefs(s).contains(inner[0]));
    }
}


proof fn lemma_nss_convos_include(v: Seq<SpecNamespaceDecl>, n: int, k: int)
    requires
        0 <= k < n <= v.len(),
    ensures
        includes(nss_convos(v, n), body_convos(v[k].body)),
    decreases n,
{
    lemma_concat_includes(nss_convos(v, n - 1), ns_convos(v[n - 1]));
    if k < n - 1 {
        lemma_nss_convos_include(v, n - 1, k);
    }
}

proof fn lemma_funs_convos_include(v: Seq<SpecFunctionDecl>, n: int, k: int)
    requires
        0 <= k < n <= v.len(),
    ensures
        includes(funs_convos(v, n), fun_convos(v[k])),
    decreases n,
{
    lemma_concat_includes(funs_convos(v, n - 1), fun_convos(v[n - 1]));
    if k < n - 1 {
        lemma_funs_convos_include(v, n - 1, k);
    }
}

proof fn lemma_wrong_sides_report(parent: SpecFunctionDecl, fs: Seq<SpecFunctionDecl>, n: int, j: int)
    requires
        0 <= j < n <= fs.len(),
        fs[j].side != parent.side.spec_other(),
    ensures
        wrong_sides(parent, fs, n).contains(
            SpecSideMismatch {
                name: fs[j].name.text,
                at: fs[j].name.span,
                expected: parent.side.spec_other(),
                parent: parent.name.text,
                parent_at: parent.name.span,
                parent_side: parent.side,
            },
        ),
    decreases n,
{
    let m = SpecSideMismatch {
        name: fs[j].name.text,
        at: fs[j].name.span,
        expected: parent.side.spec_other(),
        parent: parent.name.text,
        parent_at: parent.name.span,
        parent_side: parent.side,
    };
    let f = fs[n - 1];
    let expected = parent.side.spec_other();
    let tail = if f.side != expected {
        seq![
            SpecSideMismatch {
                name: f.name.text,
                at: f.name.span,
                expected,
                parent: parent.name.text,
                parent_at: parent.name.span,
                parent_side: parent.side,
            },
        ]
    } else {
        Seq::<SpecSideMismatch>::empty()
    };
    lemma_concat_includes(wrong_sides(parent, fs, n - 1), tail);
    if j == n - 1 {
        assert(tail[0] == m);
        assert(tail.contains(m));
    } else {
        lemma_wrong_sides_report(parent, fs, n - 1, j);
    }
}

/// In any scope, a function declared in the body of a function of that
/// scope, on the same side as its parent rather than the other one, is
/// reported; and what is reported inside a namespace of the scope, or
/// inside the body of a function of the scope, is reported for the scope:
/// functions are checked in namespaces and bodies at every depth.
pub proof fn lemma_scope_mismatches(b: SpecNamespaceBody, k: int, j: int)
    ensures
        0 <= k < b.namespaces.len() ==> includes(body_convos(b), body_convos(b.namespaces[k].body)),
        0 <= k < b.functions.len() && b.functions[k].body is Some ==> includes(
            body_convos(b),
            body_convos(b.functions[k].body->Some_0),
        ),
        0 <= k < b.functions.len() && b.functions[k].body is Some && 0 <= j
            < b.functions[k].body->Some_0.functions.len()
            && b.functions[k].body->Some_0.functions[j].side != b.functions[k].side.spec_other()
            ==> body_convos(b).contains(
            SpecSideMismatch {
                name: b.functions[k].body->Some_0.functions[j].name.text,
                at: b.functions[k].body->Some_0.functions[j].name.span,
                expected: b.functions[k].side.spec_other(),
                parent: b.functions[k].name.text,
                parent_at: b.functions[k].name.span,
                parent_side: b.functions[k].side,
            },
        ),
{
    let nss = nss_convos(b.namespaces, b.namespaces.len() as int);
    let fns = funs_convos(b.functions, b.functions.len() as int);
    lemma_concat_includes(nss, fns);
    if 0 <= k < b.namespaces.len() {
        lemma_nss_convos_include(b.namespaces, b.namespaces.len() as int, k);
        lemma_includes_trans(body_convos(b), nss, body_convos(b.namespaces[k].body));
    }
    if 0 <= k < b.functions.len() && b.functions[k].body is Some {
        let f = b.functions[k];
        let fb = f.body->Some_0;
        lemma_funs_convos_include(b.functions, b.functions.len() as int, k);
        lemma_includes_trans(body_convos(b), fns, fun_convos(f));
        let ws = wrong_sides(f, fb.functions, fb.functions.len() as int);
        lemma_concat_includes(ws, body_convos(fb));
        lemma_includes_trans(body_convos(b), fun_convos(f), body_convos(fb));
        if 0 <= j < fb.functions.len() && fb.functions[j].side != f.side.spec_other() {
            lemma_wrong_sides_report(f, fb.functions, fb.functions.len() as int, j);
            lemma_includes_trans(body_convos(b), fun_convos(f), ws);
        }
    }
}

/// A schema reports what is reported inside each of its root namespaces;
/// so a check of a schema whose namespaces, at any depth, hold a function
/// on the wrong side fails unless it already failed on a redefinition.
pub proof fn lemma_schema_mismatches(s: SpecSchema, k: int)
    requires
        0 <= k < s.body.namespaces.len(),
    ensures
        includes(schema_convos(s), body_convos(s.body.namespaces[k].body)),
        body_convos(s.body.namespaces[k].body).len() > 0 ==> schema_convos(s).len() > 0,
{
    lemma_nss_convos_include(s.body.namespaces, s.body.namespaces.len() as int, k);
    let inner = body_convos(s.body.namespaces[k].body);
    if inner.len() > 0 {
        assert(inner.contains(inner[0]));
        assert(schema_convos(s).contains(inner[0]));
    }
}

} // verus!
