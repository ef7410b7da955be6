//! The outline of a schema: one entry per declaration, in the order and at
//! the nesting depth at which the `print` command lists them.
use crate::ast::{
    fields_view, fun_view, funs_view, lemma_funs_view_index, lemma_nss_view_index, ns_view,
    nss_view, Comment, Field, FunctionDecl, NamespaceBody, NamespaceDecl, Schema, Span,
    SpecComment, SpecField, SpecFunctionDecl, SpecNamespaceBody, SpecNamespaceDecl, SpecSchema,
    SpecStructDecl, StructDecl, structs_view,
};
use vstd::prelude::*;

verus! {

#[derive(Debug, Clone, Copy, PartialEq, Eq, Structural)]
pub enum EntryKind {
    Schema,
    Namespace,
    Struct,
    Function,
    Field,
}

/// One line of the outline.
#[derive(Debug)]
pub struct OutlineEntry {
    pub loc: Span,
    pub depth: usize,
    pub kind: EntryKind,
    pub name: String,
    /// The type, for a field; empty otherwise.
    pub typ: String,
    /// The lines of the doc comment, run together.
    pub comment: Option<String>,
}

pub struct SpecEntry {
    pub loc: Span,
    pub depth: usize,
    pub kind: EntryKind,
    pub name: Seq<char>,
    pub typ: Seq<char>,
    pub comment: Option<Seq<char>>,
}

impl View for OutlineEntry {
    type V = SpecEntry;

    open spec fn view(&self) -> SpecEntry {
        SpecEntry {
            loc: self.loc,
            depth: self.depth,
            kind: self.kind,
            name: self.name@,
            typ: self.typ@,
            comment: match self.comment {
                Some(c) => Some(c@),
                None => None,
            },
        }
    }
}

pub open spec fn entries_view(v: Seq<OutlineEntry>) -> Seq<SpecEntry> {
    v.map_values(|e: OutlineEntry| e@)
}

/// One level deeper, staying at the largest depth once there.
pub open spec fn deeper(d: usize) -> usize {
    if d == usize::MAX {
        d
    } else {
        (d + 1) as usize
    }
}

/// The lines of a comment, run together.
pub open spec fn concat_lines(lines: Seq<Seq<char>>) -> Seq<char>
    decreases lines.len(),
{
    if lines.len() == 0 {
        Seq::empty()
    } else {
        concat_lines(lines.drop_last()) + lines.last()
    }
}

pub open spec fn comment_text(c: Option<SpecComment>) -> Option<Seq<char>> {
    match c {
        Some(c) => Some(concat_lines(c.lines)),
        None => None,
    }
}

pub open spec fn field_entries(v: Seq<SpecField>, d: usize, n: int) -> Seq<SpecEntry>
    decreases n,
{
    if n <= 0 || n > v.len() {
        Seq::empty()
    } else {
        let f = v[n - 1];
        field_entries(v, d, n - 1) + seq![
            SpecEntry {
                loc: f.loc,
                depth: d,
                kind: EntryKind::Field,
                name: f.name.text,
                typ: f.typ.text,
                comment: comment_text(f.comment),
            },
        ]
    }
}

pub open spec fn all_fields(v: Seq<SpecField>, d: usize) -> Seq<SpecEntry> {
    field_entries(v, d, v.len() as int)
}

pub open spec fn struct_entries(s: SpecStructDecl, d: usize) -> Seq<SpecEntry> {
    seq![
        SpecEntry {
            loc: s.loc,
            depth: d,
            kind: EntryKind::Struct,
            name: s.name.text,
            typ: Seq::empty(),
            comment: comment_text(s.comment),
        },
    ] + all_fields(s.fields, deeper(d))
}

pub open spec fn structs_entries(v: Seq<SpecStructDecl>, d: usize, n: int) -> Seq<SpecEntry>
    decreases n,
{
    if n <= 0 || n > v.len() {
        Seq::empty()
    } else {
        structs_entries(v, d, n - 1) + struct_entries(v[n - 1], d)
    }
}

/// A body lists its namespaces, then its structs, then its functions, each
/// one level deeper than `d`.
pub open spec fn body_entries(b: SpecNamespaceBody, d: usize) -> Seq<SpecEntry>
    decreases b, 0int,
{
    nss_entries(b.namespaces, deeper(d), b.namespaces.len() as int) + structs_entries(
        b.structs,
        deeper(d),
        b.structs.len() as int,
    ) + funs_entries(b.functions, deeper(d), b.functions.len() as int)
}

/// A namespace lists its body at its own depth.
pub open spec fn ns_entries(n: SpecNamespaceDecl, d: usize) -> Seq<SpecEntry>
    decreases n, 0int,
{
    seq![
        SpecEntry {
            loc: n.loc,
            depth: d,
            kind: EntryKind::Namespace,
            name: n.name.text,
            typ: Seq::empty(),
            comment: comment_text(n.comment),
        },
    ] + body_entries(n.body, d)
}

/// A function lists its parameters and results one level deeper, and its
/// body one level deeper still.
pub open spec fn fun_entries(f: SpecFunctionDecl, d: usize) -> Seq<SpecEntry>
    decreases f, 0int,
{
    seq![
        SpecEntry {
            loc: f.loc,
            depth: d,
            kind: EntryKind::Function,
            name: f.name.text,
            typ: Seq::empty(),
            comment: comment_text(f.comment),
        },
    ] + all_fields(f.params, deeper(d)) + all_fields(f.results, deeper(d)) + match f.body {
        Some(b) => body_entries(b, deeper(d)),
        None => Seq::empty(),
    }
}

pub open spec fn nss_entries(v: Seq<SpecNamespaceDecl>, d: usize, n: int) -> Seq<SpecEntry>
    decreases v, n,
{
    if n <= 0 || n > v.len() {
        Seq::empty()
    } else {
        nss_entries(v, d, n - 1) + ns_entries(v[n - 1], d)
    }
}

pub open spec fn funs_entries(v: Seq<SpecFunctionDecl>, d: usize, n: int) -> Seq<SpecEntry>
    decreases v, n,
{
    if n <= 0 || n > v.len() {
        Seq::empty()
    } else {
        funs_entries(v, d, n - 1) + fun_entries(v[n - 1], d)
    }
}

/// The schema at depth one, then its body at the same depth.
pub open spec fn schema_entries(s: SpecSchema) -> Seq<SpecEntry> {
    seq![
        SpecEntry {
            loc: s.loc,
            depth: 1,
            kind: EntryKind::Schema,
            name: "schema"@,
            typ: Seq::empty(),
            comment: None,
        },
    ] + body_entries(s.body, 1)
}

fn next_depth(d: usize) -> (r: usize)
    ensures
        r == deeper(d),
{
    if d < usize::MAX {
        d + 1
    } else {
        d
    }
}

fn comment_of(c: &Option<Comment>) -> (r: Option<String>)
    ensures
        match r {
            Some(s) => comment_text(crate::ast::opt_comment_view(*c)) == Some(s@),
            None => comment_text(crate::ast::opt_comment_view(*c)) is None,
        },
{
    match c {
        Some(c) => {
            let ghost lines = c@.lines;
            let mut r = String::new();
            let n = c.lines.len();
            for i in 0..n
                invariant
                    n == c.lines@.len(),
                    lines == c@.lines,
                    r@ == concat_lines(lines.subrange(0, i as int)),
            {
                r.append(c.lines[i].as_str());
                assert(lines.subrange(0, i + 1).drop_last() =~= lines.subrange(0, i as int));
            }
            assert(lines.subrange(0, n as int) =~= lines);
            Some(r)
        },
        None => None,
    }
}

fn push_entry(
    out: &mut Vec<OutlineEntry>,
    loc: Span,
    depth: usize,
    kind: EntryKind,
    name: &str,
    typ: &str,
    comment: &Option<Comment>,
)
    ensures
        entries_view(final(out)@) == entries_view(old(out)@).push(
            SpecEntry {
                loc,
                depth,
                kind,
                name: name@,
                typ: typ@,
                comment: comment_text(crate::ast::opt_comment_view(*comment)),
            },
        ),
{
    let c = comment_of(comment);
    let e = OutlineEntry {
        loc,
        depth,
        kind,
        name: String::from_str(name),
        typ: String::from_str(typ),
        comment: c,
    };
    out.push(e);
    assert(entries_view(out@) =~= entries_view(old(out)@).push(e@));
}

fn outline_fields(v: &Vec<Field>, d: usize, out: &mut Vec<OutlineEntry>)
    ensures
        entries_view(final(out)@) == entries_view(old(out)@) + all_fields(fields_view(v@), d),
{
    let ghost start = entries_view(out@);
    let ghost fv = fields_view(v@);
    let n = v.len();
    assert(start + field_entries(fv, d, 0) =~= start);
    for i in 0..n
        invariant
            n == v.len(),
            fv == fields_view(v@),
            entries_view(out@) == start + field_entries(fv, d, i as int),
    {
        let f = &v[i];
        proof {
            reveal_strlit("");
            assert(""@ =~= Seq::<char>::empty());
        }
        push_entry(out, f.loc, d, EntryKind::Field, f.name.text.as_str(), f.typ.text.as_str(), &f.comment);
        assert(fv[i as int] == f@);
        assert(entries_view(out@) =~= start + field_entries(fv, d, i + 1));
    }
}

fn outline_structs(v: &Vec<StructDecl>, d: usize, out: &mut Vec<OutlineEntry>)
    ensures
        entries_view(final(out)@) == entries_view(old(out)@) + structs_entries(
            structs_view(v@),
            d,
            v.len() as int,
        ),
{
    let ghost start = entries_view(out@);
    let ghost sv = structs_view(v@);
    let n = v.len();
    assert(start + structs_entries(sv, d, 0) =~= start);
    for i in 0..n
        invariant
            n == v.len(),
            sv == structs_view(v@),
            entries_view(out@) == start + structs_entries(sv, d, i as int),
    {
        let s = &v[i];
        let ghost pre = entries_view(out@);
        push_entry(out, s.loc, d, EntryKind::Struct, s.name.text.as_str(), "", &s.comment);
        outline_fields(&s.fields, next_depth(d), out);
        proof {
            reveal_strlit("");
            assert(""@ =~= Seq::<char>::empty());
            assert(sv[i as int] == s@);
            assert(entries_view(out@) =~= pre + struct_entries(sv[i as int], d));
            assert(entries_view(out@) =~= start + structs_entries(sv, d, i + 1));
        }
    }
}

fn outline_body(b: &NamespaceBody, d: usize, out: &mut Vec<OutlineEntry>)
    ensures
        entries_view(final(out)@) == entries_view(old(out)@) + body_entries(b@, d),
    decreases b, 3int,
{
    let ghost start = entries_view(out@);
    let e = next_depth(d);
    outline_nss(&b.namespaces, e, out);
    outline_structs(&b.structs, e, out);
    outline_funs(&b.functions, e, out);
    assert(b@.namespaces == nss_view(b.namespaces, b.namespaces.len() as int));
    assert(b@.functions == funs_view(b.functions, b.functions.len() as int));
    assert(b@.structs == structs_view(b.structs@));
    proof {
        lemma_nss_view_index(b.namespaces, b.namespaces.len() as int);
        lemma_funs_view_index(b.functions, b.functions.len() as int);
    }
    assert(entries_view(out@) =~= start + body_entries(b@, d));
}

fn outline_nss(v: &Vec<NamespaceDecl>, d: usize, out: &mut Vec<OutlineEntry>)
    ensures
        entries_view(final(out)@) == entries_view(old(out)@) + nss_entries(
            nss_view(*v, v.len() as int),
            d,
            v.len() as int,
        ),
    decreases v, 2int,
{
    let ghost start = entries_view(out@);
    let ghost mv = nss_view(*v, v.len() as int);
    proof {
        lemma_nss_view_index(*v, v.len() as int);
        assert(start + nss_entries(mv, d, 0) =~= start);
    }
    let n = v.len();
    for i in 0..n
        invariant
            n == v.len(),
            mv == nss_view(*v, v.len() as int),
            mv.len() == n,
            forall|k: int| 0 <= k < n ==> #[trigger] mv[k] == ns_view(v@[k]),
            entries_view(out@) == start + nss_entries(mv, d, i as int),
    {
        let ns = &v[i];
        let ghost pre = entries_view(out@);
        push_entry(out, ns.loc, d, EntryKind::Namespace, ns.name.text.as_str(), "", &ns.comment);
        outline_body(&ns.body, d, out);
        proof {
            reveal_strlit("");
            assert(""@ =~= Seq::<char>::empty());
            assert(mv[i as int] == ns_view(v@[i as int]));
            assert(entries_view(out@) =~= pre + ns_entries(mv[i as int], d));
            assert(entries_view(out@) =~= start + nss_entries(mv, d, i + 1));
        }
    }
}

fn outline_fun(f: &FunctionDecl, d: usize, out: &mut Vec<OutlineEntry>)
    ensures
        entries_view(final(out)@) == entries_view(old(out)@) + fun_entries(f@, d),
    decreases f, 1int,
{
    let ghost start = entries_view(out@);
    push_entry(out, f.loc, d, EntryKind::Function, f.name.text.as_str(), "", &f.comment);
    let e = next_depth(d);
    outline_fields(&f.params, e, out);
    outline_fields(&f.results, e, out);
    match &f.body {
        Some(b) => {
            outline_body(b, e, out);
        },
        None => {},
    }
    proof {
        reveal_strlit("");
            assert(""@ =~= Seq::<char>::empty());
    }
    assert(entries_view(out@) =~= start + fun_entries(f@, d));
}

fn outline_funs(v: &Vec<FunctionDecl>, d: usize, out: &mut Vec<OutlineEntry>)
    ensures
        entries_view(final(out)@) == entries_view(old(out)@) + funs_entries(
            funs_view(*v, v.len() as int),
            d,
            v.len() as int,
        ),
    decreases v, 2int,
{
    let ghost start = entries_view(out@);
    let ghost mv = funs_view(*v, v.len() as int);
    proof {
        lemma_funs_view_index(*v, v.len() as int);
        assert(start + funs_entries(mv, d, 0) =~= start);
    }
    let n = v.len();
    for i in 0..n
        invariant
            n == v.len(),
            mv == funs_view(*v, v.len() as int),
            mv.len() == n,
            forall|k: int| 0 <= k < n ==> #[trigger] mv[k] == fun_view(v@[k]),
            entries_view(out@) == start + funs_entries(mv, d, i as int),
    {
        outline_fun(&v[i], d, out);
        assert(mv[i as int] == fun_view(v@[i as int]));
        assert(entries_view(out@) =~= start + funs_entries(mv, d, i + 1));
    }
}

/// The outline of a schema, as the `print` command lists it.
pub fn outline(schema: &Schema) -> (r: Vec<OutlineEntry>)
    ensures
        entries_view(r@) == schema_entries(schema@),
{
    let mut out: Vec<OutlineEntry> = Vec::new();
    push_entry(&mut out, schema.loc, 1, EntryKind::Schema, "schema", "", &None);
    outline_body(&schema.body, 1, &mut out);
    proof {
        reveal_strlit("");
            assert(""@ =~= Seq::<char>::empty());
        assert(Seq::<OutlineEntry>::empty().len() == 0);
    }
    assert(entries_view(out@) =~= schema_entries(schema@));
    out
}

/// The prefix of an outline line at `depth`: two blanks per level, none at
/// the first level, then a bar.
pub open spec fn prefix_text(depth: usize) -> Seq<char> {
    crate::diag::repeated(' ', if depth == 1 {
        0nat
    } else {
        2 * depth as nat
    }) + seq!['|']
}

pub fn indent_prefix(depth: usize) -> (r: String)
    ensures
        r@ == prefix_text(depth),
{
    let n: usize = if depth == 1 {
        0
    } else {
        depth
    };
    let mut r = String::new();
    let mut i: usize = 0;
    while i < n
        invariant
            i <= n,
            n == (if depth == 1 { 0 } else { depth }),
            r@ == crate::diag::repeated(' ', 2 * i as nat),
        decreases n - i,
    {
        crate::output::push_char(&mut r, ' ');
        crate::output::push_char(&mut r, ' ');
        proof {
            assert(2 * (i + 1) as nat == (2 * i as nat + 1) + 1);
            assert(crate::diag::repeated(' ', 2 * (i + 1) as nat) == crate::diag::repeated(
                ' ',
                (2 * i as nat + 1) as nat,
            ).push(' '));
        }
        i = i + 1;
    }
    crate::output::push_char(&mut r, '|');
    r
}

} // verus!
