//! The protocol module of generated code: the unions of the schema's
//! functions (`Params`, `Results`, `NotificationParams`) with their `Atom`
//! and `Factual` impls, and the type mapping, which gives every type that
//! crosses the wire (the builtin unions, each struct and each enum of the
//! schema) the list of offsets under which the peer knows its members.
//! A trait impl is written as `impl Trait for Name` with its body in a
//! block.
use crate::anchored::{anchoreds_view, enums_of_body, frame_names, funs_of_body, structs_of_body, Anchored, FrameKind};
use crate::ast::{EnumDecl, FunctionDecl, Kind, NamespaceBody, StructDecl};
use crate::common::{facts_path, lavish_path, Mods, Traits};
use crate::lang::{_enum, debug_text, enum_text, quoted};
use crate::naming::{schema_path, RustFn};
use crate::output::join;
use crate::symbols::{blk, factual_impl_of, spec_factual_impl};
use crate::lang::indented;
use crate::module::ind;
use crate::naming::{variant_name, RustStruct};
use crate::symbols::{decimal, decimal_text};
use vstd::prelude::*;

verus! {

/// The protocol module generated for a namespace body.
pub struct Protocol<'a> {
    pub body: Anchored<'a, &'a NamespaceBody>,
}

/// `0, 1, ..., n - 1`: the offsets of `n` members, each at its own place.
pub open spec fn offsets(n: nat) -> Seq<char>
    decreases n,
{
    if n == 0 {
        Seq::empty()
    } else if n == 1 {
        "0"@
    } else {
        offsets((n - 1) as nat) + ", "@ + decimal((n - 1) as nat)
    }
}

/// How many of the functions are of kind `k`.
pub open spec fn count_kind<'a>(fs: Seq<(Seq<FrameKind<'a>>, &'a FunctionDecl)>, k: Kind) -> nat
    decreases fs.len(),
{
    if fs.len() == 0 {
        0
    } else {
        count_kind(fs.drop_last(), k) + if fs.last().1.kind == k {
            1nat
        } else {
            0nat
        }
    }
}

/// Each struct's variant name and number of fields.
pub open spec fn struct_entries<'a>(v: Seq<(Seq<FrameKind<'a>>, &'a StructDecl)>) -> Seq<(Seq<char>, nat)> {
    v.map_values(
        |e: (Seq<FrameKind<'a>>, &'a StructDecl)|
            (variant_name(frame_names(e.0).push(e.1.name.text@)), e.1.fields.len() as nat),
    )
}

/// Each enum's variant name and number of variants.
pub open spec fn enum_entries<'a>(v: Seq<(Seq<FrameKind<'a>>, &'a EnumDecl)>) -> Seq<(Seq<char>, nat)> {
    v.map_values(
        |e: (Seq<FrameKind<'a>>, &'a EnumDecl)|
            (variant_name(frame_names(e.0).push(e.1.name.text@)), e.1.variants.len() as nat),
    )
}

/// A `TypeMapping` field of the mapping struct for each entry.
pub open spec fn member_lines(es: Seq<(Seq<char>, nat)>) -> Seq<char>
    decreases es.len(),
{
    if es.len() == 0 {
        Seq::empty()
    } else {
        member_lines(es.drop_last()) + "pub "@ + es.last().0 + ": TypeMapping,\n"@
    }
}

/// The default mapping of a type with `n` members.
pub open spec fn mapped_line(name: Seq<char>, n: nat) -> Seq<char> {
    name + ": TypeMapping::Mapped(OffsetList(vec!["@ + offsets(n) + "])),\n"@
}

pub open spec fn mapped_lines(es: Seq<(Seq<char>, nat)>) -> Seq<char>
    decreases es.len(),
{
    if es.len() == 0 {
        Seq::empty()
    } else {
        mapped_lines(es.drop_last()) + mapped_line(es.last().0, es.last().1)
    }
}

/// The mapping struct of a protocol module for the body `body` seen from
/// `frames`, its `Default` impl, which maps every member to its own
/// offset, and its `Mapping` impl. Requests give both the `Params` and the
/// `Results` union their members; notifications give `NotificationParams`
/// theirs.
pub open spec fn spec_translation_tables<'a>(frames: Seq<FrameKind<'a>>, body: &'a NamespaceBody) -> Seq<char> {
    let structs = struct_entries(structs_of_body(frames, body));
    let enums = enum_entries(enums_of_body(frames, body));
    let funs = funs_of_body(frames, body);
    let requests = count_kind(funs, Kind::Request);
    let notifications = count_kind(funs, Kind::Notification);
    "use "@ + facts_path() + "::{OffsetList, TypeMapping};\n"@ + "#[derive(Debug)]\n"@
        + "pub struct ProtocolMapping {\n"@ + ind(
        "// builtins\n"@ + "pub __Params: TypeMapping,\n"@ + "pub __Results: TypeMapping,\n"@
            + "pub __NotificationParams: TypeMapping,\n"@ + "// structs\n"@ + member_lines(structs)
            + "// enums\n"@ + member_lines(enums),
    ) + "}\n"@ + "\n"@ + "impl Default for ProtocolMapping {\n"@ + ind(
        "fn default() -> Self {\n"@ + ind(
            "Self {\n"@ + ind(
                "// builtins\n"@ + mapped_line("__Params"@, requests) + mapped_line(
                    "__Results"@,
                    requests,
                ) + mapped_line("__NotificationParams"@, notifications) + "// structs\n"@
                    + mapped_lines(structs) + "// enums\n"@ + mapped_lines(enums),
            ) + "}\n"@,
        ) + "}\n"@,
    ) + "}\n"@ + "impl "@ + facts_path() + "::Mapping for ProtocolMapping {}\n"@
}

pub open spec fn entries_view(v: Seq<(String, usize)>) -> Seq<(Seq<char>, nat)> {
    v.map_values(|e: (String, usize)| (e.0@, e.1 as nat))
}

fn offsets_exec(n: usize) -> (r: String)
    ensures
        r@ == offsets(n as nat),
{
    let mut r = String::new();
    let mut i: usize = 0;
    while i < n
        invariant
            i <= n,
            r@ == offsets(i as nat),
        decreases n - i,
    {
        if i > 0 {
            r.append(", ");
        }
        let d = decimal_text(i);
        r.append(d.as_str());
        proof {
            if i == 0 {
                reveal_strlit("0");
                assert(decimal(0) == "0"@) by {
                    reveal_with_fuel(decimal, 2);
                }
            }
        }
        i = i + 1;
    }
    r
}

fn count_kind_exec<'a>(funs: &Vec<Anchored<'a, &'a FunctionDecl>>, k: Kind) -> (n: usize)
    ensures
        n == count_kind(anchoreds_view(funs@), k),
{
    let ghost v = anchoreds_view(funs@);
    let mut n: usize = 0;
    let len = funs.len();
    assert(v.subrange(0, 0) =~= Seq::<(Seq<FrameKind<'a>>, &'a FunctionDecl)>::empty());
    for i in 0..len
        invariant
            len == funs.len(),
            v == anchoreds_view(funs@),
            n <= i,
            n == count_kind(v.subrange(0, i as int), k),
    {
        assert(v.subrange(0, i + 1).drop_last() =~= v.subrange(0, i as int));
        assert(v.subrange(0, i + 1).last() == v[i as int]);
        if funs[i].inner.kind == k {
            n = n + 1;
        }
    }
    assert(v.subrange(0, len as int) =~= v);
    n
}

fn struct_entries_exec<'a>(v: &Vec<Anchored<'a, &'a StructDecl>>) -> (r: Vec<(String, usize)>)
    ensures
        entries_view(r@) == struct_entries(anchoreds_view(v@)),
{
    let mut r: Vec<(String, usize)> = Vec::new();
    let n = v.len();
    for i in 0..n
        invariant
            n == v.len(),
            entries_view(r@) == struct_entries(anchoreds_view(v@)).subrange(0, i as int),
    {
        let ghost pre = r@;
        let name = v[i].variant();
        r.push((name, v[i].inner.fields.len()));
        assert(entries_view(r@) =~= entries_view(pre).push((name@, v@[i as int].inner.fields.len() as nat)));
        assert(entries_view(r@) =~= struct_entries(anchoreds_view(v@)).subrange(0, i + 1));
    }
    assert(struct_entries(anchoreds_view(v@)).subrange(0, n as int) =~= struct_entries(anchoreds_view(v@)));
    r
}

fn enum_entries_exec<'a>(v: &Vec<Anchored<'a, &'a EnumDecl>>) -> (r: Vec<(String, usize)>)
    ensures
        entries_view(r@) == enum_entries(anchoreds_view(v@)),
{
    let mut r: Vec<(String, usize)> = Vec::new();
    let n = v.len();
    for i in 0..n
        invariant
            n == v.len(),
            entries_view(r@) == enum_entries(anchoreds_view(v@)).subrange(0, i as int),
    {
        let ghost pre = r@;
        let mut names = v[i].stack.names();
        let ghost pre_names = names@;
        names.push(v[i].inner.name.text.as_str());
        assert(crate::output::strs_view(names@) =~= crate::output::strs_view(pre_names).push(
            v@[i as int].inner.name.text@,
        ));
        let name = crate::naming::camel_joined(&names);
        r.push((name, v[i].inner.variants.len()));
        assert(entries_view(r@) =~= entries_view(pre).push((name@, v@[i as int].inner.variants.len() as nat)));
        assert(entries_view(r@) =~= enum_entries(anchoreds_view(v@)).subrange(0, i + 1));
    }
    assert(enum_entries(anchoreds_view(v@)).subrange(0, n as int) =~= enum_entries(anchoreds_view(v@)));
    r
}

fn entry_lines_exec(es: &Vec<(String, usize)>, mapped: bool) -> (r: String)
    ensures
        r@ == if mapped {
            mapped_lines(entries_view(es@))
        } else {
            member_lines(entries_view(es@))
        },
{
    let ghost ev = entries_view(es@);
    let mut r = String::new();
    let n = es.len();
    assert(ev.subrange(0, 0) =~= Seq::<(Seq<char>, nat)>::empty());
    for i in 0..n
        invariant
            n == es.len(),
            ev == entries_view(es@),
            r@ == if mapped {
                mapped_lines(ev.subrange(0, i as int))
            } else {
                member_lines(ev.subrange(0, i as int))
            },
    {
        assert(ev.subrange(0, i + 1).drop_last() =~= ev.subrange(0, i as int));
        assert(ev.subrange(0, i + 1).last() == (es@[i as int].0@, es@[i as int].1 as nat));
        if mapped {
            r.append(es[i].0.as_str());
            r.append(": TypeMapping::Mapped(OffsetList(vec![");
            let o = offsets_exec(es[i].1);
            r.append(o.as_str());
            r.append("])),\n");
        } else {
            r.append("pub ");
            r.append(es[i].0.as_str());
            r.append(": TypeMapping,\n");
        }
    }
    assert(ev.subrange(0, n as int) =~= ev);
    r
}

fn mapped_exec(name: &str, n: usize) -> (r: String)
    ensures
        r@ == mapped_line(name@, n as nat),
{
    let mut r = String::from_str(name);
    r.append(": TypeMapping::Mapped(OffsetList(vec![");
    let o = offsets_exec(n);
    r.append(o.as_str());
    r.append("])),\n");
    r
}

impl<'a> Protocol<'a> {
    /// The mapping struct of the protocol module with its `Default` and
    /// `Mapping` impls.
    #[verifier::spinoff_prover]
    pub fn translation_tables_text(&self) -> (r: String)
        ensures
            r@ == spec_translation_tables(self.body.stack.frames(), self.body.inner),
    {
        let funs = self.body.for_each_fun_of_schema();
        let requests = count_kind_exec(&funs, Kind::Request);
        let notifications = count_kind_exec(&funs, Kind::Notification);
        let st = self.body.for_each_struct_of_schema();
        let structs = struct_entries_exec(&st);
        let en = self.body.for_each_enum_of_schema();
        let enums = enum_entries_exec(&en);
        let facts = Mods::facts();
        let mut r = String::from_str("use ");
        r.append(facts.as_str());
        r.append("::{OffsetList, TypeMapping};\n");
        r.append("#[derive(Debug)]\n");
        r.append("pub struct ProtocolMapping {\n");
        let mut t1 = String::from_str("// builtins\n");
        t1.append("pub __Params: TypeMapping,\n");
        t1.append("pub __Results: TypeMapping,\n");
        t1.append("pub __NotificationParams: TypeMapping,\n");
        t1.append("// structs\n");
        let sm = entry_lines_exec(&structs, false);
        t1.append(sm.as_str());
        t1.append("// enums\n");
        let em = entry_lines_exec(&enums, false);
        t1.append(em.as_str());
        let t1i = indented(t1.as_str());
        r.append(t1i.as_str());
        r.append("}\n");
        r.append("\n");
        r.append("impl Default for ProtocolMapping {\n");
        let mut t4 = String::from_str("// builtins\n");
        let p = mapped_exec("__Params", requests);
        t4.append(p.as_str());
        let q = mapped_exec("__Results", requests);
        t4.append(q.as_str());
        let w = mapped_exec("__NotificationParams", notifications);
        t4.append(w.as_str());
        t4.append("// structs\n");
        let sd = entry_lines_exec(&structs, true);
        t4.append(sd.as_str());
        t4.append("// enums\n");
        let ed = entry_lines_exec(&enums, true);
        t4.append(ed.as_str());
        let t4i = indented(t4.as_str());
        let mut t3 = String::from_str("Self {\n");
        t3.append(t4i.as_str());
        t3.append("}\n");
        let t3i = indented(t3.as_str());
        let mut t2 = String::from_str("fn default() -> Self {\n");
        t2.append(t3i.as_str());
        t2.append("}\n");
        let t2i = indented(t2.as_str());
        r.append(t2i.as_str());
        r.append("}\n");
        r.append("impl ");
        r.append(facts.as_str());
        r.append("::Mapping for ProtocolMapping {}\n");
        proof {
            reveal_strlit("__Params");
            reveal_strlit("__Results");
            reveal_strlit("__NotificationParams");
        }
        assert(r@ =~= spec_translation_tables(self.body.stack.frames(), self.body.inner));
        r
    }
}


/// The path of names of a function found in the scopes `e.0`.
pub open spec fn fn_names<'a>(e: (Seq<FrameKind<'a>>, &'a FunctionDecl)) -> Seq<Seq<char>> {
    frame_names(e.0).push(e.1.name.text@)
}

/// The functions of kind `k` among `fs`, in order.
pub open spec fn of_kind<'a>(fs: Seq<(Seq<FrameKind<'a>>, &'a FunctionDecl)>, k: Kind) -> Seq<(Seq<FrameKind<'a>>, &'a FunctionDecl)>
    decreases fs.len(),
{
    if fs.len() == 0 {
        Seq::empty()
    } else if fs.last().1.kind == k {
        of_kind(fs.drop_last(), k).push(fs.last())
    } else {
        of_kind(fs.drop_last(), k)
    }
}

/// The variant of the union `name` for each function of `fs`: the
/// function's variant name, holding its `name` struct from its module in
/// the schema, reached from `depth` scopes down.
pub open spec fn union_variants<'a>(depth: nat, name: Seq<char>, fs: Seq<(Seq<FrameKind<'a>>, &'a FunctionDecl)>) -> Seq<Seq<char>> {
    fs.map_values(
        |e: (Seq<FrameKind<'a>>, &'a FunctionDecl)|
            variant_name(fn_names(e)) + "("@ + schema_path(depth) + "::"@ + join(fn_names(e), "::"@) + "::"@
                + name + ")"@,
    )
}

/// For each function, the arm that gives its method name.
pub open spec fn method_arms<'a>(name: Seq<char>, fs: Seq<(Seq<FrameKind<'a>>, &'a FunctionDecl)>) -> Seq<char>
    decreases fs.len(),
{
    if fs.len() == 0 {
        Seq::empty()
    } else {
        method_arms(name, fs.drop_last()) + name + "::"@ + variant_name(fn_names(fs.last())) + "(_) => "@
            + debug_text(join(fn_names(fs.last()), "."@)) + ",\n"@
    }
}

/// The protocol's union `name` of the functions of kind `k` in the body
/// seen from `frames`: the enum with a variant per function, its `Atom`
/// impl, whose `method` names the function (and panics when the union has
/// no variant), and its `Factual` impl.
pub open spec fn spec_atom<'a>(frames: Seq<FrameKind<'a>>, body: &'a NamespaceBody, name: Seq<char>, k: Kind) -> Seq<char> {
    let fs = of_kind(funs_of_body(frames, body), k);
    let method_body = if fs.len() == 0 {
        "panic!(\"no variants for "@ + name + "\")\n"@
    } else {
        blk("match self"@, method_arms(name, fs))
    };
    "#[derive(Clone, Debug)]\n"@ + "#[allow(non_camel_case_types, unused)]\n"@ + enum_text(
        Seq::empty(),
        true,
        name,
        union_variants(frames.len(), name, fs),
    ) + blk(
        "impl "@ + lavish_path() + "::Atom<ProtocolMapping> for "@ + name,
        blk("fn method(&self) -> &'static str"@, method_body),
    ) + spec_factual_impl(
        frames,
        name,
        fs.map_values(|e: (Seq<FrameKind<'a>>, &'a FunctionDecl)| variant_name(fn_names(e))),
    )
}

fn block_of(head: String, body: String) -> (r: String)
    ensures
        r@ == blk(head@, body@),
{
    let bi = indented(body.as_str());
    let mut r = head;
    r.append(" {\n");
    r.append(bi.as_str());
    r.append("}\n");
    r
}

/// Each function's union variant, method arm and variant name, for the
/// functions of kind `kind` among `funs`, found from `stack`.
#[verifier::spinoff_prover]
fn union_parts<'a>(
    stack: &crate::anchored::Stack<'a>,
    funs: &Vec<Anchored<'a, &'a FunctionDecl>>,
    name: &str,
    kind: Kind,
) -> (r: (Vec<String>, String, Vec<String>))
    ensures
        r.0@.map_values(|s: String| s@) == union_variants(stack.frames().len(), name@, of_kind(anchoreds_view(funs@), kind)),
        r.1@ == method_arms(name@, of_kind(anchoreds_view(funs@), kind)),
        r.2@.map_values(|s: String| s@) == of_kind(anchoreds_view(funs@), kind).map_values(
            |e: (Seq<FrameKind<'a>>, &'a FunctionDecl)| variant_name(fn_names(e)),
        ),
{
    let ghost all = anchoreds_view(funs@);
    let ghost d = stack.frames().len();
    let mut lines: Vec<String> = Vec::new();
    let mut arms = String::new();
    let mut vs: Vec<String> = Vec::new();
    let n = funs.len();
    assert(all.subrange(0, 0) =~= Seq::<(Seq<FrameKind<'a>>, &'a FunctionDecl)>::empty());
    for i in 0..n
        invariant
            n == funs.len(),
            all == anchoreds_view(funs@),
            d == stack.frames().len(),
            lines@.map_values(|s: String| s@) == union_variants(d, name@, of_kind(all.subrange(0, i as int), kind)),
            arms@ == method_arms(name@, of_kind(all.subrange(0, i as int), kind)),
            vs@.map_values(|s: String| s@) == of_kind(all.subrange(0, i as int), kind).map_values(
                |e: (Seq<FrameKind<'a>>, &'a FunctionDecl)| variant_name(fn_names(e)),
            ),
    {
        let ghost pre = of_kind(all.subrange(0, i as int), kind);
        assert(all.subrange(0, i + 1).drop_last() =~= all.subrange(0, i as int));
        assert(all.subrange(0, i + 1).last() == all[i as int]);
        let f = &funs[i];
        if f.inner.kind == kind {
            let ghost x = all[i as int];
            assert(of_kind(all.subrange(0, i + 1), kind) == pre.push(x));
            assert(fn_names(x) == f.spec_names());
            let v = RustFn::variant(f);
            let m = RustFn::module(f, stack);
            let mut line = v.clone();
            line.append("(");
            line.append(m.as_str());
            line.append("::");
            line.append(name);
            line.append(")");
            assert(v@ == variant_name(fn_names(x)));
            assert(m@ == schema_path(d) + "::"@ + join(fn_names(x), "::"@));
            let ghost pl = lines@;
            lines.push(line);
            assert(lines@.map_values(|s: String| s@) =~= pl.map_values(|s: String| s@).push(line@));
            assert(pre.push(x)[pre.len() as int] == x);
            assert(line@ =~= variant_name(fn_names(x)) + "("@ + schema_path(d) + "::"@ + join(fn_names(x), "::"@) + "::"@
                + name@ + ")"@);
            assert(union_variants(d, name@, pre.push(x))[pre.len() as int] == line@);
            assert(union_variants(d, name@, pre.push(x)) =~= union_variants(d, name@, pre).push(line@));
            let method = f.method();
            let qm = quoted(method.as_str());
            assert(qm@ == debug_text(join(fn_names(x), "."@)));
            assert(pre.push(x).drop_last() =~= pre);
            arms.append(name);
            arms.append("::");
            arms.append(v.as_str());
            arms.append("(_) => ");
            arms.append(qm.as_str());
            arms.append(",\n");
            assert(method_arms(name@, pre.push(x)) =~= method_arms(name@, pre) + name@ + "::"@ + v@ + "(_) => "@ + qm@ + ",\n"@);
            let ghost pv = vs@;
            vs.push(v);
            assert(vs@.map_values(|s: String| s@) =~= pv.map_values(|s: String| s@).push(variant_name(fn_names(x))));
            assert(pre.push(x).map_values(|e: (Seq<FrameKind<'a>>, &'a FunctionDecl)| variant_name(fn_names(e)))
                =~= pre.map_values(|e: (Seq<FrameKind<'a>>, &'a FunctionDecl)| variant_name(fn_names(e))).push(
                variant_name(fn_names(x)),
            ));
        } else {
            assert(of_kind(all.subrange(0, i + 1), kind) == pre);
        }
    }
    assert(all.subrange(0, n as int) =~= all);
    (lines, arms, vs)
}

impl<'a> Protocol<'a> {
    /// The union `name` of the protocol's functions of kind `kind`.
    #[verifier::spinoff_prover]
    pub fn atom_text(&self, name: &str, kind: Kind) -> (r: String)
        ensures
            r@ == spec_atom(self.body.stack.frames(), self.body.inner, name@, kind),
    {
        let funs = self.body.for_each_fun_of_schema();
        let (lines, arms, vs) = union_parts(&self.body.stack, &funs, name, kind);
        let ghost fs = of_kind(funs_of_body(self.body.stack.frames(), self.body.inner), kind);
        let mut e = _enum(name);
        e.kw_pub();
        let n = lines.len();
        for i in 0..n
            invariant
                n == lines@.len(),
                e.spec_kw_pub(),
                e.spec_name() == name@,
                e.spec_annotations() == Seq::<Seq<char>>::empty(),
                e.spec_variants() == lines@.map_values(|s: String| s@).subrange(0, i as int),
        {
            e.variant(lines[i].as_str());
            assert(e.spec_variants() =~= lines@.map_values(|s: String| s@).subrange(0, i + 1));
        }
        assert(lines@.map_values(|s: String| s@).subrange(0, n as int) =~= lines@.map_values(|s: String| s@));
        let header = String::from_str("#[derive(Clone, Debug)]\n#[allow(non_camel_case_types, unused)]\n");
        let en = e.to_string();
        assert(vs@.map_values(|s: String| s@).len() == fs.len());
        let method_body = if vs.len() == 0 {
            let mut t = String::from_str("panic!(\"no variants for ");
            t.append(name);
            t.append("\")\n");
            t
        } else {
            block_of(String::from_str("match self"), arms)
        };
        let mf = block_of(String::from_str("fn method(&self) -> &'static str"), method_body);
        let mut ih = Traits::Atom();
        ih = cat_str(String::from_str("impl "), ih.as_str());
        ih.append("<ProtocolMapping> for ");
        ih.append(name);
        let im = block_of(ih, mf);
        let fa = factual_impl_of(&self.body.stack, name, &vs);
        let mut r = header;
        r.append(en.as_str());
        r.append(im.as_str());
        r.append(fa.as_str());
        proof {
            reveal_strlit("#[derive(Clone, Debug)]\n#[allow(non_camel_case_types, unused)]\n");
            reveal_strlit("#[derive(Clone, Debug)]\n");
            reveal_strlit("#[allow(non_camel_case_types, unused)]\n");
            reveal_strlit("<ProtocolMapping> for ");
            reveal_strlit("::Atom<ProtocolMapping> for ");
            reveal_strlit("::Atom");
        }
        assert(r@ =~= spec_atom(self.body.stack.frames(), self.body.inner, name@, kind));
        r
    }
}

fn cat_str(a: String, b: &str) -> (r: String)
    ensures
        r@ == a@ + b@,
{
    let mut r = a;
    r.append(b);
    r
}

} // verus!
