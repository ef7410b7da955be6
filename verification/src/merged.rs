//! One Rust file for several schemas at once: top-level namespaces of the
//! same name are merged, then each namespace becomes a module and each
//! function a module with its `Params` and `Results` structs.
//!
//! Inside one namespace a later declaration of a name replaces an earlier
//! one, in the earlier one's place; across schemas, namespaces of one name
//! are merged: their namespaces merged in turn, their functions inserted.
use crate::ast::{
    fields_view, fun_view, lemma_funs_view_index, lemma_nss_view_index, ns_view, Field,
    FunctionDecl, NamespaceDecl, Schema, SpecField, SpecFunctionDecl, SpecNamespaceDecl,
};
use crate::checker::{fun_names, lemma_fun_names, lemma_ns_names, ns_names};
use crate::ast::{Comment, SpecComment};
use crate::diag::repeated;
use crate::ir::{snake_case, to_snake_case};
use crate::lang::{debug_text, quoted};
use crate::module::{ints, map_order, order_of};
use crate::naming::{camel_case, mixed_case, to_camel_case, to_mixed_case};
use crate::output::join;
use crate::types::{split_at_dots, split_dots};
use vstd::prelude::*;

verus! {

/// A namespace after merging: its name, its namespaces, and its functions
/// as (name, full dotted name, declaration).
pub struct MergedNs {
    pub name: Seq<char>,
    pub children: Seq<MergedNs>,
    pub funs: Seq<(Seq<char>, Seq<char>, SpecFunctionDecl)>,
}

/// Where the entry named `k` stands in `v`, if anywhere.
pub open spec fn find_key<T>(v: Seq<(Seq<char>, T)>, k: Seq<char>) -> Option<int>
    decreases v.len(),
{
    if v.len() == 0 {
        None
    } else {
        match find_key(v.drop_last(), k) {
            Some(j) => Some(j),
            None => if v.last().0 == k {
                Some(v.len() - 1)
            } else {
                None
            },
        }
    }
}

pub open spec fn find_child(v: Seq<MergedNs>, k: Seq<char>) -> Option<int>
    decreases v.len(),
{
    if v.len() == 0 {
        None
    } else {
        match find_child(v.drop_last(), k) {
            Some(j) => Some(j),
            None => if v.last().name == k {
                Some(v.len() - 1)
            } else {
                None
            },
        }
    }
}

/// A function entry inserted by name: it replaces the entry of that name
/// in its place, or comes last.
pub open spec fn insert_fun(
    v: Seq<(Seq<char>, Seq<char>, SpecFunctionDecl)>,
    e: (Seq<char>, Seq<char>, SpecFunctionDecl),
) -> Seq<(Seq<char>, Seq<char>, SpecFunctionDecl)> {
    match find_key(v.map_values(|x: (Seq<char>, Seq<char>, SpecFunctionDecl)| (x.0, x.1)), e.0) {
        Some(j) => v.update(j, e),
        None => v.push(e),
    }
}

pub open spec fn insert_funs(
    v: Seq<(Seq<char>, Seq<char>, SpecFunctionDecl)>,
    es: Seq<(Seq<char>, Seq<char>, SpecFunctionDecl)>,
) -> Seq<(Seq<char>, Seq<char>, SpecFunctionDecl)>
    decreases es.len(),
{
    if es.len() == 0 {
        v
    } else {
        insert_fun(insert_funs(v, es.drop_last()), es.last())
    }
}

/// A namespace as one schema declares it, under `prefix`.
pub open spec fn build_ns(d: SpecNamespaceDecl, prefix: Seq<char>) -> MergedNs
    decreases d, 0int,
{
    let p = prefix + d.name.text + "."@;
    let fo = map_order(fun_names(d.body.functions), d.body.functions.len() as int);
    let no = map_order(ns_names(d.body.namespaces), d.body.namespaces.len() as int);
    MergedNs {
        name: d.name.text,
        children: build_nss(d.body.namespaces, no, no.len() as int, p),
        funs: Seq::new(
            fo.len(),
            |i: int|
                {
                    let f = d.body.functions[fo[i]];
                    (f.name.text, p + f.name.text, f)
                },
        ),
    }
}

pub open spec fn build_nss(v: Seq<SpecNamespaceDecl>, order: Seq<int>, n: int, prefix: Seq<char>) -> Seq<MergedNs>
    decreases v, n,
{
    if n <= 0 || n > order.len() {
        Seq::empty()
    } else {
        let k = order[n - 1];
        build_nss(v, order, n - 1, prefix) + if 0 <= k < v.len() {
            seq![build_ns(v[k], prefix)]
        } else {
            Seq::empty()
        }
    }
}

/// `b` merged into `a`: each namespace of `b` merged into the one of `a`
/// of the same name, or added last; each function of `b` inserted.
pub open spec fn merge(a: MergedNs, b: MergedNs) -> MergedNs
    decreases b, 1int,
{
    MergedNs {
        name: a.name,
        children: merge_children(a.children, b.children, b.children.len() as int),
        funs: insert_funs(a.funs, b.funs),
    }
}

pub open spec fn merge_children(acc: Seq<MergedNs>, bs: Seq<MergedNs>, n: int) -> Seq<MergedNs>
    decreases bs, n,
{
    if n <= 0 || n > bs.len() {
        acc
    } else {
        let prev = merge_children(acc, bs, n - 1);
        let c = bs[n - 1];
        match find_child(prev, c.name) {
            Some(j) => if 0 <= j < prev.len() {
                prev.update(j, merge(prev[j], c))
            } else {
                prev
            },
            None => prev.push(c),
        }
    }
}

/// The top-level namespaces of the first `n` declarations, merged by name.
pub open spec fn merge_top(decls: Seq<SpecNamespaceDecl>, n: int) -> Seq<MergedNs>
    decreases n,
{
    if n <= 0 || n > decls.len() {
        Seq::empty()
    } else {
        let prev = merge_top(decls, n - 1);
        let t = build_ns(decls[n - 1], Seq::empty());
        match find_child(prev, t.name) {
            Some(j) => if 0 <= j < prev.len() {
                prev.update(j, merge(prev[j], t))
            } else {
                prev
            },
            None => prev.push(t),
        }
    }
}

/// A merged namespace as the program holds it.
pub struct ExecNs<'a> {
    pub name: String,
    pub children: Vec<ExecNs<'a>>,
    pub funs: Vec<(String, String, &'a FunctionDecl)>,
}

pub open spec fn entry_model<'a>(e: (String, String, &'a FunctionDecl)) -> (Seq<char>, Seq<char>, SpecFunctionDecl) {
    (e.0@, e.1@, fun_view(*e.2))
}

pub open spec fn entries_model<'a>(v: Seq<(String, String, &'a FunctionDecl)>) -> Seq<(Seq<char>, Seq<char>, SpecFunctionDecl)> {
    v.map_values(|e: (String, String, &'a FunctionDecl)| entry_model(e))
}

pub open spec fn ns_model<'a>(t: ExecNs<'a>) -> MergedNs
    decreases t, 0int,
{
    MergedNs {
        name: t.name@,
        children: children_model(t.children, t.children.len() as int),
        funs: entries_model(t.funs@),
    }
}

pub open spec fn children_model<'a>(v: Vec<ExecNs<'a>>, n: int) -> Seq<MergedNs>
    decreases v, n,
{
    if n <= 0 || n > v.len() {
        Seq::empty()
    } else {
        children_model(v, n - 1).push(ns_model(v[n - 1]))
    }
}

proof fn lemma_children_model<'a>(v: Vec<ExecNs<'a>>, n: int)
    requires
        0 <= n <= v.len(),
    ensures
        children_model(v, n).len() == n,
        forall|i: int| 0 <= i < n ==> #[trigger] children_model(v, n)[i] == ns_model(v@[i]),
    decreases n,
{
    if n > 0 {
        lemma_children_model(v, n - 1);
    }
}

/// The models of a list of namespaces, in order.
pub open spec fn models<'a>(v: Seq<ExecNs<'a>>) -> Seq<MergedNs> {
    Seq::new(v.len(), |i: int| ns_model(v[i]))
}

proof fn lemma_children_models<'a>(v: Vec<ExecNs<'a>>)
    ensures
        children_model(v, v.len() as int) == models(v@),
{
    lemma_children_model(v, v.len() as int);
    assert(children_model(v, v.len() as int) =~= models(v@));
}

fn copy_entries<'a>(v: &Vec<(String, String, &'a FunctionDecl)>) -> (r: Vec<(String, String, &'a FunctionDecl)>)
    ensures
        entries_model(r@) == entries_model(v@),
{
    let mut r: Vec<(String, String, &'a FunctionDecl)> = Vec::new();
    let n = v.len();
    for i in 0..n
        invariant
            n == v.len(),
            entries_model(r@) == entries_model(v@.subrange(0, i as int)),
    {
        let e = &v[i];
        let ghost pre = r@;
        r.push((e.0.clone(), e.1.clone(), e.2));
        assert(entries_model(r@) =~= entries_model(pre).push(entry_model(v@[i as int])));
        assert(v@.subrange(0, i + 1) =~= v@.subrange(0, i as int).push(v@[i as int]));
        assert(entries_model(v@.subrange(0, i + 1)) =~= entries_model(v@.subrange(0, i as int)).push(entry_model(v@[i as int])));
    }
    assert(v@.subrange(0, n as int) =~= v@);
    r
}

fn copy_ns<'a>(t: &ExecNs<'a>) -> (r: ExecNs<'a>)
    ensures
        ns_model(r) == ns_model(*t),
    decreases t,
{
    let mut children: Vec<ExecNs<'a>> = Vec::new();
    let n = t.children.len();
    proof {
        lemma_children_models(t.children);
    }
    for i in 0..n
        invariant
            n == t.children.len(),
            models(children@) == models(t.children@).subrange(0, i as int),
    {
        let c = copy_ns(&t.children[i]);
        let ghost cm = ns_model(c);
        let ghost pre = children@;
        children.push(c);
        assert(children@ =~= pre.push(c));
        assert(models(children@) =~= models(pre).push(cm));
        assert(models(t.children@)[i as int] == ns_model(t.children@[i as int]));
        assert(models(children@) =~= models(t.children@).subrange(0, i + 1));
    }
    proof {
        lemma_children_models(children);
        assert(models(t.children@).subrange(0, n as int) =~= models(t.children@));
    }
    ExecNs { name: t.name.clone(), children, funs: copy_entries(&t.funs) }
}

fn cat(a: String, b: &str) -> (r: String)
    ensures
        r@ == a@ + b@,
{
    let mut r = a;
    r.append(b);
    r
}

fn build_exec<'a>(d: &'a NamespaceDecl, prefix: &str) -> (r: ExecNs<'a>)
    ensures
        ns_model(r) == build_ns(ns_view(*d), prefix@),
    decreases d,
{
    let p = cat(cat(String::from_str(prefix), d.name.text.as_str()), ".");
    let ghost dv = ns_view(*d);
    let fv = &d.body.functions;
    let fo = order_of(fv);
    let ghost fvm = crate::ast::funs_view(*fv, fv.len() as int);
    proof {
        lemma_fun_names(*fv);
        lemma_funs_view_index(*fv, fv.len() as int);
        assert(dv.body.functions == fvm);
    }
    let ghost fos = ints(fo@);
    let mut funs: Vec<(String, String, &'a FunctionDecl)> = Vec::new();
    let m = fo.len();
    for j in 0..m
        invariant
            m == fo.len(),
            fos == ints(fo@),
            fvm == crate::ast::funs_view(*fv, fv.len() as int),
            fvm.len() == fv.len(),
            fv == &d.body.functions,
            forall|i: int| 0 <= i < fv.len() ==> #[trigger] fvm[i] == fun_view(fv@[i]),
            forall|i: int| 0 <= i < m ==> #[trigger] fo@[i] < fv.len(),
            entries_model(funs@) == Seq::new(
                j as nat,
                |i: int|
                    {
                        let f = fvm[fos[i]];
                        (f.name.text, p@ + f.name.text, f)
                    },
            ),
    {
        let k = fo[j];
        assert(fo@[j as int] < fv.len());
        assert(fos[j as int] == k as int);
        let f = &fv[k];
        assert(fvm[k as int] == fun_view(*f));
        let ghost pre = funs@;
        let e = (f.name.text.clone(), cat(String::from_str(p.as_str()), f.name.text.as_str()), f);
        assert(entry_model(e) == (fvm[k as int].name.text, p@ + fvm[k as int].name.text, fvm[k as int]));
        funs.push(e);
        assert(funs@ =~= pre.push(e));
        assert(entries_model(funs@) =~= entries_model(pre).push(entry_model(e)));
        assert(entries_model(funs@) =~= Seq::new(
            (j + 1) as nat,
            |i: int|
                {
                    let f = fvm[fos[i]];
                    (f.name.text, p@ + f.name.text, f)
                },
        ));
    }
    let nv = &d.body.namespaces;
    let no = order_of(nv);
    let ghost nvm = crate::ast::nss_view(*nv, nv.len() as int);
    proof {
        lemma_ns_names(*nv);
        lemma_nss_view_index(*nv, nv.len() as int);
        assert(dv.body.namespaces == nvm);
    }
    let ghost nos = ints(no@);
    let mut children: Vec<ExecNs<'a>> = Vec::new();
    let mn = no.len();
    for j in 0..mn
        invariant
            mn == no.len(),
            nos == ints(no@),
            nvm == crate::ast::nss_view(*nv, nv.len() as int),
            nvm.len() == nv.len(),
            nv == &d.body.namespaces,
            forall|i: int| 0 <= i < nv.len() ==> #[trigger] nvm[i] == ns_view(nv@[i]),
            forall|i: int| 0 <= i < mn ==> #[trigger] no@[i] < nv.len(),
            models(children@) == build_nss(nvm, nos, j as int, p@),
    {
        let k = no[j];
        assert(no@[j as int] < nv.len());
        assert(nos[j as int] == k as int);
        assert(nvm[k as int] == ns_view(nv@[k as int]));
        let c = build_exec(&nv[k], p.as_str());
        let ghost cm = ns_model(c);
        let ghost pre = children@;
        children.push(c);
        assert(children@ =~= pre.push(c));
        assert(models(children@) =~= models(pre).push(cm));
        assert(models(children@) =~= build_nss(nvm, nos, j + 1, p@));
    }
    proof {
        lemma_children_models(children);
    }
    let r = ExecNs { name: d.name.text.clone(), children, funs };
    assert(ns_model(r).funs =~= build_ns(dv, prefix@).funs);
    r
}

pub open spec fn keys_of(v: Seq<(Seq<char>, Seq<char>, SpecFunctionDecl)>) -> Seq<(Seq<char>, Seq<char>)> {
    v.map_values(|x: (Seq<char>, Seq<char>, SpecFunctionDecl)| (x.0, x.1))
}

proof fn lemma_find_key_prefix(s: Seq<(Seq<char>, Seq<char>)>, m: int, k: Seq<char>)
    requires
        0 <= m <= s.len(),
        find_key(s.subrange(0, m), k) is Some,
    ensures
        find_key(s, k) == find_key(s.subrange(0, m), k),
    decreases s.len(),
{
    if s.len() == m {
        assert(s.subrange(0, m) =~= s);
    } else {
        assert(s.drop_last().subrange(0, m) =~= s.subrange(0, m));
        lemma_find_key_prefix(s.drop_last(), m, k);
    }
}

proof fn lemma_find_child_prefix(s: Seq<MergedNs>, m: int, k: Seq<char>)
    requires
        0 <= m <= s.len(),
        find_child(s.subrange(0, m), k) is Some,
    ensures
        find_child(s, k) == find_child(s.subrange(0, m), k),
    decreases s.len(),
{
    if s.len() == m {
        assert(s.subrange(0, m) =~= s);
    } else {
        assert(s.drop_last().subrange(0, m) =~= s.subrange(0, m));
        lemma_find_child_prefix(s.drop_last(), m, k);
    }
}

proof fn lemma_find_child_bound(s: Seq<MergedNs>, k: Seq<char>)
    ensures
        find_child(s, k) matches Some(j) ==> 0 <= j < s.len(),
    decreases s.len(),
{
    if s.len() > 0 {
        lemma_find_child_bound(s.drop_last(), k);
    }
}

fn find_key_exec<'a>(v: &Vec<(String, String, &'a FunctionDecl)>, k: &String) -> (r: Option<usize>)
    ensures
        match r {
            Some(j) => find_key(keys_of(entries_model(v@)), k@) == Some(j as int) && j < v.len(),
            None => find_key(keys_of(entries_model(v@)), k@) is None,
        },
{
    let ghost s = keys_of(entries_model(v@));
    let n = v.len();
    assert(s.subrange(0, 0) =~= Seq::<(Seq<char>, Seq<char>)>::empty());
    for i in 0..n
        invariant
            n == v.len(),
            s == keys_of(entries_model(v@)),
            s.len() == n,
            find_key(s.subrange(0, i as int), k@) is None,
    {
        assert(s.subrange(0, i + 1).drop_last() =~= s.subrange(0, i as int));
        assert(s[i as int].0 == v@[i as int].0@);
        if v[i].0 == *k {
            assert(find_key(s.subrange(0, i + 1), k@) == Some(i as int));
            proof {
                lemma_find_key_prefix(s, i + 1, k@);
            }
            return Some(i);
        }
    }
    assert(s.subrange(0, n as int) =~= s);
    None
}

fn find_child_exec<'a>(v: &Vec<ExecNs<'a>>, k: &String) -> (r: Option<usize>)
    ensures
        match r {
            Some(j) => find_child(models(v@), k@) == Some(j as int) && j < v.len(),
            None => find_child(models(v@), k@) is None,
        },
{
    let ghost s = models(v@);
    let n = v.len();
    assert(s.subrange(0, 0) =~= Seq::<MergedNs>::empty());
    for i in 0..n
        invariant
            n == v.len(),
            s == models(v@),
            find_child(s.subrange(0, i as int), k@) is None,
    {
        assert(s.subrange(0, i + 1).drop_last() =~= s.subrange(0, i as int));
        assert(s[i as int].name == v@[i as int].name@);
        if v[i].name == *k {
            assert(find_child(s.subrange(0, i + 1), k@) == Some(i as int));
            proof {
                lemma_find_child_prefix(s, i + 1, k@);
            }
            return Some(i);
        }
    }
    assert(s.subrange(0, n as int) =~= s);
    None
}

fn insert_fun_exec<'a>(v: &mut Vec<(String, String, &'a FunctionDecl)>, e: (String, String, &'a FunctionDecl))
    ensures
        entries_model(final(v)@) == insert_fun(entries_model(old(v)@), entry_model(e)),
{
    let ghost em = entry_model(e);
    assert(keys_of(entries_model(v@)) =~= entries_model(v@).map_values(|x: (Seq<char>, Seq<char>, SpecFunctionDecl)| (x.0, x.1)));
    match find_key_exec(v, &e.0) {
        Some(j) => {
            let ghost pre = v@;
            v.set(j, e);
            assert(entries_model(v@) =~= entries_model(pre).update(j as int, em));
        },
        None => {
            let ghost pre = v@;
            v.push(e);
            assert(entries_model(v@) =~= entries_model(pre).push(em));
        },
    }
}

fn merge_exec<'a>(a: ExecNs<'a>, b: &ExecNs<'a>) -> (r: ExecNs<'a>)
    ensures
        ns_model(r) == merge(ns_model(a), ns_model(*b)),
    decreases b,
{
    let ghost am = ns_model(a);
    let ghost bm = ns_model(*b);
    proof {
        lemma_children_models(a.children);
        lemma_children_models(b.children);
    }
    let ExecNs { name, children, funs } = a;
    let mut acc = children;
    let n = b.children.len();
    let ghost bcs = models(b.children@);
    for i in 0..n
        invariant
            n == b.children.len(),
            bcs == models(b.children@),
            bm.children == bcs,
            models(acc@) == merge_children(am.children, bcs, i as int),
    {
        let c = &b.children[i];
        assert(bcs[i as int] == ns_model(*c));
        let ghost prev = models(acc@);
        match find_child_exec(&acc, &c.name) {
            Some(j) => {
                let ghost pre = acc@;
                let old_child = acc.remove(j);
                assert(ns_model(old_child) == prev[j as int]);
                let merged = merge_exec(old_child, c);
                acc.insert(j, merged);
                assert(acc@ =~= pre.update(j as int, merged));
                assert(models(acc@) =~= prev.update(j as int, merge(prev[j as int], ns_model(*c))));
            },
            None => {
                let ghost pre = acc@;
                let cc = copy_ns(c);
                acc.push(cc);
                assert(acc@ =~= pre.push(cc));
                assert(models(acc@) =~= prev.push(ns_model(*c)));
            },
        }
    }
    let mut fs = funs;
    let m = b.funs.len();
    let ghost bes = entries_model(b.funs@);
    assert(bes.subrange(0, 0) =~= Seq::<(Seq<char>, Seq<char>, SpecFunctionDecl)>::empty());
    for i in 0..m
        invariant
            m == b.funs.len(),
            bes == entries_model(b.funs@),
            entries_model(fs@) == insert_funs(am.funs, bes.subrange(0, i as int)),
    {
        let e = &b.funs[i];
        let ec = (e.0.clone(), e.1.clone(), e.2);
        assert(entry_model(ec) == bes[i as int]);
        insert_fun_exec(&mut fs, ec);
        assert(bes.subrange(0, i + 1).drop_last() =~= bes.subrange(0, i as int));
    }
    assert(bes.subrange(0, m as int) =~= bes);
    proof {
        lemma_children_models(acc);
    }
    ExecNs { name, children: acc, funs: fs }
}

/// The top-level namespaces of several schemas, in order.
pub open spec fn top_decls(schemas: Seq<crate::ast::SpecSchema>) -> Seq<SpecNamespaceDecl>
    decreases schemas.len(),
{
    if schemas.len() == 0 {
        Seq::empty()
    } else {
        top_decls(schemas.drop_last()) + schemas.last().body.namespaces
    }
}

pub open spec fn schemas_view(v: Seq<Schema>) -> Seq<crate::ast::SpecSchema> {
    v.map_values(|s: Schema| s@)
}

fn top_refs<'a>(schemas: &'a Vec<Schema>) -> (r: Vec<&'a NamespaceDecl>)
    ensures
        r@.map_values(|d: &'a NamespaceDecl| ns_view(*d)) == top_decls(schemas_view(schemas@)),
{
    let mut r: Vec<&'a NamespaceDecl> = Vec::new();
    let n = schemas.len();
    let ghost sv = schemas_view(schemas@);
    assert(sv.subrange(0, 0) =~= Seq::<crate::ast::SpecSchema>::empty());
    for i in 0..n
        invariant
            n == schemas.len(),
            sv == schemas_view(schemas@),
            r@.map_values(|d: &'a NamespaceDecl| ns_view(*d)) == top_decls(sv.subrange(0, i as int)),
    {
        let nv = &schemas[i].body.namespaces;
        let ghost nvm = crate::ast::nss_view(*nv, nv.len() as int);
        proof {
            lemma_nss_view_index(*nv, nv.len() as int);
            assert(sv[i as int].body.namespaces == nvm);
            assert(sv.subrange(0, i + 1).drop_last() =~= sv.subrange(0, i as int));
        }
        let ghost start = r@.map_values(|d: &'a NamespaceDecl| ns_view(*d));
        let m = nv.len();
        for j in 0..m
            invariant
                m == nv.len(),
                nvm == crate::ast::nss_view(*nv, nv.len() as int),
                nvm.len() == m,
                forall|k: int| 0 <= k < m ==> #[trigger] nvm[k] == ns_view(nv@[k]),
                r@.map_values(|d: &'a NamespaceDecl| ns_view(*d)) == start + nvm.subrange(0, j as int),
        {
            let ghost pre = r@;
            r.push(&nv[j]);
            assert(r@.map_values(|d: &'a NamespaceDecl| ns_view(*d)) =~= pre.map_values(|d: &'a NamespaceDecl| ns_view(*d)).push(nvm[j as int]));
            assert(start + nvm.subrange(0, j + 1) =~= start + nvm.subrange(0, j as int) + seq![nvm[j as int]]);
        }
        assert(nvm.subrange(0, m as int) =~= nvm);
    }
    assert(sv.subrange(0, n as int) =~= sv);
    r
}

/// The top-level namespaces of several schemas, merged by name.
fn merged_tops<'a>(schemas: &'a Vec<Schema>) -> (r: Vec<ExecNs<'a>>)
    ensures
        models(r@) == merge_top(top_decls(schemas_view(schemas@)), top_decls(schemas_view(schemas@)).len() as int),
{
    let refs = top_refs(schemas);
    let ghost decls = top_decls(schemas_view(schemas@));
    let mut acc: Vec<ExecNs<'a>> = Vec::new();
    let n = refs.len();
    assert(models(acc@) =~= Seq::<MergedNs>::empty());
    for i in 0..n
        invariant
            n == refs.len(),
            decls == refs@.map_values(|d: &'a NamespaceDecl| ns_view(*d)),
            models(acc@) == merge_top(decls, i as int),
    {
        let d = refs[i];
        assert(decls[i as int] == ns_view(*d));
        proof {
            reveal_strlit("");
            assert(""@ =~= Seq::<char>::empty());
        }
        let t = build_exec(d, "");
        let ghost prev = models(acc@);
        match find_child_exec(&acc, &t.name) {
            Some(j) => {
                let ghost pre = acc@;
                let old_t = acc.remove(j);
                assert(ns_model(old_t) == prev[j as int]);
                let merged = merge_exec(old_t, &t);
                acc.insert(j, merged);
                assert(acc@ =~= pre.update(j as int, merged));
                assert(models(acc@) =~= prev.update(j as int, merge(prev[j as int], ns_model(t))));
            },
            None => {
                let ghost pre = acc@;
                let ghost tm = ns_model(t);
                acc.push(t);
                assert(acc@ =~= pre.push(t));
                assert(models(acc@) =~= prev.push(tm));
            },
        }
    }
    acc
}

/// `s` on a line of its own, after `ind` blanks.
pub open spec fn line(ind: nat, s: Seq<char>) -> Seq<char> {
    repeated(' ', ind) + s + "\n"@
}

pub open spec fn comment_lines(c: Option<SpecComment>, ind: nat) -> Seq<char> {
    match c {
        Some(c) => lines_of(c.lines, ind),
        None => Seq::empty(),
    }
}

/// Each line as `// line`.
pub open spec fn lines_of(ls: Seq<Seq<char>>, ind: nat) -> Seq<char>
    decreases ls.len(),
{
    if ls.len() == 0 {
        Seq::empty()
    } else {
        lines_of(ls.drop_last(), ind) + line(ind, "// "@ + ls.last())
    }
}

/// `name: type,` for each field, the type as written in the schema.
pub open spec fn field_lines(v: Seq<SpecField>, ind: nat) -> Seq<char>
    decreases v.len(),
{
    if v.len() == 0 {
        Seq::empty()
    } else {
        field_lines(v.drop_last(), ind) + line(ind, v.last().name.text + ": "@ + v.last().typ.text + ","@)
    }
}

pub open spec fn struct_lines(ind: nat, name: Seq<char>, fields: Seq<SpecField>) -> Seq<char> {
    line(ind, "#[derive(Serialize, Deserialize, Debug)]"@) + line(ind, "pub struct "@ + name + " {"@)
        + field_lines(fields, ind + 4) + line(ind, "}"@)
}

/// A function's module, with its `Params` and `Results` structs.
pub open spec fn fun_lines(f: SpecFunctionDecl, ind: nat) -> Seq<char> {
    comment_lines(f.comment, ind) + line(ind, "pub mod "@ + snake_case(f.name.text) + " {"@) + line(
        ind + 4,
        "use serde_derive::*;"@,
    ) + line(ind + 4, ""@) + struct_lines(ind + 4, "Params"@, f.params) + line(ind + 4, ""@)
        + struct_lines(ind + 4, "Results"@, f.results) + line(ind, "}"@) + line(ind, ""@)
}

pub open spec fn funs_lines(v: Seq<(Seq<char>, Seq<char>, SpecFunctionDecl)>, ind: nat) -> Seq<char>
    decreases v.len(),
{
    if v.len() == 0 {
        Seq::empty()
    } else {
        funs_lines(v.drop_last(), ind) + fun_lines(v.last().2, ind)
    }
}

/// A merged namespace as a module: its namespaces, then its functions.
pub open spec fn ns_lines(t: MergedNs, ind: nat) -> Seq<char>
    decreases t, 0int,
{
    line(ind, "pub mod "@ + t.name + " {"@) + children_lines(t.children, t.children.len() as int, ind + 4)
        + funs_lines(t.funs, ind + 4) + line(ind, "}"@) + line(ind, ""@)
}

pub open spec fn children_lines(cs: Seq<MergedNs>, n: int, ind: nat) -> Seq<char>
    decreases cs, n,
{
    if n <= 0 || n > cs.len() {
        Seq::empty()
    } else {
        children_lines(cs, n - 1, ind) + ns_lines(cs[n - 1], ind)
    }
}

/// The full names of the functions of a merged namespace: those of its
/// namespaces first, then its own.
pub open spec fn tree_funs(t: MergedNs) -> Seq<Seq<char>>
    decreases t, 0int,
{
    children_funs(t.children, t.children.len() as int) + t.funs.map_values(
        |e: (Seq<char>, Seq<char>, SpecFunctionDecl)| e.1,
    )
}

pub open spec fn children_funs(cs: Seq<MergedNs>, n: int) -> Seq<Seq<char>>
    decreases cs, n,
{
    if n <= 0 || n > cs.len() {
        Seq::empty()
    } else {
        children_funs(cs, n - 1) + tree_funs(cs[n - 1])
    }
}

/// The name by which a function is called: the parts of its full name
/// in mixedCase, the last in CamelCase.
pub open spec fn call_name(full: Seq<char>) -> Seq<char> {
    let ts = split_dots(full);
    join(
        Seq::new(
            ts.len(),
            |i: int|
                if i == ts.len() - 1 {
                    camel_case(ts[i])
                } else {
                    mixed_case(ts[i])
                },
        ),
        "."@,
    )
}

pub open spec fn listing(names: Seq<Seq<char>>) -> Seq<char>
    decreases names.len(),
{
    if names.len() == 0 {
        Seq::empty()
    } else {
        listing(names.drop_last()) + line(0, "// Should list "@ + debug_text(call_name(names.last())) + " in params"@)
    }
}

pub open spec fn header_text() -> Seq<char> {
    line(0, "// This file is generated by lavish: DO NOT EDIT"@) + line(0, "// https://github.com/fasterthanlime/lavish"@) + line(0, ""@) + line(0, "// Disable some lints, since this file is generated."@) + line(0, "#![allow(clippy)]"@) + line(0, "#![allow(unknown_lints)]"@) + line(0, ""@) + line(0, "#[derive(Debug)]"@) + line(0, "enum Message {"@) + line(4, "Request {"@) + line(8, "id: u32,"@) + line(8, "params: Params,"@) + line(4, "}"@) + line(4, "Response {"@) + line(8, "id: u32,"@) + line(8, "error: Option<string>,"@) + line(8, "results: Results,"@) + line(4, "}"@) + line(4, "Notification {"@) + line(8, "params: NotificationParams,"@) + line(4, "}"@) + line(0, "}"@) + line(0, ""@) + line(0, "impl Serialize for Message {"@) + line(4, "fn serialize<S>(&self, s: S) -> Result<S::Ok, S::Error>"@) + line(8, "where S: Serializer,"@) + line(4, "{"@) + line(8, "match self {"@) + line(12, "Message::Request { id, params, .. } => {"@) + line(16, "let mut seq = s.serialize_seq(Some(4))?;"@) + line(16, "seq.serialize_element(&0)?;"@) + line(16, "seq.serialize_element(&id)?;"@) + line(16, "seq.serialize_element(params.method())?;"@) + line(16, "seq.serialize_element(&params)?;"@) + line(16, "seq.end()"@) + line(12, "}"@) + line(12, "Message::Response { id, error, results, .. } => {"@) + line(16, "let mut seq = s.serialize_seq(Some(4))?;"@) + line(16, "seq.serialize_element(&1)?;"@) + line(16, "seq.serialize_element(&id)?;"@) + line(16, "seq.serialize_element(error)?;"@) + line(16, "seq.serialize_element(&results)?;"@) + line(16, "seq.end()"@) + line(12, "}"@) + line(12, "Message::Notification { params, method, .. } => {"@) + line(16, "let mut seq = s.serialize_seq(Some(4))?;"@) + line(16, "seq.serialize_element(&2)?;"@) + line(16, "seq.serialize_element(params.method())?;"@) + line(16, "seq.serialize_element(&params)?;"@) + line(16, "seq.end()"@) + line(12, "}"@) + line(8, "}"@) + line(4, "}"@) + line(0, "}"@)
}

/// The text of the merged file: the header, each merged namespace after a
/// blank line, then one line per function.
pub open spec fn merged_text(ts: Seq<MergedNs>) -> Seq<char> {
    header_text() + tops_lines(ts) + listing(children_funs(ts, ts.len() as int))
}

pub open spec fn tops_lines(ts: Seq<MergedNs>) -> Seq<char>
    decreases ts.len(),
{
    if ts.len() == 0 {
        Seq::empty()
    } else {
        tops_lines(ts.drop_last()) + line(0, ""@) + ns_lines(ts.last(), 0)
    }
}

/// What a set of schemas gives: their top-level namespaces merged by name,
/// then written out.
pub open spec fn spec_merged_text(schemas: Seq<crate::ast::SpecSchema>) -> Seq<char> {
    let decls = top_decls(schemas);
    merged_text(merge_top(decls, decls.len() as int))
}

proof fn lemma_repeat4(n: nat)
    ensures
        repeated(' ', n + 4) == repeated(' ', n) + "    "@,
{
    reveal_strlit("    ");
    assert(repeated(' ', n + 1) == repeated(' ', n).push(' '));
    assert(repeated(' ', n + 2) == repeated(' ', (n + 1) as nat).push(' '));
    assert(repeated(' ', n + 3) == repeated(' ', (n + 2) as nat).push(' '));
    assert(repeated(' ', n + 4) == repeated(' ', (n + 3) as nat).push(' '));
    assert("    "@ =~= seq![' ', ' ', ' ', ' ']);
    assert(repeated(' ', n + 4) =~= repeated(' ', n) + "    "@);
}

proof fn lemma_pads()
    ensures
        ""@ == repeated(' ', 0),
        "    "@ == repeated(' ', 4),
        "        "@ == repeated(' ', 8),
        "            "@ == repeated(' ', 12),
        "                "@ == repeated(' ', 16),
{
    reveal_strlit("");
    reveal_strlit("    ");
    reveal_strlit("        ");
    reveal_strlit("            ");
    reveal_strlit("                ");
    reveal_with_fuel(repeated, 17);
    assert(""@ =~= repeated(' ', 0));
    assert("    "@ =~= repeated(' ', 4));
    assert("        "@ =~= repeated(' ', 8));
    assert("            "@ =~= repeated(' ', 12));
    assert("                "@ =~= repeated(' ', 16));
}

fn push_line(r: &mut String, pad: &str, s: &str)
    ensures
        final(r)@ == old(r)@ + pad@ + s@ + "\n"@,
{
    r.append(pad);
    r.append(s);
    r.append("\n");
}

#[verifier::rlimit(50)]
fn header_exec() -> (r: String)
    ensures
        r@ == header_text(),
{
    proof {
        lemma_pads();
    }
    let mut r = String::new();
    let x = lines_exec("", "// This file is generated by lavish: DO NOT EDIT", Ghost(0));
    r.append(x.as_str());
    let x = lines_exec("", "// https://github.com/fasterthanlime/lavish", Ghost(0));
    r.append(x.as_str());
    let x = lines_exec("", "", Ghost(0));
    r.append(x.as_str());
    let x = lines_exec("", "// Disable some lints, since this file is generated.", Ghost(0));
    r.append(x.as_str());
    let x = lines_exec("", "#![allow(clippy)]", Ghost(0));
    r.append(x.as_str());
    let x = lines_exec("", "#![allow(unknown_lints)]", Ghost(0));
    r.append(x.as_str());
    let x = lines_exec("", "", Ghost(0));
    r.append(x.as_str());
    let x = lines_exec("", "#[derive(Debug)]", Ghost(0));
    r.append(x.as_str());
    let x = lines_exec("", "enum Message {", Ghost(0));
    r.append(x.as_str());
    let x = lines_exec("    ", "Request {", Ghost(4));
    r.append(x.as_str());
    let x = lines_exec("        ", "id: u32,", Ghost(8));
    r.append(x.as_str());
    let x = lines_exec("        ", "params: Params,", Ghost(8));
    r.append(x.as_str());
    let x = lines_exec("    ", "}", Ghost(4));
    r.append(x.as_str());
    let x = lines_exec("    ", "Response {", Ghost(4));
    r.append(x.as_str());
    let x = lines_exec("        ", "id: u32,", Ghost(8));
    r.append(x.as_str());
    let x = lines_exec("        ", "error: Option<string>,", Ghost(8));
    r.append(x.as_str());
    let x = lines_exec("        ", "results: Results,", Ghost(8));
    r.append(x.as_str());
    let x = lines_exec("    ", "}", Ghost(4));
    r.append(x.as_str());
    let x = lines_exec("    ", "Notification {", Ghost(4));
    r.append(x.as_str());
    let x = lines_exec("        ", "params: NotificationParams,", Ghost(8));
    r.append(x.as_str());
    let x = lines_exec("    ", "}", Ghost(4));
    r.append(x.as_str());
    let x = lines_exec("", "}", Ghost(0));
    r.append(x.as_str());
    let x = lines_exec("", "", Ghost(0));
    r.append(x.as_str());
    let x = lines_exec("", "impl Serialize for Message {", Ghost(0));
    r.append(x.as_str());
    let x = lines_exec("    ", "fn serialize<S>(&self, s: S) -> Result<S::Ok, S::Error>", Ghost(4));
    r.append(x.as_str());
    let x = lines_exec("        ", "where S: Serializer,", Ghost(8));
    r.append(x.as_str());
    let x = lines_exec("    ", "{", Ghost(4));
    r.append(x.as_str());
    let x = lines_exec("        ", "match self {", Ghost(8));
    r.append(x.as_str());
    let x = lines_exec("            ", "Message::Request { id, params, .. } => {", Ghost(12));
    r.append(x.as_str());
    let x = lines_exec("                ", "let mut seq = s.serialize_seq(Some(4))?;", Ghost(16));
    r.append(x.as_str());
    let x = lines_exec("                ", "seq.serialize_element(&0)?;", Ghost(16));
    r.append(x.as_str());
    let x = lines_exec("                ", "seq.serialize_element(&id)?;", Ghost(16));
    r.append(x.as_str());
    let x = lines_exec("                ", "seq.serialize_element(params.method())?;", Ghost(16));
    r.append(x.as_str());
    let x = lines_exec("                ", "seq.serialize_element(&params)?;", Ghost(16));
    r.append(x.as_str());
    let x = lines_exec("                ", "seq.end()", Ghost(16));
    r.append(x.as_str());
    let x = lines_exec("            ", "}", Ghost(12));
    r.append(x.as_str());
    let x = lines_exec("            ", "Message::Response { id, error, results, .. } => {", Ghost(12));
    r.append(x.as_str());
    let x = lines_exec("                ", "let mut seq = s.serialize_seq(Some(4))?;", Ghost(16));
    r.append(x.as_str());
    let x = lines_exec("                ", "seq.serialize_element(&1)?;", Ghost(16));
    r.append(x.as_str());
    let x = lines_exec("                ", "seq.serialize_element(&id)?;", Ghost(16));
    r.append(x.as_str());
    let x = lines_exec("                ", "seq.serialize_element(error)?;", Ghost(16));
    r.append(x.as_str());
    let x = lines_exec("                ", "seq.serialize_element(&results)?;", Ghost(16));
    r.append(x.as_str());
    let x = lines_exec("                ", "seq.end()", Ghost(16));
    r.append(x.as_str());
    let x = lines_exec("            ", "}", Ghost(12));
    r.append(x.as_str());
    let x = lines_exec("            ", "Message::Notification { params, method, .. } => {", Ghost(12));
    r.append(x.as_str());
    let x = lines_exec("                ", "let mut seq = s.serialize_seq(Some(4))?;", Ghost(16));
    r.append(x.as_str());
    let x = lines_exec("                ", "seq.serialize_element(&2)?;", Ghost(16));
    r.append(x.as_str());
    let x = lines_exec("                ", "seq.serialize_element(params.method())?;", Ghost(16));
    r.append(x.as_str());
    let x = lines_exec("                ", "seq.serialize_element(&params)?;", Ghost(16));
    r.append(x.as_str());
    let x = lines_exec("                ", "seq.end()", Ghost(16));
    r.append(x.as_str());
    let x = lines_exec("            ", "}", Ghost(12));
    r.append(x.as_str());
    let x = lines_exec("        ", "}", Ghost(8));
    r.append(x.as_str());
    let x = lines_exec("    ", "}", Ghost(4));
    r.append(x.as_str());
    let x = lines_exec("", "}", Ghost(0));
    r.append(x.as_str());
    assert(r@ =~= header_text());
    r
}

fn lines_exec(pad: &str, s: &str, Ghost(ind): Ghost<nat>) -> (r: String)
    requires
        pad@ == repeated(' ', ind),
    ensures
        r@ == line(ind, s@),
{
    let mut r = String::new();
    push_line(&mut r, pad, s);
    assert(r@ =~= line(ind, s@));
    r
}

fn comment_exec(c: &Option<Comment>, pad: &str, Ghost(ind): Ghost<nat>) -> (r: String)
    requires
        pad@ == repeated(' ', ind),
    ensures
        r@ == comment_lines(crate::ast::opt_comment_view(*c), ind),
{
    let mut r = String::new();
    match c {
        None => {},
        Some(c) => {
            let ghost ls = c@.lines;
            let n = c.lines.len();
            assert(ls.subrange(0, 0) =~= Seq::<Seq<char>>::empty());
            for i in 0..n
                invariant
                    n == c.lines.len(),
                    ls == c@.lines,
                    ls.len() == n,
                    forall|j: int| 0 <= j < n ==> #[trigger] ls[j] == c.lines@[j]@,
                    pad@ == repeated(' ', ind),
                    r@ == lines_of(ls.subrange(0, i as int), ind),
            {
                assert(ls.subrange(0, i + 1).drop_last() =~= ls.subrange(0, i as int));
                let text = cat(String::from_str("// "), c.lines[i].as_str());
                let l = lines_exec(pad, text.as_str(), Ghost(ind));
                r.append(l.as_str());
            }
            assert(ls.subrange(0, n as int) =~= ls);
        },
    }
    r
}

fn field_lines_exec(v: &Vec<Field>, pad: &str, Ghost(ind): Ghost<nat>) -> (r: String)
    requires
        pad@ == repeated(' ', ind),
    ensures
        r@ == field_lines(fields_view(v@), ind),
{
    let ghost fv = fields_view(v@);
    let mut r = String::new();
    let n = v.len();
    assert(fv.subrange(0, 0) =~= Seq::<SpecField>::empty());
    for i in 0..n
        invariant
            n == v.len(),
            fv == fields_view(v@),
            pad@ == repeated(' ', ind),
            r@ == field_lines(fv.subrange(0, i as int), ind),
    {
        assert(fv.subrange(0, i + 1).drop_last() =~= fv.subrange(0, i as int));
        assert(fv.subrange(0, i + 1).last() == v@[i as int]@);
        let f = &v[i];
        let text = cat(cat(cat(String::from_str(f.name.text.as_str()), ": "), f.typ.text.as_str()), ",");
        let l = lines_exec(pad, text.as_str(), Ghost(ind));
        r.append(l.as_str());
    }
    assert(fv.subrange(0, n as int) =~= fv);
    r
}

fn struct_lines_exec(pad: &str, name: &str, fields: &Vec<Field>, Ghost(ind): Ghost<nat>) -> (r: String)
    requires
        pad@ == repeated(' ', ind),
    ensures
        r@ == struct_lines(ind, name@, fields_view(fields@)),
{
    let mut r = lines_exec(pad, "#[derive(Serialize, Deserialize, Debug)]", Ghost(ind));
    let head = cat(cat(String::from_str("pub struct "), name), " {");
    let h = lines_exec(pad, head.as_str(), Ghost(ind));
    r.append(h.as_str());
    let pad2 = cat(String::from_str(pad), "    ");
    proof {
        lemma_repeat4(ind);
    }
    let f = field_lines_exec(fields, pad2.as_str(), Ghost(ind + 4));
    r.append(f.as_str());
    let c = lines_exec(pad, "}", Ghost(ind));
    r.append(c.as_str());
    r
}

fn fun_lines_exec(f: &FunctionDecl, pad: &str, Ghost(ind): Ghost<nat>) -> (r: String)
    requires
        pad@ == repeated(' ', ind),
    ensures
        r@ == fun_lines(fun_view(*f), ind),
{
    let pad2 = cat(String::from_str(pad), "    ");
    proof {
        lemma_repeat4(ind);
    }
    let mut r = comment_exec(&f.comment, pad, Ghost(ind));
    let sn = to_snake_case(f.name.text.as_str());
    let head = cat(cat(String::from_str("pub mod "), sn.as_str()), " {");
    let x = lines_exec(pad, head.as_str(), Ghost(ind));
    r.append(x.as_str());
    let x = lines_exec(pad2.as_str(), "use serde_derive::*;", Ghost(ind + 4));
    r.append(x.as_str());
    let x = lines_exec(pad2.as_str(), "", Ghost(ind + 4));
    r.append(x.as_str());
    let x = struct_lines_exec(pad2.as_str(), "Params", &f.params, Ghost(ind + 4));
    r.append(x.as_str());
    let x = lines_exec(pad2.as_str(), "", Ghost(ind + 4));
    r.append(x.as_str());
    let x = struct_lines_exec(pad2.as_str(), "Results", &f.results, Ghost(ind + 4));
    r.append(x.as_str());
    let x = lines_exec(pad, "}", Ghost(ind));
    r.append(x.as_str());
    let x = lines_exec(pad, "", Ghost(ind));
    r.append(x.as_str());
    r
}

fn funs_lines_exec<'a>(v: &Vec<(String, String, &'a FunctionDecl)>, pad: &str, Ghost(ind): Ghost<nat>) -> (r: String)
    requires
        pad@ == repeated(' ', ind),
    ensures
        r@ == funs_lines(entries_model(v@), ind),
{
    let ghost ev = entries_model(v@);
    let mut r = String::new();
    let n = v.len();
    assert(ev.subrange(0, 0) =~= Seq::<(Seq<char>, Seq<char>, SpecFunctionDecl)>::empty());
    for i in 0..n
        invariant
            n == v.len(),
            ev == entries_model(v@),
            pad@ == repeated(' ', ind),
            r@ == funs_lines(ev.subrange(0, i as int), ind),
    {
        assert(ev.subrange(0, i + 1).drop_last() =~= ev.subrange(0, i as int));
        assert(ev.subrange(0, i + 1).last() == entry_model(v@[i as int]));
        let x = fun_lines_exec(v[i].2, pad, Ghost(ind));
        r.append(x.as_str());
    }
    assert(ev.subrange(0, n as int) =~= ev);
    r
}

fn ns_lines_exec<'a>(t: &ExecNs<'a>, pad: &str, Ghost(ind): Ghost<nat>) -> (r: String)
    requires
        pad@ == repeated(' ', ind),
    ensures
        r@ == ns_lines(ns_model(*t), ind),
    decreases t,
{
    let pad2 = cat(String::from_str(pad), "    ");
    proof {
        lemma_repeat4(ind);
        lemma_children_models(t.children);
    }
    let head = cat(cat(String::from_str("pub mod "), t.name.as_str()), " {");
    let mut r = lines_exec(pad, head.as_str(), Ghost(ind));
    let ghost cs = models(t.children@);
    let n = t.children.len();
    let ghost start = r@;
    for i in 0..n
        invariant
            n == t.children.len(),
            cs == models(t.children@),
            pad2@ == repeated(' ', ind + 4),
            r@ == start + children_lines(cs, i as int, ind + 4),
    {
        assert(cs[i as int] == ns_model(t.children@[i as int]));
        let x = ns_lines_exec(&t.children[i], pad2.as_str(), Ghost(ind + 4));
        r.append(x.as_str());
    }
    let x = funs_lines_exec(&t.funs, pad2.as_str(), Ghost(ind + 4));
    r.append(x.as_str());
    let x = lines_exec(pad, "}", Ghost(ind));
    r.append(x.as_str());
    let x = lines_exec(pad, "", Ghost(ind));
    r.append(x.as_str());
    r
}

fn tree_funs_exec<'a>(t: &ExecNs<'a>, out: &mut Vec<String>)
    ensures
        strings_view(final(out)@) == strings_view(old(out)@) + tree_funs(ns_model(*t)),
    decreases t,
{
    proof {
        lemma_children_models(t.children);
    }
    let ghost cs = models(t.children@);
    let ghost start = strings_view(out@);
    let n = t.children.len();
    for i in 0..n
        invariant
            n == t.children.len(),
            cs == models(t.children@),
            strings_view(out@) == start + children_funs(cs, i as int),
    {
        assert(cs[i as int] == ns_model(t.children@[i as int]));
        tree_funs_exec(&t.children[i], out);
    }
    let ghost mid = strings_view(out@);
    let ghost es = entries_model(t.funs@).map_values(|e: (Seq<char>, Seq<char>, SpecFunctionDecl)| e.1);
    let m = t.funs.len();
    for j in 0..m
        invariant
            m == t.funs.len(),
            es == entries_model(t.funs@).map_values(|e: (Seq<char>, Seq<char>, SpecFunctionDecl)| e.1),
            es.len() == m,
            strings_view(out@) == mid + es.subrange(0, j as int),
    {
        let ghost pre = out@;
        out.push(t.funs[j].1.clone());
        assert(strings_view(out@) =~= strings_view(pre).push(es[j as int]));
        assert(mid + es.subrange(0, j + 1) =~= mid + es.subrange(0, j as int) + seq![es[j as int]]);
    }
    assert(es.subrange(0, m as int) =~= es);
}

pub open spec fn strings_view(v: Seq<String>) -> Seq<Seq<char>> {
    v.map_values(|s: String| s@)
}

fn call_name_exec(full: &str) -> (r: String)
    ensures
        r@ == call_name(full@),
{
    let parts = split_at_dots(full);
    let ghost ts = split_dots(full@);
    let n = parts.len();
    let mut cased: Vec<String> = Vec::new();
    for i in 0..n
        invariant
            n == parts.len(),
            crate::output::strs_view(parts@) == ts,
            ts.len() == n,
            cased@.len() == i,
            forall|j: int|
                0 <= j < i ==> #[trigger] cased@[j]@ == (if j == ts.len() - 1 {
                    camel_case(ts[j])
                } else {
                    mixed_case(ts[j])
                }),
    {
        assert(parts@[i as int]@ == ts[i as int]);
        if i + 1 == n {
            cased.push(to_camel_case(parts[i]));
        } else {
            cased.push(to_mixed_case(parts[i]));
        }
    }
    let mut refs: Vec<&str> = Vec::new();
    for i in 0..n
        invariant
            n == cased.len(),
            refs@.len() == i,
            forall|j: int| 0 <= j < i ==> #[trigger] refs@[j]@ == cased@[j]@,
    {
        refs.push(cased[i].as_str());
    }
    let r = crate::output::join_strs(&refs, ".");
    assert(crate::output::strs_view(refs@) =~= Seq::new(
        ts.len(),
        |i: int|
            if i == ts.len() - 1 {
                camel_case(ts[i])
            } else {
                mixed_case(ts[i])
            },
    ));
    r
}

/// Several schemas in one Rust file: their top-level namespaces merged by
/// name in the order first seen, each written as a module, then one line
/// per function.
#[verifier::spinoff_prover]
#[verifier::rlimit(60)]
pub fn merged_modules_text(schemas: &Vec<Schema>) -> (r: String)
    ensures
        r@ == spec_merged_text(schemas_view(schemas@)),
{
    let tops = merged_tops(schemas);
    let ghost ts = models(tops@);
    let mut r = header_exec();
    let ghost h = r@;
    let n = tops.len();
    proof {
        lemma_pads();
        assert(tops_lines(ts.subrange(0, 0)) =~= Seq::<char>::empty());
    }
    for i in 0..n
        invariant
            n == tops.len(),
            ts == models(tops@),
            r@ == h + tops_lines(ts.subrange(0, i as int)),
    {
        assert(ts.subrange(0, i + 1).drop_last() =~= ts.subrange(0, i as int));
        assert(ts[i as int] == ns_model(tops@[i as int]));
        proof {
            lemma_pads();
        }
        let x = lines_exec("", "", Ghost(0));
        r.append(x.as_str());
        let x = ns_lines_exec(&tops[i], "", Ghost(0));
        r.append(x.as_str());
    }
    assert(ts.subrange(0, n as int) =~= ts);
    let mut names: Vec<String> = Vec::new();
    let ghost start = strings_view(names@);
    assert(start =~= children_funs(ts, 0));
    for i in 0..n
        invariant
            n == tops.len(),
            ts == models(tops@),
            strings_view(names@) == children_funs(ts, i as int),
    {
        assert(ts[i as int] == ns_model(tops@[i as int]));
        tree_funs_exec(&tops[i], &mut names);
    }
    let ghost all = strings_view(names@);
    let ghost before = r@;
    let m = names.len();
    assert(all.subrange(0, 0) =~= Seq::<Seq<char>>::empty());
    for j in 0..m
        invariant
            m == names.len(),
            all == strings_view(names@),
            r@ == before + listing(all.subrange(0, j as int)),
    {
        assert(all.subrange(0, j + 1).drop_last() =~= all.subrange(0, j as int));
        let cn = call_name_exec(names[j].as_str());
        let q = quoted(cn.as_str());
        let text = cat(cat(String::from_str("// Should list "), q.as_str()), " in params");
        proof {
            lemma_pads();
        }
        let x = lines_exec("", text.as_str(), Ghost(0));
        r.append(x.as_str());
    }
    assert(all.subrange(0, m as int) =~= all);
    r
}

} // verus!
