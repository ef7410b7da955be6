//! Small pieces of Rust source text: attributes, quoted strings, enums.
use crate::common::{serde_derive_path, Traits};
use crate::output::{
    emit, join, join_strs, lemma_emit_concat, lemma_emit_zero, list_text, strs_view, Brackets,
    CommaList, Scope, ScopeState,
};
use vstd::prelude::*;

verus! {

/// An `#[allow(..)]` attribute.
pub struct Allow {
    items: Vec<&'static str>,
}

impl View for Allow {
    type V = Seq<Seq<char>>;

    closed spec fn view(&self) -> Seq<Seq<char>> {
        strs_view(self.items@)
    }
}

/// The attribute `#[name(items, ...)]` on a line of its own.
pub open spec fn attribute_text(name: Seq<char>, items: Seq<Seq<char>>) -> Seq<char> {
    "#["@ + name + "("@ + join(items, ", "@) + ")]\n"@
}

/// `#[name(` + `items` + `)]` and a line end.
fn attribute(name: &str, items: &Vec<&str>) -> (r: String)
    ensures
        r@ == attribute_text(name@, strs_view(items@)),
{
    let mut r = String::from_str("#[");
    r.append(name);
    r.append("(");
    let list = join_strs(items, ", ");
    r.append(list.as_str());
    r.append(")]\n");
    r
}

impl Allow {
    pub fn non_camel_case(self) -> (r: Allow)
        ensures
            r@ == self@.push("non_camel_case_types"@),
    {
        let mut items = self.items;
        items.push("non_camel_case_types");
        let r = Allow { items };
        assert(r@ =~= self@.push("non_camel_case_types"@));
        r
    }

    pub fn unused(self) -> (r: Allow)
        ensures
            r@ == self@.push("unused"@),
    {
        let mut items = self.items;
        items.push("unused");
        let r = Allow { items };
        assert(r@ =~= self@.push("unused"@));
        r
    }

    /// The attribute as source text.
    pub fn to_string(&self) -> (r: String)
        ensures
            r@ == attribute_text("allow"@, self@),
    {
        attribute("allow", &self.items)
    }
}

/// An attribute that allows nothing yet.
pub fn allow() -> (a: Allow)
    ensures
        a@ == Seq::<Seq<char>>::empty(),
{
    let a = Allow { items: Vec::new() };
    assert(a@ =~= Seq::<Seq<char>>::empty());
    a
}

/// The attribute that makes serde try each variant of an enum in turn.
pub fn serde_untagged() -> (r: &'static str)
    ensures
        r@ == "#[serde(untagged)]\n"@,
{
    "#[serde(untagged)]\n"
}

/// A `#[derive(..)]` attribute.
pub struct Derive {
    items: Vec<String>,
}

impl View for Derive {
    type V = Seq<Seq<char>>;

    closed spec fn view(&self) -> Seq<Seq<char>> {
        self.items@.map_values(|s: String| s@)
    }
}

impl Derive {
    fn with(self, item: String) -> (r: Derive)
        ensures
            r@ == self@.push(item@),
    {
        let mut items = self.items;
        items.push(item);
        let r = Derive { items };
        assert(r@ =~= self@.push(item@));
        r
    }

    pub fn debug(self) -> (r: Derive)
        ensures
            r@ == self@.push("Debug"@),
    {
        self.with(String::from_str("Debug"))
    }

    pub fn serialize(self) -> (r: Derive)
        ensures
            r@ == self@.push(serde_derive_path() + "::Serialize"@),
    {
        self.with(Traits::Serialize())
    }

    pub fn deserialize(self) -> (r: Derive)
        ensures
            r@ == self@.push(serde_derive_path() + "::Deserialize"@),
    {
        self.with(Traits::Deserialize())
    }

    /// The attribute as source text.
    pub fn to_string(&self) -> (r: String)
        ensures
            r@ == attribute_text("derive"@, self@),
    {
        let mut items: Vec<&str> = Vec::new();
        let n = self.items.len();
        for i in 0..n
            invariant
                n == self.items@.len(),
                strs_view(items@) == self@.subrange(0, i as int),
        {
            let ghost pre = items@;
            let it = self.items[i].as_str();
            items.push(it);
            assert(strs_view(items@) =~= strs_view(pre).push(it@));
            assert(self@[i as int] == self.items@[i as int]@);
            assert(strs_view(items@) =~= self@.subrange(0, i + 1));
        }
        assert(self@.subrange(0, n as int) =~= self@);
        attribute("derive", &items)
    }
}

/// A derive attribute that derives nothing yet.
pub fn derive() -> (d: Derive)
    ensures
        d@ == Seq::<Seq<char>>::empty(),
{
    let d = Derive { items: Vec::new() };
    assert(d@ =~= Seq::<Seq<char>>::empty());
    d
}

/// A type parameter, with the bound it has, if any.
#[derive(Debug, Clone)]
pub struct TypeParam {
    pub name: String,
    pub bound: Option<String>,
}

/// The `Debug` text of a string: the string between double quotes, escaped.
pub uninterp spec fn debug_text(s: Seq<char>) -> Seq<char>;

/// Formats a string with `{:?}`, the `Debug` implementation of `str` in std.
/// The result is claimed to depend on the string alone, which std's
/// `Debug` for `str` does; what the escaping is, is left to std.
#[verifier::external_body]
fn debug_format(s: &str) -> (r: String)
    ensures
        r@ == debug_text(s@),
{
    format!("{:?}", s)
}

/// A string literal, in Rust syntax, whose value is `s`.
pub fn quoted(s: &str) -> (r: String)
    ensures
        r@ == debug_text(s@),
{
    debug_format(s)
}

/// An enum declaration.
pub struct _Enum {
    kw_pub: bool,
    name: String,
    annotations: Vec<String>,
    variants: Vec<String>,
}

/// Texts run together.
pub open spec fn concat_all(parts: Seq<Seq<char>>) -> Seq<char>
    decreases parts.len(),
{
    if parts.len() == 0 {
        Seq::empty()
    } else {
        concat_all(parts.drop_last()) + parts.last()
    }
}

fn concat_strings(parts: &Vec<String>) -> (r: String)
    ensures
        r@ == concat_all(parts@.map_values(|s: String| s@)),
{
    let ghost v = parts@.map_values(|s: String| s@);
    let mut r = String::new();
    let n = parts.len();
    for i in 0..n
        invariant
            n == parts@.len(),
            v == parts@.map_values(|s: String| s@),
            r@ == concat_all(v.subrange(0, i as int)),
    {
        r.append(parts[i].as_str());
        assert(v.subrange(0, i + 1).drop_last() =~= v.subrange(0, i as int));
    }
    assert(v.subrange(0, n as int) =~= v);
    r
}

impl _Enum {
    pub closed spec fn spec_kw_pub(&self) -> bool {
        self.kw_pub
    }

    pub closed spec fn spec_name(&self) -> Seq<char> {
        self.name@
    }

    pub closed spec fn spec_variants(&self) -> Seq<Seq<char>> {
        self.variants@.map_values(|s: String| s@)
    }

    pub closed spec fn spec_annotations(&self) -> Seq<Seq<char>> {
        self.annotations@.map_values(|s: String| s@)
    }

    /// Makes the enum public.
    pub fn kw_pub(&mut self) -> (r: &mut _Enum)
        ensures
            r.spec_kw_pub(),
            r.spec_name() == old(self).spec_name(),
            r.spec_annotations() == old(self).spec_annotations(),
            r.spec_variants() == old(self).spec_variants(),
            *final(self) == *final(r),
    {
        self.kw_pub = true;
        self
    }

    /// Adds an attribute, written as `d`, before the declaration.
    pub fn annotation(&mut self, d: &str) -> (r: &mut _Enum)
        ensures
            r.spec_kw_pub() == old(self).spec_kw_pub(),
            r.spec_name() == old(self).spec_name(),
            r.spec_annotations() == old(self).spec_annotations().push(d@),
            r.spec_variants() == old(self).spec_variants(),
            *final(self) == *final(r),
    {
        self.annotations.push(String::from_str(d));
        assert(self.spec_annotations() =~= old(self).spec_annotations().push(d@));
        self
    }

    /// Adds a variant, written as `d`.
    pub fn variant(&mut self, d: &str) -> (r: &mut _Enum)
        ensures
            r.spec_kw_pub() == old(self).spec_kw_pub(),
            r.spec_name() == old(self).spec_name(),
            r.spec_annotations() == old(self).spec_annotations(),
            r.spec_variants() == old(self).spec_variants().push(d@),
            *final(self) == *final(r),
    {
        self.variants.push(String::from_str(d));
        assert(self.spec_variants() =~= old(self).spec_variants().push(d@));
        self
    }

    /// The declaration as source text.
    #[verifier::rlimit(40)]
    pub fn to_string(&self) -> (r: String)
        ensures
            r@ == enum_text(
                self.spec_annotations(),
                self.spec_kw_pub(),
                self.spec_name(),
                self.spec_variants(),
            ),
    {
        let ghost vs = self.spec_variants();
        let pre = concat_strings(&self.annotations);
        let ghost head = pre@ + (if self.kw_pub { "pub "@ } else { Seq::<char>::empty() }) + "enum "@
            + self.name@;
        let mut s = Scope::new();
        s.write(pre.as_str());
        proof {
            lemma_emit_zero(ScopeState::NeedIndent, pre@);
        }
        if self.kw_pub {
            let ghost st0 = s.spec_state();
            s.write("pub ");
            proof {
                lemma_emit_zero(st0, "pub "@);
            }
        }
        let ghost st1 = s.spec_state();
        s.write("enum ");
        let ghost st2 = s.spec_state();
        s.write(self.name.as_str());
        proof {
            lemma_emit_zero(st1, "enum "@);
            lemma_emit_zero(st2, self.name@);
            assert(s@ =~= head);
        }
        let n = self.variants.len();
        if n == 0 {
            let ghost st3 = s.spec_state();
            s.write(" {}");
            s.lf();
            proof {
                lemma_emit_zero(st3, " {}"@);
            }
            let r = s.into_string();
            assert(r@ =~= head + " {}\n"@) by {
                reveal_strlit(" {}\n");
                reveal_strlit(" {}");
            }
            return r;
        }
        let ghost st4 = s.spec_state();
        s.open_block();
        proof {
            reveal_strlit(" {");
            lemma_emit_zero(st4, " {"@);
            assert(variant_lines(vs.subrange(0, 0)) =~= Seq::<char>::empty());
        }
        let ghost start = s@;
        for i in 0..n
            invariant
                n == self.variants@.len(),
                vs == self.spec_variants(),
                s.wf(),
                s.depth() == 1,
                s.spec_indent() == 4,
                s.outer_indent(1) == 0,
                s.outer_state(1) == ScopeState::NeedIndent,
                (s@, s.spec_state()) == ({
                    let (o, st) = emit(4, ScopeState::NeedIndent, variant_lines(vs.subrange(0, i as int)));
                    (start + o, st)
                }),
        {
            let ghost pre = s@;
            let ghost pst = s.spec_state();
            s.line2(self.variants[i].as_str(), ",");
            proof {
                let prev = variant_lines(vs.subrange(0, i as int));
                assert(vs.subrange(0, i + 1).drop_last() =~= vs.subrange(0, i as int));
                assert(vs[i as int] + ","@ + seq!['\n'] =~= vs[i as int] + ",\n"@) by {
                    reveal_strlit(",");
                    reveal_strlit(",\n");
                }
                lemma_emit_concat(4, ScopeState::NeedIndent, prev, vs[i as int] + ",\n"@);
                assert(self.variants@[i as int]@ == vs[i as int]);
                assert(vs.subrange(0, i + 1).last() == vs[i as int]);
                assert(variant_lines(vs.subrange(0, i + 1)) == prev + (vs[i as int] + ",\n"@));
                assert(emit(4, ScopeState::NeedIndent, prev).1 == pst);
                assert(s@ == pre + emit(4, pst, vs[i as int] + ",\n"@).0);
                lemma_emit_concat(4, pst, vs[i as int] + ","@, seq!['\n']);
                crate::output::lemma_emit_char(4, emit(4, pst, vs[i as int] + ","@).1, '\n');
                assert(emit(4, pst, vs[i as int] + ",\n"@).1 == ScopeState::NeedIndent);
            }
        }
        s.close_block();
        let r = s.into_string();
        proof {
            assert(vs.subrange(0, n as int) =~= vs);
            reveal_strlit("}");
            reveal_strlit(" {\n");
            reveal_strlit("}\n");
            lemma_emit_zero(ScopeState::NeedIndent, "}"@);
            assert(r@ =~= head + " {\n"@ + emit(4, ScopeState::NeedIndent, variant_lines(vs)).0
                + "}\n"@);
        }
        r
    }
}

/// Each variant followed by `,` and a line end.
pub open spec fn variant_lines(vs: Seq<Seq<char>>) -> Seq<char>
    decreases vs.len(),
{
    if vs.len() == 0 {
        Seq::empty()
    } else {
        variant_lines(vs.drop_last()) + (vs.last() + ",\n"@)
    }
}

/// The text of an enum declaration: the header, then either ` {}` or a
/// block with one variant per line, indented by four spaces.
pub open spec fn enum_text(
    annotations: Seq<Seq<char>>,
    kw_pub: bool,
    name: Seq<char>,
    variants: Seq<Seq<char>>,
) -> Seq<char> {
    let head = concat_all(annotations) + (if kw_pub { "pub "@ } else { Seq::<char>::empty() })
        + "enum "@ + name;
    if variants.len() == 0 {
        head + " {}\n"@
    } else {
        head + " {\n"@ + emit(4, ScopeState::NeedIndent, variant_lines(variants)).0 + "}\n"@
    }
}

/// A private enum named `name`, with no variant yet.
pub fn _enum(name: &str) -> (e: _Enum)
    ensures
        !e.spec_kw_pub(),
        e.spec_name() == name@,
        e.spec_annotations() == Seq::<Seq<char>>::empty(),
        e.spec_variants() == Seq::<Seq<char>>::empty(),
{
    let e = _Enum {
        kw_pub: false,
        name: String::from_str(name),
        annotations: Vec::new(),
        variants: Vec::new(),
    };
    assert(e.spec_variants() =~= Seq::<Seq<char>>::empty());
    assert(e.spec_annotations() =~= Seq::<Seq<char>>::empty());
    e
}

/// A type parameter as its name and its bound, if any.
pub open spec fn tp_view(t: TypeParam) -> (Seq<char>, Option<Seq<char>>) {
    (t.name@, opt_view(t.bound))
}

pub open spec fn tps_view(v: Seq<TypeParam>) -> Seq<(Seq<char>, Option<Seq<char>>)> {
    v.map_values(|t: TypeParam| tp_view(t))
}

pub open spec fn opt_str(o: Option<&str>) -> Option<Seq<char>> {
    match o {
        Some(s) => Some(s@),
        None => None,
    }
}

/// The names of type parameters.
pub open spec fn param_names(tps: Seq<(Seq<char>, Option<Seq<char>>)>) -> Seq<Seq<char>> {
    tps.map_values(|t: (Seq<char>, Option<Seq<char>>)| t.0)
}

/// Type parameters as an `impl` lists them after the type: `name` or
/// `name: bound`.
pub open spec fn bounded_names(tps: Seq<(Seq<char>, Option<Seq<char>>)>) -> Seq<Seq<char>> {
    tps.map_values(
        |t: (Seq<char>, Option<Seq<char>>)|
            match t.1 {
                Some(b) => t.0 + ": "@ + b,
                None => t.0,
            },
    )
}

/// A block: ` {`, then `body` written one level in, then `}`, each closing
/// its line.
pub open spec fn block_text(body: Seq<char>) -> Seq<char> {
    " {\n"@ + emit(4, ScopeState::NeedIndent, body).0 + "}\n"@
}

/// Writes `head`, then `body` in a block, from the start of a line.
pub(crate) fn with_block(head: &str, body: &str) -> (r: String)
    ensures
        r@ == head@ + block_text(body@),
{
    let mut s = Scope::new();
    s.write(head);
    let ghost st1 = s.spec_state();
    s.open_block();
    s.write(body);
    s.close_block();
    proof {
        lemma_emit_zero(ScopeState::NeedIndent, head@);
        lemma_emit_zero(st1, " {"@);
        lemma_emit_zero(ScopeState::NeedIndent, "}"@);
        reveal_strlit(" {");
        reveal_strlit(" {\n");
        reveal_strlit("}");
        reveal_strlit("}\n");
    }
    let r = s.into_string();
    assert(r@ =~= head@ + block_text(body@));
    r
}

/// The text of a comma list between `brackets`.
fn list_of(brackets: Brackets, items: &Vec<String>, omit_empty: bool) -> (r: String)
    ensures
        r@ == list_text(brackets, items@.map_values(|x: String| x@), omit_empty),
{
    let mut l = CommaList::new(brackets);
    if omit_empty {
        l.omit_empty();
    }
    let n = items.len();
    for i in 0..n
        invariant
            n == items@.len(),
            l.spec_brackets() == brackets,
            l.spec_omit_empty() == omit_empty,
            l.spec_items() == items@.map_values(|x: String| x@).subrange(0, i as int),
    {
        l.item(items[i].as_str());
        assert(l.spec_items() =~= items@.map_values(|x: String| x@).subrange(0, i + 1));
    }
    assert(items@.map_values(|x: String| x@).subrange(0, n as int) =~= items@.map_values(
        |x: String| x@,
    ));
    l.text()
}

fn names_of_params(tps: &Vec<TypeParam>) -> (r: Vec<String>)
    ensures
        r@.map_values(|x: String| x@) == param_names(tps_view(tps@)),
{
    let mut r: Vec<String> = Vec::new();
    let n = tps.len();
    for i in 0..n
        invariant
            n == tps@.len(),
            r@.len() == i,
            forall|j: int| 0 <= j < i ==> #[trigger] r@[j]@ == tps@[j].name@,
    {
        r.push(String::from_str(tps[i].name.as_str()));
    }
    assert(r@.map_values(|x: String| x@) =~= param_names(tps_view(tps@)));
    r
}

fn bounded_of_params(tps: &Vec<TypeParam>) -> (r: Vec<String>)
    ensures
        r@.map_values(|x: String| x@) == bounded_names(tps_view(tps@)),
{
    let mut r: Vec<String> = Vec::new();
    let n = tps.len();
    let ghost want = bounded_names(tps_view(tps@));
    for i in 0..n
        invariant
            n == tps@.len(),
            want == bounded_names(tps_view(tps@)),
            r@.len() == i,
            forall|j: int| 0 <= j < i ==> #[trigger] r@[j]@ == want[j],
    {
        let tp = &tps[i];
        let item = match &tp.bound {
            Some(b) => {
                let mut t = String::from_str(tp.name.as_str());
                t.append(": ");
                t.append(b.as_str());
                t
            },
            None => String::from_str(tp.name.as_str()),
        };
        r.push(item);
    }
    assert(r@.map_values(|x: String| x@) =~= want);
    r
}

fn copy_params(tps: &Vec<TypeParam>) -> (r: Vec<TypeParam>)
    ensures
        tps_view(r@) == tps_view(tps@),
{
    let mut r: Vec<TypeParam> = Vec::new();
    let n = tps.len();
    for i in 0..n
        invariant
            n == tps@.len(),
            r@.len() == i,
            forall|j: int| 0 <= j < i ==> #[trigger] tp_view(r@[j]) == tp_view(tps@[j]),
    {
        let tp = copy_param(&tps[i]);
        r.push(tp);
    }
    assert(tps_view(r@) =~= tps_view(tps@));
    r
}

fn copy_param(tp: &TypeParam) -> (r: TypeParam)
    ensures
        tp_view(r) == tp_view(*tp),
{
    TypeParam {
        name: String::from_str(tp.name.as_str()),
        bound: match &tp.bound {
            Some(b) => Some(String::from_str(b.as_str())),
            None => None,
        },
    }
}

fn opt_text(s: Option<&str>) -> (r: Option<String>)
    ensures
        opt_view(r) == opt_str(s),
{
    match s {
        Some(t) => Some(String::from_str(t)),
        None => None,
    }
}

/// A function declaration.
pub struct _Fn {
    kw_pub: bool,
    kw_async: bool,
    self_arg: Option<String>,
    params: Vec<String>,
    type_params: Vec<TypeParam>,
    name: String,
    ret: Option<String>,
    body: Option<String>,
}

pub open spec fn opt_view(o: Option<String>) -> Option<Seq<char>> {
    match o {
        Some(s) => Some(s@),
        None => None,
    }
}

/// The text of a function declaration: its header, then its body in a
/// block, or `;` when it has none.
pub open spec fn fn_text(
    kw_pub: bool,
    kw_async: bool,
    name: Seq<char>,
    type_params: Seq<(Seq<char>, Option<Seq<char>>)>,
    self_arg: Option<Seq<char>>,
    params: Seq<Seq<char>>,
    ret: Option<Seq<char>>,
    body: Option<Seq<char>>,
) -> Seq<char> {
    let head = (if kw_pub { "pub "@ } else { Seq::<char>::empty() }) + (if kw_async {
        "async "@
    } else {
        Seq::<char>::empty()
    }) + "fn "@ + name + list_text(Brackets::Angle, param_names(type_params), true) + list_text(
        Brackets::Round,
        match self_arg {
            Some(a) => seq![a] + params,
            None => params,
        },
        false,
    ) + match ret {
        Some(r) => " -> "@ + r,
        None => Seq::<char>::empty(),
    } + where_text(type_params);
    match body {
        Some(b) => head + block_text(b),
        None => head + ";\n"@,
    }
}

/// Whether any type parameter has a bound.
pub open spec fn any_bound(tps: Seq<(Seq<char>, Option<Seq<char>>)>) -> bool {
    exists|i: int| 0 <= i < tps.len() && (#[trigger] tps[i]).1 is Some
}

/// `name: bound,` on a line for each type parameter with a bound.
pub open spec fn bound_lines(tps: Seq<(Seq<char>, Option<Seq<char>>)>) -> Seq<char>
    decreases tps.len(),
{
    if tps.len() == 0 {
        Seq::empty()
    } else {
        bound_lines(tps.drop_last()) + match tps.last().1 {
            Some(b) => tps.last().0 + ": "@ + b + ",\n"@,
            None => Seq::<char>::empty(),
        }
    }
}

/// A where clause after the header when a type parameter has a bound:
/// `where` on a line of its own, then the bounds one level in.
pub open spec fn where_text(tps: Seq<(Seq<char>, Option<Seq<char>>)>) -> Seq<char> {
    if any_bound(tps) {
        "\n"@ + "where\n"@ + emit(4, ScopeState::NeedIndent, bound_lines(tps)).0
    } else {
        Seq::empty()
    }
}

/// `text` written one level in, from the start of a line.
pub(crate) fn indented(text: &str) -> (r: String)
    ensures
        r@ == emit(4, ScopeState::NeedIndent, text@).0,
{
    let mut s = Scope::new();
    s.push_scope();
    s.write(text);
    let r = s.into_string();
    assert(r@ =~= emit(4, ScopeState::NeedIndent, text@).0);
    r
}

fn where_exec(tps: &Vec<TypeParam>) -> (r: String)
    ensures
        r@ == where_text(tps_view(tps@)),
{
    let ghost v = tps_view(tps@);
    let mut lines = String::new();
    let mut found = false;
    let n = tps.len();
    for i in 0..n
        invariant
            n == tps@.len(),
            v == tps_view(tps@),
            lines@ == bound_lines(v.subrange(0, i as int)),
            found == any_bound(v.subrange(0, i as int)),
    {
        let tp = &tps[i];
        let ghost sub = v.subrange(0, i + 1);
        let ghost prev = v.subrange(0, i as int);
        assert(sub.drop_last() =~= prev);
        assert(sub.last() == tp_view(*tp));
        match &tp.bound {
            Some(b) => {
                lines.append(tp.name.as_str());
                lines.append(": ");
                lines.append(b.as_str());
                lines.append(",\n");
                found = true;
                assert(sub[i as int].1 is Some);
            },
            None => {
                assert(any_bound(sub) == any_bound(prev)) by {
                    if any_bound(sub) {
                        let k = choose|k: int| 0 <= k < sub.len() && (#[trigger] sub[k]).1 is Some;
                        assert(k < i);
                        assert(prev[k] == sub[k]);
                    }
                    if any_bound(prev) {
                        let k = choose|k: int| 0 <= k < prev.len() && (#[trigger] prev[k]).1 is Some;
                        assert(sub[k] == prev[k]);
                    }
                }
            },
        }
        assert(found == any_bound(sub)) by {
            if any_bound(prev) {
                let k = choose|k: int| 0 <= k < prev.len() && (#[trigger] prev[k]).1 is Some;
                assert(sub[k] == prev[k]);
            }
        }
    }
    assert(v.subrange(0, n as int) =~= v);
    if found {
        let mut r = String::from_str("\n");
        r.append("where\n");
        let ind = indented(lines.as_str());
        r.append(ind.as_str());
        r
    } else {
        String::new()
    }
}

impl _Fn {
    pub closed spec fn spec_kw_pub(&self) -> bool {
        self.kw_pub
    }

    pub closed spec fn spec_kw_async(&self) -> bool {
        self.kw_async
    }

    pub closed spec fn spec_name(&self) -> Seq<char> {
        self.name@
    }

    pub closed spec fn spec_type_params(&self) -> Seq<(Seq<char>, Option<Seq<char>>)> {
        tps_view(self.type_params@)
    }

    pub closed spec fn spec_self_arg(&self) -> Option<Seq<char>> {
        opt_view(self.self_arg)
    }

    pub closed spec fn spec_params(&self) -> Seq<Seq<char>> {
        self.params@.map_values(|p: String| p@)
    }

    pub closed spec fn spec_ret(&self) -> Option<Seq<char>> {
        opt_view(self.ret)
    }

    pub closed spec fn spec_body(&self) -> Option<Seq<char>> {
        opt_view(self.body)
    }

    pub fn kw_pub(self) -> (r: _Fn)
        ensures
            r.spec_kw_pub(),
            r.spec_kw_async() == self.spec_kw_async(),
            r.spec_name() == self.spec_name(),
            r.spec_type_params() == self.spec_type_params(),
            r.spec_self_arg() == self.spec_self_arg(),
            r.spec_params() == self.spec_params(),
            r.spec_ret() == self.spec_ret(),
            r.spec_body() == self.spec_body(),
    {
        _Fn { kw_pub: true, ..self }
    }

    pub fn kw_async(self) -> (r: _Fn)
        ensures
            r.spec_kw_async(),
            r.spec_kw_pub() == self.spec_kw_pub(),
            r.spec_name() == self.spec_name(),
            r.spec_type_params() == self.spec_type_params(),
            r.spec_self_arg() == self.spec_self_arg(),
            r.spec_params() == self.spec_params(),
            r.spec_ret() == self.spec_ret(),
            r.spec_body() == self.spec_body(),
    {
        _Fn { kw_async: true, ..self }
    }

    pub fn return_type(self, ret: &str) -> (r: _Fn)
        ensures
            r.spec_ret() == Some(ret@),
            r.spec_kw_pub() == self.spec_kw_pub(),
            r.spec_kw_async() == self.spec_kw_async(),
            r.spec_name() == self.spec_name(),
            r.spec_type_params() == self.spec_type_params(),
            r.spec_self_arg() == self.spec_self_arg(),
            r.spec_params() == self.spec_params(),
            r.spec_body() == self.spec_body(),
    {
        _Fn { ret: Some(String::from_str(ret)), ..self }
    }

    /// Gives the function a body: the text it holds, as written at the
    /// start of a line.
    pub fn body(self, body: &str) -> (r: _Fn)
        ensures
            r.spec_body() == Some(body@),
            r.spec_kw_pub() == self.spec_kw_pub(),
            r.spec_kw_async() == self.spec_kw_async(),
            r.spec_name() == self.spec_name(),
            r.spec_type_params() == self.spec_type_params(),
            r.spec_self_arg() == self.spec_self_arg(),
            r.spec_params() == self.spec_params(),
            r.spec_ret() == self.spec_ret(),
    {
        _Fn { body: Some(String::from_str(body)), ..self }
    }

    pub fn self_param(self, self_arg: &str) -> (r: _Fn)
        ensures
            r.spec_self_arg() == Some(self_arg@),
            r.spec_kw_pub() == self.spec_kw_pub(),
            r.spec_kw_async() == self.spec_kw_async(),
            r.spec_name() == self.spec_name(),
            r.spec_type_params() == self.spec_type_params(),
            r.spec_params() == self.spec_params(),
            r.spec_ret() == self.spec_ret(),
            r.spec_body() == self.spec_body(),
    {
        _Fn { self_arg: Some(String::from_str(self_arg)), ..self }
    }

    pub fn type_param(self, name: &str, constraint: Option<&str>) -> (r: _Fn)
        ensures
            r.spec_type_params() == self.spec_type_params().push((name@, opt_str(constraint))),
            r.spec_kw_pub() == self.spec_kw_pub(),
            r.spec_kw_async() == self.spec_kw_async(),
            r.spec_name() == self.spec_name(),
            r.spec_self_arg() == self.spec_self_arg(),
            r.spec_params() == self.spec_params(),
            r.spec_ret() == self.spec_ret(),
            r.spec_body() == self.spec_body(),
    {
        let mut tps = self.type_params;
        let ghost pre = tps@;
        tps.push(TypeParam { name: String::from_str(name), bound: opt_text(constraint) });
        assert(tps_view(tps@) =~= tps_view(pre).push((name@, opt_str(constraint))));
        _Fn { type_params: tps, ..self }
    }

    pub fn param(self, name: &str) -> (r: _Fn)
        ensures
            r.spec_params() == self.spec_params().push(name@),
            r.spec_kw_pub() == self.spec_kw_pub(),
            r.spec_kw_async() == self.spec_kw_async(),
            r.spec_name() == self.spec_name(),
            r.spec_type_params() == self.spec_type_params(),
            r.spec_self_arg() == self.spec_self_arg(),
            r.spec_ret() == self.spec_ret(),
            r.spec_body() == self.spec_body(),
    {
        let mut params = self.params;
        let ghost pre = params@;
        params.push(String::from_str(name));
        assert(params@.map_values(|p: String| p@) =~= pre.map_values(|p: String| p@).push(name@));
        _Fn { params, ..self }
    }

    /// The declaration as source text.
    pub fn to_string(&self) -> (r: String)
        ensures
            r@ == fn_text(
                self.spec_kw_pub(),
                self.spec_kw_async(),
                self.spec_name(),
                self.spec_type_params(),
                self.spec_self_arg(),
                self.spec_params(),
                self.spec_ret(),
                self.spec_body(),
            ),
    {
        let mut head = String::new();
        if self.kw_pub {
            head.append("pub ");
        }
        if self.kw_async {
            head.append("async ");
        }
        head.append("fn ");
        head.append(self.name.as_str());
        let names = names_of_params(&self.type_params);
        let tl = list_of(Brackets::Angle, &names, true);
        head.append(tl.as_str());
        let mut args: Vec<String> = Vec::new();
        match &self.self_arg {
            Some(a) => {
                args.push(String::from_str(a.as_str()));
            },
            None => {},
        }
        let ghost want = match opt_view(self.self_arg) {
            Some(a) => seq![a] + self.params@.map_values(|p: String| p@),
            None => self.params@.map_values(|p: String| p@),
        };
        let ghost k: int = if self.self_arg is Some { 1 } else { 0 };
        let n = self.params.len();
        for i in 0..n
            invariant
                n == self.params@.len(),
                k == (if self.self_arg is Some { 1int } else { 0int }),
                want == (match opt_view(self.self_arg) {
                    Some(a) => seq![a] + self.params@.map_values(|p: String| p@),
                    None => self.params@.map_values(|p: String| p@),
                }),
                args@.len() == k + i,
                forall|j: int| 0 <= j < k + i ==> #[trigger] args@[j]@ == want[j],
        {
            args.push(String::from_str(self.params[i].as_str()));
        }
        assert(args@.map_values(|p: String| p@) =~= want);
        let pl = list_of(Brackets::Round, &args, false);
        head.append(pl.as_str());
        match &self.ret {
            Some(r) => {
                head.append(" -> ");
                head.append(r.as_str());
            },
            None => {},
        }
        let wt = where_exec(&self.type_params);
        head.append(wt.as_str());
        proof {
            reveal_strlit("pub ");
            reveal_strlit("async ");
        }
        let r = match &self.body {
            Some(b) => with_block(head.as_str(), b.as_str()),
            None => {
                let mut h = head;
                h.append(";\n");
                h
            },
        };
        assert(r@ =~= fn_text(
            self.kw_pub,
            self.kw_async,
            self.name@,
            tps_view(self.type_params@),
            opt_view(self.self_arg),
            self.params@.map_values(|p: String| p@),
            opt_view(self.ret),
            opt_view(self.body),
        ));
        r
    }
}

/// A private function named `name`, without parameters, result or body.
pub fn _fn(name: &str) -> (f: _Fn)
    ensures
        !f.spec_kw_pub(),
        !f.spec_kw_async(),
        f.spec_name() == name@,
        f.spec_type_params() == Seq::<(Seq<char>, Option<Seq<char>>)>::empty(),
        f.spec_self_arg() is None,
        f.spec_params() == Seq::<Seq<char>>::empty(),
        f.spec_ret() is None,
        f.spec_body() is None,
{
    let f = _Fn {
        kw_pub: false,
        kw_async: false,
        name: String::from_str(name),
        params: Vec::new(),
        type_params: Vec::new(),
        self_arg: None,
        body: None,
        ret: None,
    };
    assert(f.spec_params() =~= Seq::<Seq<char>>::empty());
    f
}

/// An implementation of a trait for a type.
pub struct _Impl {
    trt: String,
    name: String,
    type_params: Vec<TypeParam>,
    body: Option<String>,
}

/// The text of an impl block: the type parameters after `impl`, again
/// after the type with their bounds, then the body in a block.
pub open spec fn impl_text(
    trt: Seq<char>,
    name: Seq<char>,
    type_params: Seq<(Seq<char>, Option<Seq<char>>)>,
    body: Option<Seq<char>>,
) -> Seq<char> {
    "impl"@ + list_text(Brackets::Angle, param_names(type_params), true) + " "@ + trt + " for "@
        + name + list_text(Brackets::Angle, bounded_names(type_params), true) + block_text(
        match body {
            Some(b) => b,
            None => Seq::empty(),
        },
    )
}

impl _Impl {
    pub closed spec fn spec_trt(&self) -> Seq<char> {
        self.trt@
    }

    pub closed spec fn spec_name(&self) -> Seq<char> {
        self.name@
    }

    pub closed spec fn spec_type_params(&self) -> Seq<(Seq<char>, Option<Seq<char>>)> {
        tps_view(self.type_params@)
    }

    pub closed spec fn spec_body(&self) -> Option<Seq<char>> {
        opt_view(self.body)
    }

    pub fn type_param(self, name: &str, constraint: Option<&str>) -> (r: _Impl)
        ensures
            r.spec_type_params() == self.spec_type_params().push((name@, opt_str(constraint))),
            r.spec_trt() == self.spec_trt(),
            r.spec_name() == self.spec_name(),
            r.spec_body() == self.spec_body(),
    {
        let mut tps = self.type_params;
        let ghost pre = tps@;
        let tp = TypeParam { name: String::from_str(name), bound: opt_text(constraint) };
        tps.push(tp);
        assert(tps_view(tps@) =~= tps_view(pre).push((name@, opt_str(constraint))));
        _Impl { type_params: tps, ..self }
    }

    /// Adds a copy of each of `params`.
    pub fn type_params(self, params: &Vec<TypeParam>) -> (r: _Impl)
        ensures
            r.spec_type_params() == self.spec_type_params() + tps_view(params@),
            r.spec_trt() == self.spec_trt(),
            r.spec_name() == self.spec_name(),
            r.spec_body() == self.spec_body(),
    {
        let mut tps = self.type_params;
        let ghost pre = tps@;
        let mut more = copy_params(params);
        tps.append(&mut more);
        assert(tps_view(tps@) =~= tps_view(pre) + tps_view(params@));
        _Impl { type_params: tps, ..self }
    }

    /// Gives the impl a body: the text it holds, as written at the start of
    /// a line.
    pub fn body(self, body: &str) -> (r: _Impl)
        ensures
            r.spec_body() == Some(body@),
            r.spec_trt() == self.spec_trt(),
            r.spec_name() == self.spec_name(),
            r.spec_type_params() == self.spec_type_params(),
    {
        _Impl { body: Some(String::from_str(body)), ..self }
    }

    /// The impl block as source text.
    pub fn to_string(&self) -> (r: String)
        ensures
            r@ == impl_text(
                self.spec_trt(),
                self.spec_name(),
                self.spec_type_params(),
                self.spec_body(),
            ),
    {
        let mut head = String::from_str("impl");
        let names = names_of_params(&self.type_params);
        let tl = list_of(Brackets::Angle, &names, true);
        head.append(tl.as_str());
        head.append(" ");
        head.append(self.trt.as_str());
        head.append(" for ");
        head.append(self.name.as_str());
        let bounded = bounded_of_params(&self.type_params);
        let bl = list_of(Brackets::Angle, &bounded, true);
        head.append(bl.as_str());
        let r = match &self.body {
            Some(b) => with_block(head.as_str(), b.as_str()),
            None => {
                let r = with_block(head.as_str(), "");
                proof {
                    reveal_strlit("");
                    assert(""@ =~= Seq::<char>::empty());
                }
                r
            },
        };
        assert(r@ =~= impl_text(self.trt@, self.name@, tps_view(self.type_params@), opt_view(self.body)));
        r
    }
}

/// An impl of trait `trt` for type `name`, with no type parameter and no
/// body yet.
pub fn _impl(trt: &str, name: &str) -> (i: _Impl)
    ensures
        i.spec_trt() == trt@,
        i.spec_name() == name@,
        i.spec_type_params() == Seq::<(Seq<char>, Option<Seq<char>>)>::empty(),
        i.spec_body() is None,
{
    _Impl { trt: String::from_str(trt), name: String::from_str(name), type_params: Vec::new(), body: None }
}

} // verus!
