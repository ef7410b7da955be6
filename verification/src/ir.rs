//! The functions of a schema as generated code names them, and the
//! protocol and client modules written from them.
use crate::ast::{Comment, Field, FunctionDecl, Kind, Side, StructDecl};
use crate::common::{es_path, serde_path, serde_derive_path, sync_path, lavish_path, Mods, Structs, Traits};
use crate::lang::{
    _enum, _fn, _impl, attribute_text, block_text, debug_text, enum_text, fn_text,
    impl_text, quoted, serde_untagged, with_block, TypeParam,
};
use crate::naming::{repeat, root_path};
use crate::output::{join, join_strs, strs_view};
use crate::types::{lemma_split_join, split_at_dots, split_dots};
use vstd::prelude::*;

verus! {

/// `s` with each dot written as two underscores.
pub open spec fn replace_dots(s: Seq<char>) -> Seq<char>
    decreases s.len(),
{
    if s.len() == 0 {
        Seq::empty()
    } else {
        replace_dots(s.drop_last()) + if s.last() == '.' {
            seq!['_', '_']
        } else {
            seq![s.last()]
        }
    }
}

pub(crate) fn replace_dots_exec(s: &str) -> (r: String)
    ensures
        r@ == replace_dots(s@),
{
    let n = s.unicode_len();
    let mut r = String::new();
    for i in 0..n
        invariant
            n == s@.len(),
            r@ == replace_dots(s@.subrange(0, i as int)),
    {
        let c = s.get_char(i);
        assert(s@.subrange(0, i + 1).drop_last() =~= s@.subrange(0, i as int));
        if c == '.' {
            crate::output::push_char(&mut r, '_');
            crate::output::push_char(&mut r, '_');
        } else {
            crate::output::push_char(&mut r, c);
        }
        assert(r@ =~= replace_dots(s@.subrange(0, i + 1)));
    }
    assert(s@.subrange(0, n as int) =~= s@);
    r
}

/// The lowercase form of a text, as std's `str::to_lowercase` gives it.
pub uninterp spec fn lowercase_text(s: Seq<char>) -> Seq<char>;

/// Calls `str::to_lowercase` of std, a function of the text alone.
#[verifier::external_body]
pub(crate) fn to_lowercase(s: &str) -> (r: String)
    ensures
        r@ == lowercase_text(s@),
{
    s.to_lowercase()
}

/// The snake_case form of a name, as the `heck` crate writes it.
pub uninterp spec fn snake_case(s: Seq<char>) -> Seq<char>;

/// Calls `heck::SnakeCase::to_snake_case`, a function of its argument alone.
#[verifier::external_body]
pub(crate) fn to_snake_case(s: &str) -> (r: String)
    ensures
        r@ == snake_case(s@),
{
    heck::SnakeCase::to_snake_case(s)
}

/// A function of the schema, with its dotted path split into tokens.
pub struct Fun<'a> {
    decl: &'a FunctionDecl,
    tokens: Vec<String>,
}

/// The dotted name by which a function is called.
pub open spec fn rpc_name_of(tokens: Seq<Seq<char>>) -> Seq<char> {
    join(tokens, "."@)
}

/// The variant that stands for a function in the protocol's enums.
pub open spec fn variant_of(tokens: Seq<Seq<char>>) -> Seq<char> {
    lowercase_text(replace_dots(rpc_name_of(tokens)))
}

/// The path of a function's module.
pub open spec fn qualified_of(tokens: Seq<Seq<char>>) -> Seq<char> {
    join(tokens, "::"@)
}

impl<'a> Fun<'a> {
    pub closed spec fn spec_tokens(&self) -> Seq<Seq<char>> {
        self.tokens@.map_values(|t: String| t@)
    }

    pub closed spec fn spec_decl(&self) -> &'a FunctionDecl {
        self.decl
    }

    /// The function `decl`, declared under the dotted prefix `prefix`.
    pub fn new(prefix: &str, decl: &'a FunctionDecl) -> (f: Fun<'a>)
        ensures
            f.spec_decl() == decl,
            f.spec_tokens() == split_dots(prefix@ + decl.name.text@),
    {
        let mut full = String::from_str(prefix);
        full.append(decl.name.text.as_str());
        let parts = split_at_dots(full.as_str());
        let mut tokens: Vec<String> = Vec::new();
        let n = parts.len();
        for i in 0..n
            invariant
                n == parts@.len(),
                tokens@.len() == i,
                forall|j: int| 0 <= j < i ==> #[trigger] tokens@[j]@ == parts@[j]@,
        {
            tokens.push(String::from_str(parts[i]));
        }
        let f = Fun { decl, tokens };
        assert(f.spec_tokens() =~= strs_view(parts@));
        f
    }

    fn token_refs(&self) -> (r: Vec<&str>)
        ensures
            strs_view(r@) == self.spec_tokens(),
    {
        let mut r: Vec<&str> = Vec::new();
        let n = self.tokens.len();
        for i in 0..n
            invariant
                n == self.tokens@.len(),
                r@.len() == i,
                forall|j: int| 0 <= j < i ==> #[trigger] r@[j]@ == self.tokens@[j]@,
        {
            r.push(self.tokens[i].as_str());
        }
        assert(strs_view(r@) =~= self.spec_tokens());
        r
    }

    /// The dotted name by which the function is called: its prefix and name.
    pub fn rpc_name(&self) -> (r: String)
        ensures
            r@ == rpc_name_of(self.spec_tokens()),
    {
        let t = self.token_refs();
        join_strs(&t, ".")
    }

    pub fn variant(&self) -> (r: String)
        ensures
            r@ == variant_of(self.spec_tokens()),
    {
        let n = self.rpc_name();
        let d = replace_dots_exec(n.as_str());
        to_lowercase(d.as_str())
    }

    pub fn qualified_name(&self) -> (r: String)
        ensures
            r@ == qualified_of(self.spec_tokens()),
    {
        let t = self.token_refs();
        join_strs(&t, "::")
    }

    /// The name of the function's module.
    pub fn mod_name(&self) -> (r: String)
        ensures
            r@ == snake_case(self.spec_decl().name.text@),
    {
        to_snake_case(self.decl.name.text.as_str())
    }

    pub fn comment(&self) -> (r: &'a Option<Comment>)
        ensures
            r == &self.spec_decl().comment,
    {
        &self.decl.comment
    }

    pub fn name(&self) -> (r: &'a str)
        ensures
            r@ == self.spec_decl().name.text@,
    {
        self.decl.name.text.as_str()
    }

    pub fn side(&self) -> (r: Side)
        ensures
            r == self.spec_decl().side,
    {
        self.decl.side
    }

    pub fn kind(&self) -> (r: Kind)
        ensures
            r == self.spec_decl().kind,
    {
        self.decl.kind
    }

    pub fn params(&'a self) -> (r: FunStruct<'a>)
        ensures
            r.fun == self,
            r.kind == FunStructKind::Params,
            r.fields == &self.spec_decl().params,
    {
        FunStruct { fun: self, kind: FunStructKind::Params, fields: &self.decl.params }
    }

    pub fn results(&'a self) -> (r: FunStruct<'a>)
        ensures
            r.fun == self,
            r.kind == FunStructKind::Results,
            r.fields == &self.spec_decl().results,
    {
        FunStruct { fun: self, kind: FunStructKind::Results, fields: &self.decl.results }
    }
}

/// The full name of a function, from its declaration and the prefix it was
/// declared under.
pub proof fn lemma_rpc_name(prefix: Seq<char>, name: Seq<char>)
    ensures
        rpc_name_of(split_dots(prefix + name)) == prefix + name,
{
    lemma_split_join(prefix + name);
}

#[derive(Debug, Clone, Copy, PartialEq, Eq, Structural)]
pub enum FunStructKind {
    Params,
    Results,
}

pub open spec fn kind_word(k: FunStructKind) -> Seq<char> {
    match k {
        FunStructKind::Params => "Params"@,
        FunStructKind::Results => "Results"@,
    }
}

/// The parameters or the results of a function, as a struct.
pub struct FunStruct<'a> {
    pub fun: &'a Fun<'a>,
    pub kind: FunStructKind,
    pub fields: &'a Vec<Field>,
}

fn concat2(a: &str, b: &str) -> (r: String)
    ensures
        r@ == a@ + b@,
{
    let mut r = String::from_str(a);
    r.append(b);
    r
}

fn concat3(a: &str, b: &str, c: &str) -> (r: String)
    ensures
        r@ == a@ + b@ + c@,
{
    let mut r = String::from_str(a);
    r.append(b);
    r.append(c);
    r
}

impl<'a> FunStruct<'a> {
    pub fn kind(&self) -> (r: &'static str)
        ensures
            r@ == kind_word(self.kind),
    {
        match self.kind {
            FunStructKind::Params => "Params",
            FunStructKind::Results => "Results",
        }
    }

    pub fn variant(&self) -> (r: String)
        ensures
            r@ == kind_word(self.kind) + "::"@ + variant_of(self.fun.spec_tokens()),
    {
        let v = self.fun.variant();
        concat3(self.kind(), "::", v.as_str())
    }

    pub fn qualified_type(&self) -> (r: String)
        ensures
            r@ == qualified_of(self.fun.spec_tokens()) + "::"@ + kind_word(self.kind),
    {
        let q = self.fun.qualified_name();
        concat3(q.as_str(), "::", self.kind())
    }

    /// `()` for a struct without fields, else the qualified type.
    pub fn short_type(&self) -> (r: String)
        ensures
            r@ == (if self.fields@.len() == 0 {
                "()"@
            } else {
                qualified_of(self.fun.spec_tokens()) + "::"@ + kind_word(self.kind)
            }),
    {
        if self.is_empty() {
            String::from_str("()")
        } else {
            self.qualified_type()
        }
    }

    pub fn is_empty(&self) -> (r: bool)
        ensures
            r == (self.fields@.len() == 0),
    {
        self.fields.len() == 0
    }

    pub fn fields(&self) -> (r: &'a Vec<Field>)
        ensures
            r == self.fields,
    {
        self.fields
    }

    /// The struct written with no fields.
    pub fn empty_literal(&self) -> (r: String)
        ensures
            r@ == qualified_of(self.fun.spec_tokens()) + "::"@ + kind_word(self.kind) + " {}"@,
    {
        let q = self.qualified_type();
        concat2(q.as_str(), " {}")
    }
}

/// A struct of the schema, with its full dotted name.
pub struct Stru<'a> {
    decl: &'a StructDecl,
    full_name: String,
}

impl<'a> Stru<'a> {
    pub closed spec fn spec_decl(&self) -> &'a StructDecl {
        self.decl
    }

    pub closed spec fn spec_full_name(&self) -> Seq<char> {
        self.full_name@
    }

    pub fn new(decl: &'a StructDecl, full_name: String) -> (s: Stru<'a>)
        ensures
            s.spec_decl() == decl,
            s.spec_full_name() == full_name@,
    {
        Stru { decl, full_name }
    }

    pub fn comment(&self) -> (r: &'a Option<Comment>)
        ensures
            r == &self.spec_decl().comment,
    {
        &self.decl.comment
    }

    pub fn name(&self) -> (r: &'a str)
        ensures
            r@ == self.spec_decl().name.text@,
    {
        self.decl.name.text.as_str()
    }

    pub fn fields(&self) -> (r: &'a Vec<Field>)
        ensures
            r == &self.spec_decl().fields,
    {
        &self.decl.fields
    }
}

/// The functions of one kind, in order.
pub open spec fn of_kind<'a>(funs: Seq<&'a Fun<'a>>, kind: Kind) -> Seq<&'a Fun<'a>>
    decreases funs.len(),
{
    if funs.len() == 0 {
        Seq::empty()
    } else {
        of_kind(funs.drop_last(), kind) + if funs.last().spec_decl().kind == kind {
            seq![funs.last()]
        } else {
            Seq::empty()
        }
    }
}

/// The functions that generated code knows, and how deep its module is.
pub struct Protocol<'a> {
    pub funs: &'a [&'a Fun<'a>],
    pub depth: usize,
}

/// One of the enums of the protocol: `Params`, `Results` or
/// `NotificationParams`, with one variant per function of its kind.
pub struct Atom<'a> {
    pub proto: &'a Protocol<'a>,
    pub name: &'a str,
    pub kind: Kind,
    pub depth: usize,
}

/// `name::variant(_) => "rpc name",` for each function.
pub open spec fn method_arms<'a>(name: Seq<char>, fs: Seq<&'a Fun<'a>>) -> Seq<char>
    decreases fs.len(),
{
    if fs.len() == 0 {
        Seq::empty()
    } else {
        let f = fs.last();
        method_arms(name, fs.drop_last()) + name + "::"@ + variant_of(f.spec_tokens())
            + "(_) => "@ + debug_text(rpc_name_of(f.spec_tokens())) + ",\n"@
    }
}

/// The body of `method`: a match on the variants, or a panic when there
/// is none.
pub open spec fn method_body<'a>(name: Seq<char>, fs: Seq<&'a Fun<'a>>) -> Seq<char> {
    if fs.len() == 0 {
        "panic!(\"no variants for "@ + name + "\")\n"@
    } else {
        "match self"@ + block_text(method_arms(name, fs))
    }
}

/// For each function: its quoted name, then on the next line, one level
/// in, the call that deserializes it as its variant.
pub open spec fn deserialize_arms<'a>(name: Seq<char>, root: Seq<char>, fs: Seq<&'a Fun<'a>>) -> Seq<char>
    decreases fs.len(),
{
    if fs.len() == 0 {
        Seq::empty()
    } else {
        let f = fs.last();
        deserialize_arms(name, root, fs.drop_last()) + debug_text(rpc_name_of(f.spec_tokens()))
            + " => \n"@ + "    Ok("@ + name + "::"@ + variant_of(f.spec_tokens()) + "(__DS::<"@
            + root + qualified_of(f.spec_tokens()) + "::"@ + name + ">(de)?))"@ + ",\n"@
    }
}

pub open spec fn deserialize_body<'a>(name: Seq<char>, root: Seq<char>, fs: Seq<&'a Fun<'a>>) -> Seq<char> {
    "use "@ + es_path() + "::deserialize as __DS;\n"@ + "use "@ + serde_path()
        + "::de::Error;\n"@ + "\n"@ + "match method"@ + block_text(
        deserialize_arms(name, root, fs) + "_ =>\n"@ + "    Err("@ + es_path()
            + "::Error::custom(format!("@ + debug_text("unknown method: {}"@) + ", method)))"@
            + ",\n"@,
    )
}

/// The variants of an atom's enum.
pub open spec fn atom_variants<'a>(name: Seq<char>, root: Seq<char>, fs: Seq<&'a Fun<'a>>) -> Seq<Seq<char>>
    decreases fs.len(),
{
    if fs.len() == 0 {
        Seq::empty()
    } else {
        let f = fs.last();
        atom_variants(name, root, fs.drop_last()).push(
            variant_of(f.spec_tokens()) + "("@ + root + qualified_of(f.spec_tokens()) + "::"@
                + name + ")"@,
        )
    }
}

/// The text of an atom: its attributes, its enum, and its impl of `Atom`.
pub open spec fn atom_text<'a>(name: Seq<char>, depth: nat, fs: Seq<&'a Fun<'a>>) -> Seq<char> {
    let root = root_path(depth);
    attribute_text("derive"@, seq!["Debug"@, serde_derive_path() + "::Serialize"@])
        + attribute_text("allow"@, seq!["non_camel_case_types"@, "unused"@])
        + "#[serde(untagged)]\n"@ + enum_text(
        Seq::empty(),
        true,
        name,
        atom_variants(name, root, fs),
    ) + impl_text(
        lavish_path() + "::Atom"@,
        name,
        Seq::empty(),
        Some(
            fn_text(
                false,
                false,
                "method"@,
                Seq::empty(),
                Some("&self"@),
                Seq::empty(),
                Some("&'static str"@),
                Some(method_body(name, fs)),
            ) + fn_text(
                false,
                false,
                "deserialize"@,
                Seq::empty(),
                None,
                seq!["method: &str"@, "de: &mut "@ + es_path() + "::Deserializer"@],
                Some(es_path() + "::Result<Self>"@),
                Some(deserialize_body(name, root, fs)),
            ),
        ),
    )
}

fn root_exec(depth: usize) -> (r: String)
    ensures
        r@ == root_path(depth as nat),
{
    let mut r = String::new();
    let mut i: usize = 0;
    while i < depth
        invariant
            i <= depth,
            r@ == repeat("super::"@, i as nat),
        decreases depth - i,
    {
        r.append("super::");
        i = i + 1;
    }
    r
}

impl<'a> Atom<'a> {
    /// The functions of the atom's kind.
    pub fn funs(&self) -> (r: Vec<&'a Fun<'a>>)
        ensures
            r@ == of_kind(self.proto.funs@, self.kind),
    {
        let mut r: Vec<&'a Fun<'a>> = Vec::new();
        let n = self.proto.funs.len();
        for i in 0..n
            invariant
                n == self.proto.funs@.len(),
                r@ == of_kind(self.proto.funs@.subrange(0, i as int), self.kind),
        {
            let f = self.proto.funs[i];
            assert(self.proto.funs@.subrange(0, i + 1).drop_last() =~= self.proto.funs@.subrange(
                0,
                i as int,
            ));
            if f.kind() == self.kind {
                r.push(f);
            }
            assert(r@ =~= of_kind(self.proto.funs@.subrange(0, i + 1), self.kind));
        }
        assert(self.proto.funs@.subrange(0, n as int) =~= self.proto.funs@);
        r
    }

    fn method_body_exec(&self, fs: &Vec<&'a Fun<'a>>) -> (r: String)
        ensures
            r@ == method_body(self.name@, fs@),
    {
        if fs.len() == 0 {
            return concat3("panic!(\"no variants for ", self.name, "\")\n");
        }
        let mut arms = String::new();
        let n = fs.len();
        for i in 0..n
            invariant
                n == fs@.len(),
                arms@ == method_arms(self.name@, fs@.subrange(0, i as int)),
        {
            let f = fs[i];
            assert(fs@.subrange(0, i + 1).drop_last() =~= fs@.subrange(0, i as int));
            arms.append(self.name);
            arms.append("::");
            let v = f.variant();
            arms.append(v.as_str());
            arms.append("(_) => ");
            let rn = f.rpc_name();
            let q = quoted(rn.as_str());
            arms.append(q.as_str());
            arms.append(",\n");
        }
        assert(fs@.subrange(0, n as int) =~= fs@);
        with_block("match self", arms.as_str())
    }

    fn deserialize_body_exec(&self, fs: &Vec<&'a Fun<'a>>, root: &str) -> (r: String)
        ensures
            r@ == deserialize_body(self.name@, root@, fs@),
    {
        let mut arms = String::new();
        let n = fs.len();
        for i in 0..n
            invariant
                n == fs@.len(),
                arms@ == deserialize_arms(self.name@, root@, fs@.subrange(0, i as int)),
        {
            let f = fs[i];
            assert(fs@.subrange(0, i + 1).drop_last() =~= fs@.subrange(0, i as int));
            let rn = f.rpc_name();
            let q = quoted(rn.as_str());
            arms.append(q.as_str());
            arms.append(" => \n");
            arms.append("    Ok(");
            arms.append(self.name);
            arms.append("::");
            let v = f.variant();
            arms.append(v.as_str());
            arms.append("(__DS::<");
            arms.append(root);
            let qn = f.qualified_name();
            arms.append(qn.as_str());
            arms.append("::");
            arms.append(self.name);
            arms.append(">(de)?))");
            arms.append(",\n");
        }
        assert(fs@.subrange(0, n as int) =~= fs@);
        let es = Mods::es();
        arms.append("_ =>\n");
        arms.append("    Err(");
        arms.append(es.as_str());
        arms.append("::Error::custom(format!(");
        let um = quoted("unknown method: {}");
        arms.append(um.as_str());
        arms.append(", method)))");
        arms.append(",\n");
        let mut head = String::from_str("use ");
        head.append(es.as_str());
        head.append("::deserialize as __DS;\n");
        head.append("use ");
        let se = Mods::serde();
        head.append(se.as_str());
        head.append("::de::Error;\n");
        head.append("\n");
        head.append("match method");
        with_block(head.as_str(), arms.as_str())
    }

    fn variants_exec(&self, fs: &Vec<&'a Fun<'a>>, root: &str) -> (r: Vec<String>)
        ensures
            r@.map_values(|s: String| s@) == atom_variants(self.name@, root@, fs@),
    {
        let mut r: Vec<String> = Vec::new();
        let n = fs.len();
        for i in 0..n
            invariant
                n == fs@.len(),
                r@.map_values(|s: String| s@) == atom_variants(
                    self.name@,
                    root@,
                    fs@.subrange(0, i as int),
                ),
        {
            let f = fs[i];
            assert(fs@.subrange(0, i + 1).drop_last() =~= fs@.subrange(0, i as int));
            let mut v = f.variant();
            v.append("(");
            v.append(root);
            let qn = f.qualified_name();
            v.append(qn.as_str());
            v.append("::");
            v.append(self.name);
            v.append(")");
            let ghost pre = r@;
            r.push(v);
            assert(r@.map_values(|s: String| s@) =~= pre.map_values(|s: String| s@).push(v@));
        }
        assert(fs@.subrange(0, n as int) =~= fs@);
        r
    }

    /// The atom as source text.
    pub fn to_string(&self) -> (r: String)
        ensures
            r@ == atom_text(self.name@, self.depth as nat, of_kind(self.proto.funs@, self.kind)),
    {
        let fs = self.funs();
        let root = root_exec(self.depth);
        let d = crate::lang::derive().debug().serialize();
        let mut out = d.to_string();
        let a = crate::lang::allow().non_camel_case().unused();
        let at = a.to_string();
        out.append(at.as_str());
        out.append(serde_untagged());
        let vs = self.variants_exec(&fs, root.as_str());
        let mut e = _enum(self.name);
        e.kw_pub();
        let n = vs.len();
        for i in 0..n
            invariant
                n == vs@.len(),
                e.spec_kw_pub(),
                e.spec_name() == self.name@,
                e.spec_annotations() == Seq::<Seq<char>>::empty(),
                e.spec_variants() == vs@.map_values(|s: String| s@).subrange(0, i as int),
        {
            e.variant(vs[i].as_str());
            assert(e.spec_variants() =~= vs@.map_values(|s: String| s@).subrange(0, i + 1));
        }
        assert(vs@.map_values(|s: String| s@).subrange(0, n as int) =~= vs@.map_values(
            |s: String| s@,
        ));
        let et = e.to_string();
        out.append(et.as_str());
        let mb = self.method_body_exec(&fs);
        let m = _fn("method").self_param("&self").return_type("&'static str").body(mb.as_str());
        let mt = m.to_string();
        let db = self.deserialize_body_exec(&fs, root.as_str());
        let des = Structs::Deserializer();
        let de_param = concat2("de: &mut ", des.as_str());
        let es = Mods::es();
        let ret = concat2(es.as_str(), "::Result<Self>");
        let dfn = _fn("deserialize").param("method: &str").param(de_param.as_str()).return_type(
            ret.as_str(),
        ).body(db.as_str());
        let dt = dfn.to_string();
        let ib = concat2(mt.as_str(), dt.as_str());
        let tr = Traits::Atom();
        let imp = _impl(tr.as_str(), self.name).body(ib.as_str());
        let it = imp.to_string();
        out.append(it.as_str());
        proof {
            reveal_strlit("Debug");
            reveal_strlit("non_camel_case_types");
            reveal_strlit("unused");
            assert(m.spec_type_params() =~= Seq::<(Seq<char>, Option<Seq<char>>)>::empty());
            assert(de_param@ =~= "de: &mut "@ + es_path() + "::Deserializer"@);
            assert(dfn.spec_params() =~= seq!["method: &str"@, "de: &mut "@ + es_path() + "::Deserializer"@]);
            assert(d@ =~= seq!["Debug"@, serde_derive_path() + "::Serialize"@]);
            assert(a@ =~= seq!["non_camel_case_types"@, "unused"@]);
        }
        assert(out@ =~= atom_text(self.name@, self.depth as nat, fs@));
        out
    }
}

/// The protocol module: the three atoms, each followed by a blank line.
pub open spec fn protocol_text<'a>(depth: nat, funs: Seq<&'a Fun<'a>>) -> Seq<char> {
    "pub mod protocol"@ + block_text(
        atom_text("Params"@, depth + 1, of_kind(funs, Kind::Request)) + "\n"@ + atom_text(
            "Results"@,
            depth + 1,
            of_kind(funs, Kind::Request),
        ) + "\n"@ + atom_text("NotificationParams"@, depth + 1, of_kind(funs, Kind::Notification))
            + "\n"@,
    )
}

impl<'a> Protocol<'a> {
    /// The protocol module as source text.
    pub fn to_string(&self) -> (r: String)
        requires
            self.depth < usize::MAX,
        ensures
            r@ == protocol_text(self.depth as nat, self.funs@),
    {
        let depth = self.depth + 1;
        let p = Atom { proto: self, name: "Params", kind: Kind::Request, depth };
        let r = Atom { proto: self, name: "Results", kind: Kind::Request, depth };
        let n = Atom { proto: self, name: "NotificationParams", kind: Kind::Notification, depth };
        let mut body = p.to_string();
        body.append("\n");
        let rt = r.to_string();
        body.append(rt.as_str());
        body.append("\n");
        let nt = n.to_string();
        body.append(nt.as_str());
        body.append("\n");
        proof {
            reveal_strlit("Params");
            reveal_strlit("Results");
            reveal_strlit("NotificationParams");
        }
        let out = with_block("pub mod protocol", body.as_str());
        assert(out@ =~= protocol_text(self.depth as nat, self.funs@));
        out
    }
}

/// The client and handler types of one side.
pub struct Client<'a> {
    pub handled: &'a [&'a Fun<'a>],
    pub called: &'a [&'a Fun<'a>],
    pub depth: usize,
    pub is_root: bool,
}

/// `variant: (),` for each function.
pub open spec fn client_fields<'a>(fs: Seq<&'a Fun<'a>>) -> Seq<char>
    decreases fs.len(),
{
    if fs.len() == 0 {
        Seq::empty()
    } else {
        client_fields(fs.drop_last()) + variant_of(fs.last().spec_tokens()) + ": (),\n"@
    }
}

/// `on_name: Slot<T>,` for each function.
pub open spec fn handler_slots<'a>(fs: Seq<&'a Fun<'a>>) -> Seq<char>
    decreases fs.len(),
{
    if fs.len() == 0 {
        Seq::empty()
    } else {
        handler_slots(fs.drop_last()) + "on_"@ + fs.last().spec_decl().name.text@
            + ": Slot<T>,\n"@
    }
}

/// The four definitions of a client module: the client, a call, the slot
/// types and the handler, each followed by a blank line but the slots.
pub open spec fn client_text<'a>(depth: nat, handled: Seq<&'a Fun<'a>>, called: Seq<&'a Fun<'a>>) -> Seq<char> {
    let protocol = root_path(depth + 1) + "protocol"@;
    let arc = sync_path() + "::Arc"@;
    "pub struct Client"@ + block_text(client_fields(called) + "// TODO\n"@) + "\n"@
        + "pub struct Call<T, PP>"@ + block_text(
        "pub state: "@ + arc + "<T>,\n"@ + "pub client: Client,\n"@ + "pub params: PP,\n"@,
    ) + "\n"@ + "pub type SlotReturn = Result<"@ + protocol + "::Results, "@ + lavish_path()
        + "::Error"@ + ">;"@ + "\n"@ + "pub type SlotFn<T> = Fn("@ + arc + "<T>, Client, "@
        + protocol + "::Params) -> SlotReturn + 'static + Send + Sync;\n"@
        + "pub type Slot<T> = Option<Box<SlotFn<T>>>;"@ + "\n"@ + "pub struct Handler<T>"@
        + block_text("state: std::sync::Arc<T>,\n"@ + handler_slots(handled)) + "\n"@
}

impl<'a> Client<'a> {
    /// The client module's definitions as source text.
    #[verifier::spinoff_prover]
    #[verifier::rlimit(60)]
    pub fn to_string(&self) -> (r: String)
        requires
            self.depth < usize::MAX,
        ensures
            r@ == client_text(self.depth as nat, self.handled@, self.called@),
    {
        let protocol = concat2(root_exec(self.depth + 1).as_str(), "protocol");
        let arc = Structs::Arc();
        let err = Structs::Error();

        let mut fields = String::new();
        let n = self.called.len();
        for i in 0..n
            invariant
                n == self.called@.len(),
                fields@ == client_fields(self.called@.subrange(0, i as int)),
        {
            assert(self.called@.subrange(0, i + 1).drop_last() =~= self.called@.subrange(
                0,
                i as int,
            ));
            let v = self.called[i].variant();
            fields.append(v.as_str());
            fields.append(": (),\n");
        }
        assert(self.called@.subrange(0, n as int) =~= self.called@);
        fields.append("// TODO\n");
        let mut out = with_block("pub struct Client", fields.as_str());
        out.append("\n");

        let mut call = String::from_str("pub state: ");
        call.append(arc.as_str());
        call.append("<T>,\n");
        call.append("pub client: Client,\n");
        call.append("pub params: PP,\n");
        let ct = with_block("pub struct Call<T, PP>", call.as_str());
        out.append(ct.as_str());
        out.append("\n");

        out.append("pub type SlotReturn = Result<");
        out.append(protocol.as_str());
        out.append("::Results, ");
        out.append(err.as_str());
        out.append(">;");
        out.append("\n");
        out.append("pub type SlotFn<T> = Fn(");
        out.append(arc.as_str());
        out.append("<T>, Client, ");
        out.append(protocol.as_str());
        out.append("::Params) -> SlotReturn + 'static + Send + Sync;\n");
        out.append("pub type Slot<T> = Option<Box<SlotFn<T>>>;");
        out.append("\n");

        let mut slots = String::from_str("state: std::sync::Arc<T>,\n");
        let ghost start = slots@;
        let m = self.handled.len();
        for i in 0..m
            invariant
                m == self.handled@.len(),
                slots@ == start + handler_slots(self.handled@.subrange(0, i as int)),
        {
            assert(self.handled@.subrange(0, i + 1).drop_last() =~= self.handled@.subrange(
                0,
                i as int,
            ));
            slots.append("on_");
            slots.append(self.handled[i].name());
            slots.append(": Slot<T>,\n");
        }
        assert(self.handled@.subrange(0, m as int) =~= self.handled@);
        let ht = with_block("pub struct Handler<T>", slots.as_str());
        out.append(ht.as_str());
        out.append("\n");
        assert(out@ =~= client_text(self.depth as nat, self.handled@, self.called@));
        out
    }
}

} // verus!
