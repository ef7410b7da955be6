//! Schema types written as Rust types.
use crate::anchored::{spec_lookup, LookupMode, SpecPath, Stack, FrameKind};
use crate::ast::{BaseType, Span, SpecType, SpecTypeKind, Type, TypeKind};
use crate::common::{chrono_path, collections_path, facts_path, Mods, Structs};
use crate::output::{join, join_strs, strs_view};
use vstd::prelude::*;

verus! {

/// The pieces of `s` between dots, as `str::split('.')` gives them: at
/// least one, and an empty one around each dot with nothing on that side.
pub open spec fn split_dots(s: Seq<char>) -> Seq<Seq<char>>
    decreases s.len(),
{
    if s.len() == 0 {
        seq![Seq::<char>::empty()]
    } else if s.last() == '.' {
        split_dots(s.drop_last()).push(Seq::empty())
    } else {
        let p = split_dots(s.drop_last());
        p.update(p.len() - 1, p.last().push(s.last()))
    }
}

proof fn lemma_split_dots_len(s: Seq<char>)
    ensures
        split_dots(s).len() >= 1,
    decreases s.len(),
{
    if s.len() > 0 {
        lemma_split_dots_len(s.drop_last());
    }
}

/// Joining the pieces of a split with dots gives back the text.
pub proof fn lemma_split_join(s: Seq<char>)
    ensures
        join(split_dots(s), "."@) == s,
    decreases s.len(),
{
    reveal_strlit(".");
    if s.len() > 0 {
        let p = s.drop_last();
        lemma_split_join(p);
        lemma_split_dots_len(p);
        let q = split_dots(p);
        if s.last() == '.' {
            let r = q.push(Seq::<char>::empty());
            assert(r.drop_last() =~= q);
            assert(join(q, "."@) + "."@ + Seq::<char>::empty() =~= s);
        } else {
            let r = q.update(q.len() - 1, q.last().push(s.last()));
            if q.len() == 1 {
                assert(r[0] =~= s);
            } else {
                assert(r.drop_last() =~= q.drop_last());
                assert(join(q.drop_last(), "."@) + "."@ + q.last().push(s.last()) =~= (join(
                    q.drop_last(),
                    "."@,
                ) + "."@ + q.last()).push(s.last()));
                assert(p.push(s.last()) =~= s);
            }
        }
    }
}

/// Splits `s` at each dot.
pub fn split_at_dots<'a>(s: &'a str) -> (r: Vec<&'a str>)
    ensures
        strs_view(r@) == split_dots(s@),
{
    let n = s.unicode_len();
    let mut r: Vec<&'a str> = Vec::new();
    let mut start: usize = 0;
    let mut i: usize = 0;
    proof {
        assert(s@.subrange(0, 0) =~= Seq::<char>::empty());
        assert(s@.subrange(0, 0) =~= s@.subrange(0, 0));
    }
    while i < n
        invariant
            n == s@.len(),
            start <= i <= n,
            strs_view(r@).push(s@.subrange(start as int, i as int)) == split_dots(
                s@.subrange(0, i as int),
            ),
        decreases n - i,
    {
        let c = s.get_char(i);
        let ghost pre = strs_view(r@);
        let ghost prefix = s@.subrange(0, i + 1);
        assert(prefix.drop_last() =~= s@.subrange(0, i as int));
        assert(prefix.last() == c);
        if c == '.' {
            let piece = s.substring_char(start, i);
            r.push(piece);
            proof {
                assert(strs_view(r@) =~= pre.push(s@.subrange(start as int, i as int)));
                assert(s@.subrange(i + 1, i + 1) =~= Seq::<char>::empty());
            }
            start = i + 1;
        } else {
            proof {
                let p = split_dots(s@.subrange(0, i as int));
                assert(p.len() == pre.len() + 1);
                assert(s@.subrange(start as int, i + 1) =~= s@.subrange(start as int, i as int).push(c));
                assert(pre.push(s@.subrange(start as int, i + 1)) =~= p.update(
                    p.len() - 1,
                    p.last().push(c),
                ));
            }
        }
        i = i + 1;
    }
    let last = s.substring_char(start, n);
    let ghost pre = strs_view(r@);
    r.push(last);
    proof {
        assert(strs_view(r@) =~= pre.push(s@.subrange(start as int, n as int)));
        assert(s@.subrange(0, n as int) =~= s@);
    }
    r
}

/// The Rust name of a base type.
pub open spec fn base_rust_text(b: BaseType) -> Seq<char> {
    match b {
        BaseType::Bool => "bool"@,
        BaseType::Int32 => "i32"@,
        BaseType::Int64 => "i64"@,
        BaseType::UInt32 => "u32"@,
        BaseType::UInt64 => "u64"@,
        BaseType::Float32 => "f32"@,
        BaseType::Float64 => "f64"@,
        BaseType::String => "String"@,
        BaseType::Bytes => facts_path() + "::Bin"@,
        BaseType::Timestamp => chrono_path() + "::DateTime<"@ + chrono_path() + "::offset::Utc>"@,
    }
}

fn with_suffix(base: String, suffix: &str) -> (r: String)
    ensures
        r@ == base@ + suffix@,
{
    let mut r = base;
    r.append(suffix);
    r
}

/// The Rust name of a base type.
pub fn base_rust(b: BaseType) -> (r: String)
    ensures
        r@ == base_rust_text(b),
{
    match b {
        BaseType::Bool => String::from_str("bool"),
        BaseType::Int32 => String::from_str("i32"),
        BaseType::Int64 => String::from_str("i64"),
        BaseType::UInt32 => String::from_str("u32"),
        BaseType::UInt64 => String::from_str("u64"),
        BaseType::Float32 => String::from_str("f32"),
        BaseType::Float64 => String::from_str("f64"),
        BaseType::String => String::from_str("String"),
        BaseType::Bytes => with_suffix(Mods::facts(), "::Bin"),
        BaseType::Timestamp => {
            let r = with_suffix(Mods::chrono(), "::DateTime<");
            let c = Mods::chrono();
            let r = with_suffix(r, c.as_str());
            with_suffix(r, "::offset::Utc>")
        },
    }
}

/// `s`, `n` times.
pub open spec fn copies(s: Seq<char>, n: nat) -> Seq<Seq<char>>
    decreases n,
{
    if n == 0 {
        Seq::empty()
    } else {
        copies(s, (n - 1) as nat).push(s)
    }
}

/// A resolved path in Rust: `super` once per scope up, then the names down,
/// joined by `::`.
pub open spec fn path_rust_text(p: SpecPath) -> Seq<char> {
    join(copies("super"@, p.up) + p.down, "::"@)
}

/// A user type that names nothing in scope.
#[derive(Debug)]
pub struct UnknownType {
    pub span: Span,
    pub text: String,
}

pub struct SpecUnknownType {
    pub span: Span,
    pub text: Seq<char>,
}

impl View for UnknownType {
    type V = SpecUnknownType;

    open spec fn view(&self) -> SpecUnknownType {
        SpecUnknownType { span: self.span, text: self.text@ }
    }
}

/// The Rust text of a type seen from the scopes `frames`, or the first
/// user type, from left to right, that names nothing in scope.
pub open spec fn rust_type_text(t: SpecType, frames: Seq<FrameKind>) -> Result<Seq<char>, SpecUnknownType>
    decreases t,
{
    match t.kind {
        SpecTypeKind::Base(b) => Ok(base_rust_text(b)),
        SpecTypeKind::Mapping(k, v) => match rust_type_text(*k, frames) {
            Ok(a) => match rust_type_text(*v, frames) {
                Ok(b) => Ok(collections_path() + "::HashMap"@ + "<"@ + a + ", "@ + b + ">"@),
                Err(e) => Err(e),
            },
            Err(e) => Err(e),
        },
        SpecTypeKind::Option(i) => match rust_type_text(*i, frames) {
            Ok(a) => Ok("Option<"@ + a + ">"@),
            Err(e) => Err(e),
        },
        SpecTypeKind::Array(i) => match rust_type_text(*i, frames) {
            Ok(a) => Ok("Vec<"@ + a + ">"@),
            Err(e) => Err(e),
        },
        SpecTypeKind::User => match spec_lookup(frames, LookupMode::Relaxed, split_dots(t.text)) {
            Some(p) => Ok(path_rust_text(p)),
            None => Err(SpecUnknownType { span: t.span, text: t.text }),
        },
    }
}

pub open spec fn result_view(r: Result<String, UnknownType>) -> Result<Seq<char>, SpecUnknownType> {
    match r {
        Ok(s) => Ok(s@),
        Err(e) => Err(e@),
    }
}

/// `open`, the text of `inner`, then `close`.
fn wrapped(open: String, inner: String, close: &str) -> (r: String)
    ensures
        r@ == open@ + inner@ + close@,
{
    let r = with_suffix(open, inner.as_str());
    with_suffix(r, close)
}

/// The Rust text of `typ`, seen from the scopes of `stack`.
pub fn as_rust<'a>(typ: &'a Type, stack: &Stack<'a>) -> (r: Result<String, UnknownType>)
    ensures
        result_view(r) == rust_type_text(typ@, stack.frames()),
    decreases typ,
{
    match &typ.kind {
        TypeKind::Base(b) => Ok(base_rust(*b)),
        TypeKind::Mapping(m) => {
            let k = match as_rust(&m.keys, stack) {
                Ok(k) => k,
                Err(e) => {
                    return Err(e);
                },
            };
            let v = match as_rust(&m.values, stack) {
                Ok(v) => v,
                Err(e) => {
                    return Err(e);
                },
            };
            let r = with_suffix(Structs::HashMap(), "<");
            let r = with_suffix(r, k.as_str());
            let r = with_suffix(r, ", ");
            let r = with_suffix(r, v.as_str());
            Ok(with_suffix(r, ">"))
        },
        TypeKind::Option(o) => match as_rust(&o.inner, stack) {
            Ok(i) => Ok(wrapped(String::from_str("Option<"), i, ">")),
            Err(e) => Err(e),
        },
        TypeKind::Array(a) => match as_rust(&a.inner, stack) {
            Ok(i) => Ok(wrapped(String::from_str("Vec<"), i, ">")),
            Err(e) => Err(e),
        },
        TypeKind::User => {
            let down = split_at_dots(typ.text.as_str());
            match stack.lookup_struct(LookupMode::Relaxed, down.as_slice()) {
                Some(path) => Ok(path_rust(&path)),
                None => Err(UnknownType { span: typ.span, text: typ.text.clone() }),
            }
        },
    }
}

/// A resolved path as Rust text.
pub fn path_rust(p: &crate::anchored::RelativePath) -> (r: String)
    ensures
        r@ == path_rust_text(p@),
{
    let mut items: Vec<&str> = Vec::new();
    let mut i: usize = 0;
    while i < p.up
        invariant
            i <= p.up,
            strs_view(items@) == copies("super"@, i as nat),
        decreases p.up - i,
    {
        let ghost pre = items@;
        items.push("super");
        assert(strs_view(items@) =~= strs_view(pre).push("super"@));
        i = i + 1;
    }
    let n = p.down.len();
    let ghost base = strs_view(items@);
    for j in 0..n
        invariant
            n == p.down@.len(),
            base == copies("super"@, p.up as nat),
            strs_view(items@) == base + strs_view(p.down@).subrange(0, j as int),
    {
        let ghost pre = items@;
        let d = p.down[j];
        items.push(d);
        assert(strs_view(items@) =~= strs_view(pre).push(d@));
        assert(strs_view(p.down@)[j as int] == d@);
        assert(strs_view(items@) =~= base + strs_view(p.down@).subrange(0, j + 1));
    }
    assert(strs_view(p.down@).subrange(0, n as int) =~= strs_view(p.down@));
    join_strs(&items, "::")
}

} // verus!
