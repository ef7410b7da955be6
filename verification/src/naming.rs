//! Names of the items that generated Rust code declares and refers to.
use crate::anchored::{frame_names, Anchored, Stack};
use crate::ast::{spec_side_word, FunctionDecl, Side, StructDecl};
use crate::output::{join, join_strs, strs_view};
use vstd::prelude::*;

verus! {

/// `s`, `n` times over.
pub open spec fn repeat(s: Seq<char>, n: nat) -> Seq<char>
    decreases n,
{
    if n == 0 {
        Seq::empty()
    } else {
        repeat(s, (n - 1) as nat) + s
    }
}

/// The CamelCase form of a name, as the `heck` crate writes it.
pub uninterp spec fn camel_case(s: Seq<char>) -> Seq<char>;

/// Calls `heck::CamelCase::to_camel_case`, a function of its argument alone.
#[verifier::external_body]
pub(crate) fn to_camel_case(s: &str) -> (r: String)
    ensures
        r@ == camel_case(s@),
{
    heck::CamelCase::to_camel_case(s)
}

/// The mixedCase form of a name, as the `heck` crate writes it.
pub uninterp spec fn mixed_case(s: Seq<char>) -> Seq<char>;

/// Calls `heck::MixedCase::to_mixed_case`, a function of its argument alone.
#[verifier::external_body]
pub(crate) fn to_mixed_case(s: &str) -> (r: String)
    ensures
        r@ == mixed_case(s@),
{
    heck::MixedCase::to_mixed_case(s)
}

/// The path from a module `depth` levels down back to the root.
pub open spec fn root_path(depth: nat) -> Seq<char> {
    repeat("super::"@, depth)
}

pub open spec fn protocol_path(depth: nat) -> Seq<char> {
    root_path(depth) + "protocol"@
}

pub open spec fn schema_path(depth: nat) -> Seq<char> {
    root_path(depth) + "schema"@
}

/// The variant name of a declaration: its path, each part in CamelCase,
/// joined by `_`.
pub open spec fn variant_name(names: Seq<Seq<char>>) -> Seq<char> {
    join(names.map_values(|n: Seq<char>| camel_case(n)), "_"@)
}

/// Names relative to a stack of scopes.
#[allow(non_snake_case)]
pub trait RustStack {
    /// How many modules down the stack is.
    spec fn spec_depth(&self) -> nat;

    fn root(&self) -> (r: String)
        ensures
            r@ == root_path(self.spec_depth()),
    ;

    fn protocol(&self) -> (r: String)
        ensures
            r@ == protocol_path(self.spec_depth()),
    ;

    fn schema(&self) -> (r: String)
        ensures
            r@ == schema_path(self.spec_depth()),
    ;

    fn Caller(&self) -> (r: String)
        ensures
            r@ == protocol_path(self.spec_depth()) + "::Caller"@,
    ;

    fn Callable(&self) -> (r: String)
        ensures
            r@ == protocol_path(self.spec_depth()) + "::Callable"@,
    ;

    fn Implementable(&self) -> (r: String)
        ensures
            r@ == protocol_path(self.spec_depth()) + "::Implementable"@,
    ;

    fn TranslationTables(&self) -> (r: String)
        ensures
            r@ == protocol_path(self.spec_depth()) + "::TranslationTables"@,
    ;

    fn Slottable(&self) -> (r: String)
        ensures
            r@ == protocol_path(self.spec_depth()) + "::Slottable"@,
    ;

    fn SideClient(&self, side: Side) -> (r: String)
        ensures
            r@ == "super::"@ + spec_side_word(side) + "::Client"@,
    ;

    fn Params(&self) -> (r: String)
        ensures
            r@ == protocol_path(self.spec_depth()) + "::Params"@,
    ;

    fn NotificationParams(&self) -> (r: String)
        ensures
            r@ == protocol_path(self.spec_depth()) + "::NotificationParams"@,
    ;

    fn Results(&self) -> (r: String)
        ensures
            r@ == protocol_path(self.spec_depth()) + "::Results"@,
    ;

    fn triplet(&self) -> (r: String)
        ensures
            r@ == protocol_path(self.spec_depth()) + "::Params"@ + ", "@ + protocol_path(
                self.spec_depth(),
            ) + "::NotificationParams"@ + ", "@ + protocol_path(self.spec_depth())
                + "::Results"@,
    ;
}

fn with_suffix(base: String, suffix: &str) -> (r: String)
    ensures
        r@ == base@ + suffix@,
{
    let mut r = base;
    r.append(suffix);
    r
}

#[allow(non_snake_case)]
impl<'a> RustStack for Stack<'a> {
    open spec fn spec_depth(&self) -> nat {
        self.frames().len()
    }

    fn root(&self) -> (r: String) {
        let n = self.len();
        let mut r = String::new();
        let mut i: usize = 0;
        while i < n
            invariant
                i <= n,
                r@ == repeat("super::"@, i as nat),
            decreases n - i,
        {
            r.append("super::");
            i = i + 1;
        }
        r
    }

    fn protocol(&self) -> (r: String) {
        with_suffix(self.root(), "protocol")
    }

    fn schema(&self) -> (r: String) {
        with_suffix(self.root(), "schema")
    }

    fn Caller(&self) -> (r: String) {
        with_suffix(self.protocol(), "::Caller")
    }

    fn Callable(&self) -> (r: String) {
        with_suffix(self.protocol(), "::Callable")
    }

    fn Implementable(&self) -> (r: String) {
        with_suffix(self.protocol(), "::Implementable")
    }

    fn TranslationTables(&self) -> (r: String) {
        with_suffix(self.protocol(), "::TranslationTables")
    }

    fn Slottable(&self) -> (r: String) {
        with_suffix(self.protocol(), "::Slottable")
    }

    fn SideClient(&self, side: Side) -> (r: String) {
        let r = with_suffix(String::from_str("super::"), side.as_str());
        with_suffix(r, "::Client")
    }

    fn Params(&self) -> (r: String) {
        with_suffix(self.protocol(), "::Params")
    }

    fn NotificationParams(&self) -> (r: String) {
        with_suffix(self.protocol(), "::NotificationParams")
    }

    fn Results(&self) -> (r: String) {
        with_suffix(self.protocol(), "::Results")
    }

    fn triplet(&self) -> (r: String) {
        let r = with_suffix(self.Params(), ", ");
        let np = self.NotificationParams();
        let r = with_suffix(r, np.as_str());
        let r = with_suffix(r, ", ");
        let res = self.Results();
        with_suffix(r, res.as_str())
    }
}

/// The names, each in CamelCase, joined by `_`.
pub(crate) fn camel_joined(names: &Vec<&str>) -> (r: String)
    ensures
        r@ == variant_name(strs_view(names@)),
{
    let ghost v = strs_view(names@);
    let ghost want = v.map_values(|x: Seq<char>| camel_case(x));
    let mut refs_src: Vec<String> = Vec::new();
    let n = names.len();
    for i in 0..n
        invariant
            n == names@.len(),
            v == strs_view(names@),
            want == v.map_values(|x: Seq<char>| camel_case(x)),
            refs_src@.len() == i,
            forall|j: int| 0 <= j < i ==> #[trigger] refs_src@[j]@ == want[j],
    {
        let c = to_camel_case(names[i]);
        assert(v[i as int] == names@[i as int]@);
        refs_src.push(c);
    }
    let mut refs: Vec<&str> = Vec::new();
    for i in 0..n
        invariant
            n == refs_src@.len(),
            want.len() == n,
            forall|j: int| 0 <= j < n ==> #[trigger] refs_src@[j]@ == want[j],
            refs@.len() == i,
            forall|j: int| 0 <= j < i ==> #[trigger] refs@[j]@ == want[j],
    {
        let p = refs_src[i].as_str();
        refs.push(p);
    }
    assert(strs_view(refs@) =~= want);
    join_strs(&refs, "_")
}

/// Names of what generated code declares for a function.
#[allow(non_snake_case)]
pub trait RustFn {
    /// The function's path of names.
    spec fn spec_path(&self) -> Seq<Seq<char>>;

    /// The name of the function's slot in a handler: `on_` and its Rust name.
    fn slot(&self) -> (r: String)
        ensures
            r@ == "on_"@ + join(self.spec_path(), "__"@),
    ;

    /// The names of the path joined by `__`.
    fn rust_name(&self) -> (r: String)
        ensures
            r@ == join(self.spec_path(), "__"@),
    ;

    fn variant(&self) -> (r: String)
        ensures
            r@ == variant_name(self.spec_path()),
    ;

    /// The module of the function, from the schema reached from `stack`.
    fn module(&self, stack: &Stack) -> (r: String)
        ensures
            r@ == schema_path(stack.frames().len()) + "::"@ + join(self.spec_path(), "::"@),
    ;

    fn Params(&self, stack: &Stack) -> (r: String)
        ensures
            r@ == schema_path(stack.frames().len()) + "::"@ + join(self.spec_path(), "::"@)
                + "::Params"@,
    ;

    fn Results(&self, stack: &Stack) -> (r: String)
        ensures
            r@ == schema_path(stack.frames().len()) + "::"@ + join(self.spec_path(), "::"@)
                + "::Results"@,
    ;

    fn Client(&self, stack: &Stack) -> (r: String)
        ensures
            r@ == schema_path(stack.frames().len()) + "::"@ + join(self.spec_path(), "::"@)
                + "::Client"@,
    ;

    fn Handler(&self, stack: &Stack) -> (r: String)
        ensures
            r@ == schema_path(stack.frames().len()) + "::"@ + join(self.spec_path(), "::"@)
                + "::Handler"@,
    ;
}

#[allow(non_snake_case)]
impl<'a> RustFn for Anchored<'a, &'a FunctionDecl> {
    open spec fn spec_path(&self) -> Seq<Seq<char>> {
        self.spec_names()
    }

    fn slot(&self) -> (r: String) {
        let n = self.rust_name();
        with_suffix(String::from_str("on_"), n.as_str())
    }

    fn rust_name(&self) -> (r: String) {
        let names = self.names();
        join_strs(&names, "__")
    }

    fn variant(&self) -> (r: String) {
        let names = self.names();
        camel_joined(&names)
    }

    fn module(&self, stack: &Stack) -> (r: String) {
        let r = with_suffix(stack.schema(), "::");
        let names = self.names();
        let path = join_strs(&names, "::");
        with_suffix(r, path.as_str())
    }

    fn Params(&self, stack: &Stack) -> (r: String) {
        with_suffix(self.module(stack), "::Params")
    }

    fn Results(&self, stack: &Stack) -> (r: String) {
        with_suffix(self.module(stack), "::Results")
    }

    fn Client(&self, stack: &Stack) -> (r: String) {
        with_suffix(self.module(stack), "::Client")
    }

    fn Handler(&self, stack: &Stack) -> (r: String) {
        with_suffix(self.module(stack), "::Handler")
    }
}

/// Names of what generated code declares for a struct.
pub trait RustStruct {
    spec fn spec_path(&self) -> Seq<Seq<char>>;

    fn variant(&self) -> (r: String)
        ensures
            r@ == variant_name(self.spec_path()),
    ;
}

impl<'a> RustStruct for Anchored<'a, &'a StructDecl> {
    open spec fn spec_path(&self) -> Seq<Seq<char>> {
        self.spec_names()
    }

    fn variant(&self) -> (r: String) {
        let names = self.names();
        camel_joined(&names)
    }
}

} // verus!
