//! Scopes of a schema, and the lookup of a dotted type name from a scope.
use crate::ast::{
    body_view, lemma_nss_view_index, ns_view, nss_view, EnumDecl, Field, FunctionDecl,
    NamespaceBody, NamespaceDecl, Schema, SpecEnumDecl, SpecNamespaceBody, SpecNamespaceDecl,
    SpecStructDecl, StructDecl, structs_view, enums_view,
};
use crate::checker::{
    lemma_last_index_named, last_index_named, last_named, lemma_struct_names, names_of, ns_names, struct_names, Named,
    lemma_ns_names,
};
use crate::lang::{debug_text, quoted};
use crate::output::{join, join_strs, strs_view};
use vstd::prelude::*;
use vstd::slice::slice_subrange;

verus! {

/// A scope that stands for no declaration of the schema.
#[derive(Debug)]
pub struct SyntheticFrame {
    name: String,
}

impl SyntheticFrame {
    pub closed spec fn spec_name(&self) -> Seq<char> {
        self.name@
    }

    pub fn new(name: &str) -> (f: SyntheticFrame)
        ensures
            f.spec_name() == name@,
    {
        SyntheticFrame { name: String::from_str(name) }
    }
}

/// One scope of a stack: the schema itself, a namespace, a function, or a
/// synthetic scope.
#[derive(Debug, Clone, Copy)]
pub enum FrameKind<'a> {
    Schema(&'a Schema),
    Namespace(&'a NamespaceDecl),
    Function(&'a FunctionDecl),
    Synthetic(&'a SyntheticFrame),
}

/// The declarations a scope holds, if it holds any.
pub open spec fn frame_body(f: FrameKind) -> Option<SpecNamespaceBody> {
    match f {
        FrameKind::Schema(s) => Some(body_view(s.body)),
        FrameKind::Namespace(n) => Some(body_view(n.body)),
        FrameKind::Function(g) => match g.body {
            Some(b) => Some(body_view(b)),
            None => None,
        },
        FrameKind::Synthetic(_) => None,
    }
}

pub open spec fn frame_name(f: FrameKind) -> Seq<char> {
    match f {
        FrameKind::Schema(_) => "<schema>"@,
        FrameKind::Namespace(n) => n.name.text@,
        FrameKind::Function(g) => g.name.text@,
        FrameKind::Synthetic(s) => s.spec_name(),
    }
}

/// Namespaces and functions give their name to the path of what they hold.
pub open spec fn frame_is_named(f: FrameKind) -> bool {
    f is Namespace || f is Function
}

impl<'a> FrameKind<'a> {
    pub fn name(&self) -> (r: &'a str)
        ensures
            r@ == frame_name(*self),
    {
        match *self {
            FrameKind::Schema(_) => {
                proof {
                    reveal_strlit("<schema>");
                }
                "<schema>"
            },
            FrameKind::Namespace(n) => n.name.text(),
            FrameKind::Function(g) => g.name.text(),
            FrameKind::Synthetic(s) => s.name.as_str(),
        }
    }

    pub fn body(&self) -> (r: Option<&'a NamespaceBody>)
        ensures
            match r {
                Some(b) => frame_body(*self) == Some(body_view(*b)),
                None => frame_body(*self) is None,
            },
    {
        match *self {
            FrameKind::Schema(s) => Some(&s.body),
            FrameKind::Namespace(n) => Some(&n.body),
            FrameKind::Function(g) => match &g.body {
                Some(b) => Some(b),
                None => None,
            },
            FrameKind::Synthetic(_) => None,
        }
    }
}

/// The names that the named scopes of `frames` give, outermost first.
pub open spec fn frame_names(frames: Seq<FrameKind>) -> Seq<Seq<char>>
    decreases frames.len(),
{
    if frames.len() == 0 {
        Seq::empty()
    } else {
        frame_names(frames.drop_last()) + if frame_is_named(frames.last()) {
            seq![frame_name(frames.last())]
        } else {
            Seq::empty()
        }
    }
}

/// Where to look a name up.
#[derive(Debug, Clone, Copy, PartialEq, Eq, Structural)]
pub enum LookupMode {
    /// In the current scope and every enclosing one.
    Relaxed,
    /// In the current scope only.
    Strict,
}

/// What a name resolves to.
#[derive(Debug, Clone, Copy)]
pub enum Symbol<'a> {
    Namespace(&'a NamespaceDecl),
    Struct(&'a StructDecl),
    Enum(&'a EnumDecl),
}

pub enum SpecSymbol {
    Namespace(SpecNamespaceDecl),
    Struct(SpecStructDecl),
    Enum(SpecEnumDecl),
}

impl<'a> View for Symbol<'a> {
    type V = SpecSymbol;

    open spec fn view(&self) -> SpecSymbol {
        match *self {
            Symbol::Namespace(n) => SpecSymbol::Namespace(ns_view(*n)),
            Symbol::Struct(s) => SpecSymbol::Struct(s@),
            Symbol::Enum(e) => SpecSymbol::Enum(e@),
        }
    }
}

/// The kind of a symbol, then its name quoted: `Struct("Cookie")`.
pub open spec fn symbol_debug(s: SpecSymbol) -> Seq<char> {
    let kind = match s {
        SpecSymbol::Namespace(_) => "Namespace"@,
        SpecSymbol::Struct(_) => "Struct"@,
        SpecSymbol::Enum(_) => "Enum"@,
    };
    kind + "("@ + debug_text(symbol_name(s)) + ")"@
}

impl<'a> Symbol<'a> {
    /// How a symbol is shown in debugging output: its kind and its name.
    pub fn to_debug_string(&self) -> (r: String)
        ensures
            r@ == symbol_debug(self@),
    {
        let (kind, name) = match *self {
            Symbol::Namespace(n) => ("Namespace", n.name.text.as_str()),
            Symbol::Struct(s) => ("Struct", s.name.text.as_str()),
            Symbol::Enum(e) => ("Enum", e.name.text.as_str()),
        };
        let mut r = String::from_str(kind);
        r.append("(");
        let q = quoted(name);
        r.append(q.as_str());
        r.append(")");
        proof {
            reveal_strlit("Namespace");
            reveal_strlit("Struct");
            reveal_strlit("Enum");
        }
        r
    }
}

/// A resolved name: how many scopes up, then which namespaces down, and
/// what was found there.
#[derive(Debug)]
pub struct RelativePath<'a> {
    pub up: usize,
    pub down: Vec<&'a str>,
    pub symbol: Symbol<'a>,
}

pub struct SpecPath {
    pub up: nat,
    pub down: Seq<Seq<char>>,
    pub symbol: SpecSymbol,
}

impl<'a> View for RelativePath<'a> {
    type V = SpecPath;

    open spec fn view(&self) -> SpecPath {
        SpecPath { up: self.up as nat, down: strs_view(self.down@), symbol: self.symbol@ }
    }
}

pub open spec fn opt_path_view(p: Option<RelativePath>) -> Option<SpecPath> {
    match p {
        Some(p) => Some(p@),
        None => None,
    }
}

pub open spec fn enum_names(v: Seq<SpecEnumDecl>) -> Seq<crate::ast::SpecIdentifier> {
    v.map_values(|e: SpecEnumDecl| e.name)
}

/// What `name` means in `body`: the last struct of that name; failing
/// that, the last enum; failing that, the last namespace.
pub open spec fn find_symbol(body: SpecNamespaceBody, name: Seq<char>) -> Option<SpecSymbol> {
    match last_index_named(struct_names(body.structs), name) {
        Some(k) => Some(SpecSymbol::Struct(body.structs[k])),
        None => match last_index_named(enum_names(body.enums), name) {
            Some(k) => Some(SpecSymbol::Enum(body.enums[k])),
            None => match last_index_named(ns_names(body.namespaces), name) {
                Some(k) => Some(SpecSymbol::Namespace(body.namespaces[k])),
                None => None,
            },
        },
    }
}

/// Resolves the path `down` from the scopes `scopes` (innermost last),
/// skipping the `i` innermost ones. The first part is looked up in each
/// scope from the inside out; when more parts follow, it must name a
/// namespace, in which the rest is looked up without going further out.
/// A first part found in a scope but not naming a namespace ends the
/// lookup with nothing; a namespace in which the rest is not found lets
/// the lookup go on outwards.
pub open spec fn lookup_from(scopes: Seq<Option<SpecNamespaceBody>>, i: nat, down: Seq<Seq<char>>) -> Option<SpecPath>
    decreases down.len(), scopes.len() - i,
{
    if down.len() == 0 || i >= scopes.len() {
        None
    } else {
        let name = down[0];
        match scopes[scopes.len() - 1 - i] {
            None => lookup_from(scopes, i + 1, down),
            Some(body) => match find_symbol(body, name) {
                None => lookup_from(scopes, i + 1, down),
                Some(sym) => if down.len() == 1 {
                    Some(SpecPath { up: i, down: seq![name], symbol: sym })
                } else {
                    match sym {
                        SpecSymbol::Namespace(ns) => match lookup_from(
                            seq![Some(ns.body)],
                            0,
                            down.drop_first(),
                        ) {
                            Some(p) => Some(
                                SpecPath { up: i, down: seq![name] + p.down, symbol: p.symbol },
                            ),
                            None => lookup_from(scopes, i + 1, down),
                        },
                        _ => None,
                    }
                },
            },
        }
    }
}

pub open spec fn scopes_of(frames: Seq<FrameKind>) -> Seq<Option<SpecNamespaceBody>> {
    frames.map_values(|f: FrameKind| frame_body(f))
}

/// The scopes that a lookup in `mode` searches.
pub open spec fn searched(frames: Seq<FrameKind>, mode: LookupMode) -> Seq<Option<SpecNamespaceBody>> {
    if mode == LookupMode::Strict && frames.len() > 0 {
        scopes_of(frames).subrange(frames.len() - 1, frames.len() as int)
    } else {
        scopes_of(frames)
    }
}

pub open spec fn spec_lookup(frames: Seq<FrameKind>, mode: LookupMode, down: Seq<Seq<char>>) -> Option<SpecPath> {
    lookup_from(searched(frames, mode), 0, down)
}

/// The name of what a symbol stands for.
pub open spec fn symbol_name(s: SpecSymbol) -> Seq<char> {
    match s {
        SpecSymbol::Namespace(n) => n.name.text,
        SpecSymbol::Struct(d) => d.name.text,
        SpecSymbol::Enum(e) => e.name.text,
    }
}

/// What `find_symbol` finds bears the name it was asked for.
pub proof fn lemma_find_symbol_name(body: SpecNamespaceBody, name: Seq<char>)
    ensures
        find_symbol(body, name) matches Some(s) ==> symbol_name(s) == name,
{
    lemma_last_index_named(struct_names(body.structs), name);
    lemma_last_index_named(enum_names(body.enums), name);
    lemma_last_index_named(ns_names(body.namespaces), name);
}

proof fn lemma_lookup_from(scopes: Seq<Option<SpecNamespaceBody>>, i: nat, down: Seq<Seq<char>>)
    ensures
        lookup_from(scopes, i, down) matches Some(p) ==> {
            &&& p.down == down
            &&& i <= p.up < scopes.len()
            &&& symbol_name(p.symbol) == down.last()
        },
    decreases down.len(), scopes.len() - i,
{
    if down.len() == 0 || i >= scopes.len() {
    } else {
        let name = down[0];
        match scopes[scopes.len() - 1 - i] {
            None => lemma_lookup_from(scopes, i + 1, down),
            Some(body) => {
                lemma_find_symbol_name(body, name);
                match find_symbol(body, name) {
                    None => lemma_lookup_from(scopes, i + 1, down),
                    Some(sym) => {
                        if down.len() == 1 {
                            assert(seq![name] =~= down);
                        } else {
                            match sym {
                                SpecSymbol::Namespace(ns) => {
                                    lemma_lookup_from(seq![Some(ns.body)], 0, down.drop_first());
                                    lemma_lookup_from(scopes, i + 1, down);
                                    match lookup_from(seq![Some(ns.body)], 0, down.drop_first()) {
                                        Some(p) => {
                                            assert(seq![name] + p.down =~= down);
                                        },
                                        None => {},
                                    }
                                },
                                _ => {},
                            }
                        }
                    },
                }
            },
        }
    }
}

/// A resolved path goes down by the very names it was asked for, ends at
/// something bearing the last of them, and goes up no more scopes than
/// were searched.
pub proof fn lemma_lookup_path(frames: Seq<FrameKind>, mode: LookupMode, down: Seq<Seq<char>>)
    ensures
        spec_lookup(frames, mode, down) matches Some(p) ==> {
            &&& p.down == down
            &&& p.up < searched(frames, mode).len()
            &&& symbol_name(p.symbol) == down.last()
        },
{
    lemma_lookup_from(searched(frames, mode), 0, down);
}

/// A strict lookup never leaves the innermost scope.
pub proof fn lemma_strict_lookup_stays(frames: Seq<FrameKind>, down: Seq<Seq<char>>)
    ensures
        spec_lookup(frames, LookupMode::Strict, down) matches Some(p) ==> p.up == 0,
{
    lemma_lookup_from(searched(frames, LookupMode::Strict), 0, down);
}


/// What the scope `i` places out (0 for the innermost) settles of a
/// lookup of `down`: nothing when its first part is not declared there,
/// or names a namespace in which the rest is not found; otherwise the path
/// found there, or no path when the first part names something other than
/// a namespace and more parts follow.
#[verifier::opaque]
pub open spec fn settled_at(scopes: Seq<Option<SpecNamespaceBody>>, i: nat, down: Seq<Seq<char>>) -> Option<Option<SpecPath>> {
    match scopes[scopes.len() - 1 - i] {
        None => None,
        Some(body) => match find_symbol(body, down[0]) {
            None => None,
            Some(sym) => if down.len() == 1 {
                Some(Some(SpecPath { up: i, down: seq![down[0]], symbol: sym }))
            } else {
                match sym {
                    SpecSymbol::Namespace(ns) => match lookup_from(seq![Some(ns.body)], 0, down.drop_first()) {
                        Some(p) => Some(Some(SpecPath { up: i, down: seq![down[0]] + p.down, symbol: p.symbol })),
                        None => None,
                    },
                    _ => Some(None),
                }
            },
        },
    }
}

proof fn lemma_lookup_step(scopes: Seq<Option<SpecNamespaceBody>>, i: nat, down: Seq<Seq<char>>)
    requires
        i < scopes.len(),
        down.len() > 0,
    ensures
        lookup_from(scopes, i, down) == match settled_at(scopes, i, down) {
            None => lookup_from(scopes, i + 1, down),
            Some(x) => x,
        },
        settled_at(scopes, i, down) matches Some(Some(p)) ==> p.up == i,
{
    reveal(settled_at);
}

proof fn lemma_lookup_found(scopes: Seq<Option<SpecNamespaceBody>>, i: nat, down: Seq<Seq<char>>)
    requires
        down.len() > 0,
    ensures
        lookup_from(scopes, i, down) matches Some(p) ==> {
            &&& i <= p.up < scopes.len()
            &&& settled_at(scopes, p.up, down) == Some(Some(p))
            &&& forall|k: nat| i <= k < p.up ==> #[trigger] settled_at(scopes, k, down) is None
        },
    decreases scopes.len() - i,
{
    if i < scopes.len() {
        lemma_lookup_step(scopes, i, down);
        lemma_lookup_found(scopes, i + 1, down);
    }
}

proof fn lemma_lookup_none(scopes: Seq<Option<SpecNamespaceBody>>, i: nat, down: Seq<Seq<char>>)
    requires
        down.len() > 0,
    ensures
        lookup_from(scopes, i, down) is None ==> forall|k: nat|
            i <= k < scopes.len() && #[trigger] settled_at(scopes, k, down) is Some && (forall|j: nat|
                i <= j < k ==> settled_at(scopes, j, down) is None) ==> settled_at(scopes, k, down)
                == Some(None::<SpecPath>),
    decreases scopes.len() - i,
{
    if i < scopes.len() {
        lemma_lookup_step(scopes, i, down);
        lemma_lookup_none(scopes, i + 1, down);
        if lookup_from(scopes, i, down) is None {
            assert forall|k: nat|
                i <= k < scopes.len() && #[trigger] settled_at(scopes, k, down) is Some && (forall|j: nat|
                    i <= j < k ==> settled_at(scopes, j, down) is None) implies settled_at(scopes, k, down)
                == Some(None::<SpecPath>) by {
                if k > i {
                    assert(settled_at(scopes, i, down) is None);
                    assert(forall|j: nat| i + 1 <= j < k ==> settled_at(scopes, j, down) is None);
                }
            }
        }
    }
}

proof fn lemma_lookup_reaches(scopes: Seq<Option<SpecNamespaceBody>>, i: nat, k: nat, down: Seq<Seq<char>>)
    requires
        down.len() > 0,
        i <= k < scopes.len(),
        forall|j: nat| i <= j < k ==> #[trigger] settled_at(scopes, j, down) is None,
    ensures
        lookup_from(scopes, i, down) == lookup_from(scopes, k, down),
    decreases k - i,
{
    if i < k {
        lemma_lookup_step(scopes, i, down);
        lemma_lookup_reaches(scopes, i + 1, k, down);
    }
}

/// A lookup settles at the innermost scope that settles it: the path it
/// gives is the one found in a scope that every scope further in leaves
/// unsettled; when it gives no path, the innermost scope that settles it,
/// if any, stops it.
pub proof fn lemma_lookup_innermost(frames: Seq<FrameKind>, mode: LookupMode, down: Seq<Seq<char>>)
    requires
        down.len() > 0,
    ensures
        spec_lookup(frames, mode, down) matches Some(p) ==> {
            &&& p.up < searched(frames, mode).len()
            &&& settled_at(searched(frames, mode), p.up, down) == Some(Some(p))
            &&& forall|k: nat| k < p.up ==> #[trigger] settled_at(searched(frames, mode), k, down) is None
        },
        spec_lookup(frames, mode, down) is None ==> forall|k: nat|
            k < searched(frames, mode).len() && #[trigger] settled_at(searched(frames, mode), k, down)
                is Some && (forall|j: nat| j < k ==> settled_at(searched(frames, mode), j, down) is None)
                ==> settled_at(searched(frames, mode), k, down) == Some(None::<SpecPath>),
{
    lemma_lookup_found(searched(frames, mode), 0, down);
    lemma_lookup_none(searched(frames, mode), 0, down);
}

/// A single name resolves in the innermost searched scope that declares
/// it, to what that scope declares under it; a name declared in an inner
/// scope hides the same name declared further out.  A name that no searched
/// scope declares resolves to nothing.
pub proof fn lemma_name_shadowing(frames: Seq<FrameKind>, mode: LookupMode, name: Seq<char>, i: nat)
    ensures
        ({
            let sc = searched(frames, mode);
            &&& i < sc.len()
            &&& sc[sc.len() - 1 - i] is Some
            &&& find_symbol(sc[sc.len() - 1 - i]->Some_0, name) is Some
            &&& forall|k: nat|
                k < i ==> (#[trigger] sc[sc.len() - 1 - k]) is None || find_symbol(
                    sc[sc.len() - 1 - k]->Some_0,
                    name,
                ) is None
        }) ==> spec_lookup(frames, mode, seq![name]) == Some(
            SpecPath {
                up: i,
                down: seq![name],
                symbol: find_symbol(
                    searched(frames, mode)[searched(frames, mode).len() - 1 - i]->Some_0,
                    name,
                )->Some_0,
            },
        ),
        (forall|k: nat|
            k < searched(frames, mode).len() ==> (#[trigger] searched(frames, mode)[searched(frames, mode).len() - 1 - k])
                is None || find_symbol(
                searched(frames, mode)[searched(frames, mode).len() - 1 - k]->Some_0,
                name,
            ) is None) ==> spec_lookup(frames, mode, seq![name]) is None,
{
    let sc = searched(frames, mode);
    let down = seq![name];
    reveal(settled_at);
    assert(down[0] == name);
    assert(down.len() == 1);
    if i < sc.len() && sc[sc.len() - 1 - i] is Some && find_symbol(sc[sc.len() - 1 - i]->Some_0, name) is Some
        && (forall|k: nat|
        k < i ==> (#[trigger] sc[sc.len() - 1 - k]) is None || find_symbol(sc[sc.len() - 1 - k]->Some_0, name)
            is None) {
        assert forall|j: nat| 0 <= j < i implies #[trigger] settled_at(sc, j, down) is None by {
            assert(sc[sc.len() - 1 - j] is None || find_symbol(sc[sc.len() - 1 - j]->Some_0, name) is None);
        }
        lemma_lookup_reaches(sc, 0, i, down);
        lemma_lookup_step(sc, i, down);
    }
    if forall|k: nat|
        k < sc.len() ==> (#[trigger] sc[sc.len() - 1 - k]) is None || find_symbol(sc[sc.len() - 1 - k]->Some_0, name)
            is None {
        lemma_lookup_found(sc, 0, down);
        if spec_lookup(frames, mode, down) is Some {
            let p = spec_lookup(frames, mode, down)->Some_0;
            assert(sc[sc.len() - 1 - p.up] is None || find_symbol(sc[sc.len() - 1 - p.up]->Some_0, name) is None);
        }
    }
}

/// The scopes from the schema to the current one.
pub struct Stack<'a> {
    frames: Vec<FrameKind<'a>>,
}

/// A value together with the scopes it was found in.
pub struct Anchored<'a, T> {
    pub inner: T,
    pub stack: Stack<'a>,
}

fn find_symbol_exec<'a>(body: &'a NamespaceBody, name: &str) -> (r: Option<Symbol<'a>>)
    ensures
        match r {
            Some(s) => find_symbol(body_view(*body), name@) == Some(s@),
            None => find_symbol(body_view(*body), name@) is None,
        },
{
    let text = String::from_str(name);
    proof {
        lemma_struct_names(body.structs@);
        lemma_ns_names(body.namespaces);
        lemma_nss_view_index(body.namespaces, body.namespaces.len() as int);
        assert(enum_names(enums_view(body.enums@)) =~= names_of(body.enums@));
        assert(names_of(body.structs@).subrange(0, body.structs.len() as int) =~= names_of(
            body.structs@,
        ));
        assert(names_of(body.enums@).subrange(0, body.enums.len() as int) =~= names_of(
            body.enums@,
        ));
        assert(names_of(body.namespaces@).subrange(0, body.namespaces.len() as int)
            =~= names_of(body.namespaces@));
    }
    match last_named(&body.structs, body.structs.len(), &text) {
        Some(k) => {
            return Some(Symbol::Struct(&body.structs[k]));
        },
        None => {},
    }
    match last_named(&body.enums, body.enums.len(), &text) {
        Some(k) => {
            return Some(Symbol::Enum(&body.enums[k]));
        },
        None => {},
    }
    match last_named(&body.namespaces, body.namespaces.len(), &text) {
        Some(k) => Some(Symbol::Namespace(&body.namespaces[k])),
        None => None,
    }
}

impl<'a> Stack<'a> {
    #[verifier::type_invariant]
    closed spec fn inv(&self) -> bool {
        self.frames@.len() > 0
    }

    /// The scopes, outermost first.
    pub closed spec fn frames(&self) -> Seq<FrameKind<'a>> {
        self.frames@
    }

    /// A stack of one scope.
    pub fn new(frame: FrameKind<'a>) -> (s: Stack<'a>)
        ensures
            s.frames() == seq![frame],
    {
        let mut frames = Vec::new();
        frames.push(frame);
        Stack { frames }
    }

    /// This stack with one more scope inside.
    pub fn push(&self, frame: FrameKind<'a>) -> (s: Stack<'a>)
        ensures
            s.frames() == self.frames().push(frame),
    {
        let mut frames = self.copy_frames();
        frames.push(frame);
        Stack { frames }
    }

    fn copy_frames(&self) -> (v: Vec<FrameKind<'a>>)
        ensures
            v@ == self.frames(),
    {
        let mut v = Vec::new();
        let n = self.frames.len();
        for i in 0..n
            invariant
                n == self.frames@.len(),
                v@ == self.frames@.subrange(0, i as int),
        {
            v.push(self.frames[i]);
            assert(v@ =~= self.frames@.subrange(0, i + 1));
        }
        assert(v@ =~= self.frames@);
        v
    }

    pub fn len(&self) -> (n: usize)
        ensures
            n == self.frames().len(),
    {
        self.frames.len()
    }

    /// `inner`, found in these scopes.
    pub fn anchor<T>(&self, inner: T) -> (a: Anchored<'a, T>)
        ensures
            a.inner == inner,
            a.stack.frames() == self.frames(),
    {
        proof {
            use_type_invariant(self);
        }
        let frames = self.copy_frames();
        Anchored { inner, stack: Stack { frames } }
    }

    /// The names of the namespaces and functions among the scopes.
    pub fn names(&self) -> (r: Vec<&'a str>)
        ensures
            strs_view(r@) == frame_names(self.frames()),
    {
        let mut r: Vec<&'a str> = Vec::new();
        let n = self.frames.len();
        for i in 0..n
            invariant
                n == self.frames@.len(),
                strs_view(r@) == frame_names(self.frames@.subrange(0, i as int)),
        {
            let f = self.frames[i];
            let ghost pre = r@;
            assert(self.frames@.subrange(0, i + 1).drop_last() =~= self.frames@.subrange(0, i as int));
            match f {
                FrameKind::Namespace(_) | FrameKind::Function(_) => {
                    r.push(f.name());
                    assert(strs_view(r@) =~= strs_view(pre) + seq![frame_name(f)]);
                },
                _ => {
                    assert(strs_view(r@) =~= strs_view(pre) + Seq::<Seq<char>>::empty());
                },
            }
        }
        assert(self.frames@.subrange(0, n as int) =~= self.frames@);
        r
    }

    /// Resolves the dotted path `down` from the innermost scope.
    pub fn lookup_struct(&self, mode: LookupMode, down: &[&'a str]) -> (r: Option<RelativePath<'a>>)
        ensures
            opt_path_view(r) == spec_lookup(self.frames(), mode, strs_view(down@)),
        decreases down@.len(),
    {
        proof {
            use_type_invariant(self);
        }
        let ghost dv = strs_view(down@);
        if down.len() == 0 {
            return None;
        }
        let name = down[0];
        let rest = slice_subrange(down, 1, down.len());
        let n = self.frames.len();
        let start: usize = match mode {
            LookupMode::Strict => n - 1,
            LookupMode::Relaxed => 0,
        };
        let ghost scopes = searched(self.frames@, mode);
        proof {
            assert(scopes =~= scopes_of(self.frames@).subrange(start as int, n as int));
            assert(strs_view(rest@) =~= dv.drop_first());
            assert(dv[0] == name@);
        }
        let mut i: usize = 0;
        while i < n - start
            invariant
                n == self.frames@.len(),
                start < n,
                i <= n - start,
                scopes == scopes_of(self.frames@).subrange(start as int, n as int),
                scopes == searched(self.frames@, mode),
                dv == strs_view(down@),
                dv.len() > 0,
                dv[0] == name@,
                strs_view(rest@) == dv.drop_first(),
                rest@.len() == down@.len() - 1,
                lookup_from(scopes, 0, dv) == lookup_from(scopes, i as nat, dv),
            decreases n - start - i,
        {
            let frame = self.frames[n - 1 - i];
            assert(scopes[scopes.len() - 1 - i] == frame_body(frame));
            match frame.body() {
                Some(body) => {
                    match find_symbol_exec(body, name) {
                        Some(symbol) => {
                            assert(lookup_from(scopes, i as nat, dv) == if dv.len() == 1 {
                                Some(SpecPath { up: i as nat, down: seq![name@], symbol: symbol@ })
                            } else {
                                match symbol@ {
                                    SpecSymbol::Namespace(ns) => match lookup_from(
                                        seq![Some(ns.body)],
                                        0,
                                        dv.drop_first(),
                                    ) {
                                        Some(p) => Some(
                                            SpecPath { up: i as nat, down: seq![name@] + p.down, symbol: p.symbol },
                                        ),
                                        None => lookup_from(scopes, i as nat + 1, dv),
                                    },
                                    _ => None,
                                }
                            });
                            if rest.len() == 0 {
                                let mut d: Vec<&'a str> = Vec::new();
                                d.push(name);
                                assert(strs_view(d@) =~= seq![name@]);
                                return Some(RelativePath { up: i, down: d, symbol });
                            }
                            match symbol {
                                Symbol::Namespace(ns) => {
                                    let stack = self.push(FrameKind::Namespace(ns));
                                    let sub = stack.lookup_struct(LookupMode::Strict, rest);
                                    proof {
                                        let fr = self.frames@.push(FrameKind::Namespace(ns));
                                        assert(searched(fr, LookupMode::Strict) =~= seq![
                                            Some(body_view(ns.body)),
                                        ]);
                                    }
                                    match sub {
                                        Some(path) => {
                                            let mut d: Vec<&'a str> = Vec::new();
                                            d.push(name);
                                            let mut pd = path.down;
                                            let ghost pdv = pd@;
                                            d.append(&mut pd);
                                            assert(strs_view(d@) =~= seq![name@] + strs_view(pdv));
                                            return Some(
                                                RelativePath { up: i, down: d, symbol: path.symbol },
                                            );
                                        },
                                        None => {},
                                    }
                                },
                                _ => {
                                    return None;
                                },
                            }
                        },
                        None => {},
                    }
                },
                None => {},
            }
            i = i + 1;
        }
        None
    }
}

impl<'a> Anchored<'a, &'a FunctionDecl> {
    /// The names of the enclosing namespaces and functions, then the
    /// function's own.
    pub open spec fn spec_names(&self) -> Seq<Seq<char>> {
        frame_names(self.stack.frames()).push(self.inner.name.text@)
    }

    pub fn names(&self) -> (r: Vec<&'a str>)
        ensures
            strs_view(r@) == self.spec_names(),
    {
        let mut names = self.stack.names();
        let ghost pre = names@;
        names.push(self.inner.name.text());
        assert(strs_view(names@) =~= strs_view(pre).push(self.inner.name.text@));
        names
    }

    /// The dotted name by which the function is called.
    pub fn method(&self) -> (r: String)
        ensures
            r@ == join(self.spec_names(), "."@),
    {
        let names = self.names();
        join_strs(&names, ".")
    }

    pub fn name(&self) -> (r: &'a str)
        ensures
            r@ == self.inner.name.text@,
    {
        self.inner.name.text()
    }
}

impl<'a> Anchored<'a, &'a StructDecl> {
    /// The names of the enclosing namespaces and functions, then the
    /// struct's own.
    pub open spec fn spec_names(&self) -> Seq<Seq<char>> {
        frame_names(self.stack.frames()).push(self.inner.name.text@)
    }

    pub fn names(&self) -> (r: Vec<&'a str>)
        ensures
            strs_view(r@) == self.spec_names(),
    {
        let mut names = self.stack.names();
        let ghost pre = names@;
        names.push(self.inner.name.text());
        assert(strs_view(names@) =~= strs_view(pre).push(self.inner.name.text@));
        names
    }

    pub fn name(&self) -> (r: &'a str)
        ensures
            r@ == self.inner.name.text@,
    {
        self.inner.name.text()
    }
}

impl<'a> Anchored<'a, &'a Field> {
    pub fn name(&self) -> (r: &'a str)
        ensures
            r@ == self.inner.name.text@,
    {
        self.inner.name.text()
    }
}

/// An anchored value as the scopes it was found in and the value.
pub open spec fn anchored_view<'a, T>(a: Anchored<'a, T>) -> (Seq<FrameKind<'a>>, T) {
    (a.stack.frames(), a.inner)
}

pub open spec fn anchoreds_view<'a, T>(v: Seq<Anchored<'a, T>>) -> Seq<(Seq<FrameKind<'a>>, T)> {
    v.map_values(|a: Anchored<'a, T>| anchored_view(a))
}

/// The functions of a body and, depth first, of everything in it: each
/// function comes after the functions declared in its own body, and the
/// functions of the body's namespaces come last.
pub open spec fn funs_of_body<'a>(frames: Seq<FrameKind<'a>>, body: &'a NamespaceBody) -> Seq<
    (Seq<FrameKind<'a>>, &'a FunctionDecl),
>
    decreases body, 2int,
{
    funs_of_funs(frames, &body.functions, body.functions.len() as int) + funs_of_nss(
        frames,
        &body.namespaces,
        body.namespaces.len() as int,
    )
}

pub open spec fn funs_of_fun<'a>(frames: Seq<FrameKind<'a>>, f: &'a FunctionDecl) -> Seq<
    (Seq<FrameKind<'a>>, &'a FunctionDecl),
>
    decreases f, 1int,
{
    match &f.body {
        Some(b) => funs_of_body(frames.push(FrameKind::Function(f)), b),
        None => Seq::empty(),
    }
}

pub open spec fn funs_of_funs<'a>(frames: Seq<FrameKind<'a>>, v: &'a Vec<FunctionDecl>, n: int) -> Seq<
    (Seq<FrameKind<'a>>, &'a FunctionDecl),
>
    decreases v, n,
{
    if n <= 0 || n > v.len() {
        Seq::empty()
    } else {
        funs_of_funs(frames, v, n - 1) + funs_of_fun(frames, &v[n - 1]) + seq![(frames, &v[n - 1])]
    }
}

pub open spec fn funs_of_nss<'a>(frames: Seq<FrameKind<'a>>, v: &'a Vec<NamespaceDecl>, n: int) -> Seq<
    (Seq<FrameKind<'a>>, &'a FunctionDecl),
>
    decreases v, n,
{
    if n <= 0 || n > v.len() {
        Seq::empty()
    } else {
        funs_of_nss(frames, v, n - 1) + funs_of_body(
            frames.push(FrameKind::Namespace(&v[n - 1])),
            &v[n - 1].body,
        )
    }
}

fn collect_funs_list<'a>(
    stack: &Stack<'a>,
    v: &'a Vec<FunctionDecl>,
    out: &mut Vec<Anchored<'a, &'a FunctionDecl>>,
)
    ensures
        anchoreds_view(final(out)@) == anchoreds_view(old(out)@) + funs_of_funs(
            stack.frames(),
            v,
            v.len() as int,
        ),
    decreases v, 2int,
{
    let ghost start = anchoreds_view(out@);
    let ghost fr = stack.frames();
    assert(start + funs_of_funs(fr, v, 0) =~= start);
    let n = v.len();
    for i in 0..n
        invariant
            n == v.len(),
            fr == stack.frames(),
            anchoreds_view(out@) == start + funs_of_funs(fr, v, i as int),
    {
        let f = &v[i];
        collect_fun(stack, f, out);
        let ghost mid = anchoreds_view(out@);
        let a = stack.anchor(f);
        out.push(a);
        assert(anchoreds_view(out@) =~= mid.push((fr, f)));
        assert(anchoreds_view(out@) =~= start + funs_of_funs(fr, v, i + 1));
    }
}

fn collect_fun<'a>(stack: &Stack<'a>, f: &'a FunctionDecl, out: &mut Vec<Anchored<'a, &'a FunctionDecl>>)
    ensures
        anchoreds_view(final(out)@) == anchoreds_view(old(out)@) + funs_of_fun(stack.frames(), f),
    decreases f, 1int,
{
    match &f.body {
        Some(b) => {
            let inner = stack.push(FrameKind::Function(f));
            collect_body(&inner, b, out);
        },
        None => {
            assert(anchoreds_view(out@) =~= anchoreds_view(old(out)@) + Seq::empty());
        },
    }
}

fn collect_nss_list<'a>(
    stack: &Stack<'a>,
    v: &'a Vec<NamespaceDecl>,
    out: &mut Vec<Anchored<'a, &'a FunctionDecl>>,
)
    ensures
        anchoreds_view(final(out)@) == anchoreds_view(old(out)@) + funs_of_nss(
            stack.frames(),
            v,
            v.len() as int,
        ),
    decreases v, 2int,
{
    let ghost start = anchoreds_view(out@);
    let ghost fr = stack.frames();
    assert(start + funs_of_nss(fr, v, 0) =~= start);
    let n = v.len();
    for i in 0..n
        invariant
            n == v.len(),
            fr == stack.frames(),
            anchoreds_view(out@) == start + funs_of_nss(fr, v, i as int),
    {
        let ns = &v[i];
        let inner = stack.push(FrameKind::Namespace(ns));
        collect_body(&inner, &ns.body, out);
        assert(anchoreds_view(out@) =~= start + funs_of_nss(fr, v, i + 1));
    }
}

fn collect_body<'a>(stack: &Stack<'a>, body: &'a NamespaceBody, out: &mut Vec<Anchored<'a, &'a FunctionDecl>>)
    ensures
        anchoreds_view(final(out)@) == anchoreds_view(old(out)@) + funs_of_body(stack.frames(), body),
    decreases body, 3int,
{
    let ghost start = anchoreds_view(out@);
    collect_funs_list(stack, &body.functions, out);
    collect_nss_list(stack, &body.namespaces, out);
    assert(anchoreds_view(out@) =~= start + funs_of_body(stack.frames(), body));
}

/// The structs of a body and, depth first, of everything in it: the
/// body's own structs, then those in the bodies of its functions, then
/// those of its namespaces.
pub open spec fn structs_of_body<'a>(frames: Seq<FrameKind<'a>>, body: &'a NamespaceBody) -> Seq<
    (Seq<FrameKind<'a>>, &'a StructDecl),
>
    decreases body, 2int,
{
    own_structs(frames, &body.structs, body.structs.len() as int) + structs_of_funs(
        frames,
        &body.functions,
        body.functions.len() as int,
    ) + structs_of_nss(frames, &body.namespaces, body.namespaces.len() as int)
}

pub open spec fn own_structs<'a>(frames: Seq<FrameKind<'a>>, v: &'a Vec<StructDecl>, n: int) -> Seq<
    (Seq<FrameKind<'a>>, &'a StructDecl),
>
    decreases n,
{
    if n <= 0 || n > v.len() {
        Seq::empty()
    } else {
        own_structs(frames, v, n - 1).push((frames, &v[n - 1]))
    }
}

pub open spec fn structs_of_fun<'a>(frames: Seq<FrameKind<'a>>, f: &'a FunctionDecl) -> Seq<
    (Seq<FrameKind<'a>>, &'a StructDecl),
>
    decreases f, 1int,
{
    match &f.body {
        Some(b) => structs_of_body(frames.push(FrameKind::Function(f)), b),
        None => Seq::empty(),
    }
}

pub open spec fn structs_of_funs<'a>(frames: Seq<FrameKind<'a>>, v: &'a Vec<FunctionDecl>, n: int) -> Seq<
    (Seq<FrameKind<'a>>, &'a StructDecl),
>
    decreases v, n,
{
    if n <= 0 || n > v.len() {
        Seq::empty()
    } else {
        structs_of_funs(frames, v, n - 1) + structs_of_fun(frames, &v[n - 1])
    }
}

pub open spec fn structs_of_nss<'a>(frames: Seq<FrameKind<'a>>, v: &'a Vec<NamespaceDecl>, n: int) -> Seq<
    (Seq<FrameKind<'a>>, &'a StructDecl),
>
    decreases v, n,
{
    if n <= 0 || n > v.len() {
        Seq::empty()
    } else {
        structs_of_nss(frames, v, n - 1) + structs_of_body(
            frames.push(FrameKind::Namespace(&v[n - 1])),
            &v[n - 1].body,
        )
    }
}

fn collect_own_structs<'a>(
    stack: &Stack<'a>,
    v: &'a Vec<StructDecl>,
    out: &mut Vec<Anchored<'a, &'a StructDecl>>,
)
    ensures
        anchoreds_view(final(out)@) == anchoreds_view(old(out)@) + own_structs(
            stack.frames(),
            v,
            v.len() as int,
        ),
{
    let ghost start = anchoreds_view(out@);
    let ghost fr = stack.frames();
    assert(start + own_structs(fr, v, 0) =~= start);
    let n = v.len();
    for i in 0..n
        invariant
            n == v.len(),
            fr == stack.frames(),
            anchoreds_view(out@) == start + own_structs(fr, v, i as int),
    {
        let ghost pre = anchoreds_view(out@);
        let a = stack.anchor(&v[i]);
        out.push(a);
        assert(anchoreds_view(out@) =~= pre.push((fr, &v[i as int])));
        assert(anchoreds_view(out@) =~= start + own_structs(fr, v, i + 1));
    }
}

fn collect_fun_structs<'a>(stack: &Stack<'a>, f: &'a FunctionDecl, out: &mut Vec<Anchored<'a, &'a StructDecl>>)
    ensures
        anchoreds_view(final(out)@) == anchoreds_view(old(out)@) + structs_of_fun(stack.frames(), f),
    decreases f, 1int,
{
    match &f.body {
        Some(b) => {
            let inner = stack.push(FrameKind::Function(f));
            collect_body_structs(&inner, b, out);
        },
        None => {
            assert(anchoreds_view(out@) =~= anchoreds_view(old(out)@) + Seq::empty());
        },
    }
}

fn collect_funs_structs<'a>(
    stack: &Stack<'a>,
    v: &'a Vec<FunctionDecl>,
    out: &mut Vec<Anchored<'a, &'a StructDecl>>,
)
    ensures
        anchoreds_view(final(out)@) == anchoreds_view(old(out)@) + structs_of_funs(
            stack.frames(),
            v,
            v.len() as int,
        ),
    decreases v, 2int,
{
    let ghost start = anchoreds_view(out@);
    let ghost fr = stack.frames();
    assert(start + structs_of_funs(fr, v, 0) =~= start);
    let n = v.len();
    for i in 0..n
        invariant
            n == v.len(),
            fr == stack.frames(),
            anchoreds_view(out@) == start + structs_of_funs(fr, v, i as int),
    {
        collect_fun_structs(stack, &v[i], out);
        assert(anchoreds_view(out@) =~= start + structs_of_funs(fr, v, i + 1));
    }
}

fn collect_nss_structs<'a>(
    stack: &Stack<'a>,
    v: &'a Vec<NamespaceDecl>,
    out: &mut Vec<Anchored<'a, &'a StructDecl>>,
)
    ensures
        anchoreds_view(final(out)@) == anchoreds_view(old(out)@) + structs_of_nss(
            stack.frames(),
            v,
            v.len() as int,
        ),
    decreases v, 2int,
{
    let ghost start = anchoreds_view(out@);
    let ghost fr = stack.frames();
    assert(start + structs_of_nss(fr, v, 0) =~= start);
    let n = v.len();
    for i in 0..n
        invariant
            n == v.len(),
            fr == stack.frames(),
            anchoreds_view(out@) == start + structs_of_nss(fr, v, i as int),
    {
        let ns = &v[i];
        let inner = stack.push(FrameKind::Namespace(ns));
        collect_body_structs(&inner, &ns.body, out);
        assert(anchoreds_view(out@) =~= start + structs_of_nss(fr, v, i + 1));
    }
}

fn collect_body_structs<'a>(
    stack: &Stack<'a>,
    body: &'a NamespaceBody,
    out: &mut Vec<Anchored<'a, &'a StructDecl>>,
)
    ensures
        anchoreds_view(final(out)@) == anchoreds_view(old(out)@) + structs_of_body(
            stack.frames(),
            body,
        ),
    decreases body, 3int,
{
    let ghost start = anchoreds_view(out@);
    collect_own_structs(stack, &body.structs, out);
    collect_funs_structs(stack, &body.functions, out);
    collect_nss_structs(stack, &body.namespaces, out);
    assert(anchoreds_view(out@) =~= start + structs_of_body(stack.frames(), body));
}

/// The enums of a body and, depth first, of everything in it: the
/// body's own enums, then those in the bodies of its functions, then
/// those of its namespaces.
pub open spec fn enums_of_body<'a>(frames: Seq<FrameKind<'a>>, body: &'a NamespaceBody) -> Seq<
    (Seq<FrameKind<'a>>, &'a EnumDecl),
>
    decreases body, 2int,
{
    own_enums(frames, &body.enums, body.enums.len() as int) + enums_of_funs(
        frames,
        &body.functions,
        body.functions.len() as int,
    ) + enums_of_nss(frames, &body.namespaces, body.namespaces.len() as int)
}

pub open spec fn own_enums<'a>(frames: Seq<FrameKind<'a>>, v: &'a Vec<EnumDecl>, n: int) -> Seq<
    (Seq<FrameKind<'a>>, &'a EnumDecl),
>
    decreases n,
{
    if n <= 0 || n > v.len() {
        Seq::empty()
    } else {
        own_enums(frames, v, n - 1).push((frames, &v[n - 1]))
    }
}

pub open spec fn enums_of_fun<'a>(frames: Seq<FrameKind<'a>>, f: &'a FunctionDecl) -> Seq<
    (Seq<FrameKind<'a>>, &'a EnumDecl),
>
    decreases f, 1int,
{
    match &f.body {
        Some(b) => enums_of_body(frames.push(FrameKind::Function(f)), b),
        None => Seq::empty(),
    }
}

pub open spec fn enums_of_funs<'a>(frames: Seq<FrameKind<'a>>, v: &'a Vec<FunctionDecl>, n: int) -> Seq<
    (Seq<FrameKind<'a>>, &'a EnumDecl),
>
    decreases v, n,
{
    if n <= 0 || n > v.len() {
        Seq::empty()
    } else {
        enums_of_funs(frames, v, n - 1) + enums_of_fun(frames, &v[n - 1])
    }
}

pub open spec fn enums_of_nss<'a>(frames: Seq<FrameKind<'a>>, v: &'a Vec<NamespaceDecl>, n: int) -> Seq<
    (Seq<FrameKind<'a>>, &'a EnumDecl),
>
    decreases v, n,
{
    if n <= 0 || n > v.len() {
        Seq::empty()
    } else {
        enums_of_nss(frames, v, n - 1) + enums_of_body(
            frames.push(FrameKind::Namespace(&v[n - 1])),
            &v[n - 1].body,
        )
    }
}

fn collect_own_enums<'a>(
    stack: &Stack<'a>,
    v: &'a Vec<EnumDecl>,
    out: &mut Vec<Anchored<'a, &'a EnumDecl>>,
)
    ensures
        anchoreds_view(final(out)@) == anchoreds_view(old(out)@) + own_enums(
            stack.frames(),
            v,
            v.len() as int,
        ),
{
    let ghost start = anchoreds_view(out@);
    let ghost fr = stack.frames();
    assert(start + own_enums(fr, v, 0) =~= start);
    let n = v.len();
    for i in 0..n
        invariant
            n == v.len(),
            fr == stack.frames(),
            anchoreds_view(out@) == start + own_enums(fr, v, i as int),
    {
        let ghost pre = anchoreds_view(out@);
        let a = stack.anchor(&v[i]);
        out.push(a);
        assert(anchoreds_view(out@) =~= pre.push((fr, &v[i as int])));
        assert(anchoreds_view(out@) =~= start + own_enums(fr, v, i + 1));
    }
}

fn collect_fun_enums<'a>(stack: &Stack<'a>, f: &'a FunctionDecl, out: &mut Vec<Anchored<'a, &'a EnumDecl>>)
    ensures
        anchoreds_view(final(out)@) == anchoreds_view(old(out)@) + enums_of_fun(stack.frames(), f),
    decreases f, 1int,
{
    match &f.body {
        Some(b) => {
            let inner = stack.push(FrameKind::Function(f));
            collect_body_enums(&inner, b, out);
        },
        None => {
            assert(anchoreds_view(out@) =~= anchoreds_view(old(out)@) + Seq::empty());
        },
    }
}

fn collect_funs_enums<'a>(
    stack: &Stack<'a>,
    v: &'a Vec<FunctionDecl>,
    out: &mut Vec<Anchored<'a, &'a EnumDecl>>,
)
    ensures
        anchoreds_view(final(out)@) == anchoreds_view(old(out)@) + enums_of_funs(
            stack.frames(),
            v,
            v.len() as int,
        ),
    decreases v, 2int,
{
    let ghost start = anchoreds_view(out@);
    let ghost fr = stack.frames();
    assert(start + enums_of_funs(fr, v, 0) =~= start);
    let n = v.len();
    for i in 0..n
        invariant
            n == v.len(),
            fr == stack.frames(),
            anchoreds_view(out@) == start + enums_of_funs(fr, v, i as int),
    {
        collect_fun_enums(stack, &v[i], out);
        assert(anchoreds_view(out@) =~= start + enums_of_funs(fr, v, i + 1));
    }
}

fn collect_nss_enums<'a>(
    stack: &Stack<'a>,
    v: &'a Vec<NamespaceDecl>,
    out: &mut Vec<Anchored<'a, &'a EnumDecl>>,
)
    ensures
        anchoreds_view(final(out)@) == anchoreds_view(old(out)@) + enums_of_nss(
            stack.frames(),
            v,
            v.len() as int,
        ),
    decreases v, 2int,
{
    let ghost start = anchoreds_view(out@);
    let ghost fr = stack.frames();
    assert(start + enums_of_nss(fr, v, 0) =~= start);
    let n = v.len();
    for i in 0..n
        invariant
            n == v.len(),
            fr == stack.frames(),
            anchoreds_view(out@) == start + enums_of_nss(fr, v, i as int),
    {
        let ns = &v[i];
        let inner = stack.push(FrameKind::Namespace(ns));
        collect_body_enums(&inner, &ns.body, out);
        assert(anchoreds_view(out@) =~= start + enums_of_nss(fr, v, i + 1));
    }
}

fn collect_body_enums<'a>(
    stack: &Stack<'a>,
    body: &'a NamespaceBody,
    out: &mut Vec<Anchored<'a, &'a EnumDecl>>,
)
    ensures
        anchoreds_view(final(out)@) == anchoreds_view(old(out)@) + enums_of_body(
            stack.frames(),
            body,
        ),
    decreases body, 3int,
{
    let ghost start = anchoreds_view(out@);
    collect_own_enums(stack, &body.enums, out);
    collect_funs_enums(stack, &body.functions, out);
    collect_nss_enums(stack, &body.namespaces, out);
    assert(anchoreds_view(out@) =~= start + enums_of_body(stack.frames(), body));
}

impl<'a> Anchored<'a, &'a NamespaceBody> {
    /// The functions declared directly in the body, in these scopes.
    pub fn for_each_fun(&self) -> (r: Vec<Anchored<'a, &'a FunctionDecl>>)
        ensures
            r@.len() == self.inner.functions.len(),
            forall|i: int|
                0 <= i < r@.len() ==> anchored_view(#[trigger] r@[i]) == (
                    self.stack.frames(),
                    &self.inner.functions[i],
                ),
    {
        let mut r: Vec<Anchored<'a, &'a FunctionDecl>> = Vec::new();
        let n = self.inner.functions.len();
        for i in 0..n
            invariant
                n == self.inner.functions.len(),
                r@.len() == i,
                forall|j: int|
                    0 <= j < i ==> anchored_view(#[trigger] r@[j]) == (
                        self.stack.frames(),
                        &self.inner.functions[j],
                    ),
        {
            r.push(self.stack.anchor(&self.inner.functions[i]));
        }
        r
    }

    /// The structs declared directly in the body, in these scopes.
    pub fn for_each_struct(&self) -> (r: Vec<Anchored<'a, &'a StructDecl>>)
        ensures
            r@.len() == self.inner.structs.len(),
            forall|i: int|
                0 <= i < r@.len() ==> anchored_view(#[trigger] r@[i]) == (
                    self.stack.frames(),
                    &self.inner.structs[i],
                ),
    {
        let mut r: Vec<Anchored<'a, &'a StructDecl>> = Vec::new();
        let n = self.inner.structs.len();
        for i in 0..n
            invariant
                n == self.inner.structs.len(),
                r@.len() == i,
                forall|j: int|
                    0 <= j < i ==> anchored_view(#[trigger] r@[j]) == (
                        self.stack.frames(),
                        &self.inner.structs[j],
                    ),
        {
            r.push(self.stack.anchor(&self.inner.structs[i]));
        }
        r
    }

    /// The body of each namespace declared directly in the body, in the
    /// scopes that the namespace adds to these.
    pub fn for_each_namespace(&self) -> (r: Vec<Anchored<'a, &'a NamespaceBody>>)
        ensures
            r@.len() == self.inner.namespaces.len(),
            forall|i: int|
                0 <= i < r@.len() ==> anchored_view(#[trigger] r@[i]) == (
                    self.stack.frames().push(FrameKind::Namespace(&self.inner.namespaces[i])),
                    &self.inner.namespaces[i].body,
                ),
    {
        let mut r: Vec<Anchored<'a, &'a NamespaceBody>> = Vec::new();
        let n = self.inner.namespaces.len();
        for i in 0..n
            invariant
                n == self.inner.namespaces.len(),
                r@.len() == i,
                forall|j: int|
                    0 <= j < i ==> anchored_view(#[trigger] r@[j]) == (
                        self.stack.frames().push(FrameKind::Namespace(&self.inner.namespaces[j])),
                        &self.inner.namespaces[j].body,
                    ),
        {
            let ns = &self.inner.namespaces[i];
            let st = self.stack.push(FrameKind::Namespace(ns));
            r.push(st.anchor(&ns.body));
        }
        r
    }

    /// Every function of the body and of what it holds, in the order the
    /// schema's functions are numbered.
    pub fn for_each_fun_of_schema(&self) -> (r: Vec<Anchored<'a, &'a FunctionDecl>>)
        ensures
            anchoreds_view(r@) == funs_of_body(self.stack.frames(), self.inner),
    {
        let mut out: Vec<Anchored<'a, &'a FunctionDecl>> = Vec::new();
        assert(anchoreds_view(out@) =~= Seq::empty());
        collect_body(&self.stack, self.inner, &mut out);
        assert(anchoreds_view(out@) =~= funs_of_body(self.stack.frames(), self.inner));
        out
    }

    /// Every struct of the body and of what it holds. Parameter and result
    /// lists are lists of fields, not struct declarations, and are not
    /// among them.
    pub fn for_each_struct_of_schema(&self) -> (r: Vec<Anchored<'a, &'a StructDecl>>)
        ensures
            anchoreds_view(r@) == structs_of_body(self.stack.frames(), self.inner),
    {
        let mut out: Vec<Anchored<'a, &'a StructDecl>> = Vec::new();
        assert(anchoreds_view(out@) =~= Seq::empty());
        collect_body_structs(&self.stack, self.inner, &mut out);
        assert(anchoreds_view(out@) =~= structs_of_body(self.stack.frames(), self.inner));
        out
    }

    /// Every enum of the body and of what it holds, in the order of
    /// `for_each_struct_of_schema`.
    pub fn for_each_enum_of_schema(&self) -> (r: Vec<Anchored<'a, &'a EnumDecl>>)
        ensures
            anchoreds_view(r@) == enums_of_body(self.stack.frames(), self.inner),
    {
        let mut out: Vec<Anchored<'a, &'a EnumDecl>> = Vec::new();
        assert(anchoreds_view(out@) =~= Seq::empty());
        collect_body_enums(&self.stack, self.inner, &mut out);
        assert(anchoreds_view(out@) =~= enums_of_body(self.stack.frames(), self.inner));
        out
    }
}

impl<'a> Anchored<'a, &'a FunctionDecl> {
    /// Every function declared in the function's body, at any depth.
    pub fn for_each_fun_of_schema(&self) -> (r: Vec<Anchored<'a, &'a FunctionDecl>>)
        ensures
            anchoreds_view(r@) == funs_of_fun(self.stack.frames(), self.inner),
    {
        let mut out: Vec<Anchored<'a, &'a FunctionDecl>> = Vec::new();
        assert(anchoreds_view(out@) =~= Seq::empty());
        collect_fun(&self.stack, self.inner, &mut out);
        assert(anchoreds_view(out@) =~= funs_of_fun(self.stack.frames(), self.inner));
        out
    }

    /// Every struct declared in the function's body, at any depth.
    pub fn for_each_struct_of_schema(&self) -> (r: Vec<Anchored<'a, &'a StructDecl>>)
        ensures
            anchoreds_view(r@) == structs_of_fun(self.stack.frames(), self.inner),
    {
        let mut out: Vec<Anchored<'a, &'a StructDecl>> = Vec::new();
        assert(anchoreds_view(out@) =~= Seq::empty());
        collect_fun_structs(&self.stack, self.inner, &mut out);
        assert(anchoreds_view(out@) =~= structs_of_fun(self.stack.frames(), self.inner));
        out
    }
}

} // verus!
