//! Syntax tree of lavish schemas and `lavish-rules` files, with the
//! mathematical model (`@`) of every node.
use vstd::prelude::*;

verus! {

/// A region of the source text, counted in characters.
#[derive(Debug, Clone, Copy, PartialEq, Eq, Structural)]
pub struct Span {
    pub offset: usize,
    pub len: usize,
}

/// A name as written in the source, with its location.
#[derive(Debug)]
pub struct Identifier {
    pub span: Span,
    pub text: String,
}

pub struct SpecIdentifier {
    pub span: Span,
    pub text: Seq<char>,
}

impl View for Identifier {
    type V = SpecIdentifier;

    open spec fn view(&self) -> SpecIdentifier {
        SpecIdentifier { span: self.span, text: self.text@ }
    }
}

impl Identifier {
    pub fn text(&self) -> (r: &str)
        ensures
            r@ == self.text@,
    {
        self.text.as_str()
    }
}

/// A block of `//` comment lines.
#[derive(Debug)]
pub struct Comment {
    pub lines: Vec<String>,
}

pub struct SpecComment {
    pub lines: Seq<Seq<char>>,
}

pub open spec fn strings_view(v: Seq<String>) -> Seq<Seq<char>> {
    v.map_values(|x: String| x@)
}

impl View for Comment {
    type V = SpecComment;

    open spec fn view(&self) -> SpecComment {
        SpecComment { lines: strings_view(self.lines@) }
    }
}

impl Comment {
    /// The comment without any line.
    pub fn default() -> (c: Comment)
        ensures
            c@.lines.len() == 0,
    {
        Comment { lines: Vec::new() }
    }
}

pub open spec fn opt_comment_view(c: Option<Comment>) -> Option<SpecComment> {
    match c {
        Some(c) => Some(c@),
        None => None,
    }
}

#[derive(Debug)]
pub struct StringLiteral {
    pub loc: Span,
    pub value: String,
}

pub struct SpecStringLiteral {
    pub loc: Span,
    pub value: Seq<char>,
}

impl View for StringLiteral {
    type V = SpecStringLiteral;

    open spec fn view(&self) -> SpecStringLiteral {
        SpecStringLiteral { loc: self.loc, value: self.value@ }
    }
}

#[derive(Debug)]
pub struct FromDirective {
    pub path: StringLiteral,
}

pub struct SpecFromDirective {
    pub path: SpecStringLiteral,
}

impl View for FromDirective {
    type V = SpecFromDirective;

    open spec fn view(&self) -> SpecFromDirective {
        SpecFromDirective { path: self.path@ }
    }
}

pub open spec fn opt_from_view(f: Option<FromDirective>) -> Option<SpecFromDirective> {
    match f {
        Some(f) => Some(f@),
        None => None,
    }
}

/// `build X [from "path"]` in a rules file.
#[derive(Debug)]
pub struct Build {
    pub name: Identifier,
    pub from: Option<FromDirective>,
}

pub struct SpecBuild {
    pub name: SpecIdentifier,
    pub from: Option<SpecFromDirective>,
}

impl View for Build {
    type V = SpecBuild;

    open spec fn view(&self) -> SpecBuild {
        SpecBuild { name: self.name@, from: opt_from_view(self.from) }
    }
}

pub open spec fn builds_view(v: Seq<Build>) -> Seq<SpecBuild> {
    v.map_values(|b: Build| b@)
}

/// `import X [from "path"]` in a schema.
#[derive(Debug)]
pub struct Import {
    pub name: Identifier,
    pub from: Option<FromDirective>,
}

pub struct SpecImport {
    pub name: SpecIdentifier,
    pub from: Option<SpecFromDirective>,
}

impl View for Import {
    type V = SpecImport;

    open spec fn view(&self) -> SpecImport {
        SpecImport { name: self.name@, from: opt_from_view(self.from) }
    }
}

pub open spec fn imports_view(v: Seq<Import>) -> Seq<SpecImport> {
    v.map_values(|b: Import| b@)
}

#[derive(Debug, Clone, Copy, PartialEq, Eq, Structural)]
pub enum RustTargetWrapper {
    Plain,
    Mod,
    Lib,
}

#[derive(Debug, Clone, Copy, PartialEq, Eq, Structural)]
pub enum RustTargetItem {
    Wrapper(RustTargetWrapper),
}

#[derive(Debug, Clone, Copy, PartialEq, Eq, Structural)]
pub struct RustTarget {
    pub wrapper: RustTargetWrapper,
}

/// The wrapper chosen by a list of target items: the last one given, `mod` when none is.
pub open spec fn spec_wrapper_of(items: Seq<RustTargetItem>) -> RustTargetWrapper
    decreases items.len(),
{
    if items.len() == 0 {
        RustTargetWrapper::Mod
    } else {
        match items.last() {
            RustTargetItem::Wrapper(w) => w,
        }
    }
}

impl RustTarget {
    pub fn new(items: Vec<RustTargetItem>) -> (t: RustTarget)
        ensures
            t.wrapper == spec_wrapper_of(items@),
    {
        let mut s = RustTarget { wrapper: RustTargetWrapper::Mod };
        let n = items.len();
        for i in 0..n
            invariant
                n == items.len(),
                s.wrapper == spec_wrapper_of(items@.subrange(0, i as int)),
        {
            match items[i] {
                RustTargetItem::Wrapper(w) => {
                    s.wrapper = w;
                },
            }
            assert(items@.subrange(0, i + 1).last() == items@[i as int]);
        }
        assert(items@.subrange(0, n as int) == items@);
        s
    }
}

#[derive(Debug, Clone, Copy, PartialEq, Eq, Structural)]
pub struct GoTarget {}

#[derive(Debug, Clone, Copy, PartialEq, Eq, Structural)]
pub struct TypeScriptTarget {}

#[derive(Debug, Clone, Copy, PartialEq, Eq, Structural)]
pub enum Target {
    Rust(RustTarget),
    Go(GoTarget),
    TypeScript(TypeScriptTarget),
}

/// A parsed `lavish-rules` file.
#[derive(Debug)]
pub struct Rules {
    pub loc: Span,
    pub target: Target,
    pub builds: Vec<Build>,
}

pub struct SpecRules {
    pub loc: Span,
    pub target: Target,
    pub builds: Seq<SpecBuild>,
}

impl View for Rules {
    type V = SpecRules;

    open spec fn view(&self) -> SpecRules {
        SpecRules { loc: self.loc, target: self.target, builds: builds_view(self.builds@) }
    }
}

impl Rules {
    pub fn new(loc: Span, target: Target, builds: Vec<Build>) -> (r: Rules)
        ensures
            r.loc == loc,
            r.target == target,
            r.builds@ == builds@,
    {
        Rules { loc, target, builds }
    }
}

#[derive(Debug, Clone, Copy, PartialEq, Eq, Structural)]
pub enum Side {
    Client,
    Server,
}

impl Side {
    pub open spec fn spec_other(self) -> Side {
        match self {
            Side::Client => Side::Server,
            Side::Server => Side::Client,
        }
    }

    /// The side that answers this one.
    pub fn other(self) -> (r: Side)
        ensures
            r == self.spec_other(),
    {
        match self {
            Side::Client => Side::Server,
            Side::Server => Side::Client,
        }
    }

    /// The lower-case word for the side, as written in schemas.
    pub fn as_str(self) -> (r: &'static str)
        ensures
            r@ == spec_side_word(self),
    {
        match self {
            Side::Client => "client",
            Side::Server => "server",
        }
    }
}

/// The other side of the other side is the side itself.
pub proof fn lemma_other_involution(side: Side)
    ensures
        side.spec_other().spec_other() == side,
        side.spec_other() != side,
{
}

pub open spec fn spec_side_word(side: Side) -> Seq<char> {
    match side {
        Side::Client => "client"@,
        Side::Server => "server"@,
    }
}

#[derive(Debug, Clone, Copy, PartialEq, Eq, Structural)]
pub enum Kind {
    Request,
    Notification,
}

#[derive(Debug, Clone, Copy, PartialEq, Eq, Structural)]
pub enum BaseType {
    Bool,
    Int32,
    Int64,
    UInt32,
    UInt64,
    Float32,
    Float64,
    String,
    Bytes,
    Timestamp,
}

#[derive(Debug)]
pub struct Type {
    pub span: Span,
    pub text: String,
    pub kind: TypeKind,
}

#[derive(Debug)]
pub enum TypeKind {
    User,
    Base(BaseType),
    Array(ArrayType),
    Option(OptionType),
    Mapping(MapType),
}

#[derive(Debug)]
pub struct ArrayType {
    pub inner: Box<Type>,
}

#[derive(Debug)]
pub struct OptionType {
    pub inner: Box<Type>,
}

#[derive(Debug)]
pub struct MapType {
    pub keys: Box<Type>,
    pub values: Box<Type>,
}

pub struct SpecType {
    pub span: Span,
    pub text: Seq<char>,
    pub kind: SpecTypeKind,
}

pub enum SpecTypeKind {
    User,
    Base(BaseType),
    Array(Box<SpecType>),
    Option(Box<SpecType>),
    Mapping(Box<SpecType>, Box<SpecType>),
}

pub open spec fn type_view(t: Type) -> SpecType
    decreases t,
{
    SpecType {
        span: t.span,
        text: t.text@,
        kind: match t.kind {
            TypeKind::User => SpecTypeKind::User,
            TypeKind::Base(b) => SpecTypeKind::Base(b),
            TypeKind::Array(a) => SpecTypeKind::Array(Box::new(type_view(*a.inner))),
            TypeKind::Option(o) => SpecTypeKind::Option(Box::new(type_view(*o.inner))),
            TypeKind::Mapping(m) => SpecTypeKind::Mapping(
                Box::new(type_view(*m.keys)),
                Box::new(type_view(*m.values)),
            ),
        },
    }
}

impl View for Type {
    type V = SpecType;

    open spec fn view(&self) -> SpecType {
        type_view(*self)
    }
}

impl Type {
    /// The source text of the type.
    pub fn text(&self) -> (r: &str)
        ensures
            r@ == self.text@,
    {
        self.text.as_str()
    }
}

#[derive(Debug)]
pub struct Field {
    pub loc: Span,
    pub comment: Option<Comment>,
    pub name: Identifier,
    pub typ: Type,
}

pub struct SpecField {
    pub loc: Span,
    pub comment: Option<SpecComment>,
    pub name: SpecIdentifier,
    pub typ: SpecType,
}

impl View for Field {
    type V = SpecField;

    open spec fn view(&self) -> SpecField {
        SpecField {
            loc: self.loc,
            comment: opt_comment_view(self.comment),
            name: self.name@,
            typ: self.typ@,
        }
    }
}

pub open spec fn fields_view(v: Seq<Field>) -> Seq<SpecField> {
    v.map_values(|f: Field| f@)
}

#[derive(Debug)]
pub struct StructDecl {
    pub loc: Span,
    pub comment: Option<Comment>,
    pub name: Identifier,
    pub fields: Vec<Field>,
}

pub struct SpecStructDecl {
    pub loc: Span,
    pub comment: Option<SpecComment>,
    pub name: SpecIdentifier,
    pub fields: Seq<SpecField>,
}

impl View for StructDecl {
    type V = SpecStructDecl;

    open spec fn view(&self) -> SpecStructDecl {
        SpecStructDecl {
            loc: self.loc,
            comment: opt_comment_view(self.comment),
            name: self.name@,
            fields: fields_view(self.fields@),
        }
    }
}

#[derive(Debug)]
pub struct EnumVariant {
    pub loc: Span,
    pub comment: Option<Comment>,
    pub name: Identifier,
}

pub struct SpecEnumVariant {
    pub loc: Span,
    pub comment: Option<SpecComment>,
    pub name: SpecIdentifier,
}

impl View for EnumVariant {
    type V = SpecEnumVariant;

    open spec fn view(&self) -> SpecEnumVariant {
        SpecEnumVariant {
            loc: self.loc,
            comment: opt_comment_view(self.comment),
            name: self.name@,
        }
    }
}

/// One step of the reflected CRC-32C division: shift right, and add the
/// Castagnoli polynomial when a one falls out.
pub open spec fn castagnoli_step(c: u32) -> u32 {
    if c & 1u32 == 1u32 {
        (c >> 1u32) ^ 0x82f6_3b78u32
    } else {
        c >> 1u32
    }
}

/// The entry of the CRC-32C table for `x`: eight steps.
pub open spec fn castagnoli_entry(x: u32) -> u32 {
    castagnoli_step(
        castagnoli_step(
            castagnoli_step(
                castagnoli_step(castagnoli_step(castagnoli_step(castagnoli_step(castagnoli_step(x))))),
            ),
        ),
    )
}

/// The CRC register after `bytes`, starting from all ones: each byte is
/// folded in through the table entry of the register's low byte xor it.
pub open spec fn castagnoli_register(bytes: Seq<u8>) -> u32
    decreases bytes.len(),
{
    if bytes.len() == 0 {
        0xffff_ffffu32
    } else {
        let c = castagnoli_register(bytes.drop_last());
        castagnoli_entry((((c as u8) ^ bytes.last()) as u32)) ^ (c >> 8u32)
    }
}

/// The CRC-32C (Castagnoli) checksum of a byte string: the register after
/// the bytes, inverted.
pub open spec fn crc32c(bytes: Seq<u8>) -> u32 {
    !castagnoli_register(bytes)
}

/// Calls `crc::crc32::checksum_castagnoli`, which inverts 0, folds each
/// byte into the value through the table made from the polynomial
/// `0x82f63b78` (`value = table[(value as u8 ^ byte)] ^ (value >> 8)`),
/// and inverts the result: `crc32c` of the bytes.
#[verifier::external_body]
fn checksum_castagnoli(bytes: &[u8]) -> (r: u32)
    ensures
        r == crc32c(bytes@),
{
    crc::crc32::checksum_castagnoli(bytes)
}

impl EnumVariant {
    /// The number that identifies the variant: the checksum of the UTF-8
    /// bytes of its name.
    pub fn hash(&self) -> (r: u32)
        ensures
            r == crc32c(vstd::utf8::encode_utf8(self.name.text@)),
    {
        let text = self.name.text.as_str();
        checksum_castagnoli(text.as_bytes())
    }
}

#[derive(Debug)]
pub struct EnumDecl {
    pub loc: Span,
    pub comment: Option<Comment>,
    pub name: Identifier,
    pub variants: Vec<EnumVariant>,
}

pub struct SpecEnumDecl {
    pub loc: Span,
    pub comment: Option<SpecComment>,
    pub name: SpecIdentifier,
    pub variants: Seq<SpecEnumVariant>,
}

impl View for EnumDecl {
    type V = SpecEnumDecl;

    open spec fn view(&self) -> SpecEnumDecl {
        SpecEnumDecl {
            loc: self.loc,
            comment: opt_comment_view(self.comment),
            name: self.name@,
            variants: self.variants@.map_values(|v: EnumVariant| v@),
        }
    }
}

#[derive(Debug)]
pub struct FunctionDecl {
    pub loc: Span,
    pub comment: Option<Comment>,
    pub name: Identifier,
    pub params: Vec<Field>,
    pub results: Vec<Field>,
    pub body: Option<NamespaceBody>,
    pub kind: Kind,
    pub side: Side,
}

#[derive(Debug)]
pub struct NamespaceDecl {
    pub loc: Span,
    pub comment: Option<Comment>,
    pub name: Identifier,
    pub body: NamespaceBody,
}

#[derive(Debug)]
pub struct NamespaceBody {
    pub functions: Vec<FunctionDecl>,
    pub structs: Vec<StructDecl>,
    pub enums: Vec<EnumDecl>,
    pub namespaces: Vec<NamespaceDecl>,
}

#[derive(Debug)]
pub enum NamespaceItem {
    Function(FunctionDecl),
    Struct(StructDecl),
    Enum(EnumDecl),
    Namespace(NamespaceDecl),
}

pub struct SpecFunctionDecl {
    pub loc: Span,
    pub comment: Option<SpecComment>,
    pub name: SpecIdentifier,
    pub params: Seq<SpecField>,
    pub results: Seq<SpecField>,
    pub body: Option<SpecNamespaceBody>,
    pub kind: Kind,
    pub side: Side,
}

pub struct SpecNamespaceDecl {
    pub loc: Span,
    pub comment: Option<SpecComment>,
    pub name: SpecIdentifier,
    pub body: SpecNamespaceBody,
}

pub struct SpecNamespaceBody {
    pub functions: Seq<SpecFunctionDecl>,
    pub structs: Seq<SpecStructDecl>,
    pub enums: Seq<SpecEnumDecl>,
    pub namespaces: Seq<SpecNamespaceDecl>,
}

pub enum SpecNamespaceItem {
    Function(SpecFunctionDecl),
    Struct(SpecStructDecl),
    Enum(SpecEnumDecl),
    Namespace(SpecNamespaceDecl),
}

pub open spec fn structs_view(v: Seq<StructDecl>) -> Seq<SpecStructDecl> {
    v.map_values(|s: StructDecl| s@)
}

pub open spec fn enums_view(v: Seq<EnumDecl>) -> Seq<SpecEnumDecl> {
    v.map_values(|e: EnumDecl| e@)
}

pub open spec fn fun_view(f: FunctionDecl) -> SpecFunctionDecl
    decreases f, 0int,
{
    SpecFunctionDecl {
        loc: f.loc,
        comment: opt_comment_view(f.comment),
        name: f.name@,
        params: fields_view(f.params@),
        results: fields_view(f.results@),
        body: match f.body {
            Some(b) => Some(body_view(b)),
            None => None,
        },
        kind: f.kind,
        side: f.side,
    }
}

pub open spec fn ns_view(n: NamespaceDecl) -> SpecNamespaceDecl
    decreases n, 0int,
{
    SpecNamespaceDecl {
        loc: n.loc,
        comment: opt_comment_view(n.comment),
        name: n.name@,
        body: body_view(n.body),
    }
}

pub open spec fn body_view(b: NamespaceBody) -> SpecNamespaceBody
    decreases b, 0int,
{
    SpecNamespaceBody {
        functions: funs_view(b.functions, b.functions.len() as int),
        structs: structs_view(b.structs@),
        enums: enums_view(b.enums@),
        namespaces: nss_view(b.namespaces, b.namespaces.len() as int),
    }
}

/// The models of the first `n` functions of `v`.
pub open spec fn funs_view(v: Vec<FunctionDecl>, n: int) -> Seq<SpecFunctionDecl>
    decreases v, n,
{
    if n <= 0 || n > v.len() {
        Seq::empty()
    } else {
        funs_view(v, n - 1).push(fun_view(v[n - 1]))
    }
}

/// The models of the first `n` namespaces of `v`.
pub open spec fn nss_view(v: Vec<NamespaceDecl>, n: int) -> Seq<SpecNamespaceDecl>
    decreases v, n,
{
    if n <= 0 || n > v.len() {
        Seq::empty()
    } else {
        nss_view(v, n - 1).push(ns_view(v[n - 1]))
    }
}

/// The models of the first `n` functions depend only on those functions.
pub proof fn lemma_funs_view_prefix(v: Vec<FunctionDecl>, w: Vec<FunctionDecl>, n: int)
    requires
        0 <= n <= v.len(),
        n <= w.len(),
        v@.subrange(0, n) == w@.subrange(0, n),
    ensures
        funs_view(v, n) == funs_view(w, n),
    decreases n,
{
    if n > 0 {
        assert(v@.subrange(0, n - 1) =~= v@.subrange(0, n).subrange(0, n - 1));
        assert(w@.subrange(0, n - 1) =~= w@.subrange(0, n).subrange(0, n - 1));
        assert(v@[n - 1] == v@.subrange(0, n)[n - 1]);
        assert(w@[n - 1] == w@.subrange(0, n)[n - 1]);
        lemma_funs_view_prefix(v, w, n - 1);
    }
}

/// The models of the first `n` namespaces depend only on those namespaces.
pub proof fn lemma_nss_view_prefix(v: Vec<NamespaceDecl>, w: Vec<NamespaceDecl>, n: int)
    requires
        0 <= n <= v.len(),
        n <= w.len(),
        v@.subrange(0, n) == w@.subrange(0, n),
    ensures
        nss_view(v, n) == nss_view(w, n),
    decreases n,
{
    if n > 0 {
        assert(v@.subrange(0, n - 1) =~= v@.subrange(0, n).subrange(0, n - 1));
        assert(w@.subrange(0, n - 1) =~= w@.subrange(0, n).subrange(0, n - 1));
        assert(v@[n - 1] == v@.subrange(0, n)[n - 1]);
        assert(w@[n - 1] == w@.subrange(0, n)[n - 1]);
        lemma_nss_view_prefix(v, w, n - 1);
    }
}

/// The model of a list of functions has one model per function, in order.
pub proof fn lemma_funs_view_index(v: Vec<FunctionDecl>, n: int)
    requires
        0 <= n <= v.len(),
    ensures
        funs_view(v, n).len() == n,
        forall|i: int| 0 <= i < n ==> #[trigger] funs_view(v, n)[i] == fun_view(v@[i]),
    decreases n,
{
    if n > 0 {
        lemma_funs_view_index(v, n - 1);
    }
}

/// The model of a list of namespaces has one model per namespace, in order.
pub proof fn lemma_nss_view_index(v: Vec<NamespaceDecl>, n: int)
    requires
        0 <= n <= v.len(),
    ensures
        nss_view(v, n).len() == n,
        forall|i: int| 0 <= i < n ==> #[trigger] nss_view(v, n)[i] == ns_view(v@[i]),
    decreases n,
{
    if n > 0 {
        lemma_nss_view_index(v, n - 1);
    }
}

impl View for FunctionDecl {
    type V = SpecFunctionDecl;

    open spec fn view(&self) -> SpecFunctionDecl {
        fun_view(*self)
    }
}

impl View for NamespaceDecl {
    type V = SpecNamespaceDecl;

    open spec fn view(&self) -> SpecNamespaceDecl {
        ns_view(*self)
    }
}

impl View for NamespaceBody {
    type V = SpecNamespaceBody;

    open spec fn view(&self) -> SpecNamespaceBody {
        body_view(*self)
    }
}

pub open spec fn item_view(i: NamespaceItem) -> SpecNamespaceItem {
    match i {
        NamespaceItem::Function(f) => SpecNamespaceItem::Function(f@),
        NamespaceItem::Struct(s) => SpecNamespaceItem::Struct(s@),
        NamespaceItem::Enum(e) => SpecNamespaceItem::Enum(e@),
        NamespaceItem::Namespace(n) => SpecNamespaceItem::Namespace(n@),
    }
}

impl View for NamespaceItem {
    type V = SpecNamespaceItem;

    open spec fn view(&self) -> SpecNamespaceItem {
        item_view(*self)
    }
}

pub open spec fn items_view(v: Seq<NamespaceItem>) -> Seq<SpecNamespaceItem> {
    v.map_values(|i: NamespaceItem| i@)
}

pub open spec fn empty_body() -> SpecNamespaceBody {
    SpecNamespaceBody {
        functions: Seq::empty(),
        structs: Seq::empty(),
        enums: Seq::empty(),
        namespaces: Seq::empty(),
    }
}

/// A body with one more item, placed at the end of the list of its kind.
pub open spec fn body_add_item(b: SpecNamespaceBody, i: SpecNamespaceItem) -> SpecNamespaceBody {
    match i {
        SpecNamespaceItem::Function(f) => SpecNamespaceBody { functions: b.functions.push(f), ..b },
        SpecNamespaceItem::Struct(s) => SpecNamespaceBody { structs: b.structs.push(s), ..b },
        SpecNamespaceItem::Enum(e) => SpecNamespaceBody { enums: b.enums.push(e), ..b },
        SpecNamespaceItem::Namespace(n) => SpecNamespaceBody {
            namespaces: b.namespaces.push(n),
            ..b
        },
    }
}

/// The body holding `items`, each kind in the order the items come.
pub open spec fn body_of_items(items: Seq<SpecNamespaceItem>) -> SpecNamespaceBody
    decreases items.len(),
{
    if items.len() == 0 {
        empty_body()
    } else {
        body_add_item(body_of_items(items.drop_last()), items.last())
    }
}

impl NamespaceBody {
    pub fn new(items: Vec<NamespaceItem>) -> (bod: NamespaceBody)
        ensures
            bod@ == body_of_items(items_view(items@)),
    {
        let mut bod = NamespaceBody {
            functions: Vec::new(),
            structs: Vec::new(),
            enums: Vec::new(),
            namespaces: Vec::new(),
        };
        let ghost all = items_view(items@);
        let mut items = items;
        proof {
            assert(structs_view(bod.structs@) =~= Seq::<SpecStructDecl>::empty());
            assert(enums_view(bod.enums@) =~= Seq::<SpecEnumDecl>::empty());
            assert(all.subrange(0, 0) =~= Seq::<SpecNamespaceItem>::empty());
            assert(all.subrange(0, all.len() as int) =~= all);
        }
        while items.len() > 0
            invariant
                items@.len() <= all.len(),
                items_view(items@) == all.subrange(all.len() - items@.len(), all.len() as int),
                body_view(bod) == body_of_items(all.subrange(0, all.len() - items@.len())),
            decreases items.len(),
        {
            let ghost k = all.len() - items@.len();
            let ghost before = items@;
            let it = items.remove(0);
            proof {
                assert(items_view(before)[0] == item_view(it));
                assert(items_view(items@) =~= items_view(before).drop_first());
                assert(all.subrange(0, k + 1).drop_last() =~= all.subrange(0, k));
            }
            bod.add_item(it);
            proof {
                assert(items_view(items@) =~= all.subrange(all.len() - items@.len(), all.len() as int));
            }
        }
        proof {
            assert(all.subrange(0, all.len() as int) =~= all);
        }
        bod
    }

    fn add_item(&mut self, item: NamespaceItem)
        ensures
            body_view(*final(self)) == body_add_item(body_view(*old(self)), item_view(item)),
    {
        match item {
            NamespaceItem::Function(i) => {
                let ghost before = self.functions;
                self.functions.push(i);
                proof {
                    assert(self.functions@.subrange(0, before.len() as int) =~= before@.subrange(
                        0,
                        before.len() as int,
                    ));
                    lemma_funs_view_prefix(self.functions, before, before.len() as int);
                }
            },
            NamespaceItem::Struct(i) => {
                self.structs.push(i);
                assert(structs_view(self.structs@) =~= structs_view(old(self).structs@).push(i@));
            },
            NamespaceItem::Enum(i) => {
                self.enums.push(i);
                assert(enums_view(self.enums@) =~= enums_view(old(self).enums@).push(i@));
            },
            NamespaceItem::Namespace(i) => {
                let ghost before = self.namespaces;
                self.namespaces.push(i);
                proof {
                    assert(self.namespaces@.subrange(0, before.len() as int) =~= before@.subrange(
                        0,
                        before.len() as int,
                    ));
                    lemma_nss_view_prefix(self.namespaces, before, before.len() as int);
                }
            },
        }
    }
}

/// A parsed schema file.
#[derive(Debug)]
pub struct Schema {
    pub loc: Span,
    pub imports: Vec<Import>,
    pub body: NamespaceBody,
}

pub struct SpecSchema {
    pub loc: Span,
    pub imports: Seq<SpecImport>,
    pub body: SpecNamespaceBody,
}

impl View for Schema {
    type V = SpecSchema;

    open spec fn view(&self) -> SpecSchema {
        SpecSchema { loc: self.loc, imports: imports_view(self.imports@), body: self.body@ }
    }
}

impl Schema {
    pub fn new(loc: Span, imports: Vec<Import>, body: NamespaceBody) -> (s: Schema)
        ensures
            s.loc == loc,
            s.imports@ == imports@,
            s.body == body,
    {
        Schema { loc, imports, body }
    }
}

impl NamespaceDecl {
    pub fn new(name: Identifier, loc: Span, comment: Option<Comment>, body: NamespaceBody) -> (n:
        NamespaceDecl)
        ensures
            n.name == name,
            n.loc == loc,
            n.comment == comment,
            n.body == body,
    {
        NamespaceDecl { name, loc, comment, body }
    }
}

/// The extension of schema files.
pub const LAVISH_EXT: &'static str = ".lavish";

/// The directory of a workspace that holds fetched schemas.
pub const VENDOR_DIR: &'static str = "lavish-vendor";

/// The name of the file that holds the schema `name`.
pub fn schema_file_name(name: &str) -> (r: String)
    ensures
        r@ == name@ + ".lavish"@,
{
    let mut r = String::from_str(name);
    r.append(LAVISH_EXT);
    r
}

/// What is reported when the file of schema `name` is neither in the
/// workspace nor among the fetched schemas.
pub fn schema_not_found(name: &str) -> (r: String)
    ensures
        r@ == name@ + " not found. Try running `lavish fetch`"@,
{
    let mut r = String::from_str(name);
    r.append(" not found. Try running `lavish fetch`");
    r
}

} // verus!
