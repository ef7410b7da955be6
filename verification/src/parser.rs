//! The parser of lavish schemas and rules files.  Each parsing function gives,
//! at the position it is called at, exactly what its rule in
//! [`crate::grammar`] gives.
use crate::ast::{
    body_of_items, fields_view, imports_view, items_view, builds_view, opt_comment_view,
    opt_from_view, spec_wrapper_of, BaseType, Build, Comment, Field, FromDirective, FunctionDecl,
    GoTarget, Identifier, Import, Kind, NamespaceBody, NamespaceDecl, NamespaceItem, Rules,
    RustTarget, RustTargetItem, RustTargetWrapper, Schema, Side, Span, SpecBuild, SpecComment,
    SpecField, SpecFromDirective, SpecFunctionDecl, SpecIdentifier, SpecImport, SpecNamespaceBody,
    SpecNamespaceDecl, SpecNamespaceItem, SpecRules, SpecSchema, SpecStringLiteral,
    SpecStructDecl, SpecType, StringLiteral, StructDecl, Target, Type, TypeKind, ArrayType,
    OptionType, MapType, TypeScriptTarget, strings_view,
};
use crate::grammar::{
    base_keyword, comma_end, comments_end, cut, fail, fatal, find_nl, has_char, has_tag,
    in_class, moves, rest_span, run_len, sp, spaced_comments_end, spec_arraytyp, spec_basetyp,
    spec_brace_fields, spec_build, spec_builds, spec_comment, spec_comment_line, spec_decl_head,
    spec_field, spec_field_type, spec_fields, spec_fndecl, spec_from, spec_ident, spec_import,
    spec_imports, spec_items, spec_maptyp, spec_more_comment_lines, spec_more_fields,
    spec_named_from, spec_notifdecl, spec_nsbody, spec_nsdecl, spec_nsitem, spec_opt_comment,
    spec_opt_from, spec_opt_results, spec_opt_rust_body, spec_optiontyp, spec_paren_fields,
    spec_results, spec_rules, spec_rust_items, spec_rust_target, spec_schema, spec_side,
    spec_signature, spec_spaced_tag, spec_stringlit, spec_structdecl, spec_target, spec_typ,
    spec_usertyp, spec_wrapped_typ, spec_wrapper, stuck, CharClass, ErrorKind, ParseError, SRes,
    Context, ContextEntry, SpecParseError, failure, in_ctx,
};
use vstd::prelude::*;
use crate::output::push_char;

verus! {

/// The mathematical value of a parsing result.
pub trait Model {
    type M;

    spec fn model(&self) -> Self::M;
}

impl Model for String {
    type M = Seq<char>;

    open spec fn model(&self) -> Seq<char> {
        self@
    }
}

impl Model for Vec<String> {
    type M = Seq<Seq<char>>;

    open spec fn model(&self) -> Seq<Seq<char>> {
        strings_view(self@)
    }
}

impl Model for Comment {
    type M = SpecComment;

    open spec fn model(&self) -> SpecComment {
        self@
    }
}

impl Model for Option<Comment> {
    type M = Option<SpecComment>;

    open spec fn model(&self) -> Option<SpecComment> {
        opt_comment_view(*self)
    }
}

impl Model for Identifier {
    type M = SpecIdentifier;

    open spec fn model(&self) -> SpecIdentifier {
        self@
    }
}

impl Model for StringLiteral {
    type M = SpecStringLiteral;

    open spec fn model(&self) -> SpecStringLiteral {
        self@
    }
}

impl Model for Type {
    type M = SpecType;

    open spec fn model(&self) -> SpecType {
        self@
    }
}

impl Model for Field {
    type M = SpecField;

    open spec fn model(&self) -> SpecField {
        self@
    }
}

impl Model for Vec<Field> {
    type M = Seq<SpecField>;

    open spec fn model(&self) -> Seq<SpecField> {
        fields_view(self@)
    }
}

impl Model for Side {
    type M = Side;

    open spec fn model(&self) -> Side {
        *self
    }
}

impl Model for Span {
    type M = Span;

    open spec fn model(&self) -> Span {
        *self
    }
}

impl Model for () {
    type M = ();

    open spec fn model(&self) -> () {
        ()
    }
}

impl<A: Model, B: Model> Model for (A, B) {
    type M = (A::M, B::M);

    open spec fn model(&self) -> (A::M, B::M) {
        (self.0.model(), self.1.model())
    }
}

impl<A: Model, B: Model, C: Model> Model for (A, B, C) {
    type M = (A::M, B::M, C::M);

    open spec fn model(&self) -> (A::M, B::M, C::M) {
        (self.0.model(), self.1.model(), self.2.model())
    }
}

impl Model for FunctionDecl {
    type M = SpecFunctionDecl;

    open spec fn model(&self) -> SpecFunctionDecl {
        self@
    }
}

impl Model for StructDecl {
    type M = SpecStructDecl;

    open spec fn model(&self) -> SpecStructDecl {
        self@
    }
}

impl Model for NamespaceDecl {
    type M = SpecNamespaceDecl;

    open spec fn model(&self) -> SpecNamespaceDecl {
        self@
    }
}

impl Model for NamespaceBody {
    type M = SpecNamespaceBody;

    open spec fn model(&self) -> SpecNamespaceBody {
        self@
    }
}

impl Model for Option<NamespaceItem> {
    type M = Option<SpecNamespaceItem>;

    open spec fn model(&self) -> Option<SpecNamespaceItem> {
        match self {
            Some(i) => Some(i@),
            None => None,
        }
    }
}

impl Model for Vec<NamespaceItem> {
    type M = Seq<SpecNamespaceItem>;

    open spec fn model(&self) -> Seq<SpecNamespaceItem> {
        items_view(self@)
    }
}

impl Model for FromDirective {
    type M = SpecFromDirective;

    open spec fn model(&self) -> SpecFromDirective {
        self@
    }
}

impl Model for Option<FromDirective> {
    type M = Option<SpecFromDirective>;

    open spec fn model(&self) -> Option<SpecFromDirective> {
        opt_from_view(*self)
    }
}

impl Model for Import {
    type M = SpecImport;

    open spec fn model(&self) -> SpecImport {
        self@
    }
}

impl Model for Vec<Import> {
    type M = Seq<SpecImport>;

    open spec fn model(&self) -> Seq<SpecImport> {
        imports_view(self@)
    }
}

impl Model for Build {
    type M = SpecBuild;

    open spec fn model(&self) -> SpecBuild {
        self@
    }
}

impl Model for Vec<Build> {
    type M = Seq<SpecBuild>;

    open spec fn model(&self) -> Seq<SpecBuild> {
        builds_view(self@)
    }
}

impl Model for RustTargetWrapper {
    type M = RustTargetWrapper;

    open spec fn model(&self) -> RustTargetWrapper {
        *self
    }
}

impl Model for Vec<RustTargetItem> {
    type M = Seq<RustTargetItem>;

    open spec fn model(&self) -> Seq<RustTargetItem> {
        self@
    }
}

impl Model for RustTarget {
    type M = RustTarget;

    open spec fn model(&self) -> RustTarget {
        *self
    }
}

impl Model for Target {
    type M = Target;

    open spec fn model(&self) -> Target {
        *self
    }
}

/// What a parsing function gives: the position where it stops and its value.
pub type PResult<T> = Result<(usize, T), ParseError>;

pub open spec fn rmodel<T: Model>(r: PResult<T>) -> SRes<T::M> {
    match r {
        Ok((p, v)) => Ok((p as int, v.model())),
        Err(e) => Err(e@),
    }
}

/// A success stops between `pos` and the end of input.
pub open spec fn within<T>(r: PResult<T>, pos: usize, len: usize) -> bool {
    r matches Ok((p, _)) ==> pos <= p <= len
}

fn fail_at<T: Model>(pos: usize, kind: ErrorKind) -> (r: PResult<T>)
    ensures
        rmodel(r) == fail::<T::M>(pos as int, kind),
        r is Err,
{
    Err(ParseError { fatal: false, pos, kind, contexts: Vec::new() })
}

fn fatal_at<T: Model>(pos: usize, kind: ErrorKind) -> (r: PResult<T>)
    ensures
        rmodel(r) == Err::<(int, T::M), SpecParseError>(failure(true, pos as int, kind)),
        r is Err,
{
    Err(ParseError { fatal: true, pos, kind, contexts: Vec::new() })
}

/// The failure `e`, inside the construct `c` that starts at `pos`.
fn in_ctx_exec(c: Context, pos: usize, e: ParseError) -> (r: ParseError)
    ensures
        r@ == in_ctx(c, pos as int, e@),
{
    let mut e = e;
    e.contexts.push(ContextEntry { pos, context: c });
    e
}

/// The failure `e`, made fatal.
fn fatal_exec(e: ParseError) -> (r: ParseError)
    ensures
        r@ == fatal(e@),
{
    ParseError { fatal: true, pos: e.pos, kind: e.kind, contexts: e.contexts }
}

fn cut_exec<T: Model>(r: PResult<T>) -> (c: PResult<T>)
    ensures
        rmodel(c) == cut(rmodel(r)),
        r matches Ok((p, _)) ==> c matches Ok((q, _)) && p == q,
{
    match r {
        Ok(v) => Ok(v),
        Err(e) => Err(fatal_exec(e)),
    }
}

/// A failure that lets the caller try something else.
fn recoverable<T>(r: &PResult<T>) -> (b: bool)
    ensures
        b == (r matches Err(e) && !e.fatal),
{
    match r {
        Err(e) => !e.fatal,
        Ok(_) => false,
    }
}

fn in_class_exec(cls: CharClass, c: char) -> (b: bool)
    ensures
        b == in_class(cls, c),
{
    let alnum = ('a' <= c && c <= 'z') || ('A' <= c && c <= 'Z') || ('0' <= c && c <= '9');
    match cls {
        CharClass::Space => c == ' ' || c == '\t' || c == '\r' || c == '\n',
        CharClass::LineSpace => c == ' ' || c == '\t',
        CharClass::Ident => alnum || c == '_',
        CharClass::UserType => alnum || c == '_' || c == '.',
        CharClass::StrLit => alnum || c == '_' || c == '-' || c == '.' || c == '/',
    }
}

/// Length of the run of `cls` characters at `pos`.
pub fn run(s: &Vec<char>, pos: usize, cls: CharClass) -> (n: usize)
    requires
        pos <= s.len(),
    ensures
        n == run_len(s@, pos as int, cls),
        pos + n <= s.len(),
{
    let mut i = pos;
    while i < s.len() && in_class_exec(cls, s[i])
        invariant
            pos <= i <= s.len(),
            run_len(s@, pos as int, cls) == (i - pos) + run_len(s@, i as int, cls),
        decreases s.len() - i,
    {
        i = i + 1;
    }
    i - pos
}

/// Position after the whitespace at `pos`.
pub fn skip_sp(s: &Vec<char>, pos: usize) -> (p: usize)
    requires
        pos <= s.len(),
    ensures
        p == sp(s@, pos as int),
        pos <= p <= s.len(),
{
    pos + run(s, pos, CharClass::Space)
}

/// Whether the keyword `t` stands at `pos`.
pub fn tag(s: &Vec<char>, pos: usize, t: &str) -> (b: bool)
    requires
        pos <= s.len(),
    ensures
        b == has_tag(s@, pos as int, t@),
{
    let n = t.unicode_len();
    if n > s.len() - pos {
        return false;
    }
    let mut i: usize = 0;
    while i < n
        invariant
            n == t@.len(),
            pos + n <= s.len(),
            i <= n,
            forall|j: int| 0 <= j < i ==> s@[pos + j] == t@[j],
        decreases n - i,
    {
        if s[pos + i] != t.get_char(i) {
            assert(s@.subrange(pos as int, pos + n)[i as int] != t@[i as int]);
            return false;
        }
        i = i + 1;
    }
    assert(s@.subrange(pos as int, pos + n) =~= t@);
    true
}

/// Whether the character `c` stands at `pos`.
pub fn char_at(s: &Vec<char>, pos: usize, c: char) -> (b: bool)
    ensures
        b == has_char(s@, pos as int, c),
{
    pos < s.len() && s[pos] == c
}

/// The text between two positions.
pub fn substring(s: &Vec<char>, from: usize, to: usize) -> (r: String)
    requires
        from <= to <= s.len(),
    ensures
        r@ == s@.subrange(from as int, to as int),
{
    let mut r = String::new();
    let mut i = from;
    while i < to
        invariant
            from <= i <= to <= s.len(),
            r@ == s@.subrange(from as int, i as int),
        decreases to - i,
    {
        push_char(&mut r, s[i]);
        assert(s@.subrange(from as int, i + 1) =~= s@.subrange(from as int, i as int).push(
            s@[i as int],
        ));
        i = i + 1;
    }
    r
}

fn next_nl(s: &Vec<char>, pos: usize) -> (r: Option<usize>)
    requires
        pos <= s.len(),
    ensures
        r matches Some(k) ==> find_nl(s@, pos as int) == Some(k as int) && pos <= k < s.len(),
        r is None ==> find_nl(s@, pos as int) is None,
{
    let mut i = pos;
    while i < s.len()
        invariant
            pos <= i <= s.len(),
            find_nl(s@, pos as int) == find_nl(s@, i as int),
        decreases s.len() - i,
    {
        if s[i] == '\n' {
            return Some(i);
        }
        i = i + 1;
    }
    None
}

pub fn p_ident(s: &Vec<char>, pos: usize) -> (r: PResult<Identifier>)
    requires
        pos <= s.len(),
    ensures
        rmodel(r) == spec_ident(s@, pos as int),
        within(r, pos, s.len()),
{
    let n = run(s, pos, CharClass::Ident);
    if n == 0 {
        return fail_at(pos, ErrorKind::TakeWhile1);
    }
    let text = substring(s, pos, pos + n);
    Ok((pos + n, Identifier { span: Span { offset: pos, len: n }, text }))
}

pub fn p_stringlit(s: &Vec<char>, pos: usize) -> (r: PResult<StringLiteral>)
    requires
        pos <= s.len(),
    ensures
        rmodel(r) == spec_stringlit(s@, pos as int),
        within(r, pos, s.len()),
{
    if !char_at(s, pos, '"') {
        return fail_at(pos, ErrorKind::Char('"'));
    }
    let n = run(s, pos + 1, CharClass::StrLit);
    if n == 0 {
        return fail_at(pos + 1, ErrorKind::TakeWhile1);
    }
    if !char_at(s, pos + 1 + n, '"') {
        return fail_at(pos + 1 + n, ErrorKind::Char('"'));
    }
    let value = substring(s, pos + 1, pos + 1 + n);
    Ok((pos + n + 2, StringLiteral { loc: Span { offset: pos, len: 0 }, value }))
}

pub fn p_comment_line(s: &Vec<char>, pos: usize) -> (r: PResult<String>)
    requires
        pos <= s.len(),
    ensures
        rmodel(r) == spec_comment_line(s@, pos as int),
        within(r, pos, s.len()),
        r matches Ok((p, _)) ==> pos < p,
{
    let p0 = skip_sp(s, pos);
    if !tag(s, p0, "//") {
        return fail_at(p0, ErrorKind::Tag);
    }
    proof {
        reveal_strlit("//");
    }
    let p2 = p0 + 2 + run(s, p0 + 2, CharClass::LineSpace);
    match next_nl(s, p2) {
        None => fail_at(p2, ErrorKind::TakeUntil),
        Some(k) => {
            let text = substring(s, p2, k);
            Ok((k, text))
        },
    }
}

fn prepend<T>(x: T, v: Vec<T>) -> (r: Vec<T>)
    ensures
        r@ == seq![x] + v@,
{
    let mut r = Vec::new();
    r.push(x);
    let mut v = v;
    r.append(&mut v);
    r
}

fn p_more_comment_lines(s: &Vec<char>, pos: usize) -> (r: PResult<Vec<String>>)
    requires
        pos <= s.len(),
    ensures
        rmodel(r) == spec_more_comment_lines(s@, pos as int),
        within(r, pos, s.len()),
    decreases s.len() - pos,
{
    match p_comment_line(s, pos) {
        Err(e) => {
            if e.fatal {
                Err(e)
            } else {
                let v: Vec<String> = Vec::new();
                assert(strings_view(v@) =~= Seq::empty());
                Ok((pos, v))
            }
        },
        Ok((p1, line)) => {
            match p_more_comment_lines(s, p1) {
                Err(e) => Err(e),
                Ok((p2, lines)) => {
                    let ghost lv = lines@;
                    let ghost l = line;
                    let all = prepend(line, lines);
                    assert(strings_view(all@) =~= seq![l@] + strings_view(lv));
                    Ok((p2, all))
                },
            }
        },
    }
}

pub fn p_comment(s: &Vec<char>, pos: usize) -> (r: PResult<Comment>)
    requires
        pos <= s.len(),
    ensures
        rmodel(r) == spec_comment(s@, pos as int),
        within(r, pos, s.len()),
{
    match p_comment_line(s, pos) {
        Err(e) => {
            if e.fatal {
                Err(e)
            } else {
                fail_at(pos, ErrorKind::Many1)
            }
        },
        Ok((p1, line)) => {
            match p_more_comment_lines(s, p1) {
                Err(e) => Err(e),
                Ok((p2, lines)) => {
                    let ghost lv = lines@;
                    let ghost l = line;
                    let all = prepend(line, lines);
                    assert(strings_view(all@) =~= seq![l@] + strings_view(lv));
                    Ok((p2, Comment { lines: all }))
                },
            }
        },
    }
}

pub fn p_opt_comment(s: &Vec<char>, pos: usize) -> (r: PResult<Option<Comment>>)
    requires
        pos <= s.len(),
    ensures
        rmodel(r) == spec_opt_comment(s@, pos as int),
        within(r, pos, s.len()),
{
    match p_comment(s, pos) {
        Ok((p, c)) => Ok((p, Some(c))),
        Err(e) => {
            if e.fatal {
                Err(e)
            } else {
                Ok((pos, None))
            }
        },
    }
}

/// Position after comment lines, each with blanks around it.
pub fn spaced_comments(s: &Vec<char>, pos: usize) -> (p: usize)
    requires
        pos <= s.len(),
    ensures
        p == spaced_comments_end(s@, pos as int),
        pos <= p <= s.len(),
    decreases s.len() - pos,
{
    let p0 = skip_sp(s, pos);
    match p_comment_line(s, p0) {
        Ok((p1, _)) => {
            let p2 = skip_sp(s, p1);
            spaced_comments(s, p2)
        },
        Err(_) => pos,
    }
}

/// Position after comment lines.
pub fn comments(s: &Vec<char>, pos: usize) -> (p: usize)
    requires
        pos <= s.len(),
    ensures
        p == comments_end(s@, pos as int),
        pos <= p <= s.len(),
    decreases s.len() - pos,
{
    match p_comment_line(s, pos) {
        Ok((p1, _)) => comments(s, p1),
        Err(_) => pos,
    }
}

fn base_kw(s: &Vec<char>, pos: usize) -> (r: Option<(&'static str, BaseType)>)
    requires
        pos <= s.len(),
    ensures
        match r {
            Some((kw, b)) => base_keyword(s@, pos as int) == Some((kw@, b)),
            None => base_keyword(s@, pos as int) is None,
        },
{
    if tag(s, pos, "bool") {
        Some(("bool", BaseType::Bool))
    } else if tag(s, pos, "int32") {
        Some(("int32", BaseType::Int32))
    } else if tag(s, pos, "int64") {
        Some(("int64", BaseType::Int64))
    } else if tag(s, pos, "uint32") {
        Some(("uint32", BaseType::UInt32))
    } else if tag(s, pos, "uint64") {
        Some(("uint64", BaseType::UInt64))
    } else if tag(s, pos, "float32") {
        Some(("float32", BaseType::Float32))
    } else if tag(s, pos, "float64") {
        Some(("float64", BaseType::Float64))
    } else if tag(s, pos, "string") {
        Some(("string", BaseType::String))
    } else if tag(s, pos, "bytes") {
        Some(("bytes", BaseType::Bytes))
    } else if tag(s, pos, "timestamp") {
        Some(("timestamp", BaseType::Timestamp))
    } else {
        None
    }
}

pub fn p_basetyp(s: &Vec<char>, pos: usize) -> (r: PResult<Type>)
    requires
        pos <= s.len(),
    ensures
        rmodel(r) == spec_basetyp(s@, pos as int),
        within(r, pos, s.len()),
{
    let p0 = skip_sp(s, pos);
    match base_kw(s, p0) {
        None => fail_at(p0, ErrorKind::Tag),
        Some((kw, b)) => {
            let n = kw.unicode_len();
            let p1 = skip_sp(s, p0 + n);
            let text = String::from_str(kw);
            Ok((p1, Type { span: Span { offset: p0, len: n }, text, kind: TypeKind::Base(b) }))
        },
    }
}

pub fn p_usertyp(s: &Vec<char>, pos: usize) -> (r: PResult<Type>)
    requires
        pos <= s.len(),
    ensures
        rmodel(r) == spec_usertyp(s@, pos as int),
        within(r, pos, s.len()),
{
    let n = run(s, pos, CharClass::UserType);
    if n == 0 {
        return fail_at(pos, ErrorKind::TakeWhile1);
    }
    let text = substring(s, pos, pos + n);
    Ok((pos + n, Type { span: Span { offset: pos, len: n }, text, kind: TypeKind::User }))
}

fn p_wrapped_typ(s: &Vec<char>, pos: usize, kw: &str) -> (r: PResult<Type>)
    requires
        pos <= s.len(),
    ensures
        rmodel(r) == spec_wrapped_typ(s@, pos as int, kw@),
        within(r, pos, s.len()),
    decreases s.len() - pos, 1int,
{
    let p0 = skip_sp(s, pos);
    if !tag(s, p0, kw) {
        return fail_at(p0, ErrorKind::Tag);
    }
    let n = kw.unicode_len();
    let p1 = skip_sp(s, p0 + n);
    let p1 = skip_sp(s, p1);
    if !char_at(s, p1, '<') {
        return fail_at(p1, ErrorKind::Char('<'));
    }
    let p2 = skip_sp(s, p1 + 1);
    match p_typ(s, p2) {
        Err(e) => Err(e),
        Ok((p3, t)) => {
            let p4 = skip_sp(s, p3);
            if !char_at(s, p4, '>') {
                return fail_at(p4, ErrorKind::Char('>'));
            }
            Ok((skip_sp(s, p4 + 1), t))
        },
    }
}

fn rest_of(s: &Vec<char>, pos: usize) -> (r: (Span, String))
    requires
        pos <= s.len(),
    ensures
        rest_span(s@, pos as int) == (r.0, r.1@),
{
    (Span { offset: pos, len: s.len() - pos }, substring(s, pos, s.len()))
}

pub fn p_maptyp(s: &Vec<char>, pos: usize) -> (r: PResult<Type>)
    requires
        pos <= s.len(),
    ensures
        rmodel(r) == spec_maptyp(s@, pos as int),
        within(r, pos, s.len()),
    decreases s.len() - pos, 1int,
{
    let p0 = skip_sp(s, pos);
    if !tag(s, p0, "Map") {
        return fail_at(p0, ErrorKind::Tag);
    }
    proof {
        reveal_strlit("Map");
    }
    let p1 = skip_sp(s, p0 + 3);
    let p1 = skip_sp(s, p1);
    if !char_at(s, p1, '<') {
        return fail_at(p1, ErrorKind::Char('<'));
    }
    let a = skip_sp(s, p1 + 1);
    let a = skip_sp(s, a);
    let (b, k) = match p_typ(s, a) {
        Err(e) => return Err(e),
        Ok(v) => v,
    };
    let b2 = skip_sp(s, b);
    if !char_at(s, b2, ',') {
        return fail_at(b2, ErrorKind::Char(','));
    }
    let c = skip_sp(s, b2 + 1);
    let (d, v) = match p_typ(s, c) {
        Err(e) => return Err(e),
        Ok(v) => v,
    };
    let d2 = skip_sp(s, d);
    let d2 = skip_sp(s, d2);
    if !char_at(s, d2, '>') {
        return fail_at(d2, ErrorKind::Char('>'));
    }
    let (span, text) = rest_of(s, pos);
    Ok(
        (
            skip_sp(s, d2 + 1),
            Type {
                span,
                text,
                kind: TypeKind::Mapping(MapType { keys: Box::new(k), values: Box::new(v) }),
            },
        ),
    )
}

pub fn p_arraytyp(s: &Vec<char>, pos: usize) -> (r: PResult<Type>)
    requires
        pos <= s.len(),
    ensures
        rmodel(r) == spec_arraytyp(s@, pos as int),
        within(r, pos, s.len()),
    decreases s.len() - pos, 2int,
{
    match p_wrapped_typ(s, pos, "Array") {
        Err(e) => Err(e),
        Ok((p, t)) => {
            let (span, text) = rest_of(s, pos);
            Ok((p, Type { span, text, kind: TypeKind::Array(ArrayType { inner: Box::new(t) }) }))
        },
    }
}

pub fn p_optiontyp(s: &Vec<char>, pos: usize) -> (r: PResult<Type>)
    requires
        pos <= s.len(),
    ensures
        rmodel(r) == spec_optiontyp(s@, pos as int),
        within(r, pos, s.len()),
    decreases s.len() - pos, 2int,
{
    match p_wrapped_typ(s, pos, "Option") {
        Err(e) => Err(e),
        Ok((p, t)) => {
            let (span, text) = rest_of(s, pos);
            Ok((p, Type { span, text, kind: TypeKind::Option(OptionType { inner: Box::new(t) }) }))
        },
    }
}

/// Any type.
pub fn p_typ(s: &Vec<char>, pos: usize) -> (r: PResult<Type>)
    requires
        pos <= s.len(),
    ensures
        rmodel(r) == spec_typ(s@, pos as int),
        within(r, pos, s.len()),
    decreases s.len() - pos, 3int,
{
    let r = p_maptyp(s, pos);
    if !recoverable(&r) {
        return r;
    }
    let r = p_arraytyp(s, pos);
    if !recoverable(&r) {
        return r;
    }
    let r = p_optiontyp(s, pos);
    if !recoverable(&r) {
        return r;
    }
    let r = p_basetyp(s, pos);
    if !recoverable(&r) {
        return r;
    }
    p_usertyp(s, pos)
}

fn p_field_type(s: &Vec<char>, pos: usize) -> (r: PResult<Type>)
    requires
        pos <= s.len(),
    ensures
        rmodel(r) == spec_field_type(s@, pos as int),
        within(r, pos, s.len()),
{
    let q = skip_sp(s, pos);
    if !char_at(s, q, ':') {
        return fail_at(q, ErrorKind::Char(':'));
    }
    let q2 = skip_sp(s, q + 1);
    let q2 = skip_sp(s, q2);
    match p_typ(s, q2) {
        Err(e) => Err(e),
        Ok((p, t)) => Ok((skip_sp(s, p), t)),
    }
}

/// A field: `[comment] name: type`.
pub fn p_field(s: &Vec<char>, pos: usize) -> (r: PResult<Field>)
    requires
        pos <= s.len(),
    ensures
        rmodel(r) == spec_field(s@, pos as int),
        within(r, pos, s.len()),
{
    let (p1, comment) = match p_opt_comment(s, pos) {
        Err(e) => return Err(e),
        Ok(v) => v,
    };
    let p2 = skip_sp(s, p1);
    let loc = Span { offset: p2, len: 0 };
    let p3 = skip_sp(s, p2);
    let p3 = skip_sp(s, p3);
    let (q, name) = match p_ident(s, p3) {
        Err(e) => return Err(e),
        Ok(v) => v,
    };
    let q2 = skip_sp(s, q);
    let q2 = skip_sp(s, q2);
    match cut_exec(p_field_type(s, q2)) {
        Err(e) => Err(in_ctx_exec(Context::Field, q2, e)),
        Ok((q3, typ)) => Ok((skip_sp(s, q3), Field { loc, comment, name, typ })),
    }
}

fn p_comma(s: &Vec<char>, pos: usize) -> (r: Option<usize>)
    requires
        pos <= s.len(),
    ensures
        match r {
            Some(q) => comma_end(s@, pos as int) == Some(q as int) && pos < q <= s.len(),
            None => comma_end(s@, pos as int) is None,
        },
{
    let p0 = skip_sp(s, pos);
    if char_at(s, p0, ',') {
        Some(skip_sp(s, p0 + 1))
    } else {
        None
    }
}

fn p_more_fields(s: &Vec<char>, pos: usize) -> (r: PResult<Vec<Field>>)
    requires
        pos <= s.len(),
    ensures
        rmodel(r) == spec_more_fields(s@, pos as int),
        within(r, pos, s.len()),
    decreases s.len() - pos,
{
    let empty: Vec<Field> = Vec::new();
    assert(fields_view(empty@) =~= Seq::empty());
    match p_comma(s, pos) {
        None => Ok((pos, empty)),
        Some(p1) => {
            match p_field(s, p1) {
                Err(e) => {
                    if e.fatal {
                        Err(e)
                    } else {
                        Ok((pos, empty))
                    }
                },
                Ok((p2, f)) => {
                    match p_more_fields(s, p2) {
                        Err(e) => Err(e),
                        Ok((p3, fs)) => {
                            let ghost fv = fs@;
                            let ghost f0 = f;
                            let all = prepend(f, fs);
                            assert(fields_view(all@) =~= seq![f0@] + fields_view(fv));
                            Ok((p3, all))
                        },
                    }
                },
            }
        },
    }
}

/// Fields separated by commas, with an optional trailing comma.
pub fn p_fields(s: &Vec<char>, pos: usize) -> (r: PResult<Vec<Field>>)
    requires
        pos <= s.len(),
    ensures
        rmodel(r) == spec_fields(s@, pos as int),
        within(r, pos, s.len()),
{
    let empty: Vec<Field> = Vec::new();
    assert(fields_view(empty@) =~= Seq::empty());
    let (p, fs) = match p_field(s, pos) {
        Err(e) => {
            if e.fatal {
                return Err(e);
            } else {
                (pos, empty)
            }
        },
        Ok((p1, f)) => {
            if p1 <= pos {
                return fail_at(p1, ErrorKind::SeparatedList);
            }
            match p_more_fields(s, p1) {
                Err(e) => return Err(e),
                Ok((p2, fs)) => {
                    let ghost fv = fs@;
                    let ghost f0 = f;
                    let all = prepend(f, fs);
                    assert(fields_view(all@) =~= seq![f0@] + fields_view(fv));
                    (p2, all)
                },
            }
        },
    };
    match p_comma(s, p) {
        Some(q) => Ok((q, fs)),
        None => Ok((p, fs)),
    }
}

fn p_paren_fields(s: &Vec<char>, pos: usize) -> (r: PResult<Vec<Field>>)
    requires
        pos <= s.len(),
    ensures
        rmodel(r) == spec_paren_fields(s@, pos as int),
        within(r, pos, s.len()),
{
    if !char_at(s, pos, '(') {
        return fail_at(pos, ErrorKind::Char('('));
    }
    match p_fields(s, pos + 1) {
        Err(e) => Err(e),
        Ok((p, fs)) => {
            let q = skip_sp(s, p);
            if !char_at(s, q, ')') {
                return fail_at(q, ErrorKind::Char(')'));
            }
            Ok((q + 1, fs))
        },
    }
}

fn p_brace_fields(s: &Vec<char>, pos: usize) -> (r: PResult<Vec<Field>>)
    requires
        pos <= s.len(),
    ensures
        rmodel(r) == spec_brace_fields(s@, pos as int),
        within(r, pos, s.len()),
{
    if !char_at(s, pos, '{') {
        return fail_at(pos, ErrorKind::Char('{'));
    }
    match p_fields(s, pos + 1) {
        Err(e) => Err(e),
        Ok((p, fs)) => {
            let q = skip_sp(s, p);
            if !char_at(s, q, '}') {
                return fail_at(q, ErrorKind::Char('}'));
            }
            Ok((q + 1, fs))
        },
    }
}

pub fn p_side(s: &Vec<char>, pos: usize) -> (r: PResult<Side>)
    requires
        pos <= s.len(),
    ensures
        rmodel(r) == spec_side(s@, pos as int),
        within(r, pos, s.len()),
{
    proof {
        reveal_strlit("server");
        reveal_strlit("client");
    }
    if tag(s, pos, "server") {
        Ok((pos + 6, Side::Server))
    } else if tag(s, pos, "client") {
        Ok((pos + 6, Side::Client))
    } else {
        fail_at(pos, ErrorKind::Tag)
    }
}

fn p_results(s: &Vec<char>, pos: usize) -> (r: PResult<Vec<Field>>)
    requires
        pos <= s.len(),
    ensures
        rmodel(r) == spec_results(s@, pos as int),
        within(r, pos, s.len()),
{
    let p0 = skip_sp(s, pos);
    if !tag(s, p0, "->") {
        return fail_at(p0, ErrorKind::Tag);
    }
    proof {
        reveal_strlit("->");
    }
    let p1 = skip_sp(s, p0 + 2);
    match p_paren_fields(s, p1) {
        Ok(v) => Ok(v),
        Err(e) => Err(in_ctx_exec(Context::ResultList, p1, fatal_exec(e))),
    }
}

fn p_opt_results(s: &Vec<char>, pos: usize) -> (r: PResult<Vec<Field>>)
    requires
        pos <= s.len(),
    ensures
        rmodel(r) == spec_opt_results(s@, pos as int),
        within(r, pos, s.len()),
{
    match p_results(s, pos) {
        Ok(v) => Ok(v),
        Err(e) => {
            if e.fatal {
                Err(e)
            } else {
                let empty: Vec<Field> = Vec::new();
                assert(fields_view(empty@) =~= Seq::empty());
                Ok((pos, empty))
            }
        },
    }
}

fn p_decl_head(s: &Vec<char>, pos: usize, kw: &str) -> (r: PResult<(Option<Comment>, Side, Span)>)
    requires
        pos <= s.len(),
    ensures
        rmodel(r) == spec_decl_head(s@, pos as int, kw@),
        within(r, pos, s.len()),
{
    let (p1, comment) = match p_opt_comment(s, pos) {
        Err(e) => return Err(e),
        Ok(v) => v,
    };
    let (p2, side) = match p_side(s, p1) {
        Err(e) => return Err(e),
        Ok(v) => v,
    };
    let q = skip_sp(s, p2);
    if !tag(s, q, kw) {
        return fail_at(q, ErrorKind::Tag);
    }
    let n = kw.unicode_len();
    let p3 = skip_sp(s, q + n);
    let p3 = skip_sp(s, p3);
    Ok((skip_sp(s, p3), (comment, side, Span { offset: p3, len: 0 })))
}

fn p_signature(s: &Vec<char>, pos: usize) -> (r: PResult<(Identifier, Vec<Field>)>)
    requires
        pos <= s.len(),
    ensures
        rmodel(r) == spec_signature(s@, pos as int),
        within(r, pos, s.len()),
{
    let a = skip_sp(s, pos);
    let (b, name) = match p_ident(s, a) {
        Err(e) => return Err(e),
        Ok(v) => v,
    };
    let c = skip_sp(s, b);
    match p_paren_fields(s, c) {
        Err(e) => Err(in_ctx_exec(Context::ParameterList, c, e)),
        Ok((e, params)) => Ok((e, (name, params))),
    }
}

/// A function declaration, with its nested body if any.
pub fn p_fndecl(s: &Vec<char>, pos: usize) -> (r: PResult<FunctionDecl>)
    requires
        pos <= s.len(),
    ensures
        rmodel(r) == spec_fndecl(s@, pos as int),
        within(r, pos, s.len()),
    decreases s.len() - pos, 2int,
{
    proof {
        reveal_strlit("fn");
    }
    let (p4, (comment, side, loc)) = match p_decl_head(s, pos, "fn") {
        Err(e) => return Err(e),
        Ok(v) => v,
    };
    let (f0, (name, params)) = match cut_exec(p_signature(s, p4)) {
        Err(e) => return Err(in_ctx_exec(Context::FunctionDeclaration, p4, e)),
        Ok(v) => v,
    };
    let (f1, results) = match cut_exec(p_opt_results(s, f0)) {
        Err(e) => return Err(in_ctx_exec(Context::FunctionDeclaration, p4, e)),
        Ok(v) => v,
    };
    let g = skip_sp(s, f1);
    if !char_at(s, g, '{') {
        return Ok(
            (
                f1,
                FunctionDecl {
                    loc,
                    comment,
                    name,
                    params,
                    results,
                    body: None,
                    kind: Kind::Request,
                    side,
                },
            ),
        );
    }
    let g1 = skip_sp(s, g + 1);
    let (h, body) = match p_nsbody(s, g1) {
        Err(e) => {
            let e = in_ctx_exec(Context::FunctionBody, g1, fatal_exec(e));
            return Err(in_ctx_exec(Context::FunctionDeclaration, p4, e));
        },
        Ok(v) => v,
    };
    let h1 = skip_sp(s, h);
    if !char_at(s, h1, '}') {
        let e = ParseError { fatal: true, pos: h1, kind: ErrorKind::Char('}'), contexts: Vec::new() };
        let e = in_ctx_exec(Context::FunctionBody, g1, e);
        return Err(in_ctx_exec(Context::FunctionDeclaration, p4, e));
    }
    Ok(
        (
            skip_sp(s, h1 + 1),
            FunctionDecl {
                loc,
                comment,
                name,
                params,
                results,
                body: Some(body),
                kind: Kind::Request,
                side,
            },
        ),
    )
}

/// A notification declaration.
pub fn p_notifdecl(s: &Vec<char>, pos: usize) -> (r: PResult<FunctionDecl>)
    requires
        pos <= s.len(),
    ensures
        rmodel(r) == spec_notifdecl(s@, pos as int),
        within(r, pos, s.len()),
{
    proof {
        reveal_strlit("nf");
    }
    let (p4, (comment, side, loc)) = match p_decl_head(s, pos, "nf") {
        Err(e) => return Err(e),
        Ok(v) => v,
    };
    let (e, (name, params)) = match cut_exec(p_signature(s, p4)) {
        Err(e) => return Err(in_ctx_exec(Context::NotificationDeclaration, p4, e)),
        Ok(v) => v,
    };
    let results: Vec<Field> = Vec::new();
    assert(fields_view(results@) =~= Seq::empty());
    Ok(
        (
            e,
            FunctionDecl {
                loc,
                comment,
                name,
                params,
                results,
                body: None,
                kind: Kind::Notification,
                side,
            },
        ),
    )
}

/// A struct declaration.
pub fn p_structdecl(s: &Vec<char>, pos: usize) -> (r: PResult<StructDecl>)
    requires
        pos <= s.len(),
    ensures
        rmodel(r) == spec_structdecl(s@, pos as int),
        within(r, pos, s.len()),
{
    let (p1, comment) = match p_opt_comment(s, pos) {
        Err(e) => return Err(e),
        Ok(v) => v,
    };
    let q = skip_sp(s, p1);
    if !tag(s, q, "struct") {
        return fail_at(q, ErrorKind::Tag);
    }
    proof {
        reveal_strlit("struct");
    }
    let p2 = skip_sp(s, q + 6);
    let loc = Span { offset: p2, len: 0 };
    let p3 = skip_sp(s, p2);
    let a = skip_sp(s, p3);
    let (b, name) = match cut_exec(p_ident(s, a)) {
        Err(e) => return Err(in_ctx_exec(Context::StructDeclaration, p3, e)),
        Ok(v) => v,
    };
    let c = skip_sp(s, b);
    match cut_exec(p_brace_fields(s, c)) {
        Err(e) => Err(in_ctx_exec(Context::StructDeclaration, p3, e)),
        Ok((e, fields)) => Ok((e, StructDecl { loc, comment, name, fields })),
    }
}

/// A namespace declaration.
pub fn p_nsdecl(s: &Vec<char>, pos: usize) -> (r: PResult<NamespaceDecl>)
    requires
        pos <= s.len(),
    ensures
        rmodel(r) == spec_nsdecl(s@, pos as int),
        within(r, pos, s.len()),
    decreases s.len() - pos, 2int,
{
    let (p1, comment) = match p_opt_comment(s, pos) {
        Err(e) => return Err(e),
        Ok(v) => v,
    };
    let q = skip_sp(s, p1);
    if !tag(s, q, "namespace") {
        return fail_at(q, ErrorKind::Tag);
    }
    proof {
        reveal_strlit("namespace");
    }
    let p2 = skip_sp(s, q + 9);
    let p2 = skip_sp(s, p2);
    let loc = Span { offset: p2, len: 0 };
    let p3 = skip_sp(s, p2);
    let a = skip_sp(s, p3);
    let (b, name) = match cut_exec(p_ident(s, a)) {
        Err(e) => return Err(in_ctx_exec(Context::NamespaceDeclaration, p3, e)),
        Ok(v) => v,
    };
    let b3 = skip_sp(s, b);
    let b3 = skip_sp(s, b3);
    if !char_at(s, b3, '{') {
        let e = ParseError { fatal: true, pos: b3, kind: ErrorKind::Char('{'), contexts: Vec::new() };
        return Err(in_ctx_exec(Context::NamespaceDeclaration, p3, e));
    }
    let c = skip_sp(s, b3 + 1);
    let (d, body) = match p_nsbody(s, c) {
        Err(e) => return Err(in_ctx_exec(Context::NamespaceDeclaration, p3, fatal_exec(e))),
        Ok(v) => v,
    };
    let d2 = skip_sp(s, d);
    if !char_at(s, d2, '}') {
        let e = ParseError { fatal: true, pos: d2, kind: ErrorKind::Char('}'), contexts: Vec::new() };
        return Err(in_ctx_exec(Context::NamespaceDeclaration, p3, e));
    }
    Ok((skip_sp(s, d2 + 1), NamespaceDecl { loc, comment, name, body }))
}

/// A namespace item; a lone comment line gives no item.
pub fn p_nsitem(s: &Vec<char>, pos: usize) -> (r: PResult<Option<NamespaceItem>>)
    requires
        pos <= s.len(),
    ensures
        rmodel(r) == spec_nsitem(s@, pos as int),
        within(r, pos, s.len()),
    decreases s.len() - pos, 3int,
{
    match p_fndecl(s, pos) {
        Ok((p, f)) => return Ok((p, Some(NamespaceItem::Function(f)))),
        Err(e) => {
            if e.fatal {
                return Err(e);
            }
        },
    }
    match p_notifdecl(s, pos) {
        Ok((p, f)) => return Ok((p, Some(NamespaceItem::Function(f)))),
        Err(e) => {
            if e.fatal {
                return Err(e);
            }
        },
    }
    match p_structdecl(s, pos) {
        Ok((p, st)) => return Ok((p, Some(NamespaceItem::Struct(st)))),
        Err(e) => {
            if e.fatal {
                return Err(e);
            }
        },
    }
    match p_nsdecl(s, pos) {
        Ok((p, n)) => return Ok((p, Some(NamespaceItem::Namespace(n)))),
        Err(e) => {
            if e.fatal {
                return Err(e);
            }
        },
    }
    match p_comment_line(s, pos) {
        Ok((p, _)) => Ok((p, None)),
        Err(e) => Err(e),
    }
}

fn p_items(s: &Vec<char>, pos: usize) -> (r: PResult<Vec<NamespaceItem>>)
    requires
        pos <= s.len(),
    ensures
        rmodel(r) == spec_items(s@, pos as int),
        within(r, pos, s.len()),
    decreases s.len() - pos, 4int,
{
    let empty: Vec<NamespaceItem> = Vec::new();
    assert(items_view(empty@) =~= Seq::empty());
    let p0 = skip_sp(s, pos);
    match p_nsitem(s, p0) {
        Err(e) => {
            if e.fatal {
                Err(e)
            } else {
                Ok((pos, empty))
            }
        },
        Ok((p1, item)) => {
            let p2 = skip_sp(s, p1);
            if p2 <= pos {
                return fail_at(pos, ErrorKind::Many0);
            }
            match p_items(s, p2) {
                Err(e) => Err(e),
                Ok((p3, items)) => {
                    match item {
                        Some(i) => {
                            let ghost iv = items@;
                            let ghost i0 = i;
                            let all = prepend(i, items);
                            assert(items_view(all@) =~= seq![i0@] + items_view(iv));
                            Ok((p3, all))
                        },
                        None => Ok((p3, items)),
                    }
                },
            }
        },
    }
}

/// A namespace body: items, then trailing comment lines.
pub fn p_nsbody(s: &Vec<char>, pos: usize) -> (r: PResult<NamespaceBody>)
    requires
        pos <= s.len(),
    ensures
        rmodel(r) == spec_nsbody(s@, pos as int),
        within(r, pos, s.len()),
    decreases s.len() - pos, 5int,
{
    match p_items(s, pos) {
        Err(e) => Err(e),
        Ok((p1, items)) => {
            let body = NamespaceBody::new(items);
            let q = skip_sp(s, p1);
            let q = comments(s, q);
            Ok((skip_sp(s, q), body))
        },
    }
}

/// `from "path"`.
pub fn p_from(s: &Vec<char>, pos: usize) -> (r: PResult<FromDirective>)
    requires
        pos <= s.len(),
    ensures
        rmodel(r) == spec_from(s@, pos as int),
        within(r, pos, s.len()),
{
    let p0 = skip_sp(s, pos);
    if !tag(s, p0, "from") {
        return fail_at(p0, ErrorKind::Tag);
    }
    proof {
        reveal_strlit("from");
    }
    let p = skip_sp(s, p0 + 4);
    let p1 = skip_sp(s, p);
    match cut_exec(p_stringlit(s, p1)) {
        Err(e) => Err(in_ctx_exec(Context::FromDirective, p, e)),
        Ok((b, path)) => Ok((skip_sp(s, b), FromDirective { path })),
    }
}

fn p_opt_from(s: &Vec<char>, pos: usize) -> (r: PResult<Option<FromDirective>>)
    requires
        pos <= s.len(),
    ensures
        rmodel(r) == spec_opt_from(s@, pos as int),
        within(r, pos, s.len()),
{
    match p_from(s, pos) {
        Ok((p, f)) => Ok((p, Some(f))),
        Err(e) => {
            if e.fatal {
                Err(e)
            } else {
                Ok((pos, None))
            }
        },
    }
}

fn p_named_from(s: &Vec<char>, pos: usize) -> (r: PResult<(Identifier, Option<FromDirective>)>)
    requires
        pos <= s.len(),
    ensures
        rmodel(r) == spec_named_from(s@, pos as int),
        within(r, pos, s.len()),
{
    let a = skip_sp(s, pos);
    let (b, name) = match p_ident(s, a) {
        Err(e) => return Err(e),
        Ok(v) => v,
    };
    let c = skip_sp(s, b);
    let c = skip_sp(s, c);
    match p_opt_from(s, c) {
        Err(e) => Err(e),
        Ok((d, from)) => Ok((skip_sp(s, d), (name, from))),
    }
}

/// `import name [from "path"]`.
pub fn p_import(s: &Vec<char>, pos: usize) -> (r: PResult<Import>)
    requires
        pos <= s.len(),
    ensures
        rmodel(r) == spec_import(s@, pos as int),
        within(r, pos, s.len()),
{
    let p0 = skip_sp(s, pos);
    if !tag(s, p0, "import") {
        return fail_at(p0, ErrorKind::Tag);
    }
    proof {
        reveal_strlit("import");
    }
    let p1 = skip_sp(s, p0 + 6);
    match cut_exec(p_named_from(s, p1)) {
        Err(e) => Err(in_ctx_exec(Context::Import, p1, e)),
        Ok((p, (name, from))) => Ok((p, Import { name, from })),
    }
}

fn p_imports(s: &Vec<char>, pos: usize) -> (r: PResult<Vec<Import>>)
    requires
        pos <= s.len(),
    ensures
        rmodel(r) == spec_imports(s@, pos as int),
        within(r, pos, s.len()),
    decreases s.len() - pos,
{
    let empty: Vec<Import> = Vec::new();
    assert(imports_view(empty@) =~= Seq::empty());
    let p0 = skip_sp(s, pos);
    match p_import(s, p0) {
        Err(e) => {
            if e.fatal {
                Err(e)
            } else {
                Ok((pos, empty))
            }
        },
        Ok((p1, im)) => {
            let p2 = skip_sp(s, p1);
            if p2 <= pos {
                return fail_at(pos, ErrorKind::Many0);
            }
            match p_imports(s, p2) {
                Err(e) => Err(e),
                Ok((p3, ims)) => {
                    let ghost iv = ims@;
                    let ghost i0 = im;
                    let all = prepend(im, ims);
                    assert(imports_view(all@) =~= seq![i0@] + imports_view(iv));
                    Ok((p3, all))
                },
            }
        },
    }
}

/// Parses a whole schema.
pub fn parse_schema(s: &Vec<char>) -> (r: Result<Schema, ParseError>)
    ensures
        match r {
            Ok(schema) => spec_schema(s@) == Ok::<SpecSchema, SpecParseError>(schema@),
            Err(e) => spec_schema(s@) == Err::<SpecSchema, SpecParseError>(e@),
        },
{
    let (p1, imports) = match p_imports(s, 0) {
        Err(e) => return Err(e),
        Ok(v) => v,
    };
    let p1 = skip_sp(s, p1);
    let (p2, body) = match p_nsbody(s, p1) {
        Err(e) => return Err(e),
        Ok(v) => v,
    };
    let q = skip_sp(s, p2);
    let q = skip_sp(s, q);
    let q = spaced_comments(s, q);
    let q = skip_sp(s, q);
    if q != s.len() {
        return Err(ParseError { fatal: false, pos: q, kind: ErrorKind::Eof, contexts: Vec::new() });
    }
    Ok(Schema::new(Span { offset: 0, len: 0 }, imports, body))
}

fn p_wrapper(s: &Vec<char>, pos: usize) -> (r: PResult<RustTargetWrapper>)
    requires
        pos <= s.len(),
    ensures
        rmodel(r) == spec_wrapper(s@, pos as int),
        within(r, pos, s.len()),
{
    let a = skip_sp(s, pos);
    if !tag(s, a, "wrapper") {
        return fail_at(a, ErrorKind::Tag);
    }
    proof {
        reveal_strlit("wrapper");
        reveal_strlit("none");
        reveal_strlit("mod");
        reveal_strlit("lib");
    }
    let c = skip_sp(s, a + 7);
    let c = skip_sp(s, c);
    if !char_at(s, c, '=') {
        let e = ParseError { fatal: true, pos: c, kind: ErrorKind::Char('='), contexts: Vec::new() };
        return Err(in_ctx_exec(Context::RustTargetWrapper, c, e));
    }
    let d = skip_sp(s, c + 1);
    if tag(s, d, "none") {
        Ok((d + 4, RustTargetWrapper::Plain))
    } else if tag(s, d, "mod") {
        Ok((d + 3, RustTargetWrapper::Mod))
    } else if tag(s, d, "lib") {
        Ok((d + 3, RustTargetWrapper::Lib))
    } else {
        let e = ParseError { fatal: true, pos: d, kind: ErrorKind::Tag, contexts: Vec::new() };
        Err(in_ctx_exec(Context::RustTargetWrapper, c, e))
    }
}

fn p_rust_items(s: &Vec<char>, pos: usize) -> (r: PResult<Vec<RustTargetItem>>)
    requires
        pos <= s.len(),
    ensures
        rmodel(r) == spec_rust_items(s@, pos as int),
        within(r, pos, s.len()),
    decreases s.len() - pos,
{
    let p0 = skip_sp(s, pos);
    match p_wrapper(s, p0) {
        Err(e) => {
            if e.fatal {
                Err(e)
            } else {
                Ok((pos, Vec::new()))
            }
        },
        Ok((b, w)) => {
            let c = skip_sp(s, b);
            if c <= pos {
                return fail_at(pos, ErrorKind::Many0);
            }
            match p_rust_items(s, c) {
                Err(e) => Err(e),
                Ok((d, items)) => Ok((d, prepend(RustTargetItem::Wrapper(w), items))),
            }
        },
    }
}

fn p_opt_rust_body(s: &Vec<char>, pos: usize) -> (r: PResult<Vec<RustTargetItem>>)
    requires
        pos <= s.len(),
    ensures
        rmodel(r) == spec_opt_rust_body(s@, pos as int),
        within(r, pos, s.len()),
{
    let a = skip_sp(s, pos);
    if !char_at(s, a, '{') {
        return Ok((pos, Vec::new()));
    }
    let b = skip_sp(s, a + 1);
    match p_rust_items(s, b) {
        Err(e) => {
            if e.fatal {
                Err(e)
            } else {
                Ok((pos, Vec::new()))
            }
        },
        Ok((c, items)) => {
            let d = skip_sp(s, c);
            if !char_at(s, d, '}') {
                return Ok((pos, Vec::new()));
            }
            Ok((skip_sp(s, d + 1), items))
        },
    }
}

fn p_rust_target(s: &Vec<char>, pos: usize) -> (r: PResult<RustTarget>)
    requires
        pos <= s.len(),
    ensures
        rmodel(r) == spec_rust_target(s@, pos as int),
        within(r, pos, s.len()),
{
    let p0 = skip_sp(s, pos);
    if !tag(s, p0, "rust") {
        return fail_at(p0, ErrorKind::Tag);
    }
    proof {
        reveal_strlit("rust");
    }
    let p1 = skip_sp(s, p0 + 4);
    match cut_exec(p_opt_rust_body(s, p1)) {
        Err(e) => Err(in_ctx_exec(Context::RustTarget, p1, e)),
        Ok((p, items)) => Ok((p, RustTarget::new(items))),
    }
}

fn p_spaced_tag(s: &Vec<char>, pos: usize, t: &str) -> (r: PResult<()>)
    requires
        pos <= s.len(),
    ensures
        rmodel(r) == spec_spaced_tag(s@, pos as int, t@),
        within(r, pos, s.len()),
{
    let p0 = skip_sp(s, pos);
    if !tag(s, p0, t) {
        return fail_at(p0, ErrorKind::Tag);
    }
    let n = t.unicode_len();
    Ok((skip_sp(s, p0 + n), ()))
}

/// `target rust|go|typescript`.
pub fn p_target(s: &Vec<char>, pos: usize) -> (r: PResult<Target>)
    requires
        pos <= s.len(),
    ensures
        rmodel(r) == spec_target(s@, pos as int),
        within(r, pos, s.len()),
{
    let (p1, _) = match p_spaced_tag(s, pos, "target") {
        Err(e) => return Err(e),
        Ok(v) => v,
    };
    match p_rust_target(s, p1) {
        Ok((p, t)) => return Ok((p, Target::Rust(t))),
        Err(e) => {
            if e.fatal {
                return Err(in_ctx_exec(Context::TargetDirective, p1, e));
            }
        },
    }
    match p_spaced_tag(s, p1, "go") {
        Ok((p, _)) => return Ok((p, Target::Go(GoTarget {  }))),
        Err(_) => {},
    }
    match p_spaced_tag(s, p1, "typescript") {
        Ok((p, _)) => Ok((p, Target::TypeScript(TypeScriptTarget {  }))),
        Err(e) => Err(in_ctx_exec(Context::TargetDirective, p1, fatal_exec(e))),
    }
}

/// `build name [from "path"]`, after optional comment lines.
pub fn p_build(s: &Vec<char>, pos: usize) -> (r: PResult<Build>)
    requires
        pos <= s.len(),
    ensures
        rmodel(r) == spec_build(s@, pos as int),
        within(r, pos, s.len()),
{
    let a = spaced_comments(s, pos);
    let (b, _) = match p_spaced_tag(s, a, "build") {
        Err(e) => return Err(e),
        Ok(v) => v,
    };
    match cut_exec(p_named_from(s, b)) {
        Err(e) => Err(in_ctx_exec(Context::BuildDirective, b, e)),
        Ok((p, (name, from))) => Ok((p, Build { name, from })),
    }
}

fn p_builds(s: &Vec<char>, pos: usize) -> (r: PResult<Vec<Build>>)
    requires
        pos <= s.len(),
    ensures
        rmodel(r) == spec_builds(s@, pos as int),
        within(r, pos, s.len()),
    decreases s.len() - pos,
{
    let empty: Vec<Build> = Vec::new();
    assert(builds_view(empty@) =~= Seq::empty());
    let p0 = skip_sp(s, pos);
    match p_build(s, p0) {
        Err(e) => {
            if e.fatal {
                Err(e)
            } else {
                Ok((pos, empty))
            }
        },
        Ok((b, bd)) => {
            let c = skip_sp(s, b);
            if c <= pos {
                return fail_at(pos, ErrorKind::Many0);
            }
            match p_builds(s, c) {
                Err(e) => Err(e),
                Ok((d, bds)) => {
                    let ghost bv = bds@;
                    let ghost b0 = bd;
                    let all = prepend(bd, bds);
                    assert(builds_view(all@) =~= seq![b0@] + builds_view(bv));
                    Ok((d, all))
                },
            }
        },
    }
}

/// Parses a whole `lavish-rules` file.
pub fn parse_rules(s: &Vec<char>) -> (r: Result<Rules, ParseError>)
    ensures
        match r {
            Ok(rules) => spec_rules(s@) == Ok::<SpecRules, SpecParseError>(rules@),
            Err(e) => spec_rules(s@) == Err::<SpecRules, SpecParseError>(e@),
        },
{
    let (p1, target) = match p_target(s, 0) {
        Err(e) => return Err(e),
        Ok(v) => v,
    };
    let a = skip_sp(s, p1);
    let (b, builds) = match p_builds(s, a) {
        Err(e) => return Err(e),
        Ok(v) => v,
    };
    let q = skip_sp(s, b);
    let q = skip_sp(s, q);
    let q = spaced_comments(s, q);
    let q = skip_sp(s, q);
    if q != s.len() {
        return Err(ParseError { fatal: false, pos: q, kind: ErrorKind::Eof, contexts: Vec::new() });
    }
    Ok(Rules::new(Span { offset: 0, len: 0 }, target, builds))
}

} // verus!
