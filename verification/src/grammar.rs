//! The grammar of lavish schemas and rules files, as the result that each
//! rule gives at each position of the input.
//!
//! A rule at position `pos` either succeeds with the position where it stops
//! and a value, or fails with a [`ParseError`].  A failure is *fatal* once the
//! rule has committed to a construct (after the keyword that introduces it);
//! an alternative or an optional part is then not tried.  A recoverable
//! failure lets the caller try something else.  A failure also records the
//! constructs it happened inside (a field, a parameter list, a function
//! declaration, ...), innermost first, each with the position where its
//! committed part starts; a failure that the caller recovers from is
//! dropped together with what it recorded.
use crate::ast::{
    body_of_items, spec_wrapper_of, BaseType, GoTarget, Kind, RustTarget, RustTargetItem,
    RustTargetWrapper, Side, Span, SpecBuild, SpecComment, SpecField, SpecFromDirective,
    SpecFunctionDecl, SpecIdentifier, SpecImport, SpecNamespaceBody, SpecNamespaceDecl,
    SpecNamespaceItem, SpecRules, SpecSchema, SpecStringLiteral, SpecStructDecl, SpecType,
    SpecTypeKind, Target, TypeScriptTarget,
};
use vstd::prelude::*;

verus! {

#[derive(Debug, Clone, Copy, PartialEq, Eq, Structural)]
pub enum ErrorKind {
    /// A keyword was expected.
    Tag,
    /// This character was expected.
    Char(char),
    /// At least one character of a class was expected.
    TakeWhile1,
    /// A line end was expected before the end of input.
    TakeUntil,
    /// A repeated item matched without consuming input.
    Many0,
    /// A comment was expected.
    Many1,
    /// A list item matched without consuming input.
    SeparatedList,
    /// Input was left over after the last construct.
    Eof,
    /// A rule would resume at a position that does not move forward.
    Stuck,
}

/// A construct that a failure happened inside.
#[derive(Debug, Clone, Copy, PartialEq, Eq, Structural)]
pub enum Context {
    TargetDirective,
    RustTarget,
    RustTargetWrapper,
    BuildDirective,
    FromDirective,
    Import,
    Field,
    ResultList,
    FunctionDeclaration,
    ParameterList,
    FunctionBody,
    NotificationDeclaration,
    StructDeclaration,
    NamespaceDeclaration,
}

/// A construct that a failure happened inside, and the position where the
/// construct's committed part starts.
#[derive(Debug, Clone, Copy, PartialEq, Eq, Structural)]
pub struct ContextEntry {
    pub pos: usize,
    pub context: Context,
}

/// A failure: whether it is fatal, where it happened, what was expected,
/// and the constructs it happened inside, innermost first.
#[derive(Debug)]
pub struct ParseError {
    pub fatal: bool,
    pub pos: usize,
    pub kind: ErrorKind,
    pub contexts: Vec<ContextEntry>,
}

/// The model of a failure.
pub struct SpecParseError {
    pub fatal: bool,
    pub pos: usize,
    pub kind: ErrorKind,
    pub contexts: Seq<ContextEntry>,
}

impl View for ParseError {
    type V = SpecParseError;

    open spec fn view(&self) -> SpecParseError {
        SpecParseError { fatal: self.fatal, pos: self.pos, kind: self.kind, contexts: self.contexts@ }
    }
}

/// What a rule gives: the position where it stops and its value, or an error.
pub type SRes<T> = Result<(int, T), SpecParseError>;

/// A failure at `pos`, inside no construct yet.
pub open spec fn failure(fatal: bool, pos: int, kind: ErrorKind) -> SpecParseError {
    SpecParseError { fatal, pos: pos as usize, kind, contexts: Seq::empty() }
}

pub open spec fn fail<T>(pos: int, kind: ErrorKind) -> SRes<T> {
    Err(failure(false, pos, kind))
}

pub open spec fn fatal(e: SpecParseError) -> SpecParseError {
    SpecParseError { fatal: true, ..e }
}

/// The failure `e` happened inside the construct `c` that starts at `pos`.
pub open spec fn in_ctx(c: Context, pos: int, e: SpecParseError) -> SpecParseError {
    SpecParseError { contexts: e.contexts.push(ContextEntry { pos: pos as usize, context: c }), ..e }
}

/// Failures inside a committed construct are fatal.
pub open spec fn cut<T>(r: SRes<T>) -> SRes<T> {
    match r {
        Ok(v) => Ok(v),
        Err(e) => Err(fatal(e)),
    }
}

pub open spec fn stuck<T>(pos: int) -> SRes<T> {
    fail(pos, ErrorKind::Stuck)
}

/// Characters grouped as the grammar reads them.
#[derive(Debug, Clone, Copy, PartialEq, Eq, Structural)]
pub enum CharClass {
    /// Space, tab, carriage return, line feed.
    Space,
    /// Space and tab.
    LineSpace,
    /// ASCII letters, digits and `_`.
    Ident,
    /// Identifier characters and `.`.
    UserType,
    /// Identifier characters, `-`, `.` and `/`.
    StrLit,
}

pub open spec fn is_alnum(c: char) -> bool {
    ('a' <= c && c <= 'z') || ('A' <= c && c <= 'Z') || ('0' <= c && c <= '9')
}

pub open spec fn in_class(cls: CharClass, c: char) -> bool {
    match cls {
        CharClass::Space => c == ' ' || c == '\t' || c == '\r' || c == '\n',
        CharClass::LineSpace => c == ' ' || c == '\t',
        CharClass::Ident => is_alnum(c) || c == '_',
        CharClass::UserType => is_alnum(c) || c == '_' || c == '.',
        CharClass::StrLit => is_alnum(c) || c == '_' || c == '-' || c == '.' || c == '/',
    }
}

/// `q` is past `pos`, and `pos` is a position inside the input.
pub open spec fn moves(s: Seq<char>, pos: int, q: int) -> bool {
    0 <= pos < q && pos < s.len()
}

/// Remaining input from `pos`, as a measure that rules consume.
pub open spec fn rem(s: Seq<char>, pos: int) -> nat {
    if 0 <= pos < s.len() {
        (s.len() - pos) as nat
    } else {
        0
    }
}

/// Length of the longest run of `cls` characters starting at `pos`.
pub open spec fn run_len(s: Seq<char>, pos: int, cls: CharClass) -> nat
    decreases rem(s, pos),
{
    if 0 <= pos < s.len() && in_class(cls, s[pos]) {
        1 + run_len(s, pos + 1, cls)
    } else {
        0
    }
}

/// Position after the whitespace (line ends included) starting at `pos`.
pub open spec fn sp(s: Seq<char>, pos: int) -> int {
    pos + run_len(s, pos, CharClass::Space)
}

pub open spec fn has_tag(s: Seq<char>, pos: int, t: Seq<char>) -> bool {
    0 <= pos && pos + t.len() <= s.len() && s.subrange(pos, pos + t.len()) == t
}

pub open spec fn has_char(s: Seq<char>, pos: int, c: char) -> bool {
    0 <= pos < s.len() && s[pos] == c
}

/// First line end at or after `pos`.
pub open spec fn find_nl(s: Seq<char>, pos: int) -> Option<int>
    decreases rem(s, pos),
{
    if 0 <= pos < s.len() {
        if s[pos] == '\n' {
            Some(pos)
        } else {
            find_nl(s, pos + 1)
        }
    } else {
        None
    }
}

/// An identifier: one or more identifier characters.
pub open spec fn spec_ident(s: Seq<char>, pos: int) -> SRes<SpecIdentifier> {
    let n = run_len(s, pos, CharClass::Ident);
    if n == 0 {
        fail(pos, ErrorKind::TakeWhile1)
    } else {
        Ok(
            (
                pos + n,
                SpecIdentifier {
                    span: Span { offset: pos as usize, len: n as usize },
                    text: s.subrange(pos, pos + n),
                },
            ),
        )
    }
}

/// A string literal: `"` then path characters then `"`, without escapes.
pub open spec fn spec_stringlit(s: Seq<char>, pos: int) -> SRes<SpecStringLiteral> {
    if !has_char(s, pos, '"') {
        fail(pos, ErrorKind::Char('"'))
    } else {
        let n = run_len(s, pos + 1, CharClass::StrLit);
        if n == 0 {
            fail(pos + 1, ErrorKind::TakeWhile1)
        } else if !has_char(s, pos + 1 + n, '"') {
            fail(pos + 1 + n, ErrorKind::Char('"'))
        } else {
            Ok(
                (
                    pos + n + 2,
                    SpecStringLiteral {
                        loc: Span { offset: pos as usize, len: 0 },
                        value: s.subrange(pos + 1, pos + 1 + n),
                    },
                ),
            )
        }
    }
}

/// One comment line: `//`, blanks, then the text up to (not including) the line end.
pub open spec fn spec_comment_line(s: Seq<char>, pos: int) -> SRes<Seq<char>> {
    let p0 = sp(s, pos);
    if !has_tag(s, p0, "//"@) {
        fail(p0, ErrorKind::Tag)
    } else {
        let p2 = p0 + 2 + run_len(s, p0 + 2, CharClass::LineSpace);
        match find_nl(s, p2) {
            None => fail(p2, ErrorKind::TakeUntil),
            Some(k) => Ok((k, s.subrange(p2, k))),
        }
    }
}

/// The comment lines that follow a first one.
pub open spec fn spec_more_comment_lines(s: Seq<char>, pos: int) -> SRes<Seq<Seq<char>>>
    decreases rem(s, pos),
{
    match spec_comment_line(s, pos) {
        Err(e) => if e.fatal {
            Err(e)
        } else {
            Ok((pos, Seq::empty()))
        },
        Ok((p1, line)) => if p1 <= pos {
            fail(p1, ErrorKind::Many1)
        } else if !moves(s, pos, p1) {
            stuck(pos)
        } else {
            match spec_more_comment_lines(s, p1) {
                Err(e) => Err(e),
                Ok((p2, lines)) => Ok((p2, seq![line] + lines)),
            }
        },
    }
}

/// A comment block: one or more comment lines.
pub open spec fn spec_comment(s: Seq<char>, pos: int) -> SRes<SpecComment> {
    match spec_comment_line(s, pos) {
        Err(e) => if e.fatal {
            Err(e)
        } else {
            fail(pos, ErrorKind::Many1)
        },
        Ok((p1, line)) => match spec_more_comment_lines(s, p1) {
            Err(e) => Err(e),
            Ok((p2, lines)) => Ok((p2, SpecComment { lines: seq![line] + lines })),
        },
    }
}

pub open spec fn spec_opt_comment(s: Seq<char>, pos: int) -> SRes<Option<SpecComment>> {
    match spec_comment(s, pos) {
        Ok((p, c)) => Ok((p, Some(c))),
        Err(e) => if e.fatal {
            Err(e)
        } else {
            Ok((pos, None))
        },
    }
}

/// Position after comment lines, each with blanks around it (none needed).
pub open spec fn spaced_comments_end(s: Seq<char>, pos: int) -> int
    decreases rem(s, pos),
{
    match spec_comment_line(s, sp(s, pos)) {
        Ok((p1, _)) => {
            let p2 = sp(s, p1);
            if moves(s, pos, p2) {
                spaced_comments_end(s, p2)
            } else {
                pos
            }
        },
        Err(_) => pos,
    }
}

/// Position after comment lines, each with blanks before it (none needed).
pub open spec fn comments_end(s: Seq<char>, pos: int) -> int
    decreases rem(s, pos),
{
    match spec_comment_line(s, pos) {
        Ok((p1, _)) => if moves(s, pos, p1) {
            comments_end(s, p1)
        } else {
            pos
        },
        Err(_) => pos,
    }
}

/// The built-in type keywords, in the order they are tried.
pub open spec fn base_keyword(s: Seq<char>, pos: int) -> Option<(Seq<char>, BaseType)> {
    if has_tag(s, pos, "bool"@) {
        Some(("bool"@, BaseType::Bool))
    } else if has_tag(s, pos, "int32"@) {
        Some(("int32"@, BaseType::Int32))
    } else if has_tag(s, pos, "int64"@) {
        Some(("int64"@, BaseType::Int64))
    } else if has_tag(s, pos, "uint32"@) {
        Some(("uint32"@, BaseType::UInt32))
    } else if has_tag(s, pos, "uint64"@) {
        Some(("uint64"@, BaseType::UInt64))
    } else if has_tag(s, pos, "float32"@) {
        Some(("float32"@, BaseType::Float32))
    } else if has_tag(s, pos, "float64"@) {
        Some(("float64"@, BaseType::Float64))
    } else if has_tag(s, pos, "string"@) {
        Some(("string"@, BaseType::String))
    } else if has_tag(s, pos, "bytes"@) {
        Some(("bytes"@, BaseType::Bytes))
    } else if has_tag(s, pos, "timestamp"@) {
        Some(("timestamp"@, BaseType::Timestamp))
    } else {
        None
    }
}

/// A built-in type, with blanks around it.
pub open spec fn spec_basetyp(s: Seq<char>, pos: int) -> SRes<SpecType> {
    let p0 = sp(s, pos);
    match base_keyword(s, p0) {
        None => fail(p0, ErrorKind::Tag),
        Some((kw, b)) => Ok(
            (
                sp(s, p0 + kw.len()),
                SpecType {
                    span: Span { offset: p0 as usize, len: kw.len() as usize },
                    text: kw,
                    kind: SpecTypeKind::Base(b),
                },
            ),
        ),
    }
}

/// A user type: a dotted path such as `foo.bar.Baz`.
pub open spec fn spec_usertyp(s: Seq<char>, pos: int) -> SRes<SpecType> {
    let n = run_len(s, pos, CharClass::UserType);
    if n == 0 {
        fail(pos, ErrorKind::TakeWhile1)
    } else {
        Ok(
            (
                pos + n,
                SpecType {
                    span: Span { offset: pos as usize, len: n as usize },
                    text: s.subrange(pos, pos + n),
                    kind: SpecTypeKind::User,
                },
            ),
        )
    }
}

/// The location given to a composite type: the input from where it starts.
pub open spec fn rest_span(s: Seq<char>, pos: int) -> (Span, Seq<char>) {
    (Span { offset: pos as usize, len: (s.len() - pos) as usize }, s.subrange(pos, s.len() as int))
}

/// `kw < T >`, blanks allowed around each token; gives `T`.
pub open spec fn spec_wrapped_typ(s: Seq<char>, pos: int, kw: Seq<char>) -> SRes<SpecType>
    decreases rem(s, pos), 1int,
{
    let p0 = sp(s, pos);
    if !has_tag(s, p0, kw) {
        fail(p0, ErrorKind::Tag)
    } else {
        let p1 = sp(s, sp(s, p0 + kw.len()));
        if !has_char(s, p1, '<') {
            fail(p1, ErrorKind::Char('<'))
        } else {
            let p2 = sp(s, p1 + 1);
            if !moves(s, pos, p2) {
                stuck(p2)
            } else {
                match spec_typ(s, p2) {
                    Err(e) => Err(e),
                    Ok((p3, t)) => {
                        let p4 = sp(s, p3);
                        if !has_char(s, p4, '>') {
                            fail(p4, ErrorKind::Char('>'))
                        } else {
                            Ok((sp(s, p4 + 1), t))
                        }
                    },
                }
            }
        }
    }
}

/// `Map < K , V >`.
pub open spec fn spec_maptyp(s: Seq<char>, pos: int) -> SRes<SpecType>
    decreases rem(s, pos), 1int,
{
    let p0 = sp(s, pos);
    if !has_tag(s, p0, "Map"@) {
        fail(p0, ErrorKind::Tag)
    } else {
        let p1 = sp(s, sp(s, p0 + 3));
        if !has_char(s, p1, '<') {
            fail(p1, ErrorKind::Char('<'))
        } else {
            let a = sp(s, sp(s, p1 + 1));
            if !moves(s, pos, a) {
                stuck(a)
            } else {
                match spec_typ(s, a) {
                    Err(e) => Err(e),
                    Ok((b, k)) => {
                        let b2 = sp(s, b);
                        if !has_char(s, b2, ',') {
                            fail(b2, ErrorKind::Char(','))
                        } else {
                            let c = sp(s, b2 + 1);
                            if !moves(s, pos, c) {
                                stuck(c)
                            } else {
                                match spec_typ(s, c) {
                                    Err(e) => Err(e),
                                    Ok((d, v)) => {
                                        let d2 = sp(s, sp(s, d));
                                        if !has_char(s, d2, '>') {
                                            fail(d2, ErrorKind::Char('>'))
                                        } else {
                                            let (span, text) = rest_span(s, pos);
                                            Ok(
                                                (
                                                    sp(s, d2 + 1),
                                                    SpecType {
                                                        span,
                                                        text,
                                                        kind: SpecTypeKind::Mapping(
                                                            Box::new(k),
                                                            Box::new(v),
                                                        ),
                                                    },
                                                ),
                                            )
                                        }
                                    },
                                }
                            }
                        }
                    },
                }
            }
        }
    }
}

/// `Array < T >`.
pub open spec fn spec_arraytyp(s: Seq<char>, pos: int) -> SRes<SpecType>
    decreases rem(s, pos), 2int,
{
    match spec_wrapped_typ(s, pos, "Array"@) {
        Err(e) => Err(e),
        Ok((p, t)) => {
            let (span, text) = rest_span(s, pos);
            Ok((p, SpecType { span, text, kind: SpecTypeKind::Array(Box::new(t)) }))
        },
    }
}

/// `Option < T >`.
pub open spec fn spec_optiontyp(s: Seq<char>, pos: int) -> SRes<SpecType>
    decreases rem(s, pos), 2int,
{
    match spec_wrapped_typ(s, pos, "Option"@) {
        Err(e) => Err(e),
        Ok((p, t)) => {
            let (span, text) = rest_span(s, pos);
            Ok((p, SpecType { span, text, kind: SpecTypeKind::Option(Box::new(t)) }))
        },
    }
}

/// Any type: `Map`, `Array`, `Option`, built-in, then user type, the first that matches.
pub open spec fn spec_typ(s: Seq<char>, pos: int) -> SRes<SpecType>
    decreases rem(s, pos), 3int,
{
    match spec_maptyp(s, pos) {
        Err(e) if !e.fatal => match spec_arraytyp(s, pos) {
            Err(e) if !e.fatal => match spec_optiontyp(s, pos) {
                Err(e) if !e.fatal => match spec_basetyp(s, pos) {
                    Err(e) if !e.fatal => spec_usertyp(s, pos),
                    r => r,
                },
                r => r,
            },
            r => r,
        },
        r => r,
    }
}

/// `: T` after a field name, blanks allowed around each token.
pub open spec fn spec_field_type(s: Seq<char>, pos: int) -> SRes<SpecType> {
    let q = sp(s, pos);
    if !has_char(s, q, ':') {
        fail(q, ErrorKind::Char(':'))
    } else {
        match spec_typ(s, sp(s, sp(s, q + 1))) {
            Err(e) => Err(e),
            Ok((r, t)) => Ok((sp(s, r), t)),
        }
    }
}

/// A field: optional comment, name, `:` and type.  Once the name is read,
/// failures are fatal.
pub open spec fn spec_field(s: Seq<char>, pos: int) -> SRes<SpecField> {
    match spec_opt_comment(s, pos) {
        Err(e) => Err(e),
        Ok((p1, comment)) => {
            let p2 = sp(s, p1);
            let loc = Span { offset: p2 as usize, len: 0 };
            let p3 = sp(s, sp(s, p2));
            match spec_ident(s, p3) {
                Err(e) => Err(e),
                Ok((q, name)) => match cut(spec_field_type(s, sp(s, sp(s, q)))) {
                    Err(e) => Err(in_ctx(Context::Field, sp(s, sp(s, q)), e)),
                    Ok((q3, typ)) => Ok((sp(s, q3), SpecField { loc, comment, name, typ })),
                },
            }
        },
    }
}

/// A comma with blanks around it: the position after it.
pub open spec fn comma_end(s: Seq<char>, pos: int) -> Option<int> {
    let p0 = sp(s, pos);
    if has_char(s, p0, ',') {
        Some(sp(s, p0 + 1))
    } else {
        None
    }
}

/// The fields that follow the first one, each after a comma.
pub open spec fn spec_more_fields(s: Seq<char>, pos: int) -> SRes<Seq<SpecField>>
    decreases rem(s, pos),
{
    match comma_end(s, pos) {
        None => Ok((pos, Seq::empty())),
        Some(p1) => if p1 <= pos {
            fail(p1, ErrorKind::SeparatedList)
        } else {
            match spec_field(s, p1) {
                Err(e) => if e.fatal {
                    Err(e)
                } else {
                    Ok((pos, Seq::empty()))
                },
                Ok((p2, f)) => if p2 <= pos {
                    fail(p2, ErrorKind::SeparatedList)
                } else if !moves(s, pos, p2) {
                    stuck(pos)
                } else {
                    match spec_more_fields(s, p2) {
                        Err(e) => Err(e),
                        Ok((p3, fs)) => Ok((p3, seq![f] + fs)),
                    }
                },
            }
        },
    }
}

/// Fields separated by commas, with an optional trailing comma.
pub open spec fn spec_fields(s: Seq<char>, pos: int) -> SRes<Seq<SpecField>> {
    let listed: SRes<Seq<SpecField>> = match spec_field(s, pos) {
        Err(e) => if e.fatal {
            Err(e)
        } else {
            Ok((pos, Seq::empty()))
        },
        Ok((p1, f)) => if p1 <= pos {
            fail(p1, ErrorKind::SeparatedList)
        } else {
            match spec_more_fields(s, p1) {
                Err(e) => Err(e),
                Ok((p2, fs)) => Ok((p2, seq![f] + fs)),
            }
        },
    };
    match listed {
        Err(e) => Err(e),
        Ok((p, fs)) => match comma_end(s, p) {
            Some(q) => Ok((q, fs)),
            None => Ok((p, fs)),
        },
    }
}

/// `( fields )`; failures after the `(` is found are those of the fields or of the `)`.
pub open spec fn spec_paren_fields(s: Seq<char>, pos: int) -> SRes<Seq<SpecField>> {
    if !has_char(s, pos, '(') {
        fail(pos, ErrorKind::Char('('))
    } else {
        match spec_fields(s, pos + 1) {
            Err(e) => Err(e),
            Ok((p, fs)) => {
                let q = sp(s, p);
                if !has_char(s, q, ')') {
                    fail(q, ErrorKind::Char(')'))
                } else {
                    Ok((q + 1, fs))
                }
            },
        }
    }
}

/// `{ fields }`.
pub open spec fn spec_brace_fields(s: Seq<char>, pos: int) -> SRes<Seq<SpecField>> {
    if !has_char(s, pos, '{') {
        fail(pos, ErrorKind::Char('{'))
    } else {
        match spec_fields(s, pos + 1) {
            Err(e) => Err(e),
            Ok((p, fs)) => {
                let q = sp(s, p);
                if !has_char(s, q, '}') {
                    fail(q, ErrorKind::Char('}'))
                } else {
                    Ok((q + 1, fs))
                }
            },
        }
    }
}

/// `server` or `client`.
pub open spec fn spec_side(s: Seq<char>, pos: int) -> SRes<Side> {
    if has_tag(s, pos, "server"@) {
        Ok((pos + 6, Side::Server))
    } else if has_tag(s, pos, "client"@) {
        Ok((pos + 6, Side::Client))
    } else {
        fail(pos, ErrorKind::Tag)
    }
}

/// `-> ( fields )`; committed once the arrow is found.
pub open spec fn spec_results(s: Seq<char>, pos: int) -> SRes<Seq<SpecField>> {
    let p0 = sp(s, pos);
    if !has_tag(s, p0, "->"@) {
        fail(p0, ErrorKind::Tag)
    } else {
        match spec_paren_fields(s, sp(s, p0 + 2)) {
            Ok(r) => Ok(r),
            Err(e) => Err(in_ctx(Context::ResultList, sp(s, p0 + 2), fatal(e))),
        }
    }
}

pub open spec fn spec_opt_results(s: Seq<char>, pos: int) -> SRes<Seq<SpecField>> {
    match spec_results(s, pos) {
        Ok(r) => Ok(r),
        Err(e) => if e.fatal {
            Err(e)
        } else {
            Ok((pos, Seq::empty()))
        },
    }
}

/// The start shared by function and notification declarations: optional
/// comment, side, keyword; gives the position after the keyword and blanks,
/// the comment, the side and the location.
pub open spec fn spec_decl_head(s: Seq<char>, pos: int, kw: Seq<char>) -> SRes<
    (Option<SpecComment>, Side, Span),
> {
    match spec_opt_comment(s, pos) {
        Err(e) => Err(e),
        Ok((p1, comment)) => match spec_side(s, p1) {
            Err(e) => Err(e),
            Ok((p2, side)) => {
                let q = sp(s, p2);
                if !has_tag(s, q, kw) {
                    fail(q, ErrorKind::Tag)
                } else {
                    let p3 = sp(s, sp(s, q + kw.len()));
                    Ok((sp(s, p3), (comment, side, Span { offset: p3 as usize, len: 0 })))
                }
            },
        },
    }
}

/// Name and parameter list of a function or notification.
pub open spec fn spec_signature(s: Seq<char>, pos: int) -> SRes<(SpecIdentifier, Seq<SpecField>)> {
    match spec_ident(s, sp(s, pos)) {
        Err(e) => Err(e),
        Ok((b, name)) => match spec_paren_fields(s, sp(s, b)) {
            Err(e) => Err(in_ctx(Context::ParameterList, sp(s, b), e)),
            Ok((e, params)) => Ok((e, (name, params))),
        },
    }
}

/// A function: `[comment] side fn name(params) [-> (results)] [{ body }]`.
pub open spec fn spec_fndecl(s: Seq<char>, pos: int) -> SRes<SpecFunctionDecl>
    decreases rem(s, pos), 2int,
{
    match spec_decl_head(s, pos, "fn"@) {
        Err(e) => Err(e),
        Ok((p4, (comment, side, loc))) => match cut(spec_signature(s, p4)) {
            Err(e) => Err(in_ctx(Context::FunctionDeclaration, p4, e)),
            Ok((f0, (name, params))) => match cut(spec_opt_results(s, f0)) {
                Err(e) => Err(in_ctx(Context::FunctionDeclaration, p4, e)),
                Ok((f1, results)) => {
                    let g = sp(s, f1);
                    let decl = |body: Option<SpecNamespaceBody>|
                        SpecFunctionDecl {
                            loc,
                            comment,
                            name,
                            params,
                            results,
                            body,
                            kind: Kind::Request,
                            side,
                        };
                    if !has_char(s, g, '{') {
                        Ok((f1, decl(None)))
                    } else {
                        let g1 = sp(s, g + 1);
                        if !moves(s, pos, g1) {
                            Err(in_ctx(Context::FunctionDeclaration, p4, failure(false, g1, ErrorKind::Stuck)))
                        } else {
                            match spec_nsbody(s, g1) {
                                Err(e) => Err(
                                    in_ctx(
                                        Context::FunctionDeclaration,
                                        p4,
                                        in_ctx(Context::FunctionBody, g1, fatal(e)),
                                    ),
                                ),
                                Ok((h, body)) => {
                                    let h1 = sp(s, h);
                                    if !has_char(s, h1, '}') {
                                        Err(
                                            in_ctx(
                                                Context::FunctionDeclaration,
                                                p4,
                                                in_ctx(Context::FunctionBody, g1, failure(true, h1, ErrorKind::Char('}'))),
                                            ),
                                        )
                                    } else {
                                        Ok((sp(s, h1 + 1), decl(Some(body))))
                                    }
                                },
                            }
                        }
                    }
                },
            },
        },
    }
}

/// A notification: `[comment] side nf name(params)`.
pub open spec fn spec_notifdecl(s: Seq<char>, pos: int) -> SRes<SpecFunctionDecl> {
    match spec_decl_head(s, pos, "nf"@) {
        Err(e) => Err(e),
        Ok((p4, (comment, side, loc))) => match cut(spec_signature(s, p4)) {
            Err(e) => Err(in_ctx(Context::NotificationDeclaration, p4, e)),
            Ok((e, (name, params))) => Ok(
                (
                    e,
                    SpecFunctionDecl {
                        loc,
                        comment,
                        name,
                        params,
                        results: Seq::empty(),
                        body: None,
                        kind: Kind::Notification,
                        side,
                    },
                ),
            ),
        },
    }
}

/// A struct: `[comment] struct Name { fields }`.
pub open spec fn spec_structdecl(s: Seq<char>, pos: int) -> SRes<SpecStructDecl> {
    match spec_opt_comment(s, pos) {
        Err(e) => Err(e),
        Ok((p1, comment)) => {
            let q = sp(s, p1);
            if !has_tag(s, q, "struct"@) {
                fail(q, ErrorKind::Tag)
            } else {
                let p2 = sp(s, q + 6);
                let loc = Span { offset: p2 as usize, len: 0 };
                let p3 = sp(s, p2);
                match cut(spec_ident(s, sp(s, p3))) {
                    Err(e) => Err(in_ctx(Context::StructDeclaration, p3, e)),
                    Ok((b, name)) => match cut(spec_brace_fields(s, sp(s, b))) {
                        Err(e) => Err(in_ctx(Context::StructDeclaration, p3, e)),
                        Ok((e, fields)) => Ok((e, SpecStructDecl { loc, comment, name, fields })),
                    },
                }
            }
        },
    }
}

/// A namespace: `[comment] namespace name { body }`.
pub open spec fn spec_nsdecl(s: Seq<char>, pos: int) -> SRes<SpecNamespaceDecl>
    decreases rem(s, pos), 2int,
{
    match spec_opt_comment(s, pos) {
        Err(e) => Err(e),
        Ok((p1, comment)) => {
            let q = sp(s, p1);
            if !has_tag(s, q, "namespace"@) {
                fail(q, ErrorKind::Tag)
            } else {
                let p2 = sp(s, sp(s, q + 9));
                let loc = Span { offset: p2 as usize, len: 0 };
                let p3 = sp(s, p2);
                match cut(spec_ident(s, sp(s, p3))) {
                    Err(e) => Err(in_ctx(Context::NamespaceDeclaration, p3, e)),
                    Ok((b, name)) => {
                        let b3 = sp(s, sp(s, b));
                        if !has_char(s, b3, '{') {
                            Err(in_ctx(Context::NamespaceDeclaration, p3, failure(true, b3, ErrorKind::Char('{'))))
                        } else {
                            let c = sp(s, b3 + 1);
                            if !moves(s, pos, c) {
                                Err(in_ctx(Context::NamespaceDeclaration, p3, failure(false, c, ErrorKind::Stuck)))
                            } else {
                                match spec_nsbody(s, c) {
                                    Err(e) => Err(in_ctx(Context::NamespaceDeclaration, p3, fatal(e))),
                                    Ok((d, body)) => {
                                        let d2 = sp(s, d);
                                        if !has_char(s, d2, '}') {
                                            Err(in_ctx(Context::NamespaceDeclaration, p3, failure(true, d2, ErrorKind::Char('}'))))
                                        } else {
                                            Ok(
                                                (
                                                    sp(s, d2 + 1),
                                                    SpecNamespaceDecl { loc, comment, name, body },
                                                ),
                                            )
                                        }
                                    },
                                }
                            }
                        }
                    },
                }
            }
        },
    }
}

/// A namespace item (function, notification, struct or namespace), or a lone
/// comment line, which gives no item.
pub open spec fn spec_nsitem(s: Seq<char>, pos: int) -> SRes<Option<SpecNamespaceItem>>
    decreases rem(s, pos), 3int,
{
    match spec_fndecl(s, pos) {
        Ok((p, f)) => Ok((p, Some(SpecNamespaceItem::Function(f)))),
        Err(e) => if e.fatal {
            Err(e)
        } else {
            match spec_notifdecl(s, pos) {
                Ok((p, f)) => Ok((p, Some(SpecNamespaceItem::Function(f)))),
                Err(e) => if e.fatal {
                    Err(e)
                } else {
                    match spec_structdecl(s, pos) {
                        Ok((p, st)) => Ok((p, Some(SpecNamespaceItem::Struct(st)))),
                        Err(e) => if e.fatal {
                            Err(e)
                        } else {
                            match spec_nsdecl(s, pos) {
                                Ok((p, n)) => Ok((p, Some(SpecNamespaceItem::Namespace(n)))),
                                Err(e) => if e.fatal {
                                    Err(e)
                                } else {
                                    match spec_comment_line(s, pos) {
                                        Ok((p, _)) => Ok((p, None)),
                                        Err(e) => Err(e),
                                    }
                                }
                            }
                        },
                    }
                },
            }
        },
    }
}

/// Namespace items, each with blanks around it, as long as they match.
pub open spec fn spec_items(s: Seq<char>, pos: int) -> SRes<Seq<SpecNamespaceItem>>
    decreases rem(s, pos), 4int,
{
    match spec_nsitem(s, sp(s, pos)) {
        Err(e) => if e.fatal {
            Err(e)
        } else {
            Ok((pos, Seq::empty()))
        },
        Ok((p1, item)) => {
            let p2 = sp(s, p1);
            if p2 <= pos {
                fail(pos, ErrorKind::Many0)
            } else if !moves(s, pos, p2) {
                stuck(pos)
            } else {
                match spec_items(s, p2) {
                    Err(e) => Err(e),
                    Ok((p3, items)) => Ok(
                        (
                            p3,
                            match item {
                                Some(i) => seq![i] + items,
                                None => items,
                            },
                        ),
                    ),
                }
            }
        },
    }
}

/// A namespace body (also a function body): items, then trailing comment lines.
pub open spec fn spec_nsbody(s: Seq<char>, pos: int) -> SRes<SpecNamespaceBody>
    decreases rem(s, pos), 5int,
{
    match spec_items(s, pos) {
        Err(e) => Err(e),
        Ok((p1, items)) => Ok((sp(s, comments_end(s, sp(s, p1))), body_of_items(items))),
    }
}

/// `from "path"`; committed once `from` is found.
pub open spec fn spec_from(s: Seq<char>, pos: int) -> SRes<SpecFromDirective> {
    let p0 = sp(s, pos);
    if !has_tag(s, p0, "from"@) {
        fail(p0, ErrorKind::Tag)
    } else {
        match cut(spec_stringlit(s, sp(s, sp(s, p0 + 4)))) {
            Err(e) => Err(in_ctx(Context::FromDirective, sp(s, p0 + 4), e)),
            Ok((b, path)) => Ok((sp(s, b), SpecFromDirective { path })),
        }
    }
}

pub open spec fn spec_opt_from(s: Seq<char>, pos: int) -> SRes<Option<SpecFromDirective>> {
    match spec_from(s, pos) {
        Ok((p, f)) => Ok((p, Some(f))),
        Err(e) => if e.fatal {
            Err(e)
        } else {
            Ok((pos, None))
        },
    }
}

/// A name followed by an optional `from` directive, as in imports and builds.
pub open spec fn spec_named_from(s: Seq<char>, pos: int) -> SRes<
    (SpecIdentifier, Option<SpecFromDirective>),
> {
    match spec_ident(s, sp(s, pos)) {
        Err(e) => Err(e),
        Ok((b, name)) => match spec_opt_from(s, sp(s, sp(s, b))) {
            Err(e) => Err(e),
            Ok((d, from)) => Ok((sp(s, d), (name, from))),
        },
    }
}

/// `import name [from "path"]`.
pub open spec fn spec_import(s: Seq<char>, pos: int) -> SRes<SpecImport> {
    let p0 = sp(s, pos);
    if !has_tag(s, p0, "import"@) {
        fail(p0, ErrorKind::Tag)
    } else {
        match cut(spec_named_from(s, sp(s, p0 + 6))) {
            Err(e) => Err(in_ctx(Context::Import, sp(s, p0 + 6), e)),
            Ok((p, (name, from))) => Ok((p, SpecImport { name, from })),
        }
    }
}

/// Import directives, each with blanks around it.
pub open spec fn spec_imports(s: Seq<char>, pos: int) -> SRes<Seq<SpecImport>>
    decreases rem(s, pos),
{
    match spec_import(s, sp(s, pos)) {
        Err(e) => if e.fatal {
            Err(e)
        } else {
            Ok((pos, Seq::empty()))
        },
        Ok((p1, im)) => {
            let p2 = sp(s, p1);
            if p2 <= pos {
                fail(pos, ErrorKind::Many0)
            } else if !moves(s, pos, p2) {
                stuck(pos)
            } else {
                match spec_imports(s, p2) {
                    Err(e) => Err(e),
                    Ok((p3, ims)) => Ok((p3, seq![im] + ims)),
                }
            }
        },
    }
}

/// A whole schema: imports, a namespace body, trailing comments, then end of input.
pub open spec fn spec_schema(s: Seq<char>) -> Result<SpecSchema, SpecParseError> {
    match spec_imports(s, 0) {
        Err(e) => Err(e),
        Ok((p1, imports)) => match spec_nsbody(s, sp(s, p1)) {
            Err(e) => Err(e),
            Ok((p2, body)) => {
                let q = sp(s, spaced_comments_end(s, sp(s, sp(s, p2))));
                if q != s.len() {
                    Err(failure(false, q, ErrorKind::Eof))
                } else {
                    Ok(SpecSchema { loc: Span { offset: 0, len: 0 }, imports, body })
                }
            },
        },
    }
}

/// `wrapper = none|mod|lib`; committed once `wrapper` is found.
pub open spec fn spec_wrapper(s: Seq<char>, pos: int) -> SRes<RustTargetWrapper> {
    let a = sp(s, pos);
    if !has_tag(s, a, "wrapper"@) {
        fail(a, ErrorKind::Tag)
    } else {
        let c = sp(s, sp(s, a + 7));
        if !has_char(s, c, '=') {
            Err(in_ctx(Context::RustTargetWrapper, c, failure(true, c, ErrorKind::Char('='))))
        } else {
            let d = sp(s, c + 1);
            if has_tag(s, d, "none"@) {
                Ok((d + 4, RustTargetWrapper::Plain))
            } else if has_tag(s, d, "mod"@) {
                Ok((d + 3, RustTargetWrapper::Mod))
            } else if has_tag(s, d, "lib"@) {
                Ok((d + 3, RustTargetWrapper::Lib))
            } else {
                Err(in_ctx(Context::RustTargetWrapper, c, failure(true, d, ErrorKind::Tag)))
            }
        }
    }
}

/// Items of a rust target body, each with blanks around it.
pub open spec fn spec_rust_items(s: Seq<char>, pos: int) -> SRes<Seq<RustTargetItem>>
    decreases rem(s, pos),
{
    match spec_wrapper(s, sp(s, pos)) {
        Err(e) => if e.fatal {
            Err(e)
        } else {
            Ok((pos, Seq::empty()))
        },
        Ok((b, w)) => {
            let c = sp(s, b);
            if c <= pos {
                fail(pos, ErrorKind::Many0)
            } else if !moves(s, pos, c) {
                stuck(pos)
            } else {
                match spec_rust_items(s, c) {
                    Err(e) => Err(e),
                    Ok((d, items)) => Ok((d, seq![RustTargetItem::Wrapper(w)] + items)),
                }
            }
        },
    }
}

/// Optional `{ items }` after `rust`; when the braces do not match, no item.
pub open spec fn spec_opt_rust_body(s: Seq<char>, pos: int) -> SRes<Seq<RustTargetItem>> {
    let a = sp(s, pos);
    if !has_char(s, a, '{') {
        Ok((pos, Seq::empty()))
    } else {
        match spec_rust_items(s, sp(s, a + 1)) {
            Err(e) => if e.fatal {
                Err(e)
            } else {
                Ok((pos, Seq::empty()))
            },
            Ok((c, items)) => {
                let d = sp(s, c);
                if !has_char(s, d, '}') {
                    Ok((pos, Seq::empty()))
                } else {
                    Ok((sp(s, d + 1), items))
                }
            },
        }
    }
}

/// `rust [{ items }]`.
pub open spec fn spec_rust_target(s: Seq<char>, pos: int) -> SRes<RustTarget> {
    let p0 = sp(s, pos);
    if !has_tag(s, p0, "rust"@) {
        fail(p0, ErrorKind::Tag)
    } else {
        match cut(spec_opt_rust_body(s, sp(s, p0 + 4))) {
            Err(e) => Err(in_ctx(Context::RustTarget, sp(s, p0 + 4), e)),
            Ok((p, items)) => Ok((p, RustTarget { wrapper: spec_wrapper_of(items) })),
        }
    }
}

/// A keyword with blanks around it.
pub open spec fn spec_spaced_tag(s: Seq<char>, pos: int, t: Seq<char>) -> SRes<()> {
    let p0 = sp(s, pos);
    if !has_tag(s, p0, t) {
        fail(p0, ErrorKind::Tag)
    } else {
        Ok((sp(s, p0 + t.len()), ()))
    }
}

/// `target rust|go|typescript`; committed once `target` is found.
pub open spec fn spec_target(s: Seq<char>, pos: int) -> SRes<Target> {
    match spec_spaced_tag(s, pos, "target"@) {
        Err(e) => Err(e),
        Ok((p1, _)) => match spec_rust_target(s, p1) {
            Ok((p, t)) => Ok((p, Target::Rust(t))),
            Err(e) => if e.fatal {
                Err(in_ctx(Context::TargetDirective, p1, e))
            } else {
                match spec_spaced_tag(s, p1, "go"@) {
                    Ok((p, _)) => Ok((p, Target::Go(GoTarget {  }))),
                    Err(e) => match spec_spaced_tag(s, p1, "typescript"@) {
                        Ok((p, _)) => Ok((p, Target::TypeScript(TypeScriptTarget {  }))),
                        Err(e) => Err(in_ctx(Context::TargetDirective, p1, fatal(e))),
                    },
                }
            },
        },
    }
}

/// `build name [from "path"]`, after optional comment lines.
pub open spec fn spec_build(s: Seq<char>, pos: int) -> SRes<SpecBuild> {
    match spec_spaced_tag(s, spaced_comments_end(s, pos), "build"@) {
        Err(e) => Err(e),
        Ok((b, _)) => match cut(spec_named_from(s, b)) {
            Err(e) => Err(in_ctx(Context::BuildDirective, b, e)),
            Ok((p, (name, from))) => Ok((p, SpecBuild { name, from })),
        },
    }
}

/// Build directives, each with blanks around it.
pub open spec fn spec_builds(s: Seq<char>, pos: int) -> SRes<Seq<SpecBuild>>
    decreases rem(s, pos),
{
    match spec_build(s, sp(s, pos)) {
        Err(e) => if e.fatal {
            Err(e)
        } else {
            Ok((pos, Seq::empty()))
        },
        Ok((b, bd)) => {
            let c = sp(s, b);
            if c <= pos {
                fail(pos, ErrorKind::Many0)
            } else if !moves(s, pos, c) {
                stuck(pos)
            } else {
                match spec_builds(s, c) {
                    Err(e) => Err(e),
                    Ok((d, bds)) => Ok((d, seq![bd] + bds)),
                }
            }
        },
    }
}

/// A whole rules file: target, builds, trailing comments, then end of input.
pub open spec fn spec_rules(s: Seq<char>) -> Result<SpecRules, SpecParseError> {
    match spec_target(s, 0) {
        Err(e) => Err(e),
        Ok((p1, target)) => match spec_builds(s, sp(s, p1)) {
            Err(e) => Err(e),
            Ok((b, builds)) => {
                let q = sp(s, spaced_comments_end(s, sp(s, sp(s, b))));
                if q != s.len() {
                    Err(failure(false, q, ErrorKind::Eof))
                } else {
                    Ok(SpecRules { loc: Span { offset: 0, len: 0 }, target, builds })
                }
            },
        },
    }
}

} // verus!
