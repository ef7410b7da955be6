//! Where a character offset falls in a source text, the caret line that
//! points at a span in a diagnostic, and what a diagnostic of a parse error
//! says.
use crate::grammar::{Context, ErrorKind, ParseError, SpecParseError};
use vstd::prelude::*;

verus! {

/// How many line ends `s` holds.
pub open spec fn count_newlines(s: Seq<char>) -> nat
    decreases s.len(),
{
    if s.len() == 0 {
        0
    } else {
        count_newlines(s.drop_last()) + if s.last() == '\n' {
            1nat
        } else {
            0nat
        }
    }
}

/// The offset at which the line holding offset `n` of `s` starts: just
/// after the last line end before `n`, or 0.
pub open spec fn line_start(s: Seq<char>, n: int) -> int
    decreases n,
{
    if n <= 0 {
        0
    } else if s[n - 1] == '\n' {
        n
    } else {
        line_start(s, n - 1)
    }
}

proof fn lemma_count_bound(s: Seq<char>)
    ensures
        count_newlines(s) <= s.len(),
    decreases s.len(),
{
    if s.len() > 0 {
        lemma_count_bound(s.drop_last());
    }
}

/// A line and a column, both counted from 0.
#[derive(Debug, Clone, Copy, PartialEq, Eq, Structural)]
pub struct Position {
    pub line: usize,
    pub column: usize,
}

/// The line and column of offset `offset` in `source`.
pub fn position(source: &Vec<char>, offset: usize) -> (p: Position)
    requires
        offset <= source@.len(),
    ensures
        p.line == count_newlines(source@.subrange(0, offset as int)),
        p.column == offset - line_start(source@, offset as int),
{
    let mut line: usize = 0;
    let mut start: usize = 0;
    let mut i: usize = 0;
    while i < offset
        invariant
            offset <= source@.len(),
            i <= offset,
            start <= i,
            line == count_newlines(source@.subrange(0, i as int)),
            start == line_start(source@, i as int),
        decreases offset - i,
    {
        proof {
            assert(source@.subrange(0, i + 1).drop_last() =~= source@.subrange(0, i as int));
            lemma_count_bound(source@.subrange(0, i as int));
        }
        if source[i] == '\n' {
            line = line + 1;
            start = i + 1;
        }
        i = i + 1;
    }
    Position { line, column: offset - start }
}

/// `n` copies of `c`.
pub open spec fn repeated(c: char, n: nat) -> Seq<char>
    decreases n,
{
    if n == 0 {
        Seq::empty()
    } else {
        repeated(c, (n - 1) as nat).push(c)
    }
}

pub(crate) fn push_repeated(s: &mut String, c: char, n: usize)
    ensures
        final(s)@ == old(s)@ + repeated(c, n as nat),
{
    let mut i: usize = 0;
    while i < n
        invariant
            i <= n,
            s@ == old(s)@ + repeated(c, i as nat),
        decreases n - i,
    {
        crate::output::push_char(s, c);
        i = i + 1;
    }
}

/// The line under a source line that points at a span of `len` characters
/// starting at `column`: blanks up to the column, a caret, then one tilde
/// per further character.
pub open spec fn caret_spec(column: nat, len: nat) -> Seq<char> {
    repeated(' ', column) + seq!['^'] + repeated('~', if len == 0 {
        0
    } else {
        (len - 1) as nat
    })
}

pub fn caret_text(column: usize, len: usize) -> (r: String)
    ensures
        r@ == caret_spec(column as nat, len as nat),
{
    let mut r = String::new();
    push_repeated(&mut r, ' ', column);
    crate::output::push_char(&mut r, '^');
    let tildes = if len == 0 {
        0
    } else {
        len - 1
    };
    push_repeated(&mut r, '~', tildes);
    r
}

/// The name by which an error kind is reported.
pub open spec fn kind_name(k: ErrorKind) -> Seq<char> {
    match k {
        ErrorKind::Tag => "Tag"@,
        ErrorKind::Char(_) => "Char"@,
        ErrorKind::TakeWhile1 => "TakeWhile1"@,
        ErrorKind::TakeUntil => "TakeUntil"@,
        ErrorKind::Many0 => "Many0"@,
        ErrorKind::Many1 => "Many1"@,
        ErrorKind::SeparatedList => "SeparatedList"@,
        ErrorKind::Eof => "Eof"@,
        ErrorKind::Stuck => "Stuck"@,
    }
}

pub fn error_kind_name(k: ErrorKind) -> (r: &'static str)
    ensures
        r@ == kind_name(k),
{
    proof {
        reveal_strlit("Tag");
        reveal_strlit("Char");
        reveal_strlit("TakeWhile1");
        reveal_strlit("TakeUntil");
        reveal_strlit("Many0");
        reveal_strlit("Many1");
        reveal_strlit("SeparatedList");
        reveal_strlit("Eof");
        reveal_strlit("Stuck");
    }
    match k {
        ErrorKind::Tag => "Tag",
        ErrorKind::Char(_) => "Char",
        ErrorKind::TakeWhile1 => "TakeWhile1",
        ErrorKind::TakeUntil => "TakeUntil",
        ErrorKind::Many0 => "Many0",
        ErrorKind::Many1 => "Many1",
        ErrorKind::SeparatedList => "SeparatedList",
        ErrorKind::Eof => "Eof",
        ErrorKind::Stuck => "Stuck",
    }
}

/// What a diagnostic of a parse error says: its text, then a part shown
/// highlighted at its end (empty where there is none).
#[derive(Debug)]
pub struct ErrorMessage {
    pub text: String,
    pub highlight: String,
}

/// A missing character is reported with the character found in its
/// place; any other failure by the name of its kind, highlighted.
pub open spec fn message_text(source: Seq<char>, e: SpecParseError) -> Seq<char> {
    match e.kind {
        ErrorKind::Char(c) => "expected '"@ + seq![c] + "', found "@ + seq![source[e.pos as int]],
        _ => "parsing error: "@,
    }
}

pub open spec fn message_highlight(e: SpecParseError) -> Seq<char> {
    match e.kind {
        ErrorKind::Char(_) => Seq::empty(),
        k => kind_name(k),
    }
}

/// The message of a parse error of `source`. A missing character is
/// reported together with the one found at the error's position, so the
/// position must then hold one.
pub fn error_message(source: &Vec<char>, e: &ParseError) -> (m: ErrorMessage)
    requires
        e.kind is Char ==> e.pos < source@.len(),
    ensures
        m.text@ == message_text(source@, e@),
        m.highlight@ == message_highlight(e@),
{
    match e.kind {
        ErrorKind::Char(c) => {
            let mut text = String::from_str("expected '");
            crate::output::push_char(&mut text, c);
            text.append("', found ");
            crate::output::push_char(&mut text, source[e.pos]);
            proof {
                reveal_strlit("expected '");
                reveal_strlit("', found ");
            }
            assert(text@ =~= message_text(source@, e@));
            ErrorMessage { text, highlight: String::new() }
        },
        k => {
            let name = error_kind_name(k);
            ErrorMessage { text: String::from_str("parsing error: "), highlight: String::from_str(name) }
        },
    }
}

/// The name by which a construct is shown in a diagnostic.
pub open spec fn context_name(c: Context) -> Seq<char> {
    match c {
        Context::TargetDirective => "target directive"@,
        Context::RustTarget => "rust target"@,
        Context::RustTargetWrapper => "rust target wrapper"@,
        Context::BuildDirective => "build directive"@,
        Context::FromDirective => "from directive"@,
        Context::Import => "import"@,
        Context::Field => "field"@,
        Context::ResultList => "result list"@,
        Context::FunctionDeclaration => "function declaration"@,
        Context::ParameterList => "parameter list"@,
        Context::FunctionBody => "function body"@,
        Context::NotificationDeclaration => "notification declaration"@,
        Context::StructDeclaration => "struct declaration"@,
        Context::NamespaceDeclaration => "namespace declaration"@,
    }
}

pub fn context_text(c: Context) -> (r: &'static str)
    ensures
        r@ == context_name(c),
{
    proof {
        reveal_strlit("target directive");
        reveal_strlit("rust target");
        reveal_strlit("rust target wrapper");
        reveal_strlit("build directive");
        reveal_strlit("from directive");
        reveal_strlit("import");
        reveal_strlit("field");
        reveal_strlit("result list");
        reveal_strlit("function declaration");
        reveal_strlit("parameter list");
        reveal_strlit("function body");
        reveal_strlit("notification declaration");
        reveal_strlit("struct declaration");
        reveal_strlit("namespace declaration");
    }
    match c {
        Context::TargetDirective => "target directive",
        Context::RustTarget => "rust target",
        Context::RustTargetWrapper => "rust target wrapper",
        Context::BuildDirective => "build directive",
        Context::FromDirective => "from directive",
        Context::Import => "import",
        Context::Field => "field",
        Context::ResultList => "result list",
        Context::FunctionDeclaration => "function declaration",
        Context::ParameterList => "parameter list",
        Context::FunctionBody => "function body",
        Context::NotificationDeclaration => "notification declaration",
        Context::StructDeclaration => "struct declaration",
        Context::NamespaceDeclaration => "namespace declaration",
    }
}

/// A note shown before the message of a parse error: where a construct
/// that the failure happened inside starts, and what it says.
#[derive(Debug)]
pub struct ContextNote {
    pub pos: usize,
    pub text: String,
}

/// The notes of a parse error, in the order they are shown: each construct
/// the failure happened inside, outermost first, as `In` and its name at
/// the position where it starts.
pub open spec fn context_notes(e: SpecParseError) -> Seq<(usize, Seq<char>)> {
    Seq::new(
        e.contexts.len(),
        |i: int|
            {
                let c = e.contexts[e.contexts.len() - 1 - i];
                (c.pos, "In "@ + context_name(c.context))
            },
    )
}

pub open spec fn notes_view(v: Seq<ContextNote>) -> Seq<(usize, Seq<char>)> {
    v.map_values(|n: ContextNote| (n.pos, n.text@))
}

/// The notes shown before the message of a parse error.
pub fn error_context_notes(e: &ParseError) -> (r: Vec<ContextNote>)
    ensures
        notes_view(r@) == context_notes(e@),
{
    let mut r: Vec<ContextNote> = Vec::new();
    let n = e.contexts.len();
    let mut i: usize = 0;
    while i < n
        invariant
            i <= n,
            n == e.contexts@.len(),
            notes_view(r@) =~= context_notes(e@).subrange(0, i as int),
        decreases n - i,
    {
        let c = e.contexts[n - 1 - i];
        let mut text = String::from_str("In ");
        text.append(context_text(c.context));
        proof {
            reveal_strlit("In ");
        }
        let ghost pre = r@;
        r.push(ContextNote { pos: c.pos, text });
        assert(notes_view(r@) =~= notes_view(pre).push(context_notes(e@)[i as int]));
        i = i + 1;
    }
    r
}

} // verus!
