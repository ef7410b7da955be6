//! Text output with indentation: every line written inside a scope starts
//! with the scope's indentation, and empty lines stay empty.
use crate::ast::Comment;
use vstd::prelude::*;

verus! {

pub const INDENT_WIDTH: usize = 4;

/// Wraps a sink for generated text.
pub struct Writer<W> {
    writer: W,
}

impl<W> Writer<W> {
    pub fn new(writer: W) -> (r: Writer<W>)
        ensures
            r.inner() == writer,
    {
        Writer { writer }
    }

    pub closed spec fn inner(&self) -> W {
        self.writer
    }

    pub fn into_inner(self) -> (w: W)
        ensures
            w == self.inner(),
    {
        self.writer
    }
}

#[derive(Debug, Clone, Copy, PartialEq, Eq, Structural)]
pub enum ScopeState {
    /// At the start of a line: the next character of text is preceded by the indentation.
    NeedIndent,
    /// Inside a line.
    Indented,
}

pub open spec fn spaces(n: nat) -> Seq<char>
    decreases n,
{
    if n == 0 {
        Seq::empty()
    } else {
        spaces((n - 1) as nat).push(' ')
    }
}

/// What writing `text` in a scope indented by `indent` adds to the output,
/// and the state it leaves: a line end is copied; any other character is
/// copied, preceded by the indentation when it starts a line.
pub open spec fn emit(indent: nat, state: ScopeState, text: Seq<char>) -> (Seq<char>, ScopeState)
    decreases text.len(),
{
    if text.len() == 0 {
        (Seq::empty(), state)
    } else {
        let c = text[0];
        let (head, next): (Seq<char>, ScopeState) = if c == '\n' {
            (seq!['\n'], ScopeState::NeedIndent)
        } else if state == ScopeState::NeedIndent {
            (spaces(indent).push(c), ScopeState::Indented)
        } else {
            (seq![c], ScopeState::Indented)
        };
        let (tail, last) = emit(indent, next, text.drop_first());
        (head + tail, last)
    }
}

/// Writing two texts one after the other writes the same as writing them joined.
pub proof fn lemma_emit_concat(indent: nat, state: ScopeState, a: Seq<char>, b: Seq<char>)
    ensures
        emit(indent, state, a + b) == ({
            let (o1, s1) = emit(indent, state, a);
            let (o2, s2) = emit(indent, s1, b);
            (o1 + o2, s2)
        }),
    decreases a.len(),
{
    if a.len() == 0 {
        assert(a + b =~= b);
    } else {
        assert((a + b)[0] == a[0]);
        assert((a + b).drop_first() =~= a.drop_first() + b);
        let c = a[0];
        let next = if c == '\n' {
            ScopeState::NeedIndent
        } else {
            ScopeState::Indented
        };
        lemma_emit_concat(indent, next, a.drop_first(), b);
        let (h, _n) = if c == '\n' {
            (seq!['\n'], ScopeState::NeedIndent)
        } else if state == ScopeState::NeedIndent {
            (spaces(indent).push(c), ScopeState::Indented)
        } else {
            (seq![c], ScopeState::Indented)
        };
        let (t1, s1) = emit(indent, next, a.drop_first());
        let (o2, s2) = emit(indent, s1, b);
        assert(h + (t1 + o2) =~= (h + t1) + o2);
    }
}

/// Writing one character.
pub proof fn lemma_emit_char(indent: nat, state: ScopeState, c: char)
    ensures
        emit(indent, state, seq![c]) == (if c == '\n' {
            (seq!['\n'], ScopeState::NeedIndent)
        } else if state == ScopeState::NeedIndent {
            (spaces(indent).push(c), ScopeState::Indented)
        } else {
            (seq![c], ScopeState::Indented)
        }),
{
    let t = seq![c];
    assert(t.drop_first() =~= Seq::<char>::empty());
    reveal_with_fuel(emit, 2);
    let (h, _n): (Seq<char>, ScopeState) = if c == '\n' {
        (seq!['\n'], ScopeState::NeedIndent)
    } else if state == ScopeState::NeedIndent {
        (spaces(indent).push(c), ScopeState::Indented)
    } else {
        (seq![c], ScopeState::Indented)
    };
    assert(h + Seq::<char>::empty() =~= h);
}

/// At indentation zero, writing a text writes it unchanged.
pub proof fn lemma_emit_zero(state: ScopeState, text: Seq<char>)
    ensures
        emit(0, state, text).0 == text,
    decreases text.len(),
{
    if text.len() > 0 {
        let c = text[0];
        let next = if c == '\n' {
            ScopeState::NeedIndent
        } else {
            ScopeState::Indented
        };
        lemma_emit_zero(next, text.drop_first());
        assert(spaces(0) == Seq::<char>::empty());
        assert(spaces(0).push(c) =~= seq![c]);
        assert(seq![c] + text.drop_first() =~= text);
    }
}

/// Blanks add up.
pub proof fn lemma_spaces_add(a: nat, b: nat)
    ensures
        spaces(a) + spaces(b) == spaces(a + b),
        !spaces(b).contains('\n'),
        spaces(b).len() == b,
    decreases b,
{
    if b > 0 {
        lemma_spaces_add(a, (b - 1) as nat);
        assert(spaces(a) + spaces((b - 1) as nat).push(' ') =~= (spaces(a) + spaces(
            (b - 1) as nat,
        )).push(' '));
        if spaces(b).contains('\n') {
            let k = choose|k: int| 0 <= k < spaces(b).len() && spaces(b)[k] == '\n';
            if k < b - 1 {
                assert(spaces((b - 1) as nat)[k] == '\n');
            }
        }
    }
}

/// Text written in a scope indented by `b`, then written as it came out
/// into a scope indented by `a` in the same state, comes out as if it had
/// been written into a scope indented by `a + b`.
pub proof fn lemma_emit_nested(a: nat, b: nat, state: ScopeState, text: Seq<char>)
    ensures
        emit(a, state, emit(b, state, text).0) == emit(a + b, state, text),
    decreases text.len(),
{
    if text.len() > 0 {
        let c = text[0];
        let rest = text.drop_first();
        let next = if c == '\n' {
            ScopeState::NeedIndent
        } else {
            ScopeState::Indented
        };
        let (hb, _nb) = if c == '\n' {
            (seq!['\n'], ScopeState::NeedIndent)
        } else if state == ScopeState::NeedIndent {
            (spaces(b).push(c), ScopeState::Indented)
        } else {
            (seq![c], ScopeState::Indented)
        };
        let (tb, lb) = emit(b, next, rest);
        assert(emit(b, state, text) == (hb + tb, lb));
        lemma_emit_concat(a, state, hb, tb);
        lemma_emit_nested(a, b, next, rest);
        lemma_spaces_add(a, b);
        if c == '\n' {
            lemma_emit_char(a, state, '\n');
        } else if state == ScopeState::NeedIndent {
            let u = spaces(b).push(c);
            assert(!u.contains('\n')) by {
                if u.contains('\n') {
                    let k = choose|k: int| 0 <= k < u.len() && u[k] == '\n';
                    assert(k < b);
                    assert(spaces(b)[k] == '\n');
                }
            }
            lemma_emit_one_line(a, state, u);
            assert(spaces(a) + u =~= spaces(a + b).push(c));
        } else {
            lemma_emit_char(a, state, c);
        }
    }
}

/// A text without line ends writes itself, indented if it starts a line.
pub proof fn lemma_emit_one_line(indent: nat, state: ScopeState, text: Seq<char>)
    requires
        !text.contains('\n'),
        text.len() > 0,
    ensures
        emit(indent, state, text) == (if state == ScopeState::NeedIndent {
            spaces(indent) + text
        } else {
            text
        }, ScopeState::Indented),
    decreases text.len(),
{
    let rest = text.drop_first();
    assert(text[0] != '\n') by {
        assert(text.contains(text[0]));
    }
    if rest.len() > 0 {
        assert(!rest.contains('\n')) by {
            if rest.contains('\n') {
                let k = choose|k: int| 0 <= k < rest.len() && rest[k] == '\n';
                assert(text[k + 1] == '\n');
            }
        }
        lemma_emit_one_line(indent, ScopeState::Indented, rest);
        if state == ScopeState::NeedIndent {
            assert(spaces(indent).push(text[0]) + rest =~= spaces(indent) + text);
        } else {
            assert(seq![text[0]] + rest =~= text);
        }
    } else {
        assert(emit(indent, ScopeState::Indented, rest) == (Seq::<char>::empty(), ScopeState::Indented));
        if state == ScopeState::NeedIndent {
            assert(spaces(indent).push(text[0]) + Seq::<char>::empty() =~= spaces(indent) + text);
        } else {
            assert(seq![text[0]] + Seq::<char>::empty() =~= text);
        }
    }
}

/// Calls `String::push`, which appends one character.
#[verifier::external_body]
pub(crate) fn push_char(st: &mut String, c: char)
    ensures
        final(st)@ == old(st)@.push(c),
{
    st.push(c)
}

/// An output buffer with a stack of nested scopes.
pub struct Scope {
    out: String,
    indent: usize,
    state: ScopeState,
    saved: Vec<(usize, ScopeState)>,
}

impl View for Scope {
    type V = Seq<char>;

    closed spec fn view(&self) -> Seq<char> {
        self.out@
    }
}

impl Scope {
    /// The indentation of the current scope.
    pub closed spec fn spec_indent(&self) -> nat {
        self.indent as nat
    }

    pub closed spec fn spec_state(&self) -> ScopeState {
        self.state
    }

    /// How many scopes are open inside the outermost one.
    pub closed spec fn depth(&self) -> nat {
        self.saved@.len()
    }

    /// The indentation that the scope `k` levels out has.
    pub closed spec fn outer_indent(&self, k: int) -> nat {
        self.saved@[self.saved.len() - k].0 as nat
    }

    /// The state that the scope `k` levels out resumes with.
    pub closed spec fn outer_state(&self, k: int) -> ScopeState {
        self.saved@[self.saved@.len() - k].1
    }

    pub closed spec fn wf(&self) -> bool {
        &&& self.indent == INDENT_WIDTH * self.saved.len()
        &&& forall|i: int|
            0 <= i < self.saved.len() ==> #[trigger] self.saved@[i].0 == INDENT_WIDTH * i
    }

    /// An empty output at the outermost scope.
    pub fn new() -> (s: Scope)
        ensures
            s@ == Seq::<char>::empty(),
            s.spec_indent() == 0,
            s.spec_state() == ScopeState::NeedIndent,
            s.depth() == 0,
            s.wf(),
    {
        Scope { out: String::new(), indent: 0, state: ScopeState::NeedIndent, saved: Vec::new() }
    }

    /// Writes `text` in the current scope.
    pub fn write(&mut self, text: &str)
        ensures
            final(self)@ == old(self)@ + emit(old(self).spec_indent(), old(self).spec_state(), text@).0,
            final(self).spec_state() == emit(
                old(self).spec_indent(),
                old(self).spec_state(),
                text@,
            ).1,
            final(self).spec_indent() == old(self).spec_indent(),
            final(self).depth() == old(self).depth(),
            old(self).wf() ==> final(self).wf(),
            forall|k: int| #[trigger] final(self).outer_indent(k) == old(self).outer_indent(k),
            forall|k: int| #[trigger] final(self).outer_state(k) == old(self).outer_state(k),
    {
        let n = text.unicode_len();
        let ghost start = self.out@;
        let ghost st0 = self.state;
        let ghost ind = self.indent as nat;
        let mut i: usize = 0;
        proof {
            assert(text@.subrange(0, 0) =~= Seq::<char>::empty());
        }
        while i < n
            invariant
                n == text@.len(),
                i <= n,
                ind == self.indent,
                self.saved == old(self).saved,
                self.indent == old(self).indent,
                (self.out@, self.state) == ({
                    let (o, s) = emit(ind, st0, text@.subrange(0, i as int));
                    (start + o, s)
                }),
            decreases n - i,
        {
            let c = text.get_char(i);
            let ghost pre_out = self.out@;
            let ghost pre_state = self.state;
            if c == '\n' {
                push_char(&mut self.out, '\n');
                self.state = ScopeState::NeedIndent;
            } else {
                if self.state == ScopeState::NeedIndent {
                    let mut k: usize = 0;
                    while k < self.indent
                        invariant
                            k <= self.indent,
                            self.indent == ind,
                            self.saved == old(self).saved,
                            self.state == pre_state,
                            self.out@ == pre_out + spaces(k as nat),
                        decreases self.indent - k,
                    {
                        push_char(&mut self.out, ' ');
                        k = k + 1;
                    }
                }
                push_char(&mut self.out, c);
                self.state = ScopeState::Indented;
            }
            proof {
                let piece = text@.subrange(i as int, i + 1);
                assert(piece =~= seq![c]);
                assert(piece.drop_first() =~= Seq::<char>::empty());
                lemma_emit_concat(ind, st0, text@.subrange(0, i as int), piece);
                lemma_emit_char(ind, pre_state, c);
                assert(text@.subrange(0, i as int) + piece =~= text@.subrange(0, i + 1));
                let (o1, s1) = emit(ind, st0, text@.subrange(0, i as int));
                assert(s1 == pre_state);
                assert(pre_out == start + o1);
                let (o2, s2) = emit(ind, s1, piece);
                if c == '\n' {
                    assert(o2 =~= seq!['\n']);
                } else if pre_state == ScopeState::NeedIndent {
                    assert(o2 =~= spaces(ind).push(c));
                } else {
                    assert(o2 =~= seq![c]);
                }
                assert(self.out@ =~= start + (o1 + o2));
            }
            i = i + 1;
        }
        assert(text@.subrange(0, n as int) =~= text@);
    }

    /// Ends the current line.
    pub fn lf(&mut self)
        ensures
            final(self)@ == old(self)@.push('\n'),
            final(self).spec_state() == ScopeState::NeedIndent,
            final(self).spec_indent() == old(self).spec_indent(),
            final(self).depth() == old(self).depth(),
            old(self).wf() ==> final(self).wf(),
            forall|k: int| #[trigger] final(self).outer_indent(k) == old(self).outer_indent(k),
            forall|k: int| #[trigger] final(self).outer_state(k) == old(self).outer_state(k),
    {
        proof {
            reveal_strlit("\n");
            assert("\n"@ =~= seq!['\n']);
            lemma_emit_char(self.spec_indent(), self.spec_state(), '\n');
        }
        self.write("\n");
    }

    /// Writes `a` then `b`, then ends the line.
    pub fn line2(&mut self, a: &str, b: &str)
        ensures
            final(self)@ == old(self)@ + emit(
                old(self).spec_indent(),
                old(self).spec_state(),
                a@ + b@ + seq!['\n'],
            ).0,
            final(self).spec_state() == ScopeState::NeedIndent,
            final(self).spec_indent() == old(self).spec_indent(),
            final(self).depth() == old(self).depth(),
            old(self).wf() ==> final(self).wf(),
            forall|k: int| #[trigger] final(self).outer_indent(k) == old(self).outer_indent(k),
            forall|k: int| #[trigger] final(self).outer_state(k) == old(self).outer_state(k),
    {
        let ghost ind = self.spec_indent();
        let ghost st = self.spec_state();
        self.write(a);
        self.write(b);
        let ghost s2 = self.spec_state();
        self.lf();
        proof {
            lemma_emit_concat(ind, st, a@ + b@, seq!['\n']);
            lemma_emit_concat(ind, st, a@, b@);
            lemma_emit_char(ind, s2, '\n');
        }
    }

    /// Writes `text`, then ends the line.
    pub fn line(&mut self, text: &str)
        ensures
            final(self)@ == old(self)@ + emit(old(self).spec_indent(), old(self).spec_state(), text@).0
                + seq!['\n'],
            final(self).spec_state() == ScopeState::NeedIndent,
            final(self).spec_indent() == old(self).spec_indent(),
            final(self).depth() == old(self).depth(),
            old(self).wf() ==> final(self).wf(),
            forall|k: int| #[trigger] final(self).outer_indent(k) == old(self).outer_indent(k),
            forall|k: int| #[trigger] final(self).outer_state(k) == old(self).outer_state(k),
    {
        self.write(text);
        self.lf();
    }

    /// Opens a scope indented one level more; its first character starts a line.
    pub fn push_scope(&mut self)
        requires
            old(self).wf(),
            old(self).spec_indent() + INDENT_WIDTH <= usize::MAX,
        ensures
            final(self)@ == old(self)@,
            final(self).spec_indent() == old(self).spec_indent() + INDENT_WIDTH,
            final(self).spec_state() == ScopeState::NeedIndent,
            final(self).depth() == old(self).depth() + 1,
            final(self).wf(),
            final(self).outer_indent(1) == old(self).spec_indent(),
            final(self).outer_state(1) == old(self).spec_state(),
            forall|k: int|
                1 <= k <= old(self).depth() ==> #[trigger] final(self).outer_indent(k + 1)
                    == old(self).outer_indent(k),
            forall|k: int|
                1 <= k <= old(self).depth() ==> #[trigger] final(self).outer_state(k + 1)
                    == old(self).outer_state(k),
    {
        self.saved.push((self.indent, self.state));
        self.indent = self.indent + INDENT_WIDTH;
        self.state = ScopeState::NeedIndent;
    }

    /// Closes the innermost scope; the enclosing one resumes where it was.
    pub fn pop_scope(&mut self)
        requires
            old(self).wf(),
            old(self).depth() > 0,
        ensures
            final(self)@ == old(self)@,
            final(self).spec_indent() == old(self).outer_indent(1),
            final(self).spec_state() == old(self).outer_state(1),
            final(self).depth() == old(self).depth() - 1,
            final(self).wf(),
            forall|k: int|
                1 <= k <= final(self).depth() ==> #[trigger] final(self).outer_indent(k)
                    == old(self).outer_indent(k + 1),
            forall|k: int|
                1 <= k <= final(self).depth() ==> #[trigger] final(self).outer_state(k)
                    == old(self).outer_state(k + 1),
    {
        let (indent, state) = self.saved.pop().unwrap();
        self.indent = indent;
        self.state = state;
    }

    /// Writes ` {`, ends the line and opens a scope.
    pub fn open_block(&mut self)
        requires
            old(self).wf(),
            old(self).spec_indent() + INDENT_WIDTH <= usize::MAX,
        ensures
            final(self)@ == old(self)@ + emit(
                old(self).spec_indent(),
                old(self).spec_state(),
                " {"@,
            ).0 + seq!['\n'],
            final(self).spec_indent() == old(self).spec_indent() + INDENT_WIDTH,
            final(self).spec_state() == ScopeState::NeedIndent,
            final(self).depth() == old(self).depth() + 1,
            final(self).wf(),
            final(self).outer_indent(1) == old(self).spec_indent(),
            final(self).outer_state(1) == ScopeState::NeedIndent,
    {
        self.line(" {");
        self.push_scope();
    }

    /// Declares a struct named `name` whose fields are `fields`, written one
    /// level in.
    pub fn def_struct(&mut self, name: &str, fields: &str)
        requires
            old(self).wf(),
            old(self).spec_indent() + INDENT_WIDTH <= usize::MAX,
        ensures
            final(self)@ == old(self)@ + emit(
                old(self).spec_indent(),
                old(self).spec_state(),
                "#[derive(Serialize, Deserialize, Debug)]"@ + seq!['\n'] + "pub struct "@ + name@
                    + " {"@ + seq!['\n'],
            ).0 + emit((old(self).spec_indent() + INDENT_WIDTH) as nat, ScopeState::NeedIndent, fields@).0
                + emit(old(self).spec_indent(), ScopeState::NeedIndent, "}"@).0 + seq!['\n'],
            final(self).spec_indent() == old(self).spec_indent(),
            final(self).spec_state() == ScopeState::NeedIndent,
            final(self).depth() == old(self).depth(),
            final(self).wf(),
    {
        let ghost ind = self.spec_indent();
        let ghost st = self.spec_state();
        let ghost start = self@;
        self.line("#[derive(Serialize, Deserialize, Debug)]");
        let mut head = String::from_str("pub struct ");
        head.append(name);
        head.append(" {");
        self.line(head.as_str());
        let ghost after_head = self@;
        self.push_scope();
        self.write(fields);
        self.pop_scope();
        self.line("}");
        proof {
            let d = "#[derive(Serialize, Deserialize, Debug)]"@ + seq!['\n'];
            let h = "pub struct "@ + name@ + " {"@ + seq!['\n'];
            lemma_emit_concat(ind, st, "#[derive(Serialize, Deserialize, Debug)]"@, seq!['\n']);
            lemma_emit_char(ind, emit(ind, st, "#[derive(Serialize, Deserialize, Debug)]"@).1, '\n');
            lemma_emit_concat(ind, ScopeState::NeedIndent, head@, seq!['\n']);
            lemma_emit_char(ind, emit(ind, ScopeState::NeedIndent, head@).1, '\n');
            lemma_emit_concat(ind, st, d, h);
            assert(head@ + seq!['\n'] =~= h);
            assert(emit(ind, st, d).1 == ScopeState::NeedIndent);
            assert(emit(ind, st, d + h).0 =~= emit(ind, st, d).0 + emit(ind, ScopeState::NeedIndent, h).0);
            assert(after_head =~= start + emit(ind, st, d + h).0);
            assert(d + h =~= "#[derive(Serialize, Deserialize, Debug)]"@ + seq!['\n'] + "pub struct "@
                + name@ + " {"@ + seq!['\n']);
        }
        assert(self@ =~= old(self)@ + emit(
            old(self).spec_indent(),
            old(self).spec_state(),
            "#[derive(Serialize, Deserialize, Debug)]"@ + seq!['\n'] + "pub struct "@ + name@ + " {"@
                + seq!['\n'],
        ).0 + emit((old(self).spec_indent() + INDENT_WIDTH) as nat, ScopeState::NeedIndent, fields@).0
            + emit(old(self).spec_indent(), ScopeState::NeedIndent, "}"@).0 + seq!['\n']);
    }

    /// Writes `text` between the two brackets of `brackets`.
    pub fn in_brackets(&mut self, brackets: Brackets, text: &str)
        ensures
            final(self)@ == old(self)@ + emit(
                old(self).spec_indent(),
                old(self).spec_state(),
                seq![spec_pair(brackets).0] + text@ + seq![spec_pair(brackets).1],
            ).0,
            final(self).spec_state() == emit(
                old(self).spec_indent(),
                old(self).spec_state(),
                seq![spec_pair(brackets).0] + text@ + seq![spec_pair(brackets).1],
            ).1,
            final(self).spec_indent() == old(self).spec_indent(),
            final(self).depth() == old(self).depth(),
            old(self).wf() ==> final(self).wf(),
    {
        let ghost ind = self.spec_indent();
        let ghost st = self.spec_state();
        self.write(brackets.open_str());
        self.write(text);
        self.write(brackets.close_str());
        proof {
            let o = seq![spec_pair(brackets).0];
            let c = seq![spec_pair(brackets).1];
            lemma_emit_concat(ind, st, o + text@, c);
            lemma_emit_concat(ind, st, o, text@);
        }
    }

    /// Closes the innermost scope and writes `}` on a line of its own.
    pub fn close_block(&mut self)
        requires
            old(self).wf(),
            old(self).depth() > 0,
        ensures
            final(self)@ == old(self)@ + emit(old(self).outer_indent(1), old(self).outer_state(1), "}"@).0
                + seq!['\n'],
            final(self).depth() == old(self).depth() - 1,
            final(self).wf(),
            final(self).spec_indent() == old(self).outer_indent(1),
            final(self).spec_state() == ScopeState::NeedIndent,
    {
        self.pop_scope();
        self.line("}");
    }

    /// Writes each line of a doc comment, prefixed by `/// `.
    pub fn comment(&mut self, comment: &Option<Comment>)
        ensures
            final(self)@ == old(self)@ + emit(
                old(self).spec_indent(),
                old(self).spec_state(),
                comment_text(comment_lines(*comment)),
            ).0,
            final(self).spec_state() == emit(
                old(self).spec_indent(),
                old(self).spec_state(),
                comment_text(comment_lines(*comment)),
            ).1,
            final(self).spec_indent() == old(self).spec_indent(),
            final(self).depth() == old(self).depth(),
            old(self).wf() ==> final(self).wf(),
            forall|k: int| #[trigger] final(self).outer_indent(k) == old(self).outer_indent(k),
            forall|k: int| #[trigger] final(self).outer_state(k) == old(self).outer_state(k),
    {
        let ghost start = self@;
        let ghost ind = self.spec_indent();
        let ghost st0 = self.spec_state();
        let ghost lines = comment_lines(*comment);
        assert(comment_text(lines.subrange(0, 0)) =~= Seq::<char>::empty());
        if let Some(c) = comment {
            let n = c.lines.len();
            for i in 0..n
                invariant
                    n == c.lines.len(),
                    lines == strings_of(c.lines@),
                    self.spec_indent() == ind,
                    self.depth() == old(self).depth(),
                    old(self).wf() ==> self.wf(),
                    forall|k: int| #[trigger] self.outer_indent(k) == old(self).outer_indent(k),
                    forall|k: int| #[trigger] self.outer_state(k) == old(self).outer_state(k),
                    (self@, self.spec_state()) == ({
                        let (o, st) = emit(ind, st0, comment_text(lines.subrange(0, i as int)));
                        (start + o, st)
                    }),
            {
                let ghost pst = self.spec_state();
                self.line2("/// ", c.lines[i].as_str());
                proof {
                    let prev = comment_text(lines.subrange(0, i as int));
                    assert(lines.subrange(0, i + 1).drop_last() =~= lines.subrange(0, i as int));
                    lemma_emit_concat(ind, st0, prev, "/// "@ + lines[i as int] + seq!['\n']);
                    lemma_emit_concat(ind, pst, "/// "@ + lines[i as int], seq!['\n']);
                    lemma_emit_char(ind, emit(ind, pst, "/// "@ + lines[i as int]).1, '\n');
                }
            }
            assert(lines.subrange(0, n as int) =~= lines);
        }
    }

    /// The text written so far.
    pub fn into_string(self) -> (r: String)
        ensures
            r@ == self@,
    {
        self.out
    }
}

#[derive(Debug, Clone, Copy, PartialEq, Eq, Structural)]
pub enum Brackets {
    Round,
    Squares,
    Curly,
    Angle,
}

pub open spec fn spec_pair(b: Brackets) -> (char, char) {
    match b {
        Brackets::Round => ('(', ')'),
        Brackets::Squares => ('[', ']'),
        Brackets::Curly => ('{', '}'),
        Brackets::Angle => ('<', '>'),
    }
}

impl Brackets {
    pub fn pair(&self) -> (r: (char, char))
        ensures
            r == spec_pair(*self),
    {
        match self {
            Brackets::Round => ('(', ')'),
            Brackets::Squares => ('[', ']'),
            Brackets::Curly => ('{', '}'),
            Brackets::Angle => ('<', '>'),
        }
    }

    pub fn open(&self) -> (c: char)
        ensures
            c == spec_pair(*self).0,
    {
        self.pair().0
    }

    pub fn close(&self) -> (c: char)
        ensures
            c == spec_pair(*self).1,
    {
        self.pair().1
    }

    /// The opening bracket as text.
    pub fn open_str(&self) -> (s: &'static str)
        ensures
            s@ == seq![spec_pair(*self).0],
    {
        proof {
            reveal_strlit("(");
            reveal_strlit("[");
            reveal_strlit("{");
            reveal_strlit("<");
        }
        match self {
            Brackets::Round => "(",
            Brackets::Squares => "[",
            Brackets::Curly => "{",
            Brackets::Angle => "<",
        }
    }

    /// The closing bracket as text.
    pub fn close_str(&self) -> (s: &'static str)
        ensures
            s@ == seq![spec_pair(*self).1],
    {
        proof {
            reveal_strlit(")");
            reveal_strlit("]");
            reveal_strlit("}");
            reveal_strlit(">");
        }
        match self {
            Brackets::Round => ")",
            Brackets::Squares => "]",
            Brackets::Curly => "}",
            Brackets::Angle => ">",
        }
    }
}

pub open spec fn strings_of(v: Seq<String>) -> Seq<Seq<char>> {
    v.map_values(|x: String| x@)
}

pub open spec fn comment_lines(c: Option<Comment>) -> Seq<Seq<char>> {
    match c {
        Some(c) => strings_of(c.lines@),
        None => Seq::empty(),
    }
}

/// Each comment line as `/// line` followed by a line end.
pub open spec fn comment_text(lines: Seq<Seq<char>>) -> Seq<char>
    decreases lines.len(),
{
    if lines.len() == 0 {
        Seq::empty()
    } else {
        comment_text(lines.drop_last()) + ("/// "@ + lines.last() + seq!['\n'])
    }
}

/// Items separated by `sep`.
pub open spec fn join(items: Seq<Seq<char>>, sep: Seq<char>) -> Seq<char>
    decreases items.len(),
{
    if items.len() == 0 {
        Seq::empty()
    } else if items.len() == 1 {
        items[0]
    } else {
        join(items.drop_last(), sep) + sep + items.last()
    }
}

pub open spec fn strs_view(v: Seq<&str>) -> Seq<Seq<char>> {
    v.map_values(|s: &str| s@)
}

/// The texts of `items`, separated by `sep`.
pub fn join_strs(items: &Vec<&str>, sep: &str) -> (r: String)
    ensures
        r@ == join(strs_view(items@), sep@),
{
    let ghost v = strs_view(items@);
    let n = items.len();
    let mut r = String::new();
    if n == 0 {
        return r;
    }
    r.append(items[0]);
    proof {
        assert(v.subrange(0, 1) =~= seq![v[0]]);
    }
    for i in 1..n
        invariant
            n == items.len(),
            n > 0,
            v == strs_view(items@),
            r@ == join(v.subrange(0, i as int), sep@),
    {
        r.append(sep);
        r.append(items[i]);
        proof {
            let pre = v.subrange(0, i + 1);
            assert(pre.drop_last() =~= v.subrange(0, i as int));
        }
    }
    assert(v.subrange(0, n as int) =~= v);
    r
}

/// The text of a bracketed list: nothing when empty and omitted, the two
/// brackets when empty, else the items joined by `, ` inside the brackets.
pub open spec fn list_text(b: Brackets, items: Seq<Seq<char>>, omit_empty: bool) -> Seq<char> {
    if items.len() == 0 {
        if omit_empty {
            Seq::empty()
        } else {
            seq![spec_pair(b).0, spec_pair(b).1]
        }
    } else {
        seq![spec_pair(b).0] + join(items, ", "@) + seq![spec_pair(b).1]
    }
}

/// A comma-separated list between brackets.
pub struct CommaList {
    brackets: Brackets,
    items: Vec<String>,
    omit_empty: bool,
}

impl CommaList {
    pub closed spec fn spec_items(&self) -> Seq<Seq<char>> {
        self.items@.map_values(|x: String| x@)
    }

    pub closed spec fn spec_brackets(&self) -> Brackets {
        self.brackets
    }

    pub closed spec fn spec_omit_empty(&self) -> bool {
        self.omit_empty
    }

    pub fn new(brackets: Brackets) -> (l: CommaList)
        ensures
            l.spec_items() == Seq::<Seq<char>>::empty(),
            l.spec_brackets() == brackets,
            !l.spec_omit_empty(),
    {
        let l = CommaList { brackets, items: Vec::new(), omit_empty: false };
        assert(l.spec_items() =~= Seq::<Seq<char>>::empty());
        l
    }

    /// An empty list will write nothing at all.
    pub fn omit_empty(&mut self)
        ensures
            final(self).spec_items() == old(self).spec_items(),
            final(self).spec_brackets() == old(self).spec_brackets(),
            final(self).spec_omit_empty(),
    {
        self.omit_empty = true;
    }

    /// Adds an item at the end.
    pub fn item(&mut self, item: &str)
        ensures
            final(self).spec_items() == old(self).spec_items().push(item@),
            final(self).spec_brackets() == old(self).spec_brackets(),
            final(self).spec_omit_empty() == old(self).spec_omit_empty(),
    {
        self.items.push(String::from_str(item));
        assert(self.spec_items() =~= old(self).spec_items().push(item@));
    }

    /// The text of the list.
    pub fn text(&self) -> (r: String)
        ensures
            r@ == list_text(self.spec_brackets(), self.spec_items(), self.spec_omit_empty()),
    {
        let n = self.items.len();
        let mut r = String::new();
        if n == 0 {
            if !self.omit_empty {
                r.append(self.brackets.open_str());
                r.append(self.brackets.close_str());
                assert(r@ =~= seq![spec_pair(self.brackets).0, spec_pair(self.brackets).1]);
            }
            return r;
        }
        let ghost items = self.spec_items();
        r.append(self.brackets.open_str());
        r.append(self.items[0].as_str());
        proof {
            assert(items.subrange(0, 1) =~= seq![items[0]]);
            assert(r@ =~= seq![spec_pair(self.brackets).0] + join(items.subrange(0, 1), ", "@));
        }
        for i in 1..n
            invariant
                n == self.items.len(),
                n > 0,
                items == self.spec_items(),
                r@ == seq![spec_pair(self.brackets).0] + join(items.subrange(0, i as int), ", "@),
        {
            r.append(", ");
            r.append(self.items[i].as_str());
            proof {
                let pre = items.subrange(0, i + 1);
                assert(pre.drop_last() =~= items.subrange(0, i as int));
                assert(pre.last() == self.items@[i as int]@);
                assert(r@ =~= seq![spec_pair(self.brackets).0] + join(pre, ", "@));
            }
        }
        r.append(self.brackets.close_str());
        assert(items.subrange(0, n as int) =~= items);
        assert(r@ =~= seq![spec_pair(self.brackets).0] + join(items, ", "@) + seq![
            spec_pair(self.brackets).1,
        ]);
        r
    }
}

} // verus!
