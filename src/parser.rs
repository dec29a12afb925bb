//! Reading Palel source text into programs.
//!
//! The text is first split into tokens with whitespace between them, then
//! the tokens are read as programs. Each stage states what it produced: the
//! tokens laid out again give back the text, and the tokens of the programs
//! read are the tokens given. Each stage also states when it must succeed:
//! text that writes out programs whose names are no keywords, with
//! whitespace at least between two words or numbers, is always read.
use vstd::prelude::*;

use crate::build_task::SrcFile;
use crate::compilation_error::{CompilationError, ErrorModel, FailedToParseSrcFile};
use crate::palel::{
    opt_schema_model, expressions_model, ident_from_name, ident_text, programs_model, schema_identifier_from_string, schema_type, statements_model,
    CallModel, DeclModel, DoBlock, Expression, Literal, LiteralModel, MemoryModifier, Program,
    ProcedureCall, Return, SchemaModel, Src, Statement, StatementModel, TypePostfix,
    VariableDeclaration,
};
use crate::text::str_equal;

verus! {

// ---------------------------------------------------------------------------
// Tokens
// ---------------------------------------------------------------------------

#[derive(Debug, PartialEq)]
pub enum Token {
    Word(String),
    Text(String),
    Number(String),
    Colon,
    Open,
    Close,
    Comma,
    Assign,
    Question,
    Bang,
}

pub enum TokenModel {
    Word(Seq<char>),
    Text(Seq<char>),
    Number(Seq<char>),
    Colon,
    Open,
    Close,
    Comma,
    Assign,
    Question,
    Bang,
}

impl View for Token {
    type V = TokenModel;

    open spec fn view(&self) -> TokenModel {
        match self {
            Token::Word(s) => TokenModel::Word(s@),
            Token::Text(s) => TokenModel::Text(s@),
            Token::Number(s) => TokenModel::Number(s@),
            Token::Colon => TokenModel::Colon,
            Token::Open => TokenModel::Open,
            Token::Close => TokenModel::Close,
            Token::Comma => TokenModel::Comma,
            Token::Assign => TokenModel::Assign,
            Token::Question => TokenModel::Question,
            Token::Bang => TokenModel::Bang,
        }
    }
}

pub open spec fn tokens_model(v: Seq<Token>) -> Seq<TokenModel> {
    v.map_values(|t: Token| t@)
}

/// How a token is written; a text token is written between double quotes.
pub open spec fn token_text(t: TokenModel) -> Seq<char> {
    match t {
        TokenModel::Word(s) => s,
        TokenModel::Text(s) => "\""@ + s + "\""@,
        TokenModel::Number(s) => s,
        TokenModel::Colon => ":"@,
        TokenModel::Open => "("@,
        TokenModel::Close => ")"@,
        TokenModel::Comma => ","@,
        TokenModel::Assign => "="@,
        TokenModel::Question => "?"@,
        TokenModel::Bang => "!"@,
    }
}

pub open spec fn is_space(c: char) -> bool {
    c == ' ' || c == '\t' || c == '\n' || c == '\r'
}

pub open spec fn blank(s: Seq<char>) -> bool {
    forall|i: int| 0 <= i < s.len() ==> is_space(#[trigger] s[i])
}

/// The tokens written in order, with `gaps[k]` before the k-th token and the
/// last gap after them all.
pub open spec fn interleave(gaps: Seq<Seq<char>>, toks: Seq<TokenModel>) -> Seq<char>
    decreases toks.len(),
{
    if toks.len() == 0 {
        if gaps.len() == 0 {
            Seq::empty()
        } else {
            gaps[0]
        }
    } else {
        interleave(gaps.drop_last(), toks.drop_last()) + token_text(toks.last()) + gaps.last()
    }
}

/// `text` is `toks` written out with only whitespace between them.
pub open spec fn laid_out(text: Seq<char>, toks: Seq<TokenModel>, gaps: Seq<Seq<char>>) -> bool {
    &&& gaps.len() == toks.len() + 1
    &&& forall|k: int| 0 <= k < gaps.len() ==> blank(#[trigger] gaps[k])
    &&& text == interleave(gaps, toks)
}

pub open spec fn tokenizes(text: Seq<char>, toks: Seq<TokenModel>) -> bool {
    exists|gaps: Seq<Seq<char>>| laid_out(text, toks, gaps)
}

// ---------------------------------------------------------------------------
// The tokens of a program tree
// ---------------------------------------------------------------------------

pub open spec fn word(s: &str) -> TokenModel {
    TokenModel::Word(s@)
}

pub open spec fn literal_tokens(l: LiteralModel) -> Seq<TokenModel> {
    match l {
        LiteralModel::String(s) => seq![TokenModel::Text(s)],
        LiteralModel::Number(n) => seq![TokenModel::Number(n)],
        LiteralModel::Boolean(b) => seq![
            if b {
                word("true")
            } else {
                word("false")
            },
        ],
        LiteralModel::Null => seq![word("null")],
    }
}

/// Arguments separated by commas.
pub open spec fn args_tokens(args: Seq<LiteralModel>) -> Seq<TokenModel>
    decreases args.len(),
{
    if args.len() == 0 {
        Seq::empty()
    } else if args.len() == 1 {
        literal_tokens(args[0])
    } else {
        args_tokens(args.drop_last()) + seq![TokenModel::Comma] + literal_tokens(args.last())
    }
}

/// `interface : name ( args )`, or `name ( args )` without an interface.
pub open spec fn call_tokens(c: CallModel) -> Seq<TokenModel> {
    (if c.interface.len() > 0 {
        seq![TokenModel::Word(c.interface), TokenModel::Colon]
    } else {
        Seq::empty()
    }) + seq![TokenModel::Word(c.identifier), TokenModel::Open] + args_tokens(c.arguments)
        + seq![TokenModel::Close]
}

pub open spec fn return_tokens(v: Option<LiteralModel>) -> Seq<TokenModel> {
    seq![word("return")] + match v {
        Some(l) => literal_tokens(l),
        None => Seq::empty(),
    }
}

pub open spec fn memory_word(m: MemoryModifier) -> TokenModel {
    match m {
        MemoryModifier::Dim => word("dim"),
        MemoryModifier::Var => word("var"),
        MemoryModifier::Ref => word("ref"),
        MemoryModifier::Addr => word("addr"),
    }
}

pub open spec fn postfix_tokens(p: TypePostfix) -> Seq<TokenModel> {
    match p {
        TypePostfix::Opt => seq![TokenModel::Question],
        TypePostfix::Error => seq![TokenModel::Bang],
        TypePostfix::Plain => Seq::empty(),
    }
}

pub open spec fn schema_tokens(s: Option<SchemaModel>) -> Seq<TokenModel> {
    match s {
        Some(t) => seq![TokenModel::Word(ident_text(t.identifier))] + postfix_tokens(t.postfix),
        None => Seq::empty(),
    }
}

/// `memory name [Type[?|!]] = literal`.
pub open spec fn decl_tokens(d: DeclModel) -> Seq<TokenModel> {
    seq![memory_word(d.memory), TokenModel::Word(d.identifier)] + schema_tokens(d.schema_type)
        + seq![TokenModel::Assign] + literal_tokens(d.expression)
}

pub open spec fn statement_tokens(s: StatementModel) -> Seq<TokenModel> {
    match s {
        StatementModel::ProcedureCall(c) => call_tokens(c),
        StatementModel::Return(v) => return_tokens(v),
        StatementModel::Variable(d) => decl_tokens(d),
    }
}

pub open spec fn statements_tokens(ss: Seq<StatementModel>) -> Seq<TokenModel>
    decreases ss.len(),
{
    if ss.len() == 0 {
        Seq::empty()
    } else {
        statements_tokens(ss.drop_last()) + statement_tokens(ss.last())
    }
}

/// `program do statements end`.
pub open spec fn program_tokens(ss: Seq<StatementModel>) -> Seq<TokenModel> {
    seq![word("program"), word("do")] + statements_tokens(ss) + seq![word("end")]
}

pub open spec fn programs_tokens(ps: Seq<Seq<StatementModel>>) -> Seq<TokenModel>
    decreases ps.len(),
{
    if ps.len() == 0 {
        Seq::empty()
    } else {
        programs_tokens(ps.drop_last()) + program_tokens(ps.last())
    }
}

// ---------------------------------------------------------------------------
// Programs that can be read back
// ---------------------------------------------------------------------------

pub open spec fn is_keyword(w: Seq<char>) -> bool {
    ||| w == "program"@
    ||| w == "do"@
    ||| w == "end"@
    ||| w == "dim"@
    ||| w == "var"@
    ||| w == "ref"@
    ||| w == "addr"@
    ||| w == "return"@
    ||| w == "true"@
    ||| w == "false"@
    ||| w == "null"@
}

/// A name that can start a procedure call.
pub open spec fn name_ok(w: Seq<char>) -> bool {
    w.len() > 0 && !is_keyword(w)
}

/// A token that starts a literal.
pub open spec fn literal_start(t: TokenModel) -> bool {
    match t {
        TokenModel::Text(_) => true,
        TokenModel::Number(_) => true,
        TokenModel::Word(w) => w == "true"@ || w == "false"@ || w == "null"@,
        _ => false,
    }
}

/// A schema that its name and postfix give back.
pub open spec fn readable_schema(s: SchemaModel) -> bool {
    s.wf() && ident_from_name(ident_text(s.identifier)) == s.identifier
}

/// A statement whose tokens read back as itself.
pub open spec fn readable_statement(s: StatementModel) -> bool {
    match s {
        StatementModel::ProcedureCall(c) => name_ok(c.identifier) && (c.interface.len() > 0
            ==> name_ok(c.interface)),
        StatementModel::Return(_) => true,
        StatementModel::Variable(d) => match d.schema_type {
            Some(t) => readable_schema(t),
            None => true,
        },
    }
}

pub open spec fn readable_program(ss: Seq<StatementModel>) -> bool {
    forall|i: int| 0 <= i < ss.len() ==> readable_statement(#[trigger] ss[i])
}

pub open spec fn readable(ps: Seq<Seq<StatementModel>>) -> bool {
    forall|i: int| 0 <= i < ps.len() ==> readable_program(#[trigger] ps[i])
}

proof fn lemma_literal_tokens(l: LiteralModel)
    ensures
        literal_tokens(l).len() == 1,
        literal_start(literal_tokens(l)[0]),
{
}

proof fn lemma_literal_injective(a: LiteralModel, b: LiteralModel)
    requires
        literal_tokens(a) == literal_tokens(b),
    ensures
        a == b,
{
    reveal_strlit("true");
    reveal_strlit("false");
    reveal_strlit("null");
    assert("true"@ != "false"@) by {
        assert("true"@[0] != "false"@[0]);
    }
    assert("true"@ != "null"@) by {
        assert("true"@[0] != "null"@[0]);
    }
    assert("false"@ != "null"@) by {
        assert("false"@[0] != "null"@[0]);
    }
    let ta = literal_tokens(a)[0];
    let tb = literal_tokens(b)[0];
    assert(ta == tb);
    match a {
        LiteralModel::String(x) => {
            assert(ta == TokenModel::Text(x));
        },
        LiteralModel::Number(x) => {
            assert(ta == TokenModel::Number(x));
        },
        LiteralModel::Boolean(x) => {
            if x {
                assert(ta == word("true"));
            } else {
                assert(ta == word("false"));
            }
        },
        LiteralModel::Null => {
            assert(ta == word("null"));
        },
    }
    match b {
        LiteralModel::String(x) => {
            assert(tb == TokenModel::Text(x));
        },
        LiteralModel::Number(x) => {
            assert(tb == TokenModel::Number(x));
        },
        LiteralModel::Boolean(x) => {
            if x {
                assert(tb == word("true"));
            } else {
                assert(tb == word("false"));
            }
        },
        LiteralModel::Null => {
            assert(tb == word("null"));
        },
    }
}

proof fn lemma_memory_word_injective(a: MemoryModifier, b: MemoryModifier)
    requires
        memory_word(a) == memory_word(b),
    ensures
        a == b,
{
    reveal_strlit("dim");
    reveal_strlit("var");
    reveal_strlit("ref");
    reveal_strlit("addr");
    assert("dim"@[0] == 'd' && "var"@[0] == 'v' && "ref"@[0] == 'r' && "addr"@[0] == 'a');
}

/// Where the k-th argument stands among the argument tokens.
pub open spec fn even_pos(k: int) -> int {
    2 * k
}

/// Where the comma after the k-th argument stands.
pub open spec fn odd_pos(k: int) -> int {
    2 * k + 1
}

/// Arguments alternate with commas, one token each.
proof fn lemma_args_layout(a: Seq<LiteralModel>)
    ensures
        a.len() == 0 ==> args_tokens(a).len() == 0,
        a.len() > 0 ==> args_tokens(a).len() == 2 * a.len() - 1,
        forall|k: int|
            0 <= k < a.len() ==> #[trigger] args_tokens(a)[even_pos(k)] == literal_tokens(a[k])[0],
        forall|k: int| 0 <= k < a.len() - 1 ==> #[trigger] args_tokens(a)[odd_pos(k)] == TokenModel::Comma,
    decreases a.len(),
{
    if a.len() > 1 {
        let b = a.drop_last();
        lemma_args_layout(b);
        lemma_literal_tokens(a.last());
        assert forall|k: int| 0 <= k < a.len() implies #[trigger] args_tokens(a)[even_pos(k)]
            == literal_tokens(a[k])[0] by {
            if k < b.len() {
                assert(b[k] == a[k]);
                assert(args_tokens(b)[even_pos(k)] == literal_tokens(b[k])[0]);
            }
        }
        assert forall|k: int| 0 <= k < a.len() - 1 implies #[trigger] args_tokens(a)[odd_pos(k)]
            == TokenModel::Comma by {
            if k < b.len() - 1 {
                assert(args_tokens(b)[odd_pos(k)] == TokenModel::Comma);
            }
        }
    } else if a.len() == 1 {
        lemma_literal_tokens(a[0]);
        assert(args_tokens(a)[even_pos(0)] == literal_tokens(a[0])[0]);
    }
}

/// Where each part of a call stands among its tokens.
proof fn lemma_call_layout(c: CallModel)
    ensures
        ({
            let ct = call_tokens(c);
            let h: int = if c.interface.len() > 0 {
                2
            } else {
                0
            };
            let m = args_tokens(c.arguments).len() as int;
            &&& ct.len() == h + 3 + m
            &&& c.interface.len() > 0 ==> ct[0] == TokenModel::Word(c.interface) && ct[1]
                == TokenModel::Colon
            &&& ct[h] == TokenModel::Word(c.identifier)
            &&& ct[h + 1] == TokenModel::Open
            &&& ct.subrange(h + 2, h + 2 + m) == args_tokens(c.arguments)
            &&& ct[h + 2 + m] == TokenModel::Close
        }),
{
    let ct = call_tokens(c);
    let h: int = if c.interface.len() > 0 {
        2
    } else {
        0
    };
    let m = args_tokens(c.arguments).len() as int;
    let head = if c.interface.len() > 0 {
        seq![TokenModel::Word(c.interface), TokenModel::Colon]
    } else {
        Seq::empty()
    };
    assert(ct =~= head + seq![TokenModel::Word(c.identifier), TokenModel::Open] + args_tokens(
        c.arguments,
    ) + seq![TokenModel::Close]);
    assert(ct.subrange(h + 2, h + 2 + m) =~= args_tokens(c.arguments));
}

/// Where each part of a declaration stands among its tokens.
proof fn lemma_decl_layout(d: DeclModel)
    ensures
        ({
            let dt = decl_tokens(d);
            let st = schema_tokens(d.schema_type);
            &&& dt.len() == 4 + st.len()
            &&& dt[0] == memory_word(d.memory)
            &&& dt[1] == TokenModel::Word(d.identifier)
            &&& forall|j: int| 0 <= j < st.len() ==> dt[2 + j] == #[trigger] st[j]
            &&& dt[2 + st.len() as int] == TokenModel::Assign
            &&& dt[3 + st.len() as int] == literal_tokens(d.expression)[0]
            &&& d.schema_type is None ==> st.len() == 0
            &&& d.schema_type is Some ==> st[0] == TokenModel::Word(
                ident_text(d.schema_type->Some_0.identifier),
            ) && st.len() == 1 + postfix_tokens(d.schema_type->Some_0.postfix).len() && (
            d.schema_type->Some_0.postfix == TypePostfix::Opt ==> st[1] == TokenModel::Question)
                && (d.schema_type->Some_0.postfix == TypePostfix::Error ==> st[1]
                == TokenModel::Bang)
        }),
{
    lemma_literal_tokens(d.expression);
    let dt = decl_tokens(d);
    let st = schema_tokens(d.schema_type);
    assert(dt =~= seq![memory_word(d.memory), TokenModel::Word(d.identifier)] + st + seq![
        TokenModel::Assign,
    ] + literal_tokens(d.expression));
    assert forall|j: int| 0 <= j < st.len() implies dt[2 + j] == #[trigger] st[j] by {
        assert(dt[2 + j] == (seq![memory_word(d.memory), TokenModel::Word(d.identifier)] + st)[2
            + j]);
    }
}

proof fn lemma_statement_head(s: StatementModel)
    requires
        readable_statement(s),
    ensures
        statement_tokens(s).len() >= 1,
        !literal_start(statement_tokens(s)[0]),
        statement_tokens(s)[0] != word("end"),
{
    reveal_strlit("return");
    reveal_strlit("dim");
    reveal_strlit("var");
    reveal_strlit("ref");
    reveal_strlit("addr");
    reveal_strlit("true");
    reveal_strlit("false");
    reveal_strlit("null");
    reveal_strlit("end");
    assert("dim"@[0] == 'd' && "var"@[0] == 'v' && "ref"@[0] == 'r' && "addr"@[0] == 'a');
    assert("return"@[0] == 'r' && "end"@[0] == 'e');
    assert("true"@[0] == 't' && "false"@[0] == 'f' && "null"@[0] == 'n');
}

/// The tokens of the first `j` statements begin the tokens of them all.
proof fn lemma_statements_prefix(ss: Seq<StatementModel>, j: int)
    requires
        0 <= j <= ss.len(),
    ensures
        statements_tokens(ss.take(j)).len() <= statements_tokens(ss).len(),
        statements_tokens(ss).take(statements_tokens(ss.take(j)).len() as int) == statements_tokens(
            ss.take(j),
        ),
    decreases ss.len(),
{
    if j == ss.len() {
        assert(ss.take(j) =~= ss);
        assert(statements_tokens(ss).take(statements_tokens(ss).len() as int) =~= statements_tokens(ss));
    } else {
        assert(ss.drop_last().take(j) =~= ss.take(j));
        lemma_statements_prefix(ss.drop_last(), j);
        let whole = statements_tokens(ss);
        let front = statements_tokens(ss.drop_last());
        let n = statements_tokens(ss.take(j)).len() as int;
        assert(whole.take(n) =~= front.take(n));
    }
}

proof fn lemma_statements_step(ss: Seq<StatementModel>, k: int)
    requires
        0 <= k < ss.len(),
    ensures
        statements_tokens(ss.take(k + 1)) == statements_tokens(ss.take(k)) + statement_tokens(ss[k]),
{
    assert(ss.take(k + 1).drop_last() =~= ss.take(k));
}

/// The tokens of the first `j` programs begin the tokens of them all.
proof fn lemma_programs_prefix(ps: Seq<Seq<StatementModel>>, j: int)
    requires
        0 <= j <= ps.len(),
    ensures
        programs_tokens(ps.take(j)).len() <= programs_tokens(ps).len(),
        programs_tokens(ps).take(programs_tokens(ps.take(j)).len() as int) == programs_tokens(
            ps.take(j),
        ),
    decreases ps.len(),
{
    if j == ps.len() {
        assert(ps.take(j) =~= ps);
        assert(programs_tokens(ps).take(programs_tokens(ps).len() as int) =~= programs_tokens(ps));
    } else {
        assert(ps.drop_last().take(j) =~= ps.take(j));
        lemma_programs_prefix(ps.drop_last(), j);
        let whole = programs_tokens(ps);
        let front = programs_tokens(ps.drop_last());
        let n = programs_tokens(ps.take(j)).len() as int;
        assert(whole.take(n) =~= front.take(n));
    }
}

proof fn lemma_programs_step(ps: Seq<Seq<StatementModel>>, k: int)
    requires
        0 <= k < ps.len(),
    ensures
        programs_tokens(ps.take(k + 1)) == programs_tokens(ps.take(k)) + program_tokens(ps[k]),
{
    assert(ps.take(k + 1).drop_last() =~= ps.take(k));
}

/// `text` writes out readable programs in a way the lexer splits: then
/// reading it is owed success.
pub open spec fn reads(text: Seq<char>) -> bool {
    exists|ps: Seq<Seq<StatementModel>>, gaps: Seq<Seq<char>>|
        readable(ps) && #[trigger] lexes_as(text, programs_tokens(ps), gaps)
}

/// `text` is, up to whitespace between tokens, the programs `ps` written out.
pub open spec fn parses_as(text: Seq<char>, ps: Seq<Seq<StatementModel>>) -> bool {
    tokenizes(text, programs_tokens(ps))
}

// ---------------------------------------------------------------------------
// Splitting text into tokens
// ---------------------------------------------------------------------------


pub open spec fn digit(c: char) -> bool {
    '0' <= c && c <= '9'
}

pub open spec fn word_start(c: char) -> bool {
    ('a' <= c && c <= 'z') || ('A' <= c && c <= 'Z') || c == '_'
}

pub open spec fn word_char(c: char) -> bool {
    word_start(c) || digit(c)
}

/// An optional minus, digits, and at most one decimal point after the first
/// character; a minus alone is no number.
pub open spec fn number_shape(n: Seq<char>) -> bool {
    &&& n.len() >= 1
    &&& n[0] == '-' || digit(n[0])
    &&& n.len() >= 2 || n[0] != '-'
    &&& forall|x: int| 1 <= x < n.len() ==> digit(#[trigger] n[x]) || n[x] == '.'
    &&& forall|x: int, y: int| 1 <= x < y < n.len() && #[trigger] n[x] == '.' ==> #[trigger] n[y] != '.'
}

/// A token that the lexer can produce.
pub open spec fn lexable(t: TokenModel) -> bool {
    match t {
        TokenModel::Word(w) => w.len() >= 1 && word_start(w[0]) && forall|x: int|
            0 <= x < w.len() ==> word_char(#[trigger] w[x]),
        TokenModel::Text(s) => forall|x: int| 0 <= x < s.len() ==> #[trigger] s[x] != '"',
        TokenModel::Number(n) => number_shape(n),
        _ => true,
    }
}

/// Words and numbers run into each other without whitespace between them.
pub open spec fn wordish(t: TokenModel) -> bool {
    t is Word || t is Number
}

/// `text` lays out `toks` with whitespace between them, each token one the
/// lexer produces, and whitespace at least between two words or numbers.
pub open spec fn lexes_as(text: Seq<char>, toks: Seq<TokenModel>, gaps: Seq<Seq<char>>) -> bool {
    &&& laid_out(text, toks, gaps)
    &&& forall|k: int| 0 <= k < toks.len() ==> lexable(#[trigger] toks[k])
    &&& forall|k: int|
        0 < k < toks.len() && gaps[k].len() == 0 ==> !(wordish(toks[k - 1]) && wordish(
            #[trigger] toks[k],
        ))
}

/// Where the k-th token starts in the laid-out text.
pub open spec fn token_start(gaps: Seq<Seq<char>>, toks: Seq<TokenModel>, k: int) -> int {
    interleave(gaps.take(k + 1), toks.take(k)).len() as int
}

/// After a word or a number, what follows cannot continue it.
pub open spec fn follows_ok(t: TokenModel, text: Seq<char>, e: int) -> bool {
    e == text.len() || !wordish(t) || (!word_char(text[e]) && text[e] != '.')
}

/// `t` is written at `i` and what follows does not continue it.
pub open spec fn spelled_at(text: Seq<char>, i: int, t: TokenModel) -> bool {
    &&& 0 <= i
    &&& i + token_text(t).len() <= text.len()
    &&& text.subrange(i, i + token_text(t).len()) == token_text(t)
    &&& lexable(t)
    &&& follows_ok(t, text, i + token_text(t).len())
}

proof fn lemma_interleave_step(gaps: Seq<Seq<char>>, toks: Seq<TokenModel>, k: int)
    requires
        gaps.len() == toks.len() + 1,
        0 <= k < toks.len(),
    ensures
        interleave(gaps.take(k + 2), toks.take(k + 1)) == interleave(gaps.take(k + 1), toks.take(k))
            + token_text(toks[k]) + gaps[k + 1],
{
    assert(gaps.take(k + 2).drop_last() =~= gaps.take(k + 1));
    assert(toks.take(k + 1).drop_last() =~= toks.take(k));
}

proof fn lemma_interleave_prefix(gaps: Seq<Seq<char>>, toks: Seq<TokenModel>, k: int)
    requires
        gaps.len() == toks.len() + 1,
        0 <= k <= toks.len(),
    ensures
        token_start(gaps, toks, k) <= interleave(gaps, toks).len(),
        interleave(gaps, toks).take(token_start(gaps, toks, k)) == interleave(
            gaps.take(k + 1),
            toks.take(k),
        ),
    decreases toks.len(),
{
    if k == toks.len() {
        assert(gaps.take(k + 1) =~= gaps);
        assert(toks.take(k) =~= toks);
        let w = interleave(gaps, toks);
        assert(w.take(w.len() as int) =~= w);
    } else {
        let g = gaps.drop_last();
        let t = toks.drop_last();
        assert(g.take(k + 1) =~= gaps.take(k + 1));
        assert(t.take(k) =~= toks.take(k));
        lemma_interleave_prefix(g, t, k);
        let whole = interleave(gaps, toks);
        let front = interleave(g, t);
        let n = token_start(gaps, toks, k);
        assert(token_start(g, t, k) == n);
        assert(whole.take(n) =~= front.take(n));
    }
}

/// The text between the k-th token's start and the next one's: the token,
/// then the gap after it.
proof fn lemma_token_at(text: Seq<char>, gaps: Seq<Seq<char>>, toks: Seq<TokenModel>, k: int)
    requires
        laid_out(text, toks, gaps),
        0 <= k < toks.len(),
    ensures
        ({
            let p = token_start(gaps, toks, k);
            let e = p + token_text(toks[k]).len();
            &&& 0 <= p
            &&& e + gaps[k + 1].len() == token_start(gaps, toks, k + 1)
            &&& token_start(gaps, toks, k + 1) <= text.len()
            &&& text.subrange(p, e) == token_text(toks[k])
            &&& text.subrange(e, e + gaps[k + 1].len()) == gaps[k + 1]
        }),
{
    lemma_interleave_step(gaps, toks, k);
    lemma_interleave_prefix(gaps, toks, k + 1);
    let p = token_start(gaps, toks, k);
    let e = p + token_text(toks[k]).len();
    let upto = interleave(gaps.take(k + 2), toks.take(k + 1));
    let before = interleave(gaps.take(k + 1), toks.take(k));
    assert(text.subrange(p, e) =~= upto.subrange(p, e));
    assert(text.subrange(e, e + gaps[k + 1].len()) =~= upto.subrange(e, e + gaps[k + 1].len()));
}

/// The gap before the first token.
proof fn lemma_first_gap(text: Seq<char>, gaps: Seq<Seq<char>>, toks: Seq<TokenModel>)
    requires
        laid_out(text, toks, gaps),
    ensures
        token_start(gaps, toks, 0) == gaps[0].len(),
        gaps[0].len() <= text.len(),
        text.subrange(0, gaps[0].len() as int) == gaps[0],
{
    lemma_interleave_prefix(gaps, toks, 0);
    assert(toks.take(0) =~= Seq::<TokenModel>::empty());
    assert(interleave(gaps.take(1), toks.take(0)) == gaps.take(1)[0]);
    assert(text.subrange(0, gaps[0].len() as int) =~= text.take(gaps[0].len() as int));
}

/// The end of the whole layout.
proof fn lemma_last_start(text: Seq<char>, gaps: Seq<Seq<char>>, toks: Seq<TokenModel>)
    requires
        laid_out(text, toks, gaps),
    ensures
        token_start(gaps, toks, toks.len() as int) == text.len(),
{
    assert(gaps.take(toks.len() + 1 as int) =~= gaps);
    assert(toks.take(toks.len() as int) =~= toks);
}

proof fn lemma_extend_gap(gaps: Seq<Seq<char>>, g: Seq<char>, c: char, toks: Seq<TokenModel>)
    requires
        gaps.len() == toks.len(),
    ensures
        interleave(gaps.push(g.push(c)), toks) == interleave(gaps.push(g), toks).push(c),
{
    if toks.len() > 0 {
        assert(gaps.push(g.push(c)).drop_last() =~= gaps);
        assert(gaps.push(g).drop_last() =~= gaps);
    }
}

proof fn lemma_add_token(gaps: Seq<Seq<char>>, g: Seq<char>, toks: Seq<TokenModel>, t: TokenModel)
    requires
        gaps.len() == toks.len(),
    ensures
        interleave(gaps.push(g).push(Seq::empty()), toks.push(t)) == interleave(gaps.push(g), toks)
            + token_text(t),
{
    assert(gaps.push(g).push(Seq::<char>::empty()).drop_last() =~= gaps.push(g));
    assert(toks.push(t).drop_last() =~= toks);
    let w = interleave(gaps.push(g), toks) + token_text(t);
    assert(w + Seq::<char>::empty() =~= w);
}

fn is_space_char(c: char) -> (r: bool)
    ensures
        r == is_space(c),
{
    c == ' ' || c == '\t' || c == '\n' || c == '\r'
}

fn is_digit(c: char) -> (r: bool)
    ensures
        r == digit(c),
{
    '0' <= c && c <= '9'
}

fn is_word_start(c: char) -> (r: bool)
    ensures
        r == word_start(c),
{
    ('a' <= c && c <= 'z') || ('A' <= c && c <= 'Z') || c == '_'
}

pub open spec fn accepts_spec(c: char, digits: bool) -> bool {
    if digits {
        digit(c)
    } else {
        word_char(c)
    }
}

fn accepts(c: char, digits: bool) -> (r: bool)
    ensures
        r == accepts_spec(c, digits),
{
    if digits {
        is_digit(c)
    } else {
        is_word_start(c) || is_digit(c)
    }
}

/// The end of the run of characters from `from` on that `digits` or word
/// characters, as chosen, accept.
fn scan(text: &str, from: usize, digits: bool) -> (r: usize)
    requires
        from <= text@.len(),
    ensures
        from <= r <= text@.len(),
        forall|x: int| from <= x < r ==> accepts_spec(#[trigger] text@[x], digits),
        r < text@.len() ==> !accepts_spec(text@[r as int], digits),
{
    let n = text.unicode_len();
    let mut j = from;
    while j < n && accepts(text.get_char(j), digits)
        invariant
            n == text@.len(),
            from <= j <= n,
            forall|x: int| from <= x < j ==> accepts_spec(#[trigger] text@[x], digits),
        decreases n - j,
    {
        j += 1;
    }
    j
}

/// A run that another run of accepted characters also describes ends where
/// that one ends.
proof fn lemma_run_end(text: Seq<char>, from: int, r: int, e: int, digits: bool)
    requires
        from <= r <= text.len(),
        forall|x: int| from <= x < r ==> accepts_spec(#[trigger] text[x], digits),
        r < text.len() ==> !accepts_spec(text[r], digits),
        from <= e <= text.len(),
        forall|x: int| from <= x < e ==> accepts_spec(#[trigger] text[x], digits),
        e < text.len() ==> !accepts_spec(text[e], digits),
    ensures
        r == e,
{
    if r < e {
        assert(accepts_spec(text[r], digits));
    }
    if e < r {
        assert(accepts_spec(text[e], digits));
    }
}

/// The punctuation token written as `c`.
pub open spec fn punct_token(c: char) -> Option<TokenModel> {
    if c == ':' {
        Some(TokenModel::Colon)
    } else if c == '(' {
        Some(TokenModel::Open)
    } else if c == ')' {
        Some(TokenModel::Close)
    } else if c == ',' {
        Some(TokenModel::Comma)
    } else if c == '=' {
        Some(TokenModel::Assign)
    } else if c == '?' {
        Some(TokenModel::Question)
    } else if c == '!' {
        Some(TokenModel::Bang)
    } else {
        None
    }
}

proof fn lemma_punct_text()
    ensures
        token_text(TokenModel::Colon) == seq![':'],
        token_text(TokenModel::Open) == seq!['('],
        token_text(TokenModel::Close) == seq![')'],
        token_text(TokenModel::Comma) == seq![','],
        token_text(TokenModel::Assign) == seq!['='],
        token_text(TokenModel::Question) == seq!['?'],
        token_text(TokenModel::Bang) == seq!['!'],
        token_text(TokenModel::Text(Seq::empty()))[0] == '"',
{
    reveal_strlit(":");
    reveal_strlit("(");
    reveal_strlit(")");
    reveal_strlit(",");
    reveal_strlit("=");
    reveal_strlit("?");
    reveal_strlit("!");
    reveal_strlit("\"");
}

proof fn lemma_token_text_start(t: TokenModel)
    requires
        lexable(t),
    ensures
        token_text(t).len() >= 1,
        !is_space(token_text(t)[0]),
{
    lemma_punct_text();
    reveal_strlit("\"");
    if let TokenModel::Text(s) = t {
        assert(token_text(t)[0] == '"');
    }
}

/// A single punctuation token.
fn punct(c: char) -> (r: Option<Token>)
    ensures
        match punct_token(c) {
            Some(t) => r is Some && r->Some_0@ == t,
            None => r is None,
        },
{
    if c == ':' {
        Some(Token::Colon)
    } else if c == '(' {
        Some(Token::Open)
    } else if c == ')' {
        Some(Token::Close)
    } else if c == ',' {
        Some(Token::Comma)
    } else if c == '=' {
        Some(Token::Assign)
    } else if c == '?' {
        Some(Token::Question)
    } else if c == '!' {
        Some(Token::Bang)
    } else {
        None
    }
}

/// The token that starts at `i`, and where it ends.
#[verifier::spinoff_prover]
#[verifier::rlimit(80)]
fn read_token(text: &str, i: usize, Ghost(expect): Ghost<TokenModel>) -> (r: Option<(Token, usize)>)
    requires
        i < text@.len(),
    ensures
        r is Some ==> i < r->Some_0.1 <= text@.len() && token_text(r->Some_0.0@) == text@.subrange(
            i as int,
            r->Some_0.1 as int,
        ),
        spelled_at(text@, i as int, expect) ==> r is Some && r->Some_0.0@ == expect && r->Some_0.1
            == i + token_text(expect).len(),
{
    let ghost on = spelled_at(text@, i as int, expect);
    let ghost tt = token_text(expect);
    let ghost l = tt.len() as int;
    proof {
        lemma_punct_text();
        reveal_strlit("\"");
        if on {
            assert(text@[i as int] == text@.subrange(i as int, i + l)[0]);
        }
    }
    assert(on ==> forall|x: int| 0 <= x < l ==> text@[i + x] == #[trigger] tt[x]) by {
        if on {
            assert forall|x: int| 0 <= x < l implies text@[i + x] == #[trigger] tt[x] by {
                assert(text@.subrange(i as int, i + l)[x] == text@[i + x]);
            }
        }
    }
    let n = text.unicode_len();
    let c = text.get_char(i);
    if c == '"' {
        let ghost on_text = on && expect is Text;
        let mut j = i + 1;
        assert(on ==> (expect is Text <==> c == '"'));
        while j < n && text.get_char(j) != '"'
            invariant
                n == text@.len(),
                i < j <= n,
                on_text ==> j <= i + l - 1,
                on_text == (on && expect is Text),
                on ==> forall|x: int| 0 <= x < l ==> text@[i + x] == #[trigger] tt[x],
                tt == token_text(expect),
                l == tt.len(),
            decreases n - j,
        {
            proof {
                reveal_strlit("\"");
                if on_text {
                    let s = expect->Text_0;
                    assert(tt == "\""@ + s + "\""@);
                    if j == i + l - 1 {
                        assert(text@[j as int] == tt[l - 1]);
                    } else {
                        assert(text@[j as int] == tt[j - i]);
                        assert(tt[j - i] == s[j - i - 1]);
                    }
                }
            }
            j += 1;
        }
        if j >= n {
            return None;
        }
        let content = text.substring_char(i + 1, j);
        proof {
            reveal_strlit("\"");
        }
        assert(text@.subrange(i as int, j + 1) =~= "\""@ + content@ + "\""@);
        proof {
            if on_text {
                let s = expect->Text_0;
                assert(tt == "\""@ + s + "\""@);
                if j < i + l - 1 {
                    assert(text@[j as int] == tt[j - i]);
                    assert(tt[j - i] == s[j - i - 1]);
                }
                assert forall|x: int| 0 <= x < s.len() implies content@[x] == s[x] by {
                    assert(text@[i + 1 + x] == tt[1 + x]);
                }
                assert(content@ =~= s);
            }
        }
        return Some((Token::Text(String::from_str(content)), j + 1));
    }
    if c == '-' || is_digit(c) {
        let mut j = scan(text, i + 1, true);
        let ghost first_end = j;
        if j < n && text.get_char(j) == '.' {
            j = scan(text, j + 1, true);
        }
        proof {
            if on {
                assert(expect is Number);
                let num = expect->Number_0;
                assert(tt == num);
                if exists|d: int| 1 <= d < l && num[d] == '.' {
                    let d = choose|d: int| 1 <= d < l && num[d] == '.';
                    assert forall|x: int| i + 1 <= x < i + d implies accepts_spec(
                        #[trigger] text@[x],
                        true,
                    ) by {
                        assert(text@[x] == tt[x - i]);
                        assert(num[x - i] != '.');
                    }
                    assert(text@[i + d] == tt[d]);
                    lemma_run_end(text@, i + 1, first_end as int, i + d, true);
                    assert forall|x: int| i + d + 1 <= x < i + l implies accepts_spec(
                        #[trigger] text@[x],
                        true,
                    ) by {
                        assert(text@[x] == tt[x - i]);
                        assert(num[x - i] != '.');
                    }
                    lemma_run_end(text@, i + d + 1, j as int, i + l, true);
                } else {
                    assert forall|x: int| i + 1 <= x < i + l implies accepts_spec(
                        #[trigger] text@[x],
                        true,
                    ) by {
                        assert(text@[x] == tt[x - i]);
                    }
                    lemma_run_end(text@, i + 1, first_end as int, i + l, true);
                }
            }
        }
        if c == '-' && j == i + 1 {
            return None;
        }
        let s = text.substring_char(i, j);
        proof {
            if on {
                assert(s@ =~= tt);
            }
        }
        return Some((Token::Number(String::from_str(s)), j));
    }
    if is_word_start(c) {
        let j = scan(text, i + 1, false);
        proof {
            if on {
                assert(expect is Word);
                assert forall|x: int| i + 1 <= x < i + l implies accepts_spec(
                    #[trigger] text@[x],
                    false,
                ) by {
                    assert(text@[x] == tt[x - i]);
                }
                lemma_run_end(text@, i + 1, j as int, i + l, false);
            }
        }
        let s = text.substring_char(i, j);
        proof {
            if on {
                assert(s@ =~= tt);
            }
        }
        return Some((Token::Word(String::from_str(s)), j));
    }
    match punct(c) {
        Some(t) => {
            assert(token_text(t@) =~= text@.subrange(i as int, i + 1));
            proof {
                if on {
                    assert(tt =~= seq![c]);
                }
            }
            Some((t, i + 1))
        },
        None => None,
    }
}

/// The tokens of `text` where the text lays out `expect` with `gaps`.
#[verifier::spinoff_prover]
#[verifier::rlimit(80)]
fn lex(text: &str, Ghost(expect): Ghost<Seq<TokenModel>>, Ghost(expect_gaps): Ghost<Seq<Seq<char>>>) -> (r: Option<Vec<Token>>)
    ensures
        r is Some ==> tokenizes(text@, tokens_model(r->Some_0@)),
        lexes_as(text@, expect, expect_gaps) ==> r is Some && tokens_model(r->Some_0@) == expect,
{
    let ghost on = lexes_as(text@, expect, expect_gaps);
    let n = text.unicode_len();
    let mut toks: Vec<Token> = Vec::new();
    let ghost mut gaps: Seq<Seq<char>> = Seq::empty();
    let mut gap_start: usize = 0;
    let mut i: usize = 0;
    assert(text@.take(0) =~= interleave(gaps.push(text@.subrange(0, 0)), tokens_model(toks@)));
    proof {
        if on {
            lemma_first_gap(text@, expect_gaps, expect);
            lemma_last_start(text@, expect_gaps, expect);
        }
    }
    assert(on ==> tokens_model(toks@) =~= expect.take(0));
    while i < n
        invariant
            n == text@.len(),
            gap_start <= i <= n,
            gaps.len() == toks@.len(),
            forall|k: int| 0 <= k < gaps.len() ==> blank(#[trigger] gaps[k]),
            blank(text@.subrange(gap_start as int, i as int)),
            text@.take(i as int) == interleave(
                gaps.push(text@.subrange(gap_start as int, i as int)),
                tokens_model(toks@),
            ),
            on == lexes_as(text@, expect, expect_gaps),
            on ==> toks@.len() <= expect.len() && tokens_model(toks@) == expect.take(
                toks@.len() as int,
            ),
            on ==> token_start(expect_gaps, expect, expect.len() as int) == n,
            on ==> i <= token_start(expect_gaps, expect, toks@.len() as int),
            on ==> token_start(expect_gaps, expect, toks@.len() as int) - expect_gaps[toks@.len()
                as int].len() == gap_start,
            on ==> text@.subrange(
                gap_start as int,
                token_start(expect_gaps, expect, toks@.len() as int),
            ) == expect_gaps[toks@.len() as int],
        decreases n - i,
    {
        let ghost k = toks@.len() as int;
        let ghost p = token_start(expect_gaps, expect, k);
        assert(on ==> {
            &&& (i < p ==> is_space(text@[i as int]))
            &&& (i == p ==> k < expect.len() && !is_space(text@[i as int]) && spelled_at(
                text@,
                i as int,
                expect[k],
            ))
        }) by {
            if on {
                let g = expect_gaps[k];
                lemma_interleave_prefix(expect_gaps, expect, k);
                if i < p {
                    assert(text@[i as int] == text@.subrange(gap_start as int, p)[i - gap_start]);
                    assert(blank(g));
                }
                if i == p {
                    if k == expect.len() {
                        assert(false);
                    }
                    lemma_token_at(text@, expect_gaps, expect, k);
                    lemma_punct_text();
                    reveal_strlit("\"");
                    let t = expect[k];
                    let e = p + token_text(t).len();
                    assert(lexable(t));
                    assert(text@[i as int] == text@.subrange(p, e)[0]);
                    if e < n {
                        let g2 = expect_gaps[k + 1];
                        if g2.len() > 0 {
                            assert(text@[e] == text@.subrange(e, e + g2.len())[0]);
                            assert(blank(g2));
                        } else {
                            assert(k + 1 < expect.len()) by {
                                if k + 1 == expect.len() {
                                    assert(e == n);
                                }
                            }
                            lemma_token_at(text@, expect_gaps, expect, k + 1);
                            let t2 = expect[k + 1];
                            assert(text@[e] == text@.subrange(e, e + token_text(t2).len())[0]);
                            assert(lexable(t2));
                        }
                    }
                }
            }
        }
        let c = text.get_char(i);
        if is_space_char(c) {
            proof {
                let g = text@.subrange(gap_start as int, i as int);
                lemma_extend_gap(gaps, g, c, tokens_model(toks@));
                assert(text@.subrange(gap_start as int, i + 1) =~= g.push(c));
                assert(text@.take(i + 1) =~= text@.take(i as int).push(c));
            }
            i += 1;
        } else {
            let (tok, j) = match read_token(
                text,
                i,
                Ghost(
                    if k < expect.len() {
                        expect[k]
                    } else {
                        TokenModel::Colon
                    },
                ),
            ) {
                Some(x) => x,
                None => {
                    return None;
                },
            };
            let ghost before = tokens_model(toks@);
            proof {
                let g = text@.subrange(gap_start as int, i as int);
                lemma_add_token(gaps, g, before, tok@);
                gaps = gaps.push(g);
                assert(text@.take(j as int) =~= text@.take(i as int) + text@.subrange(
                    i as int,
                    j as int,
                ));
                assert(text@.subrange(j as int, j as int) =~= Seq::<char>::empty());
            }
            toks.push(tok);
            assert(tokens_model(toks@) =~= before.push(tok@));
            proof {
                if on {
                    lemma_token_at(text@, expect_gaps, expect, k);
                    assert(tokens_model(toks@) =~= expect.take(k + 1));
                    if k + 1 < expect.len() {
                        lemma_token_at(text@, expect_gaps, expect, k + 1);
                    }
                }
            }
            gap_start = j;
            i = j;
        }
    }
    proof {
        let g = text@.subrange(gap_start as int, n as int);
        assert(text@.take(n as int) =~= text@);
        let all = gaps.push(g);
        assert forall|k: int| 0 <= k < all.len() implies blank(#[trigger] all[k]) by {
            if k < gaps.len() {
                assert(all[k] == gaps[k]);
            }
        }
        assert(laid_out(text@, tokens_model(toks@), all));
        if on {
            let k = toks@.len() as int;
            if k < expect.len() {
                lemma_token_at(text@, expect_gaps, expect, k);
                lemma_token_text_start(expect[k]);
                assert(false);
            }
            assert(expect.take(k) =~= expect);
        }
    }
    Some(toks)
}

/// The tokens of `text`, or `None` where it holds something that starts no
/// token, such as an unclosed string. Text that lays out tokens the lexer
/// produces, with whitespace at least between two words or numbers, is
/// always split.
pub fn tokenize(text: &str) -> (r: Option<Vec<Token>>)
    ensures
        r is Some ==> tokenizes(text@, tokens_model(r->Some_0@)),
        (exists|toks: Seq<TokenModel>, gaps: Seq<Seq<char>>| #[trigger] lexes_as(text@, toks, gaps))
            ==> r is Some,
{
    let ghost pick = choose|toks: Seq<TokenModel>, gaps: Seq<Seq<char>>| lexes_as(text@, toks, gaps);
    lex(text, Ghost(pick.0), Ghost(pick.1))
}

// ---------------------------------------------------------------------------
// Reading tokens as programs
// ---------------------------------------------------------------------------

/// A number for each kind of token.
pub open spec fn kind_of(t: TokenModel) -> u8 {
    match t {
        TokenModel::Word(_) => 1,
        TokenModel::Text(_) => 2,
        TokenModel::Number(_) => 3,
        TokenModel::Colon => 4,
        TokenModel::Open => 5,
        TokenModel::Close => 6,
        TokenModel::Comma => 7,
        TokenModel::Assign => 8,
        TokenModel::Question => 9,
        TokenModel::Bang => 10,
    }
}

const COLON: u8 = 4;

const OPEN: u8 = 5;

const CLOSE: u8 = 6;

const COMMA: u8 = 7;

const ASSIGN: u8 = 8;

const QUESTION: u8 = 9;

const BANG: u8 = 10;

/// The kind of the token at `pos`; 0 past the end.
fn kind_at(toks: &Vec<Token>, pos: usize) -> (r: u8)
    ensures
        toks@.len() <= usize::MAX,
        pos >= toks@.len() ==> r == 0,
        pos < toks@.len() ==> r == kind_of(tokens_model(toks@)[pos as int]),
{
    if pos >= toks.len() {
        return 0;
    }
    match &toks[pos] {
        Token::Word(_) => 1,
        Token::Text(_) => 2,
        Token::Number(_) => 3,
        Token::Colon => COLON,
        Token::Open => OPEN,
        Token::Close => CLOSE,
        Token::Comma => COMMA,
        Token::Assign => ASSIGN,
        Token::Question => QUESTION,
        Token::Bang => BANG,
    }
}

/// The word at `pos`, if there is one.
fn word_text(toks: &Vec<Token>, pos: usize) -> (r: Option<String>)
    ensures
        toks@.len() <= usize::MAX,
        r is Some ==> pos < toks@.len() && tokens_model(toks@)[pos as int] == TokenModel::Word(
            r->Some_0@,
        ),
        pos < toks@.len() && tokens_model(toks@)[pos as int] is Word ==> r is Some,
{
    if pos >= toks.len() {
        return None;
    }
    match &toks[pos] {
        Token::Word(w) => Some(w.clone()),
        _ => None,
    }
}

/// Whether the token at `pos` is the word `kw`.
fn word_at(toks: &Vec<Token>, pos: usize, kw: &str) -> (r: bool)
    ensures
        toks@.len() <= usize::MAX,
        r == (pos < toks@.len() && tokens_model(toks@)[pos as int] == TokenModel::Word(kw@)),
{
    if pos >= toks.len() {
        return false;
    }
    match &toks[pos] {
        Token::Word(w) => str_equal(w.as_str(), kw),
        _ => false,
    }
}

/// The literal at `pos`.
fn parse_literal(toks: &Vec<Token>, pos: usize) -> (r: Option<(Literal, usize)>)
    ensures
        toks@.len() <= usize::MAX,
        pos < toks@.len() && literal_start(tokens_model(toks@)[pos as int]) ==> r is Some,
        r is Some ==> r->Some_0.1 == pos + 1 && pos < toks@.len() && tokens_model(toks@).subrange(
            pos as int,
            pos + 1,
        ) == literal_tokens(r->Some_0.0@),
{
    if pos >= toks.len() {
        return None;
    }
    let lit = match &toks[pos] {
        Token::Text(s) => Literal::String(s.clone()),
        Token::Number(n) => Literal::Number(n.clone()),
        Token::Word(w) => {
            if str_equal(w.as_str(), "true") {
                Literal::Boolean(true)
            } else if str_equal(w.as_str(), "false") {
                Literal::Boolean(false)
            } else if str_equal(w.as_str(), "null") {
                Literal::Null
            } else {
                return None;
            }
        },
        _ => {
            return None;
        },
    };
    assert(tokens_model(toks@).subrange(pos as int, pos + 1) =~= literal_tokens(lit@));
    Some((lit, pos + 1))
}

/// The tokens at `pos` spell `expect` and a closing parenthesis follows.
pub open spec fn spells_args(tm: Seq<TokenModel>, pos: int, expect: Seq<LiteralModel>) -> bool {
    let n = args_tokens(expect).len() as int;
    spells(tm, pos, args_tokens(expect)) && pos + n < tm.len() && tm[pos + n] == TokenModel::Close
}

proof fn lemma_spells_at(tm: Seq<TokenModel>, pos: int, xs: Seq<TokenModel>, j: int)
    ensures
        spells(tm, pos, xs) && 0 <= j < xs.len() ==> tm[pos + j] == xs[j],
{
    if spells(tm, pos, xs) && 0 <= j < xs.len() {
        assert(tm.subrange(pos, pos + xs.len())[j] == tm[pos + j]);
    }
}

proof fn lemma_spells_sub(tm: Seq<TokenModel>, pos: int, xs: Seq<TokenModel>, a: int, b: int)
    ensures
        spells(tm, pos, xs) && 0 <= a <= b <= xs.len() ==> spells(tm, pos + a, xs.subrange(a, b)),
{
    if spells(tm, pos, xs) && 0 <= a <= b <= xs.len() {
        assert(tm.subrange(pos + a, pos + b) =~= tm.subrange(pos, pos + xs.len()).subrange(a, b));
    }
}

/// Arguments up to, not including, the closing parenthesis.
fn parse_args(toks: &Vec<Token>, pos: usize, Ghost(expect): Ghost<Seq<LiteralModel>>) -> (r: Option<
    (Vec<Expression>, usize),
>)
    requires
        pos <= toks@.len(),
    ensures
        r is Some ==> pos <= r->Some_0.1 <= toks@.len() && tokens_model(toks@).subrange(
            pos as int,
            r->Some_0.1 as int,
        ) == args_tokens(expressions_model(r->Some_0.0@)),
        spells_args(tokens_model(toks@), pos as int, expect) ==> r is Some && r->Some_0.1 == pos
            + args_tokens(expect).len() && expressions_model(r->Some_0.0@) == expect,
{
    let ghost tm = tokens_model(toks@);
    let ghost on = spells_args(tm, pos as int, expect);
    let ghost n = args_tokens(expect).len() as int;
    proof {
        lemma_args_layout(expect);
        if on && expect.len() > 0 {
            assert(tm[pos as int] == tm.subrange(pos as int, pos + n)[even_pos(0)]);
            lemma_literal_tokens(expect[0]);
        }
    }
    let mut es: Vec<Expression> = Vec::new();
    if kind_at(toks, pos) == CLOSE {
        assert(tm.subrange(pos as int, pos as int) =~= args_tokens(expressions_model(es@)));
        assert(on ==> expect =~= expressions_model(es@));
        return Some((es, pos));
    }
    let (first, mut p) = match parse_literal(toks, pos) {
        Some(x) => x,
        None => {
            return None;
        },
    };
    es.push(first.to_expression());
    assert(expressions_model(es@) =~= seq![first@]);
    proof {
        if on {
            assert(literal_tokens(first@) =~= literal_tokens(expect[0]));
            lemma_literal_injective(first@, expect[0]);
            assert(expressions_model(es@) =~= expect.take(1));
        }
    }
    while kind_at(toks, p) == COMMA
        invariant
            tm == tokens_model(toks@),
            pos < p <= toks@.len(),
            es@.len() >= 1,
            tm.subrange(pos as int, p as int) == args_tokens(expressions_model(es@)),
            n == args_tokens(expect).len(),
            on == spells_args(tm, pos as int, expect),
            on ==> es@.len() <= expect.len() && expressions_model(es@) == expect.take(
                es@.len() as int,
            ) && p == pos + 2 * es@.len() - 1,
        decreases toks@.len() - p,
    {
        let ghost k = es@.len() as int;
        proof {
            lemma_args_layout(expect);
            if on {
                if k == expect.len() {
                    assert(p == pos + n);
                }
                assert(k < expect.len());
                assert(tm[p + 1] == tm.subrange(pos as int, pos + n)[even_pos(k)]);
                lemma_literal_tokens(expect[k]);
            }
        }
        let (next, q) = match parse_literal(toks, p + 1) {
            Some(x) => x,
            None => {
                return None;
            },
        };
        let ghost before = expressions_model(es@);
        es.push(next.to_expression());
        assert(expressions_model(es@) =~= before.push(next@));
        assert(expressions_model(es@).drop_last() =~= before);
        assert(tm.subrange(pos as int, q as int) =~= tm.subrange(pos as int, p as int) + seq![
            TokenModel::Comma,
        ] + tm.subrange(p + 1, q as int));
        proof {
            if on {
                assert(literal_tokens(next@) =~= literal_tokens(expect[k]));
                lemma_literal_injective(next@, expect[k]);
                assert(expressions_model(es@) =~= expect.take(k + 1));
            }
        }
        p = q;
    }
    proof {
        lemma_args_layout(expect);
        if on {
            let k = es@.len() as int;
            if k < expect.len() {
                assert(tm[p as int] == tm.subrange(pos as int, pos + n)[odd_pos(k - 1)]);
            }
            assert(expect.take(k) =~= expect);
        }
    }
    Some((es, p))
}

/// The tokens from `pos` on begin with `expected`.
pub open spec fn spells(tm: Seq<TokenModel>, pos: int, expected: Seq<TokenModel>) -> bool {
    0 <= pos && pos + expected.len() <= tm.len() && tm.subrange(pos, pos + expected.len())
        == expected
}

/// No literal follows at `q`.
pub open spec fn no_literal_at(tm: Seq<TokenModel>, q: int) -> bool {
    !(0 <= q < tm.len() && literal_start(tm[q]))
}

/// `[interface :] name ( args )`.
#[verifier::spinoff_prover]
#[verifier::rlimit(80)]
fn parse_call(toks: &Vec<Token>, pos: usize, Ghost(expect): Ghost<CallModel>) -> (r: Option<
    (ProcedureCall, usize),
>)
    ensures
        r is Some ==> pos < r->Some_0.1 <= toks@.len() && tokens_model(toks@).subrange(
            pos as int,
            r->Some_0.1 as int,
        ) == call_tokens(r->Some_0.0@),
        readable_statement(StatementModel::ProcedureCall(expect)) && spells(
            tokens_model(toks@),
            pos as int,
            call_tokens(expect),
        ) ==> r is Some && r->Some_0.1 == pos + call_tokens(expect).len() && r->Some_0.0@
            == expect,
{
    let ghost tm = tokens_model(toks@);
    let ghost ct = call_tokens(expect);
    let ghost on = readable_statement(StatementModel::ProcedureCall(expect)) && spells(
        tm,
        pos as int,
        ct,
    );
    let ghost h: int = if expect.interface.len() > 0 {
        2
    } else {
        0
    };
    let ghost m = args_tokens(expect.arguments).len() as int;
    proof {
        lemma_call_layout(expect);
        lemma_spells_at(tm, pos as int, ct, 0);
        lemma_spells_at(tm, pos as int, ct, 1);
        lemma_spells_at(tm, pos as int, ct, h);
        lemma_spells_at(tm, pos as int, ct, h + 1);
        lemma_spells_at(tm, pos as int, ct, h + 2 + m);
        lemma_spells_sub(tm, pos as int, ct, h + 2, h + 2 + m);
    }
    let first = match word_text(toks, pos) {
        Some(w) => w,
        None => {
            return None;
        },
    };
    let (interface, identifier, id_pos) = if kind_at(toks, pos + 1) == COLON {
        if first.as_str().unicode_len() == 0 {
            return None;
        }
        match word_text(toks, pos + 2) {
            Some(id) => (first, id, pos + 2),
            None => {
                return None;
            },
        }
    } else {
        (String::new(), first, pos)
    };
    assert(on ==> id_pos == pos + h);
    let p = id_pos + 1;
    if kind_at(toks, p) != OPEN {
        return None;
    }
    let (arguments, q) = match parse_args(toks, p + 1, Ghost(expect.arguments)) {
        Some(x) => x,
        None => {
            return None;
        },
    };
    if kind_at(toks, q) != CLOSE {
        return None;
    }
    let call = ProcedureCall { interface: interface, identifier: identifier, arguments: arguments };
    let ghost head = if call@.interface.len() > 0 {
        seq![TokenModel::Word(call@.interface), TokenModel::Colon]
    } else {
        Seq::empty()
    };
    assert(tm.subrange(pos as int, id_pos as int) =~= head);
    assert(tm.subrange(pos as int, q + 1) =~= head + seq![
        TokenModel::Word(call@.identifier),
        TokenModel::Open,
    ] + tm.subrange(p + 1, q as int) + seq![TokenModel::Close]);
    proof {
        if on {
            assert(call@.interface =~= expect.interface);
        }
    }
    Some((call, q + 1))
}

/// `return [literal]`.
fn parse_return(toks: &Vec<Token>, pos: usize, Ghost(expect): Ghost<Option<LiteralModel>>) -> (r:
    Option<(Return, usize)>)
    ensures
        r is Some ==> pos < r->Some_0.1 <= toks@.len() && tokens_model(toks@).subrange(
            pos as int,
            r->Some_0.1 as int,
        ) == return_tokens(r->Some_0.0@),
        spells(tokens_model(toks@), pos as int, return_tokens(expect)) && no_literal_at(
            tokens_model(toks@),
            pos + return_tokens(expect).len(),
        ) ==> r is Some && r->Some_0.1 == pos + return_tokens(expect).len() && r->Some_0.0@
            == expect,
{
    let ghost tm = tokens_model(toks@);
    let ghost rt = return_tokens(expect);
    let ghost on = spells(tm, pos as int, rt) && no_literal_at(tm, pos + rt.len());
    proof {
        if on {
            assert(tm[pos as int] == tm.subrange(pos as int, pos + rt.len())[0]);
            if let Some(l) = expect {
                lemma_literal_tokens(l);
                assert(tm[pos + 1] == tm.subrange(pos as int, pos + rt.len())[1]);
            }
        }
    }
    if !word_at(toks, pos, "return") {
        return None;
    }
    match parse_literal(toks, pos + 1) {
        Some((l, q)) => {
            let ret = Return { value: Some(l.to_expression()) };
            assert(tm.subrange(pos as int, q as int) =~= seq![word("return")] + tm.subrange(
                pos + 1,
                q as int,
            ));
            proof {
                lemma_literal_tokens(l@);
                if on {
                    if let Some(e) = expect {
                        assert(literal_tokens(l@) =~= literal_tokens(e));
                        lemma_literal_injective(l@, e);
                    } else {
                        assert(tm[pos + 1] == tm.subrange(pos + 1, q as int)[0]);
                    }
                }
            }
            Some((ret, q))
        },
        None => {
            let ret = Return { value: None };
            assert(tm.subrange(pos as int, pos + 1) =~= return_tokens(ret@));
            Some((ret, pos + 1))
        },
    }
}

/// The memory class that the word at `pos` names.
fn memory_at(toks: &Vec<Token>, pos: usize) -> (r: Option<MemoryModifier>)
    ensures
        toks@.len() <= usize::MAX,
        r is Some ==> pos < toks@.len() && tokens_model(toks@)[pos as int] == memory_word(
            r->Some_0,
        ),
        r is None ==> forall|m: MemoryModifier|
            !(pos < toks@.len() && tokens_model(toks@)[pos as int] == #[trigger] memory_word(m)),
{
    if word_at(toks, pos, "dim") {
        Some(MemoryModifier::Dim)
    } else if word_at(toks, pos, "var") {
        Some(MemoryModifier::Var)
    } else if word_at(toks, pos, "ref") {
        Some(MemoryModifier::Ref)
    } else if word_at(toks, pos, "addr") {
        Some(MemoryModifier::Addr)
    } else {
        None
    }
}

/// `memory name [Type[?|!]] = literal`.
#[verifier::spinoff_prover]
#[verifier::rlimit(80)]
fn parse_decl(toks: &Vec<Token>, pos: usize, Ghost(expect): Ghost<DeclModel>) -> (r: Option<
    (VariableDeclaration, usize),
>)
    ensures
        r is Some ==> pos < r->Some_0.1 <= toks@.len() && tokens_model(toks@).subrange(
            pos as int,
            r->Some_0.1 as int,
        ) == decl_tokens(r->Some_0.0@),
        readable_statement(StatementModel::Variable(expect)) && spells(
            tokens_model(toks@),
            pos as int,
            decl_tokens(expect),
        ) ==> r is Some && r->Some_0.1 == pos + decl_tokens(expect).len() && r->Some_0.0@
            == expect,
{
    let ghost tm = tokens_model(toks@);
    let ghost dt = decl_tokens(expect);
    let ghost on = readable_statement(StatementModel::Variable(expect)) && spells(
        tm,
        pos as int,
        dt,
    );
    let ghost st = schema_tokens(expect.schema_type);
    proof {
        lemma_literal_tokens(expect.expression);
        lemma_decl_layout(expect);
        lemma_spells_at(tm, pos as int, dt, 0);
        lemma_spells_at(tm, pos as int, dt, 1);
        lemma_spells_at(tm, pos as int, dt, 2);
        lemma_spells_at(tm, pos as int, dt, 3);
        lemma_spells_at(tm, pos as int, dt, 2 + st.len() as int);
        lemma_spells_at(tm, pos as int, dt, 3 + st.len() as int);
        if st.len() > 0 {
            assert(dt[2int] == st[0]);
        }
        if st.len() > 1 {
            assert(dt[3int] == st[1]);
        }
    }
    let memory = match memory_at(toks, pos) {
        Some(m) => m,
        None => {
            assert(on ==> tm[pos as int] == memory_word(expect.memory));
            return None;
        },
    };
    proof {
        if memory_word(memory) == memory_word(expect.memory) {
            lemma_memory_word_injective(memory, expect.memory);
        }
    }
    let identifier = match word_text(toks, pos + 1) {
        Some(w) => w,
        None => {
            return None;
        },
    };
    let mut p = pos + 2;
    let schema = match word_text(toks, p) {
        Some(name) => {
            let mut s = schema_type(schema_identifier_from_string(name));
            let k = kind_at(toks, p + 1);
            if k == QUESTION {
                s.postfix = TypePostfix::Opt;
                p = p + 2;
            } else if k == BANG {
                s.postfix = TypePostfix::Error;
                p = p + 2;
            } else {
                p = p + 1;
            }
            assert(tm.subrange(pos + 2, p as int) =~= schema_tokens(Some(s@)));
            Some(s)
        },
        None => {
            assert(tm.subrange(pos + 2, p as int) =~= Seq::<TokenModel>::empty());
            None
        },
    };
    assert(on ==> p == pos + 2 + st.len() && opt_schema_model(schema) == expect.schema_type);
    if kind_at(toks, p) != ASSIGN {
        return None;
    }
    let (value, q) = match parse_literal(toks, p + 1) {
        Some(x) => x,
        None => {
            return None;
        },
    };
    let decl = VariableDeclaration {
        memory: memory,
        identifier: identifier,
        schema_type: schema,
        expression: value.to_expression(),
    };
    assert(tm.subrange(pos as int, q as int) =~= seq![
        memory_word(memory),
        TokenModel::Word(decl@.identifier),
    ] + tm.subrange(pos + 2, p as int) + seq![TokenModel::Assign] + tm.subrange(p + 1, q as int));
    proof {
        if literal_tokens(value@) =~= literal_tokens(expect.expression) {
            lemma_literal_injective(value@, expect.expression);
        }
    }
    assert(on ==> literal_tokens(value@) =~= literal_tokens(expect.expression));
    Some((decl, q))
}

fn parse_statement(toks: &Vec<Token>, pos: usize, Ghost(expect): Ghost<StatementModel>) -> (r:
    Option<(Statement, usize)>)
    ensures
        r is Some ==> pos < r->Some_0.1 <= toks@.len() && tokens_model(toks@).subrange(
            pos as int,
            r->Some_0.1 as int,
        ) == statement_tokens(r->Some_0.0@),
        readable_statement(expect) && spells(tokens_model(toks@), pos as int, statement_tokens(expect))
            && no_literal_at(tokens_model(toks@), pos + statement_tokens(expect).len()) ==> r is Some
            && r->Some_0.1 == pos + statement_tokens(expect).len() && r->Some_0.0@ == expect,
{
    let ghost tm = tokens_model(toks@);
    let ghost on = readable_statement(expect) && spells(tm, pos as int, statement_tokens(expect))
        && no_literal_at(tm, pos + statement_tokens(expect).len());
    proof {
        if on {
            lemma_statement_head(expect);
            assert(tm[pos as int] == tm.subrange(pos as int, pos + statement_tokens(expect).len())[0]);
            reveal_strlit("return");
            reveal_strlit("dim");
            reveal_strlit("var");
            reveal_strlit("ref");
            reveal_strlit("addr");
            assert("return"@.len() == 6 && "dim"@.len() == 3 && "var"@.len() == 3);
            assert("ref"@.len() == 3 && "addr"@.len() == 4);
            match expect {
                StatementModel::ProcedureCall(c) => {
                    lemma_call_layout(c);
                    assert forall|m: MemoryModifier| tm[pos as int] != #[trigger] memory_word(m) by {
                    }
                },
                StatementModel::Return(_) => {
                    assert forall|m: MemoryModifier| tm[pos as int] != #[trigger] memory_word(m) by {
                    }
                },
                StatementModel::Variable(d) => {
                    lemma_decl_layout(d);
                },
            }
        }
    }
    let (expect_decl, expect_ret, expect_call) = (
        Ghost(
            match expect {
                StatementModel::Variable(d) => d,
                _ => arbitrary(),
            },
        ),
        Ghost(
            match expect {
                StatementModel::Return(v) => v,
                _ => arbitrary(),
            },
        ),
        Ghost(
            match expect {
                StatementModel::ProcedureCall(c) => c,
                _ => arbitrary(),
            },
        ),
    );
    if memory_at(toks, pos).is_some() {
        match parse_decl(toks, pos, expect_decl) {
            Some((d, q)) => Some((d.to_statement(), q)),
            None => None,
        }
    } else if word_at(toks, pos, "return") {
        match parse_return(toks, pos, expect_ret) {
            Some((ret, q)) => Some((ret.to_statement(), q)),
            None => None,
        }
    } else {
        match parse_call(toks, pos, expect_call) {
            Some((c, q)) => Some((c.to_statement(), q)),
            None => None,
        }
    }
}

/// `program do statements end`.
fn parse_program(toks: &Vec<Token>, pos: usize, Ghost(expect): Ghost<Seq<StatementModel>>) -> (r:
    Option<(Program, usize)>)
    ensures
        r is Some ==> pos < r->Some_0.1 <= toks@.len() && tokens_model(toks@).subrange(
            pos as int,
            r->Some_0.1 as int,
        ) == program_tokens(r->Some_0.0@),
        readable_program(expect) && spells(tokens_model(toks@), pos as int, program_tokens(expect))
            ==> r is Some && r->Some_0.1 == pos + program_tokens(expect).len() && r->Some_0.0@
            == expect,
{
    let ghost tm = tokens_model(toks@);
    let ghost all = statements_tokens(expect);
    let ghost on = readable_program(expect) && spells(tm, pos as int, program_tokens(expect));
    proof {
        let pt = program_tokens(expect);
        assert(pt =~= seq![word("program"), word("do")] + all + seq![word("end")]);
        lemma_spells_at(tm, pos as int, pt, 0);
        lemma_spells_at(tm, pos as int, pt, 1);
        lemma_spells_at(tm, pos as int, pt, 2 + all.len() as int);
        lemma_spells_sub(tm, pos as int, pt, 2, 2 + all.len() as int);
        assert(pt.subrange(2, 2 + all.len() as int) =~= all);
    }
    if !(word_at(toks, pos, "program") && word_at(toks, pos + 1, "do")) {
        return None;
    }
    let start = pos + 2;
    let mut p = start;
    let mut statements: Vec<Statement> = Vec::new();
    assert(tm.subrange(start as int, p as int) =~= statements_tokens(
        statements_model(statements@),
    ));
    assert(expect.take(0) =~= statements_model(statements@));
    while p < toks.len() && !word_at(toks, p, "end")
        invariant
            tm == tokens_model(toks@),
            start == pos + 2,
            start <= p <= toks@.len(),
            tm.subrange(start as int, p as int) == statements_tokens(statements_model(statements@)),
            all == statements_tokens(expect),
            on == (readable_program(expect) && spells(tm, pos as int, program_tokens(expect))),
            on ==> readable_program(expect),
            on ==> start + all.len() < tm.len(),
            on ==> tm.subrange(start as int, start + all.len()) == all,
            on ==> tm[start + all.len()] == word("end"),
            on ==> statements@.len() <= expect.len() && statements_model(statements@) == expect.take(
                statements@.len() as int,
            ) && p == start + statements_tokens(expect.take(statements@.len() as int)).len(),
        decreases toks@.len() - p,
    {
        let ghost k = statements@.len() as int;
        assert(on ==> {
            &&& k < expect.len()
            &&& readable_statement(expect[k])
            &&& spells(tm, p as int, statement_tokens(expect[k]))
            &&& no_literal_at(tm, p + statement_tokens(expect[k]).len())
        }) by {
            if on {
                if k == expect.len() {
                    assert(expect.take(k) =~= expect);
                }
                assert(k < expect.len());
                lemma_statements_step(expect, k);
                lemma_statements_prefix(expect, k + 1);
                let a = statements_tokens(expect.take(k)).len() as int;
                let b = statements_tokens(expect.take(k + 1)).len() as int;
                assert(tm.subrange(start as int, start + all.len())[a] == tm[start + a]);
                assert(tm.subrange(p as int, start + b) =~= all.subrange(a, b));
                assert(all.subrange(a, b) =~= statements_tokens(expect.take(k + 1)).subrange(a, b));
                assert(statements_tokens(expect.take(k + 1)).subrange(a, b) =~= statement_tokens(
                    expect[k],
                ));
                if k + 1 < expect.len() {
                    lemma_statements_step(expect, k + 1);
                    lemma_statements_prefix(expect, k + 2);
                    lemma_statement_head(expect[k + 1]);
                    assert(tm.subrange(start as int, start + all.len())[b] == tm[start + b]);
                    assert(all[b] == statements_tokens(expect.take(k + 2))[b]);
                } else {
                    assert(expect.take(k + 1) =~= expect);
                    reveal_strlit("end");
                    reveal_strlit("true");
                    reveal_strlit("false");
                    reveal_strlit("null");
                    assert("end"@[0] == 'e' && "true"@[0] == 't' && "false"@[0] == 'f');
                    assert("null"@[0] == 'n');
                }
            }
        }
        let (st, q) = match parse_statement(toks, p, Ghost(expect[k])) {
            Some(x) => x,
            None => {
                return None;
            },
        };
        let ghost before = statements_model(statements@);
        statements.push(st);
        assert(statements_model(statements@) =~= before.push(st@));
        assert(statements_model(statements@).drop_last() =~= before);
        assert(tm.subrange(start as int, q as int) =~= tm.subrange(start as int, p as int)
            + tm.subrange(p as int, q as int));
        proof {
            if on {
                assert(statements_model(statements@) =~= expect.take(k + 1));
            }
        }
        p = q;
    }
    assert(on ==> statements_model(statements@) == expect && p == start + all.len()) by {
        if on {
            let k = statements@.len() as int;
            if k < expect.len() {
                lemma_statements_step(expect, k);
                lemma_statements_prefix(expect, k + 1);
                lemma_statement_head(expect[k]);
                let a = statements_tokens(expect.take(k)).len() as int;
                assert(tm.subrange(start as int, start + all.len())[a] == tm[start + a]);
                assert(all[a] == statements_tokens(expect.take(k + 1))[a]);
                reveal_strlit("end");
                assert(false);
            }
            assert(expect.take(k) =~= expect);
        }
    }
    if !word_at(toks, p, "end") {
        return None;
    }
    let program = Program { do_block: DoBlock { statements: statements } };
    assert(tm.subrange(pos as int, p + 1) =~= seq![word("program"), word("do")] + tm.subrange(
        start as int,
        p as int,
    ) + seq![word("end")]);
    Some((program, p + 1))
}

/// The programs that the tokens spell, in order. Where they spell programs
/// that read back as themselves, reading succeeds.
pub fn parse_tokens(toks: &Vec<Token>) -> (r: Option<Vec<Program>>)
    ensures
        r is Some ==> tokens_model(toks@) == programs_tokens(programs_model(r->Some_0@)),
        (exists|ps: Seq<Seq<StatementModel>>|
            readable(ps) && tokens_model(toks@) == #[trigger] programs_tokens(ps)) ==> r is Some,
{
    let ghost tm = tokens_model(toks@);
    let ghost on = exists|ps: Seq<Seq<StatementModel>>|
        readable(ps) && tm == #[trigger] programs_tokens(ps);
    let ghost ps = choose|ps: Seq<Seq<StatementModel>>|
        readable(ps) && tm == #[trigger] programs_tokens(ps);
    let mut programs: Vec<Program> = Vec::new();
    let mut p: usize = 0;
    assert(tm.subrange(0, 0) =~= programs_tokens(programs_model(programs@)));
    assert(ps.take(0) =~= programs_model(programs@));
    while p < toks.len()
        invariant
            tm == tokens_model(toks@),
            p <= toks@.len(),
            tm.subrange(0, p as int) == programs_tokens(programs_model(programs@)),
            on == (exists|ps: Seq<Seq<StatementModel>>|
                readable(ps) && tm == #[trigger] programs_tokens(ps)),
            on ==> readable(ps) && tm == programs_tokens(ps),
            on ==> programs@.len() <= ps.len() && programs_model(programs@) == ps.take(
                programs@.len() as int,
            ) && p == programs_tokens(ps.take(programs@.len() as int)).len(),
        decreases toks@.len() - p,
    {
        let ghost k = programs@.len() as int;
        assert(on ==> {
            &&& k < ps.len()
            &&& readable_program(ps[k])
            &&& spells(tm, p as int, program_tokens(ps[k]))
        }) by {
            if on {
                if k == ps.len() {
                    assert(ps.take(k) =~= ps);
                }
                assert(k < ps.len());
                lemma_programs_step(ps, k);
                lemma_programs_prefix(ps, k + 1);
                let a = programs_tokens(ps.take(k)).len() as int;
                let b = programs_tokens(ps.take(k + 1)).len() as int;
                assert(tm.subrange(p as int, b) =~= programs_tokens(ps.take(k + 1)).subrange(a, b));
                assert(programs_tokens(ps.take(k + 1)).subrange(a, b) =~= program_tokens(ps[k]));
            }
        }
        let (program, q) = match parse_program(toks, p, Ghost(ps[k])) {
            Some(x) => x,
            None => {
                return None;
            },
        };
        let ghost before = programs_model(programs@);
        programs.push(program);
        assert(programs_model(programs@) =~= before.push(program@));
        assert(programs_model(programs@).drop_last() =~= before);
        assert(tm.subrange(0, q as int) =~= tm.subrange(0, p as int) + tm.subrange(
            p as int,
            q as int,
        ));
        proof {
            if on {
                assert(programs_model(programs@) =~= ps.take(k + 1));
            }
        }
        p = q;
    }
    assert(tm.subrange(0, p as int) =~= tm);
    Some(programs)
}

/// Reads the programs of `file` and appends them to `src`; on failure `src`
/// is left as it was.
pub fn parse(src: &mut Src, file: &SrcFile) -> (r: Option<CompilationError>)
    ensures
        match r {
            None => {
                &&& final(src)@.len() >= old(src)@.len()
                &&& final(src)@.take(old(src)@.len() as int) == old(src)@
                &&& parses_as(file.content@, final(src)@.skip(old(src)@.len() as int))
            },
            Some(e) => {
                &&& e@ == ErrorModel::FailedToParseSrcFile(file.file@)
                &&& final(src)@ == old(src)@
            },
        },
        reads(file.content@) ==> r is None,
{
    let ghost pick = choose|ps: Seq<Seq<StatementModel>>, gaps: Seq<Seq<char>>|
        readable(ps) && #[trigger] lexes_as(file.content@, programs_tokens(ps), gaps);
    let failed = FailedToParseSrcFile { file: file.file.clone() };
    let toks = match lex(file.content.as_str(), Ghost(programs_tokens(pick.0)), Ghost(pick.1)) {
        Some(t) => t,
        None => {
            return Some(CompilationError::FailedToParseSrcFile(failed));
        },
    };
    assert(reads(file.content@) ==> exists|ps: Seq<Seq<StatementModel>>|
        readable(ps) && tokens_model(toks@) == #[trigger] programs_tokens(ps)) by {
        if reads(file.content@) {
            assert(readable(pick.0) && tokens_model(toks@) == programs_tokens(pick.0));
        }
    }
    let mut programs = match parse_tokens(&toks) {
        Some(ps) => ps,
        None => {
            return Some(CompilationError::FailedToParseSrcFile(failed));
        },
    };
    let ghost before = src.programs@;
    let ghost added = programs@;
    src.programs.append(&mut programs);
    assert(programs_model(src.programs@) =~= programs_model(before) + programs_model(added));
    assert(src@.take(programs_model(before).len() as int) =~= programs_model(before));
    assert(src@.skip(programs_model(before).len() as int) =~= programs_model(added));
    None
}

} // verus!
