//! The lexer: source text to tokens. Statements at file level and inside a type
//! body are tokenized; the text of executable bodies (nesting depth two and more)
//! only moves the depth.

use vstd::prelude::*;
use crate::grammar::{
    Terminator, Token, TokenView, annotation_keyword, is_keyword, jdoc_keyword, structural_keyword,
    tokens_view,
};
use crate::text::{chars_of, string_of, trim_line, trimmed};

verus! {

/// The lexer's state after a prefix of the text.
pub struct LexState {
    /// Unmatched `{` minus unmatched `}`.
    pub depth: int,
    /// The number of the current physical line.
    pub line: nat,
    /// The characters of the word being read.
    pub word: Seq<char>,
    /// The raw text of the current physical line.
    pub cur_line: Seq<char>,
    pub toks: Seq<TokenView>,
}

/// The token of a finished word: none for an empty one, a keyword or a symbol.
pub open spec fn word_token(w: Seq<char>) -> Seq<TokenView> {
    if w.len() == 0 {
        Seq::empty()
    } else if is_keyword(w) {
        seq![TokenView::Keyword(w)]
    } else {
        seq![TokenView::Symbol(w)]
    }
}

/// The word's token and then `t`, where the depth is below two; nothing otherwise.
pub open spec fn emit(st: LexState, t: Seq<TokenView>) -> Seq<TokenView> {
    if st.depth < 2 {
        st.toks + word_token(st.word) + t
    } else {
        st.toks
    }
}

/// The lexer's step on one character.
pub open spec fn lex_step(st: LexState, c: char) -> LexState {
    let line = st.cur_line.push(c);
    if c == ' ' || c == '\t' || c == '\r' {
        LexState { toks: emit(st, Seq::empty()), word: Seq::empty(), cur_line: line, ..st }
    } else if c == '\n' {
        LexState {
            toks: emit(st, Seq::empty()) + seq![
                TokenView::LineNumber(st.line + 1),
                TokenView::Sign(trimmed(st.cur_line)),
            ],
            line: st.line + 1,
            word: Seq::empty(),
            cur_line: Seq::empty(),
            ..st
        }
    } else if c == ',' {
        LexState { toks: emit(st, seq![TokenView::Join]), word: Seq::empty(), cur_line: line, ..st }
    } else if c == ';' {
        LexState {
            toks: emit(st, seq![TokenView::ExpressionEnd(Terminator::Semicolon)]),
            word: Seq::empty(),
            cur_line: line,
            ..st
        }
    } else if c == '(' {
        LexState { toks: emit(st, seq![TokenView::ParamStart]), word: Seq::empty(), cur_line: line, ..st }
    } else if c == ')' {
        LexState { toks: emit(st, seq![TokenView::ParamEnd]), word: Seq::empty(), cur_line: line, ..st }
    } else if c == '{' {
        LexState {
            toks: emit(st, seq![TokenView::ExpressionEnd(Terminator::OpenBrace)]),
            word: Seq::empty(),
            cur_line: line,
            depth: st.depth + 1,
            ..st
        }
    } else if c == '}' {
        LexState {
            toks: emit(st, Seq::empty()),
            word: Seq::empty(),
            cur_line: line,
            depth: st.depth - 1,
            ..st
        }
    } else if st.depth < 2 {
        LexState { word: st.word.push(c), cur_line: line, ..st }
    } else {
        LexState { cur_line: line, ..st }
    }
}

/// The state after reading `s` from `st`.
pub open spec fn lex_from(st: LexState, s: Seq<char>) -> LexState
    decreases s.len(),
{
    if s.len() == 0 {
        st
    } else {
        lex_step(lex_from(st, s.drop_last()), s.last())
    }
}

/// The state before any text: line one, announced by its line token.
pub open spec fn lex_start() -> LexState {
    LexState {
        depth: 0,
        line: 1,
        word: Seq::empty(),
        cur_line: Seq::empty(),
        toks: seq![TokenView::LineNumber(1)],
    }
}

/// The tokens at the end of the text: a last line that no newline ended gives its
/// last word's token and then its text.
pub open spec fn lex_finish(st: LexState) -> Seq<TokenView> {
    if st.cur_line.len() > 0 {
        (if st.depth < 2 {
            st.toks + word_token(st.word)
        } else {
            st.toks
        }).push(TokenView::Sign(trimmed(st.cur_line)))
    } else {
        st.toks
    }
}

/// The tokens of the source text `s`.
pub open spec fn lexed(s: Seq<char>) -> Seq<TokenView> {
    lex_finish(lex_from(lex_start(), s))
}

/// Appends the token of a finished word.
fn push_token(curr_token: &Vec<char>, tokens: &mut Vec<Token>)
    ensures
        tokens_view(final(tokens)@) == tokens_view(old(tokens)@) + word_token(curr_token@),
{
    let ghost before = tokens@;
    if curr_token.len() > 0 {
        let w = string_of(curr_token);
        let t = if structural_keyword(&w) || jdoc_keyword(&w) || annotation_keyword(&w) {
            Token::Keyword(w)
        } else {
            Token::Symbol(w)
        };
        tokens.push(t);
        assert(tokens_view(tokens@) =~= tokens_view(before) + word_token(curr_token@));
    } else {
        assert(tokens_view(tokens@) =~= tokens_view(before) + word_token(curr_token@));
    }
}

/// Pushes `t` after the token of the pending word.
fn push_with(curr_token: &Vec<char>, tokens: &mut Vec<Token>, t: Token)
    ensures
        tokens_view(final(tokens)@) == tokens_view(old(tokens)@) + word_token(curr_token@) + seq![t@],
{
    push_token(curr_token, tokens);
    let ghost mid = tokens@;
    tokens.push(t);
    assert(tokens_view(tokens@) =~= tokens_view(mid) + seq![t@]);
}

/// Splits Java source text into tokens.
pub fn lex_contents(content: &String) -> (r: Vec<Token>)
    requires
        content@.len() < i64::MAX,
        content@.len() < usize::MAX,
    ensures
        tokens_view(r@) == lexed(content@),
{
    let cs = chars_of(content.as_str());
    let mut tokens: Vec<Token> = Vec::new();
    let mut curr_token: Vec<char> = Vec::new();
    let mut curr_line: Vec<char> = Vec::new();
    let mut block_depth: i64 = 0;
    let mut line_number: usize = 1;
    tokens.push(Token::LineNumber(1));
    assert(tokens_view(tokens@) =~= seq![TokenView::LineNumber(1)]);
    assert(cs@.subrange(0, 0) =~= Seq::<char>::empty());
    let mut i: usize = 0;
    while i < cs.len()
        invariant
            cs@ == content@,
            cs@.len() < i64::MAX,
            cs@.len() < usize::MAX,
            0 <= i <= cs@.len(),
            -(i as int) <= block_depth <= i,
            1 <= line_number <= i + 1,
            lex_from(lex_start(), cs@.subrange(0, i as int)) == (LexState {
                depth: block_depth as int,
                line: line_number as nat,
                word: curr_token@,
                cur_line: curr_line@,
                toks: tokens_view(tokens@),
            }),
        decreases cs@.len() - i,
    {
        let ghost now = cs@.subrange(0, i + 1 as int);
        assert(now.drop_last() =~= cs@.subrange(0, i as int));
        let ch = cs[i];
        let ghost toks0 = tokens@;
        if ch == ' ' || ch == '\t' || ch == '\r' {
            if block_depth < 2 {
                push_token(&curr_token, &mut tokens);
            }
            curr_token = Vec::new();
            curr_line.push(ch);
        } else if ch == '\n' {
            if block_depth < 2 {
                push_token(&curr_token, &mut tokens);
            }
            let raw = string_of(&curr_line);
            let sign = trim_line(raw.as_str());
            line_number = line_number + 1;
            let ghost mid = tokens@;
            tokens.push(Token::LineNumber(line_number));
            tokens.push(Token::Sign(sign));
            assert(tokens_view(tokens@) =~= tokens_view(mid) + seq![
                TokenView::LineNumber(line_number as nat),
                TokenView::Sign(trimmed(curr_line@)),
            ]);
            curr_token = Vec::new();
            curr_line = Vec::new();
        } else if ch == ',' || ch == ';' || ch == '(' || ch == ')' || ch == '{' {
            if block_depth < 2 {
                let t = if ch == ',' {
                    Token::Join
                } else if ch == ';' {
                    Token::ExpressionEnd(Terminator::Semicolon)
                } else if ch == '(' {
                    Token::ParamStart
                } else if ch == ')' {
                    Token::ParamEnd
                } else {
                    Token::ExpressionEnd(Terminator::OpenBrace)
                };
                push_with(&curr_token, &mut tokens, t);
            }
            curr_token = Vec::new();
            curr_line.push(ch);
            if ch == '{' {
                block_depth = block_depth + 1;
            }
        } else if ch == '}' {
            if block_depth < 2 {
                push_token(&curr_token, &mut tokens);
            }
            curr_token = Vec::new();
            curr_line.push(ch);
            block_depth = block_depth - 1;
        } else {
            if block_depth < 2 {
                curr_token.push(ch);
            }
            curr_line.push(ch);
        }
        i = i + 1;
        assert(curr_token@ == lex_from(lex_start(), cs@.subrange(0, i as int)).word);
    }
    assert(cs@.subrange(0, cs@.len() as int) =~= cs@);
    if curr_line.len() > 0 {
        if block_depth < 2 {
            push_token(&curr_token, &mut tokens);
        }
        let raw = string_of(&curr_line);
        let sign = trim_line(raw.as_str());
        let ghost mid = tokens@;
        tokens.push(Token::Sign(sign));
        assert(tokens_view(tokens@) =~= tokens_view(mid).push(TokenView::Sign(trimmed(curr_line@))));
    }
    tokens
}

// ---------------------------------------------------------------- skipped bodies

/// The number of `{` in `s` minus the number of `}`.
pub open spec fn net_depth(s: Seq<char>) -> int
    decreases s.len(),
{
    if s.len() == 0 {
        0
    } else {
        net_depth(s.drop_last()) + if s.last() == '{' {
            1int
        } else if s.last() == '}' {
            -1int
        } else {
            0int
        }
    }
}

/// Whether reading `s` from depth `d` keeps the depth at two or more throughout:
/// `s` lies inside an executable body, and any block it opens it also closes
/// before the body ends.
pub open spec fn stays_deep(d: int, s: Seq<char>) -> bool
    decreases s.len(),
{
    if s.len() == 0 {
        d >= 2
    } else {
        stays_deep(d, s.drop_last()) && d + net_depth(s) >= 2
    }
}

/// Whether every token of `t` is a line number or a line's text.
pub open spec fn only_line_tokens(t: Seq<TokenView>) -> bool {
    forall|k: int| 0 <= k < t.len() ==> (#[trigger] t[k] is LineNumber || t[k] is Sign)
}

/// One character read inside an executable body adds at most the line tokens.
proof fn deep_step(a: LexState, c: char)
    requires
        a.depth >= 2,
    ensures
        lex_step(a, c).toks.len() >= a.toks.len(),
        lex_step(a, c).toks.subrange(0, a.toks.len() as int) == a.toks,
        only_line_tokens(lex_step(a, c).toks.subrange(a.toks.len() as int, lex_step(a, c).toks.len() as int)),
{
    let b = lex_step(a, c);
    assert(b.toks.subrange(0, a.toks.len() as int) =~= a.toks);
    if c == '\n' {
        assert(b.toks.subrange(a.toks.len() as int, b.toks.len() as int) =~= seq![
            TokenView::LineNumber(a.line + 1),
            TokenView::Sign(trimmed(a.cur_line)),
        ]);
    } else {
        assert(b.toks.subrange(a.toks.len() as int, b.toks.len() as int) =~= Seq::<TokenView>::empty());
    }
}

/// Text read at nesting depth two or more, that is inside an executable body, adds
/// no token but the line tokens of its lines, inner blocks included, as long as the
/// depth stays at two or more: what a method body holds never reaches the
/// statements built from the tokens.
pub proof fn body_is_not_lexed(st: LexState, body: Seq<char>)
    requires
        stays_deep(st.depth, body),
    ensures
        lex_from(st, body).toks.len() >= st.toks.len(),
        lex_from(st, body).toks.subrange(0, st.toks.len() as int) == st.toks,
        only_line_tokens(lex_from(st, body).toks.subrange(st.toks.len() as int, lex_from(st, body).toks.len() as int)),
        lex_from(st, body).depth == st.depth + net_depth(body),
    decreases body.len(),
{
    if body.len() > 0 {
        let pre = body.drop_last();
        body_is_not_lexed(st, pre);
        let a = lex_from(st, pre);
        let b = lex_step(a, body.last());
        let n = st.toks.len() as int;
        assert(stays_deep(st.depth, pre));
        if pre.len() == 0 {
            assert(net_depth(pre) == 0);
            assert(st.depth >= 2);
        } else {
            assert(st.depth + net_depth(pre) >= 2);
        }
        assert(a.depth >= 2);
        deep_step(a, body.last());
        assert(b.toks.subrange(0, n) =~= a.toks.subrange(0, n));
        let ta = a.toks.subrange(n, a.toks.len() as int);
        let tb = b.toks.subrange(n, b.toks.len() as int);
        let tx = b.toks.subrange(a.toks.len() as int, b.toks.len() as int);
        assert forall|k: int| 0 <= k < tb.len() implies (#[trigger] tb[k] is LineNumber || tb[k] is Sign) by {
            if k + n < a.toks.len() {
                assert(tb[k] == ta[k]);
            } else {
                assert(tb[k] == tx[k + n - a.toks.len()]);
            }
        }
    } else {
        assert(lex_from(st, body).toks.subrange(0, st.toks.len() as int) =~= st.toks);
        assert(lex_from(st, body).toks.subrange(st.toks.len() as int, st.toks.len() as int) =~= Seq::<TokenView>::empty());
    }
}

} // verus!
