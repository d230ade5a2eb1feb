//! The documentation-comment parser.

use vstd::prelude::*;
use crate::grammar::{JdocToken, JdocTokenView, jdoc_tokens_view};
use crate::model::{Doc, ParamView, Param, params_view};
use crate::text::{join_sp, join_words, words_of, is_text};

verus! {

/// The field that the text after a documentation tag goes to.
#[derive(Clone, Copy, Debug, PartialEq, Eq, Structural)]
pub enum JdocState {
    Desc,
    JdocReturn,
    Param,
    Author,
    Deprecated,
    Version,
    Link,
    Exception,
    /// A tag that is accepted and whose text is not recorded.
    Other,
}

/// The state that a documentation tag selects.
pub open spec fn tag_state(w: Seq<char>) -> JdocState {
    if w == "@return"@ {
        JdocState::JdocReturn
    } else if w == "@param"@ {
        JdocState::Param
    } else if w == "@author"@ {
        JdocState::Author
    } else if w == "@deprecated"@ {
        JdocState::Deprecated
    } else if w == "@since"@ || w == "@version"@ {
        JdocState::Version
    } else if w == "@link"@ || w == "@see"@ {
        JdocState::Link
    } else if w == "@exception"@ || w == "@throws"@ {
        JdocState::Exception
    } else {
        JdocState::Other
    }
}

/// A documentation record as plain values.
pub struct DocView {
    pub params: Seq<ParamView>,
    pub description: Seq<char>,
    pub return_desc: Seq<char>,
    pub author: Seq<char>,
    pub version: Seq<char>,
    pub deprecated: Seq<char>,
    pub see: Seq<char>,
}

pub open spec fn doc_view(d: Doc) -> DocView {
    DocView {
        params: params_view(d.params@),
        description: d.description@,
        return_desc: d.return_desc@,
        author: d.author@,
        version: d.version@,
        deprecated: d.deprecated@,
        see: d.see@,
    }
}

/// A documentation record under construction: what is recorded, the current tag,
/// and the words read since it.
pub struct DocAcc {
    pub doc: DocView,
    pub state: JdocState,
    pub words: Seq<Seq<char>>,
}

pub open spec fn empty_doc() -> DocView {
    DocView {
        params: Seq::empty(),
        description: Seq::empty(),
        return_desc: Seq::empty(),
        author: Seq::empty(),
        version: Seq::empty(),
        deprecated: Seq::empty(),
        see: Seq::empty(),
    }
}

/// The record with the words read since the current tag stored in that tag's field.
/// After `@param` the first word names the parameter and the rest describe it.
/// A documented exception is never stored: it would be only where one was
/// already recorded.
pub open spec fn flush(a: DocAcc) -> DocView {
    let text = join_sp(a.words);
    let d = a.doc;
    match a.state {
        JdocState::Desc => DocView { description: text, ..d },
        JdocState::JdocReturn => DocView { return_desc: text, ..d },
        JdocState::Author => DocView { author: text, ..d },
        JdocState::Deprecated => DocView { deprecated: text, ..d },
        JdocState::Version => DocView { version: text, ..d },
        JdocState::Link => DocView { see: text, ..d },
        JdocState::Param => if a.words.len() == 0 {
            d
        } else {
            DocView {
                params: d.params.push(
                    ParamView {
                        var_type: Seq::empty(),
                        name: a.words[0],
                        desc: join_sp(a.words.drop_first()),
                    },
                ),
                ..d
            }
        },
        _ => d,
    }
}

/// One token of the comment: a tag stores the pending words and selects its field;
/// a word other than the `*` continuation marker is added to the pending words.
pub open spec fn doc_step(a: DocAcc, t: JdocTokenView) -> DocAcc {
    match t {
        JdocTokenView::Keyword(k) => DocAcc { doc: flush(a), state: tag_state(k), words: Seq::empty() },
        JdocTokenView::Symbol(w) => if w == "*"@ {
            a
        } else {
            DocAcc { words: a.words.push(w), ..a }
        },
    }
}

pub open spec fn doc_run(ts: Seq<JdocTokenView>) -> DocAcc
    decreases ts.len(),
{
    if ts.len() == 0 {
        DocAcc { doc: empty_doc(), state: JdocState::Desc, words: Seq::empty() }
    } else {
        doc_step(doc_run(ts.drop_last()), ts.last())
    }
}

/// What a documentation comment made of `ts` says.
pub open spec fn parsed_doc(ts: Seq<JdocTokenView>) -> DocView {
    flush(doc_run(ts))
}

fn tag_of(k: &String) -> (r: JdocState)
    ensures
        r == tag_state(k@),
{
    if is_text(k, "@return") {
        JdocState::JdocReturn
    } else if is_text(k, "@param") {
        JdocState::Param
    } else if is_text(k, "@author") {
        JdocState::Author
    } else if is_text(k, "@deprecated") {
        JdocState::Deprecated
    } else if is_text(k, "@since") || is_text(k, "@version") {
        JdocState::Version
    } else if is_text(k, "@link") || is_text(k, "@see") {
        JdocState::Link
    } else if is_text(k, "@exception") || is_text(k, "@throws") {
        JdocState::Exception
    } else {
        JdocState::Other
    }
}

fn flush_into(doc: &mut Doc, state: JdocState, words: &Vec<String>)
    ensures
        doc_view(*final(doc)) == flush(DocAcc { doc: doc_view(*old(doc)), state, words: words_of(words@) }),
        final(doc).exceptions@.len() == old(doc).exceptions@.len(),
{
    let ghost ws = words_of(words@);
    assert(ws.subrange(0, ws.len() as int) =~= ws);
    match state {
        JdocState::Desc => doc.description = join_words(words, 0, words.len()),
        JdocState::JdocReturn => doc.return_desc = join_words(words, 0, words.len()),
        JdocState::Author => doc.author = join_words(words, 0, words.len()),
        JdocState::Deprecated => doc.deprecated = join_words(words, 0, words.len()),
        JdocState::Version => doc.version = join_words(words, 0, words.len()),
        JdocState::Link => doc.see = join_words(words, 0, words.len()),
        JdocState::Param => {
            if words.len() > 0 {
                let desc = join_words(words, 1, words.len());
                assert(ws.subrange(1, ws.len() as int) =~= ws.drop_first());
                let ghost prev = doc.params@;
                let p = Param { var_type: String::new(), name: words[0].clone(), desc };
                doc.params.push(p);
                assert(params_view(doc.params@) =~= params_view(prev).push(p@));
            }
        },
        _ => {},
    }
}

/// Reads the tokens of one documentation comment into a documentation record.
pub fn get_doc(tokens: &Vec<JdocToken>) -> (r: Doc)
    ensures
        doc_view(r) == parsed_doc(jdoc_tokens_view(tokens@)),
        r.exceptions@.len() == 0,
{
    let mut doc = Doc::new();
    let mut state = JdocState::Desc;
    let mut words: Vec<String> = Vec::new();
    assert(params_view(doc.params@) =~= Seq::empty());
    assert(doc.description@ =~= Seq::empty() && doc.return_desc@ =~= Seq::empty()
        && doc.author@ =~= Seq::empty() && doc.version@ =~= Seq::empty()
        && doc.deprecated@ =~= Seq::empty() && doc.see@ =~= Seq::empty());
    assert(words_of(words@) =~= Seq::empty());
    assert(jdoc_tokens_view(tokens@).subrange(0, 0) =~= Seq::empty());
    let mut i: usize = 0;
    while i < tokens.len()
        invariant
            0 <= i <= tokens@.len(),
            doc.exceptions@.len() == 0,
            doc_run(jdoc_tokens_view(tokens@).subrange(0, i as int)) == (DocAcc {
                doc: doc_view(doc),
                state,
                words: words_of(words@),
            }),
        decreases tokens@.len() - i,
    {
        let ghost now = jdoc_tokens_view(tokens@).subrange(0, i + 1 as int);
        assert(now.drop_last() =~= jdoc_tokens_view(tokens@).subrange(0, i as int));
        match &tokens[i] {
            JdocToken::Keyword(key) => {
                flush_into(&mut doc, state, &words);
                state = tag_of(key);
                words = Vec::new();
                assert(words_of(words@) =~= Seq::empty());
            },
            JdocToken::Symbol(word) => {
                if !is_text(word, "*") {
                    let ghost prev = words@;
                    words.push(word.clone());
                    assert(words_of(words@) =~= words_of(prev).push(word@));
                }
            },
        }
        i = i + 1;
    }
    assert(jdoc_tokens_view(tokens@).subrange(0, tokens@.len() as int) =~= jdoc_tokens_view(tokens@));
    flush_into(&mut doc, state, &words);
    doc
}

} // verus!
