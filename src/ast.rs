//! The declaration builder: a state machine over the token sequence that builds the
//! one declaration of a file.

use vstd::prelude::*;
use crate::doc::{DocView, doc_view, empty_doc, get_doc, parsed_doc};
use crate::grammar::{
    JdocToken, JdocTokenView, Stream, StreamView, Terminator, Token, TokenView, access_word,
    is_access, is_jdoc_keyword, is_modifier, jdoc_keyword, jdoc_tokens_view, modifier_word,
    streams_view, tokens_view,
};
use crate::handlers::{
    ObjAcc, field_decl, field_head, get_method, get_object, get_var, last_access, method_run, modifiers_of,
    obj_run,
};
use crate::model::{
    Doc, EnumFieldView, MemberView, MethodView, Object, ObjectState, ObjectType, ObjectView,
    enum_fields_view, is_empty_class, members_view, methods_view, declared_as,
};
use crate::reconcile::{get_enum_fields, reconciled, variable_names};
use crate::lexer::{lex_contents, lexed};
use crate::text::{decimal, has_text, is_text, join_sp, join_words, occurs_in, words_of};

verus! {

/// Whether the builder reads code, a line comment, a block comment, or a
/// documentation comment.
#[derive(Clone, Copy, Debug, PartialEq, Eq, Structural)]
pub enum Mode {
    Code,
    LineComment,
    BlockComment,
    Doc,
}

/// Which statement handler an opening brace leads to.
#[derive(Clone, Copy, Debug, PartialEq, Eq, Structural)]
pub enum ParseState {
    Class,
    Interface,
    Enum,
    Other,
}

/// The builder's state as plain values.
pub struct AstView {
    pub mode: Mode,
    /// An annotation was just seen: a `(` that follows starts its arguments.
    pub annotation: bool,
    /// Inside an annotation's arguments, which are skipped.
    pub ignore: bool,
    /// A type keyword has been seen.
    pub in_object: bool,
    /// The declaration's header has been read.
    pub header_done: bool,
    /// The current statement is the header of a nested type.
    pub nested: bool,
    pub parse_state: ParseState,
    pub object: ObjectView,
    /// The documentation that the next statement takes.
    pub jdoc: DocView,
    pub doc_tokens: Seq<JdocTokenView>,
    /// The pending word group.
    pub symbols: Seq<Seq<char>>,
    /// The grammar parts of the current statement.
    pub gram: Seq<StreamView>,
    /// The words of the last block comment.
    pub license: Seq<Seq<char>>,
    pub line: nat,
    /// Methods from this index on were made on the current line and wait for its text.
    pub sig_methods: nat,
    /// Fields from this index on were made on the current line and wait for its text.
    pub sig_vars: nat,
    /// The header was read on the current line and waits for its text.
    pub sig_header: bool,
    /// The text of the line where the current statement began, once that line has
    /// ended.
    pub start_sig: Option<Seq<char>>,
}

/// The grammar parts of a word group: one word is an identifier; from two words on,
/// the last is the identifier and the ones before it its type.
pub open spec fn group_parts(syms: Seq<Seq<char>>) -> Seq<StreamView> {
    if syms.len() == 0 {
        Seq::empty()
    } else if syms.len() == 1 {
        seq![StreamView::Variable(syms[0])]
    } else {
        seq![StreamView::Type(syms.drop_last()), StreamView::Variable(syms.last())]
    }
}

/// The field that a statement declares.
pub open spec fn member_of(g: Seq<StreamView>, line: nat, sig: Seq<char>) -> MemberView {
    MemberView {
        var_type: field_decl(g).0,
        name: field_decl(g).1,
        access: last_access(field_head(g)),
        modifiers: modifiers_of(field_head(g)),
        line,
        signature: sig,
    }
}

/// The method that a statement declares, with its documentation.
pub open spec fn method_of(g: Seq<StreamView>, doc: DocView, line: nat, sig: Seq<char>) -> MethodView {
    let a = method_run(g, None);
    MethodView {
        name: a.name,
        return_type: if doc.return_desc.len() > 0 {
            doc.return_desc
        } else {
            a.return_type
        },
        parameters: reconciled(a.params, doc.params),
        access: a.access,
        modifiers: a.modifiers,
        exceptions: a.exceptions,
        description: doc.description,
        line,
        signature: sig,
    }
}

/// The constants of an enumeration list, valued by position.
pub open spec fn enum_of(g: Seq<StreamView>) -> Seq<EnumFieldView> {
    Seq::new(
        variable_names(g).len(),
        |i: int| EnumFieldView { name: variable_names(g)[i], value: decimal(i as nat) },
    )
}

/// The declaration with its header read from `g` and stamped from `doc`.
pub open spec fn header_of(o: ObjectView, g: Seq<StreamView>, doc: DocView, sig: Seq<char>) -> ObjectView {
    let a = obj_run(
        ObjAcc {
            name: o.name,
            parent: o.parent,
            interfaces: o.interfaces,
            exceptions: o.exceptions,
            access: o.access,
            modifiers: o.modifiers,
            state: crate::handlers::ObjectParseState::Other,
        },
        g,
    );
    ObjectView {
        name: a.name,
        parent: a.parent,
        interfaces: a.interfaces,
        exceptions: a.exceptions,
        access: a.access,
        modifiers: a.modifiers,
        signature: sig,
        description: doc.description,
        author: doc.author,
        version: doc.version,
        ..o
    }
}

/// The builder with its pending word group moved into the grammar parts.
pub open spec fn flushed(b: AstView) -> AstView {
    AstView { gram: b.gram + group_parts(b.symbols), symbols: Seq::empty(), ..b }
}

/// A statement ended by `t`, read from the grammar parts `g`.
pub open spec fn dispatch(b: AstView, t: Terminator) -> AstView {
    let g = b.gram;
    let o = b.object;
    if b.nested {
        b
    } else {
        match t {
            Terminator::Semicolon => if !b.in_object {
                if g.len() > 1 {
                    match (g[0], g[1]) {
                        (StreamView::Import, StreamView::Variable(k)) => AstView {
                            object: ObjectView { dependencies: o.dependencies.push(k), ..o },
                            ..b
                        },
                        (StreamView::Import, _) => b,
                        (StreamView::Package, StreamView::Variable(k)) => AstView {
                            object: ObjectView { package_name: k, ..o },
                            ..b
                        },
                        (StreamView::Package, _) => b,
                        _ => AstView {
                            object: ObjectView {
                                variables: o.variables.push(member_of(g, b.line, Seq::empty())),
                                ..o
                            },
                            ..b
                        },
                    }
                } else {
                    b
                }
            } else {
                match o.state {
                    ObjectState::Class => AstView {
                        object: ObjectView {
                            variables: o.variables.push(member_of(g, b.line, Seq::empty())),
                            ..o
                        },
                        ..b
                    },
                    ObjectState::Enumeration => if o.fields.len() == 0 {
                        AstView { object: ObjectView { fields: enum_of(g), ..o }, ..b }
                    } else {
                        AstView {
                            object: ObjectView {
                                variables: o.variables.push(member_of(g, b.line, Seq::empty())),
                                ..o
                            },
                            ..b
                        }
                    },
                    _ => AstView {
                        object: ObjectView {
                            methods: o.methods.push(method_of(g, b.jdoc, b.line, Seq::empty())),
                            ..o
                        },
                        ..b
                    },
                }
            },
            Terminator::OpenBrace => match b.parse_state {
                ParseState::Other => AstView {
                    object: ObjectView {
                        methods: o.methods.push(method_of(g, b.jdoc, b.line, Seq::empty())),
                        ..o
                    },
                    ..b
                },
                _ => AstView {
                    object: header_of(o, g, b.jdoc, o.signature),
                    header_done: true,
                    sig_header: true,
                    ..b
                },
            },
        }
    }
}

/// A statement terminator: the pending words join the statement, the statement is
/// handled, and the next one starts afresh.
pub open spec fn end_step(b: AstView, t: Terminator) -> AstView {
    let f = flushed(b);
    let d0 = dispatch(f, t);
    let d = match b.start_sig {
        Some(txt) => stamped(d0, f.object.methods.len(), f.object.variables.len(), txt),
        None => d0,
    };
    AstView {
        start_sig: None,
        parse_state: ParseState::Other,
        jdoc: empty_doc(),
        gram: Seq::empty(),
        symbols: Seq::empty(),
        nested: false,
        ..d
    }
}

/// A keyword read as code.
pub open spec fn code_keyword(b: AstView, k: Seq<char>) -> AstView {
    let f = flushed(b);
    let o = f.object;
    let c = if k == "class"@ || k == "interface"@ || k == "enum"@ {
        if f.header_done {
            AstView { nested: true, ..f }
        } else {
            let (st, ps) = if k == "class"@ {
                (ObjectState::Class, ParseState::Class)
            } else if k == "interface"@ {
                (ObjectState::Interface, ParseState::Interface)
            } else {
                (ObjectState::Enumeration, ParseState::Enum)
            };
            AstView {
                object: ObjectView { state: st, ..o },
                gram: f.gram.push(StreamView::Object(k)),
                parse_state: ps,
                in_object: true,
                ..f
            }
        }
    } else if k == "package"@ {
        AstView {
            object: if f.license.len() > 0 {
                ObjectView { license: join_sp(f.license), ..o }
            } else {
                o
            },
            gram: f.gram.push(StreamView::Package),
            ..f
        }
    } else if k == "throws"@ {
        AstView { gram: f.gram.push(StreamView::Exception), ..f }
    } else if k == "extends"@ {
        AstView { gram: f.gram.push(StreamView::Parent), ..f }
    } else if k == "implements"@ {
        AstView { gram: f.gram.push(StreamView::Implement), ..f }
    } else if k == "import"@ {
        AstView { gram: f.gram.push(StreamView::Import), ..f }
    } else if is_access(k) {
        AstView { gram: f.gram.push(StreamView::Access(k)), ..f }
    } else if is_modifier(k) {
        AstView { gram: f.gram.push(StreamView::Modifier(k)), ..f }
    } else {
        f
    };
    AstView { annotation: false, ..c }
}

/// A word of a documentation comment.
pub open spec fn doc_word(w: Seq<char>) -> JdocTokenView {
    if is_jdoc_keyword(w) {
        JdocTokenView::Keyword(w)
    } else {
        JdocTokenView::Symbol(w)
    }
}

/// Whether `w` starts a line comment.
pub open spec fn opens_line_comment(w: Seq<char>) -> bool {
    occurs_in("//"@, w)
}

/// A word read as code.
pub open spec fn code_symbol(b: AstView, w: Seq<char>) -> AstView {
    if w == "/**"@ {
        AstView { mode: Mode::Doc, annotation: false, ..b }
    } else if w == "*/"@ {
        AstView { annotation: false, ..b }
    } else if opens_line_comment(w) {
        AstView { mode: Mode::LineComment, annotation: false, ..b }
    } else if w == "/*"@ {
        AstView { mode: Mode::BlockComment, license: Seq::empty(), annotation: false, ..b }
    } else if occurs_in("@"@, w) {
        AstView { annotation: true, ..b }
    } else {
        AstView { symbols: b.symbols.push(w), annotation: false, ..b }
    }
}

/// The declaration with the text `s` of the line that just ended given as signature
/// to what was made on that line: the methods from `pm` on, the fields from `pv` on,
/// and the header where `hp` holds.
pub open spec fn signed(o: ObjectView, pm: nat, pv: nat, hp: bool, s: Seq<char>) -> ObjectView {
    ObjectView {
        methods: Seq::new(
            o.methods.len(),
            |i: int| if i >= pm { MethodView { signature: s, ..o.methods[i] } } else { o.methods[i] },
        ),
        variables: Seq::new(
            o.variables.len(),
            |i: int| if i >= pv { MemberView { signature: s, ..o.variables[i] } } else { o.variables[i] },
        ),
        signature: if hp { s } else { o.signature },
        ..o
    }
}

/// The builder with the line text `s` given to the methods from `pm` on, the
/// fields from `pm` on, and the header where it waits for one; nothing waits after.
pub open spec fn stamped(b: AstView, pm: nat, pv: nat, s: Seq<char>) -> AstView {
    AstView {
        object: signed(b.object, pm, pv, b.sig_header, s),
        sig_methods: b.object.methods.len(),
        sig_vars: b.object.variables.len(),
        sig_header: false,
        ..b
    }
}

/// The builder's step on one token. A record takes as signature the text of the
/// line where its statement began: known at the terminator where the statement
/// spans lines, else given when its line's text arrives.
pub open spec fn ast_step(b: AstView, t: TokenView) -> AstView {
    if b.ignore {
        if t is ParamEnd {
            AstView { ignore: false, ..b }
        } else {
            b
        }
    } else {
        match t {
            TokenView::LineNumber(n) => AstView {
                line: n,
                mode: if b.mode == Mode::LineComment {
                    Mode::Code
                } else {
                    b.mode
                },
                ..b
            },
            TokenView::Sign(s) => AstView {
                start_sig: if b.start_sig is None && (b.symbols.len() > 0 || b.gram.len() > 0) {
                    Some(s)
                } else {
                    b.start_sig
                },
                ..stamped(b, b.sig_methods, b.sig_vars, s)
            },
            TokenView::Keyword(k) => match b.mode {
                Mode::Code => code_keyword(b, k),
                Mode::Doc => AstView { doc_tokens: b.doc_tokens.push(doc_word(k)), annotation: false, ..b },
                Mode::BlockComment => AstView { license: b.license.push(k), annotation: false, ..b },
                Mode::LineComment => AstView { annotation: false, ..b },
            },
            TokenView::Symbol(w) => match b.mode {
                Mode::Code => code_symbol(b, w),
                Mode::Doc => if w == "*/"@ {
                    AstView {
                        mode: Mode::Code,
                        jdoc: parsed_doc(b.doc_tokens),
                        doc_tokens: Seq::empty(),
                        gram: Seq::empty(),
                        parse_state: ParseState::Other,
                        annotation: false,
                        ..b
                    }
                } else {
                    AstView { doc_tokens: b.doc_tokens.push(doc_word(w)), annotation: false, ..b }
                },
                Mode::BlockComment => if w == "*/"@ {
                    AstView { mode: Mode::Code, annotation: false, ..b }
                } else if w == "*"@ {
                    AstView { annotation: false, ..b }
                } else {
                    AstView { license: b.license.push(w), annotation: false, ..b }
                },
                Mode::LineComment => if w == "*/"@ {
                    AstView { mode: Mode::Code, annotation: false, ..b }
                } else {
                    AstView { annotation: false, ..b }
                },
            },
            TokenView::Join => if b.mode == Mode::Code {
                flushed(b)
            } else {
                b
            },
            TokenView::ParamStart => if b.mode != Mode::Code {
                b
            } else if b.annotation {
                AstView { ignore: true, annotation: false, symbols: Seq::empty(), ..b }
            } else {
                flushed(b)
            },
            TokenView::ParamEnd => if b.mode != Mode::Code {
                b
            } else if b.symbols.len() >= 2 {
                flushed(b)
            } else {
                AstView { symbols: Seq::empty(), ..b }
            },
            TokenView::ExpressionEnd(e) => if b.mode == Mode::Code {
                end_step(b, e)
            } else {
                b
            },
        }
    }
}

pub open spec fn empty_object() -> ObjectView {
    ObjectView {
        state: ObjectState::Unset,
        name: Seq::empty(),
        package_name: Seq::empty(),
        parent: Seq::empty(),
        interfaces: Seq::empty(),
        exceptions: Seq::empty(),
        dependencies: Seq::empty(),
        access: Seq::empty(),
        modifiers: Seq::empty(),
        license: Seq::empty(),
        variables: Seq::empty(),
        methods: Seq::empty(),
        fields: Seq::empty(),
        signature: Seq::empty(),
        description: Seq::empty(),
        author: Seq::empty(),
        version: Seq::empty(),
    }
}

pub open spec fn ast_start() -> AstView {
    AstView {
        mode: Mode::Code,
        annotation: false,
        ignore: false,
        in_object: false,
        header_done: false,
        nested: false,
        parse_state: ParseState::Other,
        object: empty_object(),
        jdoc: empty_doc(),
        doc_tokens: Seq::empty(),
        symbols: Seq::empty(),
        gram: Seq::empty(),
        license: Seq::empty(),
        line: 0,
        sig_methods: 0,
        sig_vars: 0,
        sig_header: false,
        start_sig: None,
    }
}

pub open spec fn ast_run(ts: Seq<TokenView>) -> AstView
    decreases ts.len(),
{
    if ts.len() == 0 {
        ast_start()
    } else {
        ast_step(ast_run(ts.drop_last()), ts.last())
    }
}

/// The declaration at the end of the tokens: an enumeration whose constant list no
/// `;` ended takes its constants from what is pending.
pub open spec fn final_object(b: AstView) -> ObjectView {
    if b.object.state == ObjectState::Enumeration && b.object.fields.len() == 0 {
        ObjectView { fields: enum_of(b.gram + group_parts(b.symbols)), ..b.object }
    } else {
        b.object
    }
}

/// The builder's state.
struct Builder {
    mode: Mode,
    annotation: bool,
    ignore: bool,
    in_object: bool,
    header_done: bool,
    nested: bool,
    parse_state: ParseState,
    object: Object,
    jdoc: Doc,
    doc_tokens: Vec<JdocToken>,
    symbols: Vec<String>,
    gram_parts: Vec<Stream>,
    license: Vec<String>,
    line: usize,
    sig_methods: usize,
    sig_vars: usize,
    sig_header: bool,
    start_sig: Option<String>,
}

impl View for Builder {
    type V = AstView;

    closed spec fn view(&self) -> AstView {
        AstView {
            mode: self.mode,
            annotation: self.annotation,
            ignore: self.ignore,
            in_object: self.in_object,
            header_done: self.header_done,
            nested: self.nested,
            parse_state: self.parse_state,
            object: self.object@,
            jdoc: doc_view(self.jdoc),
            doc_tokens: jdoc_tokens_view(self.doc_tokens@),
            symbols: words_of(self.symbols@),
            gram: streams_view(self.gram_parts@),
            license: words_of(self.license@),
            line: self.line as nat,
            sig_methods: self.sig_methods as nat,
            sig_vars: self.sig_vars as nat,
            sig_header: self.sig_header,
            start_sig: match self.start_sig {
                Some(t) => Some(t@),
                None => None,
            },
        }
    }
}

fn empty_doc_record() -> (r: Doc)
    ensures
        doc_view(r) == empty_doc(),
        r.exceptions@.len() == 0,
{
    let d = Doc::new();
    assert(crate::model::params_view(d.params@) =~= Seq::empty());
    assert(d.description@ =~= Seq::empty() && d.return_desc@ =~= Seq::empty()
        && d.author@ =~= Seq::empty() && d.version@ =~= Seq::empty()
        && d.deprecated@ =~= Seq::empty() && d.see@ =~= Seq::empty());
    d
}

impl Builder {
    spec fn wf(&self) -> bool {
        &&& self.jdoc.exceptions@.len() == 0
        &&& self.sig_methods <= self.object.methods@.len()
        &&& self.sig_vars <= self.object.variables@.len()
    }

    /// Gives the line text `line` to the methods from `pm` on, the fields from `pv`
    /// on, and the header where it waits for one.
    fn stamp(&mut self, pm: usize, pv: usize, line: &String)
        requires
            old(self).wf(),
            pm <= old(self).object.methods@.len(),
            pv <= old(self).object.variables@.len(),
        ensures
            final(self)@ == stamped(old(self)@, pm as nat, pv as nat, line@),
            final(self).wf(),
    {
        let ghost o0 = self.object@;
        let n = self.object.methods.len();
        let mut i: usize = pm;
        while i < n
            invariant
                self.wf(),
                pm <= i <= n == self.object.methods@.len(),
                o0.methods.len() == n,
                self@ == (AstView { object: ObjectView { methods: self@.object.methods, ..o0 }, ..old(self)@ }),
                forall|k: int| 0 <= k < n ==> #[trigger] self@.object.methods[k] == if pm <= k < i {
                    MethodView { signature: line@, ..o0.methods[k] }
                } else {
                    o0.methods[k]
                },
            decreases n - i,
        {
            let ghost before = self.object.methods@;
            let ghost mv = self@.object.methods;
            assert(mv[i as int] == o0.methods[i as int]);
            let ghost ms0 = self.object.methods@;
            self.object.methods[i].set_signature(line.clone());
            assert(self.object.methods@[i as int]@ == (MethodView { signature: line@, ..ms0[i as int]@ }));
            assert(forall|k: int| 0 <= k < n && k != i ==> self.object.methods@[k] == ms0[k]);
            assert(methods_view(self.object.methods@) =~= mv.update(i as int, MethodView { signature: line@, ..o0.methods[i as int] }));
            i = i + 1;
        }
        let ghost o1 = self@.object;
        let nv = self.object.variables.len();
        let mut j: usize = pv;
        while j < nv
            invariant
                self.wf(),
                pv <= j <= nv == self.object.variables@.len(),
                o1.variables.len() == nv,
                self@ == (AstView { object: ObjectView { variables: self@.object.variables, ..o1 }, ..old(self)@ }),
                forall|k: int| 0 <= k < nv ==> #[trigger] self@.object.variables[k] == if pv <= k < j {
                    MemberView { signature: line@, ..o1.variables[k] }
                } else {
                    o1.variables[k]
                },
            decreases nv - j,
        {
            let ghost vv = self@.object.variables;
            assert(vv[j as int] == o1.variables[j as int]);
            let ghost vs0 = self.object.variables@;
            self.object.variables[j].set_signature(line.clone());
            assert(self.object.variables@[j as int]@ == (MemberView { signature: line@, ..vs0[j as int]@ }));
            assert(forall|k: int| 0 <= k < nv && k != j ==> self.object.variables@[k] == vs0[k]);
            assert(members_view(self.object.variables@) =~= vv.update(j as int, MemberView { signature: line@, ..o1.variables[j as int] }));
            j = j + 1;
        }
        if self.sig_header {
            self.object.signature = line.clone();
        }
        self.sig_methods = n;
        self.sig_vars = nv;
        self.sig_header = false;
        proof {
            let want = signed(old(self)@.object, pm as nat, pv as nat, old(self)@.sig_header, line@);
            assert(self@.object.methods =~= want.methods);
            assert(self@.object.variables =~= want.variables);
        }
    }

    fn new() -> (r: Builder)
        ensures
            r@ == ast_start(),
            r.wf(),
    {
        let b = Builder {
            mode: Mode::Code,
            annotation: false,
            ignore: false,
            in_object: false,
            header_done: false,
            nested: false,
            parse_state: ParseState::Other,
            object: Object::new(),
            jdoc: empty_doc_record(),
            doc_tokens: Vec::new(),
            symbols: Vec::new(),
            gram_parts: Vec::new(),
            license: Vec::new(),
            line: 0,
            sig_methods: 0,
            sig_vars: 0,
            sig_header: false,
            start_sig: None,
        };
        proof {
            let o = b.object@;
            assert(o.interfaces =~= Seq::empty() && o.exceptions =~= Seq::empty());
            assert(o.dependencies =~= Seq::empty() && o.modifiers =~= Seq::empty());
            assert(o.variables =~= Seq::empty() && o.methods =~= Seq::empty() && o.fields =~= Seq::empty());
            assert(o.name =~= Seq::empty() && o.package_name =~= Seq::empty() && o.parent =~= Seq::empty());
            assert(o.access =~= Seq::empty() && o.license =~= Seq::empty() && o.signature =~= Seq::empty());
            assert(o.description =~= Seq::empty() && o.author =~= Seq::empty() && o.version =~= Seq::empty());
            assert(o == empty_object());
            assert(b@.doc_tokens =~= Seq::empty() && b@.symbols =~= Seq::empty());
            assert(b@.gram =~= Seq::empty() && b@.license =~= Seq::empty());
        }
        b
    }

    /// Moves the pending word group into the grammar parts.
    fn flush(&mut self)
        ensures
            final(self)@ == flushed(old(self)@),
            final(self).wf() == old(self).wf(),
    {
        let ghost g0 = self.gram_parts@;
        let ghost s0 = words_of(self.symbols@);
        let n = self.symbols.len();
        if n == 1 {
            match self.symbols.pop() {
                Some(w) => {
                    self.gram_parts.push(Stream::Variable(w));
                },
                None => {},
            }
            assert(streams_view(self.gram_parts@) =~= streams_view(g0) + group_parts(s0));
        } else if n >= 2 {
            match self.symbols.pop() {
                Some(last) => {
                    let mut ty: Vec<String> = Vec::new();
                    std::mem::swap(&mut ty, &mut self.symbols);
                    assert(words_of(ty@) =~= s0.drop_last());
                    self.gram_parts.push(Stream::Type(ty));
                    self.gram_parts.push(Stream::Variable(last));
                },
                None => {},
            }
            assert(streams_view(self.gram_parts@) =~= streams_view(g0) + group_parts(s0));
        } else {
            assert(streams_view(self.gram_parts@) =~= streams_view(g0) + group_parts(s0));
        }
        self.symbols = Vec::new();
        assert(words_of(self.symbols@) =~= Seq::empty());
    }

    /// Handles the statement that a terminator ends.
    fn dispatch(&mut self, t: Terminator)
        requires
            old(self).wf(),
        ensures
            final(self)@ == dispatch(old(self)@, t),
            final(self).wf(),
    {
        if self.nested {
            return;
        }
        let ghost o0 = self.object@;
        let ghost g = self.gram_parts@;
        match t {
            Terminator::Semicolon => {
                if !self.in_object {
                    if self.gram_parts.len() > 1 {
                        match (&self.gram_parts[0], &self.gram_parts[1]) {
                            (Stream::Import, Stream::Variable(k)) => {
                                self.object.dependencies.push(k.clone());
                                assert(self.object@.dependencies =~= o0.dependencies.push(k@));
                            },
                            (Stream::Import, _) => {},
                            (Stream::Package, Stream::Variable(k)) => {
                                self.object.package_name = k.clone();
                            },
                            (Stream::Package, _) => {},
                            _ => {
                                let m = get_var(&self.gram_parts, self.line, String::new());
                                self.object.variables.push(m);
                                assert(self.object@.variables =~= o0.variables.push(m@));
                            },
                        }
                    }
                } else {
                    match self.object.state {
                        ObjectState::Class => {
                            let m = get_var(&self.gram_parts, self.line, String::new());
                            self.object.variables.push(m);
                            assert(self.object@.variables =~= o0.variables.push(m@));
                        },
                        ObjectState::Enumeration => {
                            if self.object.fields.len() == 0 {
                                let f = get_enum_fields(&self.gram_parts);
                                self.object.fields = f;
                                assert(self.object@.fields =~= enum_of(streams_view(g)));
                            } else {
                                let m = get_var(&self.gram_parts, self.line, String::new());
                                self.object.variables.push(m);
                                assert(self.object@.variables =~= o0.variables.push(m@));
                            }
                        },
                        _ => {
                            let m = get_method(&self.gram_parts, &self.jdoc, self.line, String::new());
                            self.object.methods.push(m);
                            assert(self.object@.methods =~= o0.methods.push(m@));
                        },
                    }
                }
            },
            Terminator::OpenBrace => {
                match self.parse_state {
                    ParseState::Other => {
                        let m = get_method(&self.gram_parts, &self.jdoc, self.line, String::new());
                        self.object.methods.push(m);
                        assert(self.object@.methods =~= o0.methods.push(m@));
                    },
                    _ => {
                        let sig = self.object.signature.clone();
                        get_object(&self.gram_parts, &self.jdoc, sig, &mut self.object);
                        self.header_done = true;
                        self.sig_header = true;
                    },
                }
            },
        }
    }

    /// Handles a statement terminator.
    fn end(&mut self, t: Terminator)
        requires
            old(self).wf(),
        ensures
            final(self)@ == end_step(old(self)@, t),
            final(self).wf(),
    {
        self.flush();
        let pm = self.object.methods.len();
        let pv = self.object.variables.len();
        let ghost f = self@;
        self.dispatch(t);
        assert(self.object@.methods.len() >= f.object.methods.len());
        assert(self.object@.variables.len() >= f.object.variables.len());
        let mut first: Option<String> = None;
        std::mem::swap(&mut first, &mut self.start_sig);
        match first {
            Some(txt) => self.stamp(pm, pv, &txt),
            None => {},
        }
        self.parse_state = ParseState::Other;
        self.jdoc = empty_doc_record();
        self.gram_parts = Vec::new();
        self.symbols = Vec::new();
        self.nested = false;
        assert(streams_view(self.gram_parts@) =~= Seq::empty());
        assert(words_of(self.symbols@) =~= Seq::empty());
    }

    /// Adds a grammar part to the statement.
    fn push_part(&mut self, p: Stream)
        ensures
            final(self)@ == (AstView { gram: old(self)@.gram.push(p@), ..old(self)@ }),
            final(self).wf() == old(self).wf(),
    {
        let ghost g0 = self.gram_parts@;
        self.gram_parts.push(p);
        assert(streams_view(self.gram_parts@) =~= streams_view(g0).push(p@));
    }

    /// Handles a keyword read as code.
    #[verifier::rlimit(50)]
    fn code_keyword(&mut self, k: &String)
        requires
            old(self).wf(),
        ensures
            final(self)@ == code_keyword(old(self)@, k@),
            final(self).wf(),
    {
        self.flush();
        let ghost g0 = self.gram_parts@;
        let is_class = is_text(k, "class");
        let is_interface = is_text(k, "interface");
        if is_class || is_interface || is_text(k, "enum") {
            if self.header_done {
                self.nested = true;
            } else {
                if is_class {
                    self.object.state = ObjectState::Class;
                    self.parse_state = ParseState::Class;
                } else if is_interface {
                    self.object.state = ObjectState::Interface;
                    self.parse_state = ParseState::Interface;
                } else {
                    self.object.state = ObjectState::Enumeration;
                    self.parse_state = ParseState::Enum;
                }
                self.push_part(Stream::Object(k.clone()));
                self.in_object = true;
            }
        } else if is_text(k, "package") {
            if self.license.len() > 0 {
                self.object.license = join_words(&self.license, 0, self.license.len());
                assert(words_of(self.license@).subrange(0, self.license@.len() as int) =~= words_of(self.license@));
            }
            self.push_part(Stream::Package);
        } else if is_text(k, "throws") {
            self.push_part(Stream::Exception);
        } else if is_text(k, "extends") {
            self.push_part(Stream::Parent);
        } else if is_text(k, "implements") {
            self.push_part(Stream::Implement);
        } else if is_text(k, "import") {
            self.push_part(Stream::Import);
        } else if access_word(k) {
            self.push_part(Stream::Access(k.clone()));
        } else if modifier_word(k) {
            self.push_part(Stream::Modifier(k.clone()));
        }
        self.annotation = false;
    }

    /// Adds a word to the pending documentation comment.
    fn doc_push(&mut self, w: &String)
        ensures
            final(self)@ == (AstView { doc_tokens: old(self)@.doc_tokens.push(doc_word(w@)), annotation: false, ..old(self)@ }),
            final(self).wf() == old(self).wf(),
    {
        let ghost d0 = self.doc_tokens@;
        let t = if jdoc_keyword(w) {
            JdocToken::Keyword(w.clone())
        } else {
            JdocToken::Symbol(w.clone())
        };
        self.doc_tokens.push(t);
        self.annotation = false;
        assert(jdoc_tokens_view(self.doc_tokens@) =~= jdoc_tokens_view(d0).push(doc_word(w@)));
    }

    /// Adds a word to the block comment's text.
    fn license_push(&mut self, w: &String)
        ensures
            final(self)@ == (AstView { license: old(self)@.license.push(w@), annotation: false, ..old(self)@ }),
            final(self).wf() == old(self).wf(),
    {
        let ghost l0 = self.license@;
        self.license.push(w.clone());
        self.annotation = false;
        assert(words_of(self.license@) =~= words_of(l0).push(w@));
    }

    /// Handles a word read as code.
    fn code_symbol(&mut self, w: &String)
        ensures
            final(self)@ == code_symbol(old(self)@, w@),
            final(self).wf() == old(self).wf(),
    {
        if is_text(w, "/**") {
            self.mode = Mode::Doc;
            self.annotation = false;
        } else if is_text(w, "*/") {
            self.annotation = false;
        } else if has_text(w.as_str(), "//") {
            self.mode = Mode::LineComment;
            self.annotation = false;
        } else if is_text(w, "/*") {
            self.mode = Mode::BlockComment;
            self.license = Vec::new();
            self.annotation = false;
            assert(words_of(self.license@) =~= Seq::empty());
        } else if has_text(w.as_str(), "@") {
            self.annotation = true;
        } else {
            let ghost s0 = self.symbols@;
            self.symbols.push(w.clone());
            self.annotation = false;
            assert(words_of(self.symbols@) =~= words_of(s0).push(w@));
        }
    }

    /// The builder's step on one token.
    #[verifier::rlimit(100)]
    fn step(&mut self, t: &Token)
        requires
            old(self).wf(),
        ensures
            final(self)@ == ast_step(old(self)@, t@),
            final(self).wf(),
    {
        if self.ignore {
            match t {
                Token::ParamEnd => self.ignore = false,
                _ => {},
            }
            return;
        }
        match t {
            Token::LineNumber(n) => {
                self.line = *n;
                if self.mode == Mode::LineComment {
                    self.mode = Mode::Code;
                }
            },
            Token::Sign(line) => {
                let starts = self.start_sig.is_none() && (self.symbols.len() > 0
                    || self.gram_parts.len() > 0);
                let pm = self.sig_methods;
                let pv = self.sig_vars;
                self.stamp(pm, pv, line);
                if starts {
                    self.start_sig = Some(line.clone());
                }
            },
            Token::Keyword(k) => match self.mode {
                Mode::Code => self.code_keyword(k),
                Mode::Doc => self.doc_push(k),
                Mode::BlockComment => self.license_push(k),
                Mode::LineComment => self.annotation = false,
            },
            Token::Symbol(w) => match self.mode {
                Mode::Code => self.code_symbol(w),
                Mode::Doc => {
                    if is_text(w, "*/") {
                        self.jdoc = get_doc(&self.doc_tokens);
                        self.doc_tokens = Vec::new();
                        self.gram_parts = Vec::new();
                        self.parse_state = ParseState::Other;
                        self.mode = Mode::Code;
                        self.annotation = false;
                        assert(jdoc_tokens_view(self.doc_tokens@) =~= Seq::empty());
                        assert(streams_view(self.gram_parts@) =~= Seq::empty());
                    } else {
                        self.doc_push(w);
                    }
                },
                Mode::BlockComment => {
                    if is_text(w, "*/") {
                        self.mode = Mode::Code;
                        self.annotation = false;
                    } else if is_text(w, "*") {
                        self.annotation = false;
                    } else {
                        self.license_push(w);
                    }
                },
                Mode::LineComment => {
                    if is_text(w, "*/") {
                        self.mode = Mode::Code;
                    }
                    self.annotation = false;
                },
            },
            Token::Join => {
                if self.mode == Mode::Code {
                    self.flush();
                }
            },
            Token::ParamStart => {
                if self.mode == Mode::Code {
                    if self.annotation {
                        self.ignore = true;
                        self.annotation = false;
                        self.symbols = Vec::new();
                        assert(words_of(self.symbols@) =~= Seq::empty());
                    } else {
                        self.flush();
                    }
                }
            },
            Token::ParamEnd => {
                if self.mode == Mode::Code {
                    if self.symbols.len() >= 2 {
                        self.flush();
                    } else {
                        self.symbols = Vec::new();
                        assert(words_of(self.symbols@) =~= Seq::empty());
                    }
                }
            },
            Token::ExpressionEnd(e) => {
                if self.mode == Mode::Code {
                    self.end(*e);
                }
            },
        }
    }

    /// The declaration at the end of the tokens.
    fn finish(self) -> (r: ObjectType)
        ensures
            self.object.state == ObjectState::Interface <==> r is Interface,
            self.object.state == ObjectState::Enumeration <==> r is Enumeration,
            declared_as(r, final_object(self@)),
            self.object.state == ObjectState::Unset && self@.object == empty_object() ==> is_empty_class(r),
    {
        let mut b = self;
        let ghost v = b@;
        proof {
            if v.object == empty_object() {
                assert(words_of(b.object.interfaces@).len() == b.object.interfaces@.len());
                assert(crate::model::exceptions_view(b.object.exceptions@).len() == b.object.exceptions@.len());
                assert(words_of(b.object.dependencies@).len() == b.object.dependencies@.len());
                assert(words_of(b.object.modifiers@).len() == b.object.modifiers@.len());
                assert(members_view(b.object.variables@).len() == b.object.variables@.len());
                assert(methods_view(b.object.methods@).len() == b.object.methods@.len());
                assert(enum_fields_view(b.object.fields@).len() == b.object.fields@.len());
            }
        }
        if b.object.state == ObjectState::Enumeration && b.object.fields.len() == 0 {
            b.flush();
            let f = get_enum_fields(&b.gram_parts);
            b.object.fields = f;
            assert(enum_fields_view(b.object.fields@) =~= final_object(v).fields);
        }
        b.object.finish()
    }
}

/// Whether `r` is the declaration that the builder state `b` holds at the end of the
/// tokens: of the kind that the type keyword fixed, a class where there was none,
/// and an empty class where nothing was recorded.
pub open spec fn built_from(b: AstView, r: ObjectType) -> bool {
    &&& b.object.state == ObjectState::Interface <==> r is Interface
    &&& b.object.state == ObjectState::Enumeration <==> r is Enumeration
    &&& declared_as(r, final_object(b))
    &&& b.object == empty_object() ==> is_empty_class(r)
}

/// Builds the one declaration of a file from its tokens.
pub fn construct_ast(tokens: Vec<Token>) -> (r: ObjectType)
    ensures
        built_from(ast_run(tokens_view(tokens@)), r),
{
    let mut b = Builder::new();
    let mut i: usize = 0;
    assert(tokens_view(tokens@).subrange(0, 0) =~= Seq::empty());
    while i < tokens.len()
        invariant
            0 <= i <= tokens@.len(),
            b.wf(),
            b@ == ast_run(tokens_view(tokens@).subrange(0, i as int)),
        decreases tokens@.len() - i,
    {
        let ghost now = tokens_view(tokens@).subrange(0, i + 1 as int);
        assert(now.drop_last() =~= tokens_view(tokens@).subrange(0, i as int));
        b.step(&tokens[i]);
        i = i + 1;
    }
    assert(tokens_view(tokens@).subrange(0, tokens@.len() as int) =~= tokens_view(tokens@));
    b.finish()
}

/// Parses the text of one Java source file into its one declaration.
pub fn parse_source(content: &String) -> (r: ObjectType)
    requires
        content@.len() < i64::MAX,
        content@.len() < usize::MAX,
    ensures
        built_from(ast_run(lexed(content@)), r),
{
    let tokens = lex_contents(content);
    construct_ast(tokens)
}

// ---------------------------------------------------------------- laws

/// Whether `t`, read as code, is layout or opens or closes a comment.
pub open spec fn layout_or_comment_mark(t: TokenView) -> bool {
    match t {
        TokenView::LineNumber(_) => true,
        TokenView::Sign(_) => true,
        TokenView::Symbol(w) => w == "/**"@ || w == "/*"@ || w == "*/"@ || (w.len() >= 2 && w[0] == '/'
            && w[1] == '/'),
        _ => false,
    }
}

/// Whether the tokens hold only layout and comments: every token read as code is
/// layout or a comment mark.
pub open spec fn comment_only(ts: Seq<TokenView>) -> bool {
    forall|i: int|
        0 <= i < ts.len() && (#[trigger] ast_run(ts.take(i))).mode == Mode::Code
            ==> layout_or_comment_mark(ts[i])
}

pub open spec fn untouched(b: AstView) -> bool {
    &&& b.object == empty_object()
    &&& !b.sig_header
    &&& b.start_sig is None
    &&& b.symbols.len() == 0
    &&& b.gram.len() == 0
    &&& !b.ignore
    &&& !b.annotation
    &&& !b.in_object
    &&& !b.header_done
    &&& !b.nested
}

/// Tokens of layout and comments alone record nothing: no type keyword is read, and
/// the declaration stays empty, so the file yields an empty class.
pub proof fn comments_record_nothing(ts: Seq<TokenView>)
    requires
        comment_only(ts),
    ensures
        untouched(ast_run(ts)),
        ast_run(ts).object == empty_object(),
    decreases ts.len(),
{
    if ts.len() > 0 {
        let pre = ts.drop_last();
        assert forall|i: int|
            0 <= i < pre.len() && (#[trigger] ast_run(pre.take(i))).mode == Mode::Code
                implies layout_or_comment_mark(pre[i]) by {
            assert(pre.take(i) =~= ts.take(i));
            assert(ts[i] == pre[i]);
        }
        comments_record_nothing(pre);
        let b = ast_run(pre);
        assert(ts.take(pre.len() as int) =~= pre);
        let t = ts.last();
        if let TokenView::Sign(s) = t {
            assert(signed(b.object, b.sig_methods, b.sig_vars, b.sig_header, s).methods =~= Seq::empty());
            assert(signed(b.object, b.sig_methods, b.sig_vars, b.sig_header, s).variables =~= Seq::empty());
        }
        if b.mode == Mode::Code {
            assert(layout_or_comment_mark(t));
            if let TokenView::Symbol(w) = t {
                if w.len() >= 2 && w[0] == '/' && w[1] == '/' {
                    reveal_strlit("//");
                    assert("//"@.len() == 2);
                    assert(w.subrange(0, 0 + "//"@.len() as int) =~= "//"@);
                    assert(opens_line_comment(w));
                }
            }
        }
    }
}

/// Whether every state reached keeps the selected statement handler at `Other`
/// once the header has been read.
pub open spec fn header_settled(b: AstView) -> bool {
    b.header_done ==> b.parse_state == ParseState::Other
}

proof fn settled_run(ts: Seq<TokenView>)
    ensures
        header_settled(ast_run(ts)),
    decreases ts.len(),
{
    if ts.len() > 0 {
        settled_run(ts.drop_last());
    }
}

/// What the header of a declaration records.
pub open spec fn same_header(a: ObjectView, b: ObjectView) -> bool {
    &&& a.state == b.state
    &&& a.name == b.name
    &&& a.parent == b.parent
    &&& a.interfaces == b.interfaces
    &&& a.access == b.access
    &&& a.modifiers == b.modifiers
}

/// Once the declaration's header has been read, nothing that follows changes it: a
/// nested type's header is not read into the declaration, and no second
/// declaration is started.
#[verifier::rlimit(100)]
pub proof fn header_is_final(pre: Seq<TokenView>, rest: Seq<TokenView>)
    requires
        ast_run(pre).header_done,
    ensures
        ast_run(pre + rest).header_done,
        same_header(ast_run(pre + rest).object, ast_run(pre).object),
    decreases rest.len(),
{
    if rest.len() > 0 {
        header_is_final(pre, rest.drop_last());
        assert((pre + rest).drop_last() =~= pre + rest.drop_last());
        settled_run(pre + rest.drop_last());
    } else {
        assert(pre + rest =~= pre);
    }
}

} // verus!
