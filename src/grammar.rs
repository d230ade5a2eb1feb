//! Tokens of Java source, the grammar parts that statements are classified into,
//! and the keyword sets that the lexer and the parser share.

use vstd::prelude::*;
use crate::text::{is_text, words_of};

verus! {

/// Which statement terminator ended a statement.
#[derive(Clone, Copy, Debug, PartialEq, Eq, Structural)]
pub enum Terminator {
    /// `;`
    Semicolon,
    /// `{`
    OpenBrace,
}

/// One unit of lexer output.
#[derive(Clone, Debug)]
pub enum Token {
    Keyword(String),
    Symbol(String),
    /// `,`
    Join,
    /// `(`
    ParamStart,
    /// `)`
    ParamEnd,
    ExpressionEnd(Terminator),
    /// The number of the physical line that begins here.
    LineNumber(usize),
    /// The trimmed text of the physical line that just ended.
    Sign(String),
}

/// A token as plain values.
pub enum TokenView {
    Keyword(Seq<char>),
    Symbol(Seq<char>),
    Join,
    ParamStart,
    ParamEnd,
    ExpressionEnd(Terminator),
    LineNumber(nat),
    Sign(Seq<char>),
}

impl View for Token {
    type V = TokenView;

    open spec fn view(&self) -> TokenView {
        match self {
            Token::Keyword(w) => TokenView::Keyword(w@),
            Token::Symbol(w) => TokenView::Symbol(w@),
            Token::Join => TokenView::Join,
            Token::ParamStart => TokenView::ParamStart,
            Token::ParamEnd => TokenView::ParamEnd,
            Token::ExpressionEnd(t) => TokenView::ExpressionEnd(*t),
            Token::LineNumber(n) => TokenView::LineNumber(*n as nat),
            Token::Sign(s) => TokenView::Sign(s@),
        }
    }
}

pub open spec fn tokens_view(s: Seq<Token>) -> Seq<TokenView> {
    s.map_values(|t: Token| t@)
}

/// A token of a documentation comment.
#[derive(Clone, Debug)]
pub enum JdocToken {
    /// A documentation tag such as `@param`.
    Keyword(String),
    /// A word of the tag's text.
    Symbol(String),
}

pub enum JdocTokenView {
    Keyword(Seq<char>),
    Symbol(Seq<char>),
}

impl View for JdocToken {
    type V = JdocTokenView;

    open spec fn view(&self) -> JdocTokenView {
        match self {
            JdocToken::Keyword(w) => JdocTokenView::Keyword(w@),
            JdocToken::Symbol(w) => JdocTokenView::Symbol(w@),
        }
    }
}

pub open spec fn jdoc_tokens_view(s: Seq<JdocToken>) -> Seq<JdocTokenView> {
    s.map_values(|t: JdocToken| t@)
}

/// A grammar part of one statement.
#[derive(Clone, Debug)]
pub enum Stream {
    /// The words before the last one of a word group.
    Type(Vec<String>),
    /// An identifier: the last word of a word group.
    Variable(String),
    /// The keyword `class`, `interface` or `enum`.
    Object(String),
    Access(String),
    Modifier(String),
    /// `throws` was seen.
    Exception,
    /// `implements` was seen.
    Implement,
    /// `extends` was seen.
    Parent,
    /// `import` was seen.
    Import,
    /// `package` was seen.
    Package,
}

/// A grammar part as plain values.
pub enum StreamView {
    Type(Seq<Seq<char>>),
    Variable(Seq<char>),
    Object(Seq<char>),
    Access(Seq<char>),
    Modifier(Seq<char>),
    Exception,
    Implement,
    Parent,
    Import,
    Package,
}

impl View for Stream {
    type V = StreamView;

    open spec fn view(&self) -> StreamView {
        match self {
            Stream::Type(ws) => StreamView::Type(words_of(ws@)),
            Stream::Variable(w) => StreamView::Variable(w@),
            Stream::Object(w) => StreamView::Object(w@),
            Stream::Access(w) => StreamView::Access(w@),
            Stream::Modifier(w) => StreamView::Modifier(w@),
            Stream::Exception => StreamView::Exception,
            Stream::Implement => StreamView::Implement,
            Stream::Parent => StreamView::Parent,
            Stream::Import => StreamView::Import,
            Stream::Package => StreamView::Package,
        }
    }
}

pub open spec fn streams_view(s: Seq<Stream>) -> Seq<StreamView> {
    s.map_values(|p: Stream| p@)
}

/// Java words that the lexer marks as keywords.
pub open spec fn is_structural_keyword(w: Seq<char>) -> bool {
    w == "abstract"@
        || w == "class"@
        || w == "enum"@
        || w == "extends"@
        || w == "final"@
        || w == "implements"@
        || w == "import"@
        || w == "interface"@
        || w == "native"@
        || w == "package"@
        || w == "private"@
        || w == "protected"@
        || w == "public"@
        || w == "static"@
        || w == "strictfp"@
        || w == "synchronized"@
        || w == "throws"@
        || w == "transient"@
        || w == "volatile"@
}

/// The documentation tags.
pub open spec fn is_jdoc_keyword(w: Seq<char>) -> bool {
    w == "@return"@
        || w == "@param"@
        || w == "@author"@
        || w == "@code"@
        || w == "@deprecated"@
        || w == "@docRoot"@
        || w == "@exception"@
        || w == "@inheritDoc"@
        || w == "@link"@
        || w == "@linkplain"@
        || w == "@literal"@
        || w == "@see"@
        || w == "@throws"@
        || w == "@since"@
        || w == "@serialData"@
        || w == "@serialField"@
        || w == "@value"@
        || w == "@version"@
}

/// Annotations that are marked as keywords and otherwise ignored.
pub open spec fn is_annotation_keyword(w: Seq<char>) -> bool {
    w == "@Autowired"@
        || w == "@Bean"@
        || w == "@Component"@
        || w == "@Configuration"@
        || w == "@Controller"@
        || w == "@Repository"@
        || w == "@RequestMapping"@
        || w == "@Service"@
}

/// The words that the lexer marks as keywords.
pub open spec fn is_keyword(w: Seq<char>) -> bool {
    is_structural_keyword(w) || is_jdoc_keyword(w) || is_annotation_keyword(w)
}

/// The access modifiers.
pub open spec fn is_access(w: Seq<char>) -> bool {
    w == "public"@ || w == "protected"@ || w == "private"@
}

/// The non-access modifiers that declarations record.
pub open spec fn is_modifier(w: Seq<char>) -> bool {
    w == "static"@ || w == "final"@ || w == "abstract"@ || w == "synchronized"@ || w == "volatile"@
}

/// Whether `w` is a structural keyword.
pub fn structural_keyword(w: &String) -> (r: bool)
    ensures
        r == is_structural_keyword(w@),
{
    is_text(w, "abstract")
        || is_text(w, "class")
        || is_text(w, "enum")
        || is_text(w, "extends")
        || is_text(w, "final")
        || is_text(w, "implements")
        || is_text(w, "import")
        || is_text(w, "interface")
        || is_text(w, "native")
        || is_text(w, "package")
        || is_text(w, "private")
        || is_text(w, "protected")
        || is_text(w, "public")
        || is_text(w, "static")
        || is_text(w, "strictfp")
        || is_text(w, "synchronized")
        || is_text(w, "throws")
        || is_text(w, "transient")
        || is_text(w, "volatile")
}

/// Whether `w` is a documentation tag.
pub fn jdoc_keyword(w: &String) -> (r: bool)
    ensures
        r == is_jdoc_keyword(w@),
{
    is_text(w, "@return")
        || is_text(w, "@param")
        || is_text(w, "@author")
        || is_text(w, "@code")
        || is_text(w, "@deprecated")
        || is_text(w, "@docRoot")
        || is_text(w, "@exception")
        || is_text(w, "@inheritDoc")
        || is_text(w, "@link")
        || is_text(w, "@linkplain")
        || is_text(w, "@literal")
        || is_text(w, "@see")
        || is_text(w, "@throws")
        || is_text(w, "@since")
        || is_text(w, "@serialData")
        || is_text(w, "@serialField")
        || is_text(w, "@value")
        || is_text(w, "@version")
}

/// Whether `w` is an annotation marked as keyword.
pub fn annotation_keyword(w: &String) -> (r: bool)
    ensures
        r == is_annotation_keyword(w@),
{
    is_text(w, "@Autowired")
        || is_text(w, "@Bean")
        || is_text(w, "@Component")
        || is_text(w, "@Configuration")
        || is_text(w, "@Controller")
        || is_text(w, "@Repository")
        || is_text(w, "@RequestMapping")
        || is_text(w, "@Service")
}

/// Whether `w` is an access modifier.
pub fn access_word(w: &String) -> (r: bool)
    ensures
        r == is_access(w@),
{
    is_text(w, "public")
        || is_text(w, "protected")
        || is_text(w, "private")
}

/// Whether `w` is a recorded non-access modifier.
pub fn modifier_word(w: &String) -> (r: bool)
    ensures
        r == is_modifier(w@),
{
    is_text(w, "static")
        || is_text(w, "final")
        || is_text(w, "abstract")
        || is_text(w, "synchronized")
        || is_text(w, "volatile")
}

} // verus!
