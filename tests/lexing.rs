use javadoc::grammar::{Terminator, Token};
use javadoc::lex_contents;

fn words(ts: &[Token]) -> Vec<String> {
    ts.iter()
        .filter_map(|t| match t {
            Token::Keyword(w) | Token::Symbol(w) => Some(w.clone()),
            _ => None,
        })
        .collect()
}

#[test]
fn lex_simple_statement() {
    let ts = lex_contents(&"import a.B;\n".to_string());
    assert_eq!(ts.len(), 6);
    assert!(matches!(&ts[0], Token::LineNumber(1)));
    assert!(matches!(&ts[1], Token::Keyword(w) if w == "import"));
    assert!(matches!(&ts[2], Token::Symbol(w) if w == "a.B"));
    assert!(matches!(&ts[3], Token::ExpressionEnd(Terminator::Semicolon)));
    assert!(matches!(&ts[4], Token::LineNumber(2)));
    assert!(matches!(&ts[5], Token::Sign(s) if s == "import a.B;"));
}

#[test]
fn lex_sign_is_trimmed() {
    let ts = lex_contents(&"   int x;   \n".to_string());
    assert!(matches!(ts.last(), Some(Token::Sign(s)) if s == "int x;"));
}

#[test]
fn lex_punctuation_tokens() {
    let ts = lex_contents(&"f(a, b) {".to_string());
    assert!(matches!(&ts[1], Token::Symbol(w) if w == "f"));
    assert!(matches!(&ts[2], Token::ParamStart));
    assert!(matches!(&ts[4], Token::Join));
    assert!(matches!(&ts[6], Token::ParamEnd));
    assert!(matches!(&ts[7], Token::ExpressionEnd(Terminator::OpenBrace)));
}

#[test]
fn lex_jdoc_and_annotation_keywords() {
    let ts = lex_contents(&"@param @Autowired @Other x\n".to_string());
    assert!(matches!(&ts[1], Token::Keyword(w) if w == "@param"));
    assert!(matches!(&ts[2], Token::Keyword(w) if w == "@Autowired"));
    assert!(matches!(&ts[3], Token::Symbol(w) if w == "@Other"));
}

#[test]
fn method_body_is_not_lexed() {
    let ts = lex_contents(
        &"class A {\n    void f() {\n        int secret = 1;\n        if (x) { y(); }\n    }\n    int after;\n}\n".to_string(),
    );
    let ws = words(&ts);
    assert!(!ws.contains(&"secret".to_string()));
    assert!(!ws.contains(&"y".to_string()));
    assert!(ws.contains(&"after".to_string()));
    let lines = ts.iter().filter(|t| matches!(t, Token::LineNumber(_))).count();
    assert_eq!(lines, 8);
}

#[test]
fn last_line_without_newline_is_kept() {
    let ts = lex_contents(&"int  abc ".to_string());
    assert_eq!(ts.len(), 4);
    assert!(matches!(&ts[2], Token::Symbol(w) if w == "abc"));
    assert!(matches!(&ts[3], Token::Sign(s) if s == "int  abc"));
    let ts = lex_contents(&"xyz".to_string());
    assert!(matches!(&ts[1], Token::Symbol(w) if w == "xyz"));
    assert!(matches!(&ts[2], Token::Sign(s) if s == "xyz"));
}
