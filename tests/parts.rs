use javadoc::doc::get_doc;
use javadoc::grammar::{JdocToken, Stream};
use javadoc::handlers::{get_method, get_object, get_var};
use javadoc::model::{Doc, Method, Object, ObjectState, Param};
use javadoc::reconcile::get_enum_fields;
use javadoc::text::decimal_string;
use javadoc::{match_params, ApplicationDoc, Package};

fn s(x: &str) -> String {
    x.to_string()
}

fn kw(x: &str) -> JdocToken {
    JdocToken::Keyword(s(x))
}

fn sym(x: &str) -> JdocToken {
    JdocToken::Symbol(s(x))
}

fn param(t: &str, n: &str, d: &str) -> Param {
    Param { var_type: s(t), name: s(n), desc: s(d) }
}

fn method_with(params: Vec<Param>) -> Method {
    Method {
        name: s("m"),
        return_type: s("void"),
        parameters: params,
        access: s(""),
        modifiers: vec![],
        exceptions: vec![],
        description: s(""),
        line: 1,
        signature: s(""),
    }
}

#[test]
fn doc_fields_by_tag() {
    let d = get_doc(&vec![
        sym("*"), sym("Short"), sym("text."),
        kw("@param"), sym("x"), sym("the"), sym("x"),
        kw("@param"), sym("lonely"),
        kw("@return"), sym("a"), sym("value"),
        kw("@author"), sym("Bo"),
        kw("@since"), sym("1.2"),
        kw("@deprecated"), sym("use"), sym("y"),
        kw("@see"), sym("Other"),
        kw("@throws"), sym("IOError"), sym("when"), sym("bad"),
        kw("@code"), sym("ignored"),
    ]);
    assert_eq!(d.description, "Short text.");
    assert_eq!(d.params.len(), 2);
    assert_eq!(d.params[0].name, "x");
    assert_eq!(d.params[0].desc, "the x");
    assert_eq!(d.params[1].name, "lonely");
    assert_eq!(d.params[1].desc, "");
    assert_eq!(d.return_desc, "a value");
    assert_eq!(d.author, "Bo");
    assert_eq!(d.version, "1.2");
    assert_eq!(d.deprecated, "use y");
    assert_eq!(d.see, "Other");
    assert!(d.exceptions.is_empty());
}

#[test]
fn doc_last_tag_is_kept() {
    let d = get_doc(&vec![kw("@version"), sym("3")]);
    assert_eq!(d.version, "3");
    assert_eq!(d.description, "");
}

#[test]
fn reconcile_adopts_matching_descriptions() {
    let m = method_with(vec![param("int", "a", ""), param("long", "b", "")]);
    let docs = vec![param("", "z", "ghost"), param("", "a", "first"), param("", "a", "second")];
    let r = match_params(&m, &docs);
    assert_eq!(r.len(), 2);
    assert_eq!((r[0].var_type.as_str(), r[0].name.as_str(), r[0].desc.as_str()), ("int", "a", "first"));
    assert_eq!((r[1].var_type.as_str(), r[1].name.as_str(), r[1].desc.as_str()), ("long", "b", ""));
}

#[test]
fn reconcile_with_no_declared_parameters() {
    let r = match_params(&method_with(vec![]), &vec![param("", "a", "x")]);
    assert!(r.is_empty());
}

#[test]
fn enum_fields_count_identifiers_only() {
    let parts = vec![
        Stream::Access(s("public")),
        Stream::Variable(s("ONE")),
        Stream::Type(vec![s("X")]),
        Stream::Variable(s("TWO")),
    ];
    let f = get_enum_fields(&parts);
    assert_eq!(f.len(), 2);
    assert_eq!((f[0].name.as_str(), f[0].value.as_str()), ("ONE", "0"));
    assert_eq!((f[1].name.as_str(), f[1].value.as_str()), ("TWO", "1"));
}

#[test]
fn field_parts_give_type_and_name() {
    let parts = vec![
        Stream::Access(s("protected")),
        Stream::Modifier(s("volatile")),
        Stream::Type(vec![s("List<String>")]),
        Stream::Variable(s("items")),
    ];
    let m = get_var(&parts, 4, s("protected volatile List<String> items;"));
    assert_eq!(m.var_type, "List<String>");
    assert_eq!(m.name, "items");
    assert_eq!(m.access, "protected");
    assert_eq!(m.modifiers, vec![s("volatile")]);
    assert_eq!(m.line, 4);
    assert_eq!(m.signature, "protected volatile List<String> items;");
}

#[test]
fn method_parts_with_throws() {
    let parts = vec![
        Stream::Modifier(s("static")),
        Stream::Type(vec![s("java.util.Map<K,")]),
        Stream::Variable(s("build")),
        Stream::Type(vec![s("int")]),
        Stream::Variable(s("n")),
        Stream::Exception,
        Stream::Variable(s("IOException")),
    ];
    let mut doc = Doc::new();
    doc.description = s("Builds.");
    let m = get_method(&parts, &doc, 9, s("sig"));
    assert_eq!(m.name, "build");
    assert_eq!(m.return_type, "java.util.Map<K,");
    assert_eq!(m.modifiers, vec![s("static")]);
    assert_eq!(m.parameters.len(), 1);
    assert_eq!(m.parameters[0].var_type, "int");
    assert_eq!(m.parameters[0].name, "n");
    assert!(m.exceptions.is_empty());
    assert_eq!(m.description, "Builds.");
    assert_eq!(m.line, 9);
}

#[test]
fn object_header_parts() {
    let parts = vec![
        Stream::Access(s("public")),
        Stream::Modifier(s("abstract")),
        Stream::Object(s("class")),
        Stream::Variable(s("Shape")),
        Stream::Parent,
        Stream::Variable(s("Base")),
        Stream::Implement,
        Stream::Variable(s("A")),
        Stream::Variable(s("B")),
    ];
    let mut doc = Doc::new();
    doc.author = s("Cy");
    let mut ob = Object::new();
    ob.state = ObjectState::Class;
    get_object(&parts, &doc, s("public abstract class Shape"), &mut ob);
    assert_eq!(ob.name, "Shape");
    assert_eq!(ob.parent, "Base");
    assert_eq!(ob.interfaces, vec![s("A"), s("B")]);
    assert_eq!(ob.access, "public");
    assert_eq!(ob.modifiers, vec![s("abstract")]);
    assert_eq!(ob.author, "Cy");
    assert_eq!(ob.signature, "public abstract class Shape");
    assert_eq!(ob.state, ObjectState::Class);
}

#[test]
fn decimal_numerals() {
    assert_eq!(decimal_string(0), "0");
    assert_eq!(decimal_string(7), "7");
    assert_eq!(decimal_string(42), "42");
    assert_eq!(decimal_string(1905), "1905");
}

#[test]
fn package_add_class_appends() {
    let mut p = Package { name: s("a.b"), package_path: s("a/b"), members: vec![s("X")] };
    p.add_class(s("Y"));
    assert_eq!(p.members, vec![s("X"), s("Y")]);
    assert_eq!(p.name, "a.b");
}

#[test]
fn application_doc_starts_empty() {
    let a = ApplicationDoc::new();
    assert_eq!((a.file_num, a.class_num, a.interface_num, a.enum_num), (0, 0, 0, 0));
    assert!(a.packages.is_empty());
}

#[test]
fn application_doc_groups_by_package() {
    let mut a = ApplicationDoc::new();
    a.add_package_class(s("p"), s("src/p"), s("A"));
    a.add_package_class(s("q"), s("src/q"), s("B"));
    a.add_package_class(s("p"), s("elsewhere"), s("C"));
    assert_eq!(a.packages.len(), 2);
    assert_eq!(a.packages[0].name, "p");
    assert_eq!(a.packages[0].package_path, "src/p");
    assert_eq!(a.packages[0].members, vec![s("A"), s("C")]);
    assert_eq!(a.packages[1].members, vec![s("B")]);
}

#[test]
fn field_type_is_whole_first_part() {
    let parts = vec![Stream::Type(vec![s("a"), s("b")]), Stream::Variable(s("c"))];
    let m = get_var(&parts, 1, s(""));
    assert_eq!(m.var_type, "a b");
    assert_eq!(m.name, "c");
}

#[test]
fn field_access_after_name_is_ignored() {
    let parts = vec![
        Stream::Type(vec![s("int")]),
        Stream::Variable(s("x")),
        Stream::Variable(s("=")),
        Stream::Access(s("public")),
    ];
    let m = get_var(&parts, 1, s(""));
    assert_eq!(m.var_type, "int");
    assert_eq!(m.name, "x");
    assert_eq!(m.access, "");
}
