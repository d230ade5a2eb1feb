use javadoc::ast::parse_source;
use javadoc::model::ObjectType;

fn src(s: &str) -> String {
    s.to_string()
}

#[test]
fn documented_method_round_trip() {
    let text = src(
        "package com.example;\n/**\n * Adds two numbers.\n * @param a first value\n * @param b second value\n * @return the sum\n */\npublic int add(int a, int b) {\n    return a + b;\n}\n",
    );
    match parse_source(&text) {
        ObjectType::Class(c) => {
            assert_eq!(c.package_name, "com.example");
            assert_eq!(c.methods.len(), 1);
            let m = &c.methods[0];
            assert_eq!(m.name, "add");
            assert_eq!(m.access, "public");
            assert_eq!(m.return_type, "the sum");
            assert_eq!(m.description, "Adds two numbers.");
            assert_eq!(m.line, 8);
            assert_eq!(m.parameters.len(), 2);
            assert_eq!(m.parameters[0].name, "a");
            assert_eq!(m.parameters[0].var_type, "int");
            assert_eq!(m.parameters[0].desc, "first value");
            assert_eq!(m.parameters[1].name, "b");
            assert_eq!(m.parameters[1].var_type, "int");
            assert_eq!(m.parameters[1].desc, "second value");
        }
        _ => panic!("expected a class"),
    }
}

#[test]
fn constant_field_drops_initializer() {
    let text = src("private static final int MAX = 10;\n");
    match parse_source(&text) {
        ObjectType::Class(c) => {
            assert_eq!(c.variables.len(), 1);
            let v = &c.variables[0];
            assert_eq!(v.var_type, "int");
            assert_eq!(v.name, "MAX");
            assert_eq!(v.access, "private");
            assert_eq!(v.modifiers, vec!["static".to_string(), "final".to_string()]);
            assert_eq!(v.line, 1);
        }
        _ => panic!("expected a class"),
    }
}

#[test]
fn constant_field_in_class_body() {
    let text = src("public class Limits {\n    private static final int MAX = 10;\n}\n");
    match parse_source(&text) {
        ObjectType::Class(c) => {
            assert_eq!(c.name, "Limits");
            assert_eq!(c.access, "public");
            assert_eq!(c.variables.len(), 1);
            assert_eq!(c.variables[0].var_type, "int");
            assert_eq!(c.variables[0].name, "MAX");
            assert_eq!(c.variables[0].access, "private");
            assert_eq!(c.variables[0].modifiers, vec!["static".to_string(), "final".to_string()]);
        }
        _ => panic!("expected a class"),
    }
}

#[test]
fn field_with_initializer_joined_to_name() {
    let text = src("class A {\n    String label=\"x\";\n}\n");
    match parse_source(&text) {
        ObjectType::Class(c) => {
            assert_eq!(c.variables.len(), 1);
            assert_eq!(c.variables[0].var_type, "String");
            assert_eq!(c.variables[0].name, "label");
        }
        _ => panic!("expected a class"),
    }
}

#[test]
fn enum_values_follow_declaration_order() {
    let text = src("public enum Color {\n    RED, GREEN, BLUE\n}\n");
    match parse_source(&text) {
        ObjectType::Enumeration(e) => {
            assert_eq!(e.name, "Color");
            let names: Vec<&str> = e.fields.iter().map(|f| f.name.as_str()).collect();
            let values: Vec<&str> = e.fields.iter().map(|f| f.value.as_str()).collect();
            assert_eq!(names, vec!["RED", "GREEN", "BLUE"]);
            assert_eq!(values, vec!["0", "1", "2"]);
        }
        _ => panic!("expected an enumeration"),
    }
}

#[test]
fn enum_list_ended_by_semicolon() {
    let text = src("enum Size {\n    SMALL, LARGE;\n    int weight() {\n        return 1;\n    }\n}\n");
    match parse_source(&text) {
        ObjectType::Enumeration(e) => {
            assert_eq!(e.fields.len(), 2);
            assert_eq!(e.fields[0].name, "SMALL");
            assert_eq!(e.fields[0].value, "0");
            assert_eq!(e.fields[1].name, "LARGE");
            assert_eq!(e.fields[1].value, "1");
            assert_eq!(e.methods.len(), 1);
            assert_eq!(e.methods[0].name, "weight");
        }
        _ => panic!("expected an enumeration"),
    }
}

#[test]
fn comments_only_give_empty_class() {
    let text = src("// just a note; with { braces }\n/* block\n * text ( ) ;\n */\n\n/** doc { } */\n");
    match parse_source(&text) {
        ObjectType::Class(c) => {
            assert_eq!(c.name, "");
            assert_eq!(c.package_name, "");
            assert!(c.methods.is_empty());
            assert!(c.variables.is_empty());
            assert!(c.interfaces.is_empty());
            assert!(c.modifiers.is_empty());
        }
        _ => panic!("expected a class"),
    }
}

#[test]
fn empty_source_gives_empty_class() {
    match parse_source(&src("")) {
        ObjectType::Class(c) => {
            assert_eq!(c.name, "");
            assert!(c.methods.is_empty());
            assert!(c.variables.is_empty());
        }
        _ => panic!("expected a class"),
    }
}

#[test]
fn line_comment_ends_at_newline() {
    let text = src("// header note\npublic class Shown {\n}\n");
    match parse_source(&text) {
        ObjectType::Class(c) => assert_eq!(c.name, "Shown"),
        _ => panic!("expected a class"),
    }
}

#[test]
fn url_in_code_opens_line_comment() {
    let text = src("class A {\n    int x; see//example.org\n    int y;\n}\n");
    match parse_source(&text) {
        ObjectType::Class(c) => {
            let names: Vec<&str> = c.variables.iter().map(|v| v.name.as_str()).collect();
            assert_eq!(names, vec!["x", "y"]);
        }
        _ => panic!("expected a class"),
    }
}

#[test]
fn parameter_descriptions_by_name() {
    let text = src(
        "class A {\n    /**\n     * Does it.\n     * @param a the a\n     * @param z unused\n     */\n    public void run(int a, String b) {\n        a = 1;\n    }\n}\n",
    );
    match parse_source(&text) {
        ObjectType::Class(c) => {
            assert_eq!(c.methods.len(), 1);
            let m = &c.methods[0];
            assert_eq!(m.name, "run");
            assert_eq!(m.return_type, "void");
            assert_eq!(m.description, "Does it.");
            assert_eq!(m.parameters.len(), 2);
            assert_eq!(m.parameters[0].name, "a");
            assert_eq!(m.parameters[0].desc, "the a");
            assert_eq!(m.parameters[1].name, "b");
            assert_eq!(m.parameters[1].var_type, "String");
            assert_eq!(m.parameters[1].desc, "");
        }
        _ => panic!("expected a class"),
    }
}

#[test]
fn nested_type_is_not_modeled() {
    let text = src(
        "public class Outer extends Base implements Runnable, Cloneable {\n    static class Inner extends Other {\n        int hidden;\n        void h() {\n        }\n    }\n    int shown;\n}\n",
    );
    match parse_source(&text) {
        ObjectType::Class(c) => {
            assert_eq!(c.name, "Outer");
            assert_eq!(c.parent, "Base");
            assert_eq!(c.interfaces, vec!["Runnable".to_string(), "Cloneable".to_string()]);
            assert!(c.methods.is_empty());
            assert_eq!(c.variables.len(), 1);
            assert_eq!(c.variables[0].name, "shown");
        }
        _ => panic!("expected a class"),
    }
}

#[test]
fn interface_methods_end_with_semicolon() {
    let text = src(
        "package p.q;\nimport java.util.List;\n/**\n * A shape.\n * @author Ann\n * @version 2\n */\npublic interface Shape {\n    double area(int scale) throws Bad;\n}\n",
    );
    match parse_source(&text) {
        ObjectType::Interface(i) => {
            assert_eq!(i.name, "Shape");
            assert_eq!(i.package_name, "p.q");
            assert_eq!(i.dependencies, vec!["java.util.List".to_string()]);
            assert_eq!(i.description, "A shape.");
            assert_eq!(i.author, "Ann");
            assert_eq!(i.version, "2");
            assert_eq!(i.methods.len(), 1);
            assert_eq!(i.methods[0].name, "area");
            assert_eq!(i.methods[0].return_type, "double");
            assert_eq!(i.methods[0].parameters.len(), 1);
            assert_eq!(i.methods[0].parameters[0].var_type, "int");
            assert_eq!(i.methods[0].parameters[0].name, "scale");
        }
        _ => panic!("expected an interface"),
    }
}

#[test]
fn annotation_arguments_are_skipped() {
    let text = src("class A {\n    @SuppressWarnings(\"unused, other\")\n    private int count;\n}\n");
    match parse_source(&text) {
        ObjectType::Class(c) => {
            assert_eq!(c.variables.len(), 1);
            assert_eq!(c.variables[0].var_type, "int");
            assert_eq!(c.variables[0].name, "count");
            assert_eq!(c.variables[0].access, "private");
        }
        _ => panic!("expected a class"),
    }
}

#[test]
fn license_comment_before_package() {
    let text = src("/* Copyright Someone */\npackage a.b;\nclass C {\n}\n");
    match parse_source(&text) {
        ObjectType::Class(c) => {
            assert_eq!(c.license, "Copyright Someone");
            assert_eq!(c.package_name, "a.b");
            assert_eq!(c.name, "C");
        }
        _ => panic!("expected a class"),
    }
}

#[test]
fn signature_is_own_line() {
    let text = src("interface Shape {\n    String label();\n    int size = 3;\n}\n");
    match parse_source(&text) {
        ObjectType::Interface(i) => {
            assert_eq!(i.name, "Shape");
            assert_eq!(i.signature, "interface Shape {");
            assert_eq!(i.methods.len(), 2);
            assert_eq!(i.methods[0].name, "label");
            assert_eq!(i.methods[0].return_type, "String");
            assert_eq!(i.methods[0].line, 2);
            assert_eq!(i.methods[0].signature, "String label();");
            assert_eq!(i.methods[1].signature, "int size = 3;");
        }
        _ => panic!("expected an interface"),
    }
}

#[test]
fn field_signature_is_own_line() {
    let text = src("class A {\n    /** doc */\n    private long total;\n    void run() {\n    }\n}\n");
    match parse_source(&text) {
        ObjectType::Class(c) => {
            assert_eq!(c.signature, "class A {");
            assert_eq!(c.variables[0].signature, "private long total;");
            assert_eq!(c.methods[0].signature, "void run() {");
        }
        _ => panic!("expected a class"),
    }
}

#[test]
fn field_type_keeps_all_its_words() {
    let text = src("class A {\n    int [] arr;\n    int a, b = 5;\n    int [] xs = new int[2];\n}\n");
    match parse_source(&text) {
        ObjectType::Class(c) => {
            assert_eq!(c.variables.len(), 3);
            assert_eq!((c.variables[0].var_type.as_str(), c.variables[0].name.as_str()), ("int []", "arr"));
            assert_eq!((c.variables[1].var_type.as_str(), c.variables[1].name.as_str()), ("int", "a"));
            assert_eq!((c.variables[2].var_type.as_str(), c.variables[2].name.as_str()), ("int []", "xs"));
        }
        _ => panic!("expected a class"),
    }
}

#[test]
fn signature_is_line_where_statement_begins() {
    let text = src("class A {\n    public int add(int a,\n            int b) {\n    }\n    private long\n        total;\n}\n");
    match parse_source(&text) {
        ObjectType::Class(c) => {
            assert_eq!(c.methods[0].name, "add");
            assert_eq!(c.methods[0].signature, "public int add(int a,");
            assert_eq!(c.variables[0].name, "total");
            assert_eq!(c.variables[0].signature, "private long");
        }
        _ => panic!("expected a class"),
    }
}

#[test]
fn last_line_without_newline_is_signed() {
    match parse_source(&src("int x;")) {
        ObjectType::Class(c) => {
            assert_eq!(c.variables[0].name, "x");
            assert_eq!(c.variables[0].signature, "int x;");
        }
        _ => panic!("expected a class"),
    }
}

#[test]
fn enum_constants_kept_after_later_statements() {
    let text = src("enum E {\n    A, B;\n    private int x;\n}\n");
    match parse_source(&text) {
        ObjectType::Enumeration(e) => {
            assert_eq!(e.fields.len(), 2);
            assert_eq!((e.fields[0].name.as_str(), e.fields[0].value.as_str()), ("A", "0"));
            assert_eq!((e.fields[1].name.as_str(), e.fields[1].value.as_str()), ("B", "1"));
            assert_eq!(e.variables.len(), 1);
            assert_eq!(e.variables[0].name, "x");
            assert_eq!(e.variables[0].access, "private");
        }
        _ => panic!("expected an enumeration"),
    }
}

#[test]
fn modifiers_after_initializer_are_dropped() {
    let text = src("class A {\n    IntUnaryOperator f = (final int a) -> a + 1;\n}\n");
    match parse_source(&text) {
        ObjectType::Class(c) => {
            assert_eq!(c.variables.len(), 1);
            assert_eq!(c.variables[0].var_type, "IntUnaryOperator");
            assert_eq!(c.variables[0].name, "f");
            assert!(c.variables[0].modifiers.is_empty());
            assert_eq!(c.variables[0].access, "");
        }
        _ => panic!("expected a class"),
    }
}
