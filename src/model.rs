//! The documentation model: parameters, fields, methods, documentation records and
//! the three kinds of declaration.

use vstd::prelude::*;
use crate::text::words_of;

verus! {

/// A parameter: its declared type, its name and its documented description.
#[derive(Clone, Debug)]
pub struct Param {
    pub var_type: String,
    pub name: String,
    pub desc: String,
}

pub struct ParamView {
    pub var_type: Seq<char>,
    pub name: Seq<char>,
    pub desc: Seq<char>,
}

impl View for Param {
    type V = ParamView;

    open spec fn view(&self) -> ParamView {
        ParamView { var_type: self.var_type@, name: self.name@, desc: self.desc@ }
    }
}

pub open spec fn params_view(s: Seq<Param>) -> Seq<ParamView> {
    s.map_values(|p: Param| p@)
}

/// An exception: its type and its documented description.
#[derive(Clone, Debug)]
pub struct Exception {
    pub exception_type: String,
    pub desc: String,
}

pub struct ExceptionView {
    pub exception_type: Seq<char>,
    pub desc: Seq<char>,
}

impl View for Exception {
    type V = ExceptionView;

    open spec fn view(&self) -> ExceptionView {
        ExceptionView { exception_type: self.exception_type@, desc: self.desc@ }
    }
}

pub open spec fn exceptions_view(s: Seq<Exception>) -> Seq<ExceptionView> {
    s.map_values(|e: Exception| e@)
}

/// A constant of an enumeration and its zero-based position, as a numeral.
#[derive(Clone, Debug)]
pub struct EnumField {
    pub name: String,
    pub value: String,
}

pub struct EnumFieldView {
    pub name: Seq<char>,
    pub value: Seq<char>,
}

impl View for EnumField {
    type V = EnumFieldView;

    open spec fn view(&self) -> EnumFieldView {
        EnumFieldView { name: self.name@, value: self.value@ }
    }
}

pub open spec fn enum_fields_view(s: Seq<EnumField>) -> Seq<EnumFieldView> {
    s.map_values(|f: EnumField| f@)
}

/// A field of a declaration.
#[derive(Clone, Debug)]
pub struct Member {
    pub var_type: String,
    pub name: String,
    pub access: String,
    pub modifiers: Vec<String>,
    pub line: usize,
    pub signature: String,
}

pub struct MemberView {
    pub var_type: Seq<char>,
    pub name: Seq<char>,
    pub access: Seq<char>,
    pub modifiers: Seq<Seq<char>>,
    pub line: nat,
    pub signature: Seq<char>,
}

impl View for Member {
    type V = MemberView;

    open spec fn view(&self) -> MemberView {
        MemberView {
            var_type: self.var_type@,
            name: self.name@,
            access: self.access@,
            modifiers: words_of(self.modifiers@),
            line: self.line as nat,
            signature: self.signature@,
        }
    }
}

pub open spec fn members_view(s: Seq<Member>) -> Seq<MemberView> {
    s.map_values(|m: Member| m@)
}

/// A method of a declaration.
#[derive(Clone, Debug)]
pub struct Method {
    pub name: String,
    pub return_type: String,
    pub parameters: Vec<Param>,
    pub access: String,
    pub modifiers: Vec<String>,
    pub exceptions: Vec<Exception>,
    pub description: String,
    pub line: usize,
    pub signature: String,
}

pub struct MethodView {
    pub name: Seq<char>,
    pub return_type: Seq<char>,
    pub parameters: Seq<ParamView>,
    pub access: Seq<char>,
    pub modifiers: Seq<Seq<char>>,
    pub exceptions: Seq<ExceptionView>,
    pub description: Seq<char>,
    pub line: nat,
    pub signature: Seq<char>,
}

impl View for Method {
    type V = MethodView;

    open spec fn view(&self) -> MethodView {
        MethodView {
            name: self.name@,
            return_type: self.return_type@,
            parameters: params_view(self.parameters@),
            access: self.access@,
            modifiers: words_of(self.modifiers@),
            exceptions: exceptions_view(self.exceptions@),
            description: self.description@,
            line: self.line as nat,
            signature: self.signature@,
        }
    }
}

pub open spec fn methods_view(s: Seq<Method>) -> Seq<MethodView> {
    s.map_values(|m: Method| m@)
}

impl Member {
    /// Gives the field the text of its line.
    pub fn set_signature(&mut self, s: String)
        ensures
            final(self)@ == (MemberView { signature: s@, ..old(self)@ }),
    {
        self.signature = s;
    }
}

impl Method {
    /// Gives the method the text of its line.
    pub fn set_signature(&mut self, s: String)
        ensures
            final(self)@ == (MethodView { signature: s@, ..old(self)@ }),
    {
        self.signature = s;
    }
}

/// What one documentation comment says.
#[derive(Clone, Debug)]
pub struct Doc {
    pub params: Vec<Param>,
    pub description: String,
    pub return_desc: String,
    pub author: String,
    pub version: String,
    pub exceptions: Vec<Exception>,
    pub deprecated: String,
    pub see: String,
}

impl Doc {
    /// A record with nothing documented.
    pub fn new() -> (r: Doc)
        ensures
            r.params@.len() == 0,
            r.description@.len() == 0,
            r.return_desc@.len() == 0,
            r.author@.len() == 0,
            r.version@.len() == 0,
            r.exceptions@.len() == 0,
            r.deprecated@.len() == 0,
            r.see@.len() == 0,
    {
        Doc {
            params: Vec::new(),
            description: String::new(),
            return_desc: String::new(),
            author: String::new(),
            version: String::new(),
            exceptions: Vec::new(),
            deprecated: String::new(),
            see: String::new(),
        }
    }
}

/// Which kind of declaration a file holds, fixed by its type keyword.
#[derive(Clone, Copy, Debug, PartialEq, Eq, Structural)]
pub enum ObjectState {
    Unset,
    Class,
    Interface,
    Enumeration,
}

/// The declaration of a file while it is being parsed.
#[derive(Debug)]
pub struct Object {
    pub state: ObjectState,
    pub name: String,
    pub package_name: String,
    pub parent: String,
    pub interfaces: Vec<String>,
    pub exceptions: Vec<Exception>,
    pub dependencies: Vec<String>,
    pub access: String,
    pub modifiers: Vec<String>,
    pub license: String,
    pub variables: Vec<Member>,
    pub methods: Vec<Method>,
    pub fields: Vec<EnumField>,
    pub signature: String,
    pub description: String,
    pub author: String,
    pub version: String,
}

/// A declaration under construction, as plain values.
pub struct ObjectView {
    pub state: ObjectState,
    pub name: Seq<char>,
    pub package_name: Seq<char>,
    pub parent: Seq<char>,
    pub interfaces: Seq<Seq<char>>,
    pub exceptions: Seq<ExceptionView>,
    pub dependencies: Seq<Seq<char>>,
    pub access: Seq<char>,
    pub modifiers: Seq<Seq<char>>,
    pub license: Seq<char>,
    pub variables: Seq<MemberView>,
    pub methods: Seq<MethodView>,
    pub fields: Seq<EnumFieldView>,
    pub signature: Seq<char>,
    pub description: Seq<char>,
    pub author: Seq<char>,
    pub version: Seq<char>,
}

impl View for Object {
    type V = ObjectView;

    open spec fn view(&self) -> ObjectView {
        ObjectView {
            state: self.state,
            name: self.name@,
            package_name: self.package_name@,
            parent: self.parent@,
            interfaces: words_of(self.interfaces@),
            exceptions: exceptions_view(self.exceptions@),
            dependencies: words_of(self.dependencies@),
            access: self.access@,
            modifiers: words_of(self.modifiers@),
            license: self.license@,
            variables: members_view(self.variables@),
            methods: methods_view(self.methods@),
            fields: enum_fields_view(self.fields@),
            signature: self.signature@,
            description: self.description@,
            author: self.author@,
            version: self.version@,
        }
    }
}

/// Whether nothing at all has been recorded in `o`.
pub open spec fn object_is_empty(o: Object) -> bool {
    &&& o.state == ObjectState::Unset
    &&& o.name@.len() == 0
    &&& o.package_name@.len() == 0
    &&& o.parent@.len() == 0
    &&& o.interfaces@.len() == 0
    &&& o.exceptions@.len() == 0
    &&& o.dependencies@.len() == 0
    &&& o.access@.len() == 0
    &&& o.modifiers@.len() == 0
    &&& o.license@.len() == 0
    &&& o.variables@.len() == 0
    &&& o.methods@.len() == 0
    &&& o.fields@.len() == 0
    &&& o.signature@.len() == 0
    &&& o.description@.len() == 0
    &&& o.author@.len() == 0
    &&& o.version@.len() == 0
}

impl Object {
    pub fn new() -> (r: Object)
        ensures
            object_is_empty(r),
    {
        Object {
            state: ObjectState::Unset,
            name: String::new(),
            package_name: String::new(),
            parent: String::new(),
            interfaces: Vec::new(),
            exceptions: Vec::new(),
            dependencies: Vec::new(),
            access: String::new(),
            modifiers: Vec::new(),
            license: String::new(),
            variables: Vec::new(),
            methods: Vec::new(),
            fields: Vec::new(),
            signature: String::new(),
            description: String::new(),
            author: String::new(),
            version: String::new(),
        }
    }
}

/// A parsed class.
#[derive(Debug)]
pub struct Class {
    pub name: String,
    pub package_name: String,
    pub parent: String,
    pub interfaces: Vec<String>,
    pub exceptions: Vec<Exception>,
    pub dependencies: Vec<String>,
    pub access: String,
    pub modifiers: Vec<String>,
    pub license: String,
    pub variables: Vec<Member>,
    pub methods: Vec<Method>,
    pub signature: String,
    pub description: String,
    pub author: String,
    pub version: String,
}

/// A parsed interface.
#[derive(Debug)]
pub struct Interface {
    pub name: String,
    pub package_name: String,
    pub parent: String,
    pub interfaces: Vec<String>,
    pub dependencies: Vec<String>,
    pub access: String,
    pub modifiers: Vec<String>,
    pub license: String,
    pub variables: Vec<Member>,
    pub methods: Vec<Method>,
    pub signature: String,
    pub description: String,
    pub author: String,
    pub version: String,
}

/// A parsed enumeration.
#[derive(Debug)]
pub struct Enumeration {
    pub name: String,
    pub package_name: String,
    pub interfaces: Vec<String>,
    pub dependencies: Vec<String>,
    pub access: String,
    pub modifiers: Vec<String>,
    pub license: String,
    pub variables: Vec<Member>,
    pub methods: Vec<Method>,
    pub fields: Vec<EnumField>,
    pub signature: String,
    pub description: String,
    pub author: String,
    pub version: String,
}

/// The one declaration that a file yields.
#[derive(Debug)]
pub enum ObjectType {
    Class(Class),
    Interface(Interface),
    Enumeration(Enumeration),
}

/// Whether `r` holds what `o` records, each field in the declaration of its kind.
pub open spec fn declared_as(r: ObjectType, o: ObjectView) -> bool {
    match r {
        ObjectType::Class(c) => {
            &&& c.name@ == o.name
            &&& c.package_name@ == o.package_name
            &&& c.parent@ == o.parent
            &&& words_of(c.interfaces@) == o.interfaces
            &&& exceptions_view(c.exceptions@) == o.exceptions
            &&& words_of(c.dependencies@) == o.dependencies
            &&& c.access@ == o.access
            &&& words_of(c.modifiers@) == o.modifiers
            &&& c.license@ == o.license
            &&& members_view(c.variables@) == o.variables
            &&& methods_view(c.methods@) == o.methods
            &&& c.signature@ == o.signature
            &&& c.description@ == o.description
            &&& c.author@ == o.author
            &&& c.version@ == o.version
        },
        ObjectType::Interface(c) => {
            &&& c.name@ == o.name
            &&& c.package_name@ == o.package_name
            &&& c.parent@ == o.parent
            &&& words_of(c.interfaces@) == o.interfaces
            &&& words_of(c.dependencies@) == o.dependencies
            &&& c.access@ == o.access
            &&& words_of(c.modifiers@) == o.modifiers
            &&& c.license@ == o.license
            &&& members_view(c.variables@) == o.variables
            &&& methods_view(c.methods@) == o.methods
            &&& c.signature@ == o.signature
            &&& c.description@ == o.description
            &&& c.author@ == o.author
            &&& c.version@ == o.version
        },
        ObjectType::Enumeration(c) => {
            &&& c.name@ == o.name
            &&& c.package_name@ == o.package_name
            &&& words_of(c.interfaces@) == o.interfaces
            &&& words_of(c.dependencies@) == o.dependencies
            &&& c.access@ == o.access
            &&& words_of(c.modifiers@) == o.modifiers
            &&& c.license@ == o.license
            &&& members_view(c.variables@) == o.variables
            &&& methods_view(c.methods@) == o.methods
            &&& enum_fields_view(c.fields@) == o.fields
            &&& c.signature@ == o.signature
            &&& c.description@ == o.description
            &&& c.author@ == o.author
            &&& c.version@ == o.version
        },
    }
}

/// Whether `r` is a class in which nothing at all is recorded.
pub open spec fn is_empty_class(r: ObjectType) -> bool {
    match r {
        ObjectType::Class(c) => {
            &&& c.name@.len() == 0
            &&& c.package_name@.len() == 0
            &&& c.parent@.len() == 0
            &&& c.interfaces@.len() == 0
            &&& c.exceptions@.len() == 0
            &&& c.dependencies@.len() == 0
            &&& c.access@.len() == 0
            &&& c.modifiers@.len() == 0
            &&& c.license@.len() == 0
            &&& c.variables@.len() == 0
            &&& c.methods@.len() == 0
            &&& c.signature@.len() == 0
            &&& c.description@.len() == 0
            &&& c.author@.len() == 0
            &&& c.version@.len() == 0
        },
        _ => false,
    }
}

impl Object {
    /// The finished declaration, of the kind that the type keyword fixed; a class
    /// where none was seen.
    pub fn finish(self) -> (r: ObjectType)
        ensures
            self.state == ObjectState::Interface <==> r is Interface,
            self.state == ObjectState::Enumeration <==> r is Enumeration,
            declared_as(r, self@),
            object_is_empty(self) ==> is_empty_class(r),
    {
        match self.state {
            ObjectState::Interface => ObjectType::Interface(Interface {
                name: self.name,
                package_name: self.package_name,
                parent: self.parent,
                interfaces: self.interfaces,
                dependencies: self.dependencies,
                access: self.access,
                modifiers: self.modifiers,
                license: self.license,
                variables: self.variables,
                methods: self.methods,
                signature: self.signature,
                description: self.description,
                author: self.author,
                version: self.version,
            }),
            ObjectState::Enumeration => ObjectType::Enumeration(Enumeration {
                name: self.name,
                package_name: self.package_name,
                interfaces: self.interfaces,
                dependencies: self.dependencies,
                access: self.access,
                modifiers: self.modifiers,
                license: self.license,
                variables: self.variables,
                methods: self.methods,
                fields: self.fields,
                signature: self.signature,
                description: self.description,
                author: self.author,
                version: self.version,
            }),
            _ => ObjectType::Class(Class {
                name: self.name,
                package_name: self.package_name,
                parent: self.parent,
                interfaces: self.interfaces,
                exceptions: self.exceptions,
                dependencies: self.dependencies,
                access: self.access,
                modifiers: self.modifiers,
                license: self.license,
                variables: self.variables,
                methods: self.methods,
                signature: self.signature,
                description: self.description,
                author: self.author,
                version: self.version,
            }),
        }
    }
}

} // verus!
