//! Planning of a new C operator or custom node: the name is checked, and the
//! directory and the files to write from templates are decided. Writing them
//! is left to the caller.
use vstd::prelude::*;
use crate::ident::{plain_name_verdict, validate_plain_name, NameError};

verus! {

/// What to create.
#[derive(Debug, Clone, Copy, PartialEq, Eq, Structural)]
pub enum Kind {
    Operator,
    CustomNode,
}

/// The language asked for; the C templates ignore it.
#[derive(Debug, Clone, Copy, PartialEq, Eq, Structural)]
pub enum Lang {
    Rust,
    Python,
    C,
    Cxx,
}

/// The arguments of the `new` command.
#[derive(Debug, Clone)]
pub struct CommandNew {
    pub kind: Kind,
    pub lang: Lang,
    pub name: String,
    pub path: Option<String>,
}

/// A starter file whose content the caller provides.
#[derive(Debug, Clone, Copy, PartialEq, Eq, Structural)]
pub enum Template {
    OperatorSource,
    OperatorHeader,
    NodeSource,
    NodeHeader,
}

/// One file to write into the new directory.
#[derive(Debug, Clone)]
pub struct ScaffoldFile {
    pub file_name: String,
    pub template: Template,
}

/// The directory to create and the files to write into it, in order.
#[derive(Debug, Clone)]
pub struct Scaffold {
    pub kind: Kind,
    pub name: String,
    pub root: String,
    pub files: Vec<ScaffoldFile>,
}

/// A refused name, with what it was to name.
#[derive(Debug, Clone, Copy, PartialEq, Eq, Structural)]
pub struct CreateError {
    pub kind: Kind,
    pub reason: NameError,
}

pub open spec fn source_file(kind: Kind) -> Seq<char> {
    match kind {
        Kind::Operator => "operator.c"@,
        Kind::CustomNode => "node.c"@,
    }
}

pub open spec fn header_file(kind: Kind) -> Seq<char> {
    match kind {
        Kind::Operator => "operator_api.h"@,
        Kind::CustomNode => "node_api.h"@,
    }
}

pub open spec fn source_template(kind: Kind) -> Template {
    match kind {
        Kind::Operator => Template::OperatorSource,
        Kind::CustomNode => Template::NodeSource,
    }
}

pub open spec fn header_template(kind: Kind) -> Template {
    match kind {
        Kind::Operator => Template::OperatorHeader,
        Kind::CustomNode => Template::NodeHeader,
    }
}

/// The directory: the path given, or else the name.
pub open spec fn root_of(name: Seq<char>, path: Option<String>) -> Seq<char> {
    match path {
        Some(p) => p@,
        None => name,
    }
}

/// The plan for `kind`, `name` and `path`: the source file, then the header.
pub open spec fn is_plan(s: Scaffold, kind: Kind, name: Seq<char>, path: Option<String>) -> bool {
    &&& s.kind == kind
    &&& s.name@ == name
    &&& s.root@ == root_of(name, path)
    &&& s.files@.len() == 2
    &&& s.files@[0].file_name@ == source_file(kind)
    &&& s.files@[0].template == source_template(kind)
    &&& s.files@[1].file_name@ == header_file(kind)
    &&& s.files@[1].template == header_template(kind)
}

pub open spec fn what_text(kind: Kind) -> Seq<char> {
    match kind {
        Kind::Operator => "operator"@,
        Kind::CustomNode => "node"@,
    }
}

pub open spec fn reason_text(reason: NameError) -> Seq<char> {
    match reason {
        NameError::PathSeparator => " name must not contain `/` separators"@,
        NameError::NotAscii => " name must be ASCII"@,
        NameError::NotIdentifier => " name must be an identifier"@,
    }
}

impl CreateError {
    /// A sentence for the user.
    pub fn message(&self) -> (r: String)
        ensures
            r@ == what_text(self.kind) + reason_text(self.reason),
    {
        let mut r = String::new();
        match self.kind {
            Kind::Operator => r.append("operator"),
            Kind::CustomNode => r.append("node"),
        }
        match self.reason {
            NameError::PathSeparator => r.append(" name must not contain `/` separators"),
            NameError::NotAscii => r.append(" name must be ASCII"),
            NameError::NotIdentifier => r.append(" name must be an identifier"),
        }
        assert(r@ =~= what_text(self.kind) + reason_text(self.reason));
        r
    }
}

fn plan(kind: Kind, name: String, path: Option<String>, source: &str, header: &str) -> (r:
    Result<Scaffold, CreateError>)
    requires
        source@ == source_file(kind),
        header@ == header_file(kind),
    ensures
        r is Ok <==> plain_name_verdict(name@) is None,
        r matches Err(e) ==> e.kind == kind && plain_name_verdict(name@) == Some(e.reason),
        r matches Ok(s) ==> is_plan(s, kind, name@, path),
{
    match validate_plain_name(name.as_str()) {
        Err(reason) => {
            return Err(CreateError { kind, reason });
        },
        Ok(()) => {},
    }
    let root = match &path {
        Some(p) => p.clone(),
        None => name.clone(),
    };
    let (st, ht) = match kind {
        Kind::Operator => (Template::OperatorSource, Template::OperatorHeader),
        Kind::CustomNode => (Template::NodeSource, Template::NodeHeader),
    };
    let mut files: Vec<ScaffoldFile> = Vec::new();
    files.push(ScaffoldFile { file_name: source.to_owned(), template: st });
    files.push(ScaffoldFile { file_name: header.to_owned(), template: ht });
    Ok(Scaffold { kind, name, root, files })
}

fn create_operator(name: String, path: Option<String>) -> (r: Result<Scaffold, CreateError>)
    ensures
        r is Ok <==> plain_name_verdict(name@) is None,
        r matches Err(e) ==> e.kind == Kind::Operator && plain_name_verdict(name@) == Some(
            e.reason,
        ),
        r matches Ok(s) ==> is_plan(s, Kind::Operator, name@, path),
{
    plan(Kind::Operator, name, path, "operator.c", "operator_api.h")
}

fn create_custom_node(name: String, path: Option<String>) -> (r: Result<Scaffold, CreateError>)
    ensures
        r is Ok <==> plain_name_verdict(name@) is None,
        r matches Err(e) ==> e.kind == Kind::CustomNode && plain_name_verdict(name@) == Some(
            e.reason,
        ),
        r matches Ok(s) ==> is_plan(s, Kind::CustomNode, name@, path),
{
    plan(Kind::CustomNode, name, path, "node.c", "node_api.h")
}

/// Checks the name and plans the new operator or custom node: a name with a
/// `/` or a character outside ASCII is refused, in that order.
pub fn create(args: CommandNew) -> (r: Result<Scaffold, CreateError>)
    ensures
        r is Ok <==> plain_name_verdict(args.name@) is None,
        r matches Err(e) ==> e.kind == args.kind && plain_name_verdict(args.name@) == Some(
            e.reason,
        ),
        r matches Ok(s) ==> is_plan(s, args.kind, args.name@, args.path),
{
    let CommandNew { kind, lang: _, name, path } = args;
    match kind {
        Kind::Operator => create_operator(name, path),
        Kind::CustomNode => create_custom_node(name, path),
    }
}

} // verus!
