use msg_gen::ident::NameError;
use msg_gen::scaffold::{create, CommandNew, CreateError, Kind, Lang, Template};

fn command(kind: Kind, name: &str, path: Option<&str>) -> CommandNew {
    CommandNew { kind, lang: Lang::C, name: name.to_string(), path: path.map(|p| p.to_string()) }
}

#[test]
fn operator_plan_uses_name_as_directory() {
    let s = create(command(Kind::Operator, "my_op", None)).unwrap();
    assert_eq!(s.root, "my_op");
    assert_eq!(s.files.len(), 2);
    assert_eq!(s.files[0].file_name, "operator.c");
    assert_eq!(s.files[0].template, Template::OperatorSource);
    assert_eq!(s.files[1].file_name, "operator_api.h");
    assert_eq!(s.files[1].template, Template::OperatorHeader);
}

#[test]
fn custom_node_plan_uses_given_path() {
    let s = create(command(Kind::CustomNode, "my-node", Some("nodes/one"))).unwrap();
    assert_eq!(s.root, "nodes/one");
    assert_eq!(s.name, "my-node");
    assert_eq!(s.files[0].file_name, "node.c");
    assert_eq!(s.files[0].template, Template::NodeSource);
    assert_eq!(s.files[1].file_name, "node_api.h");
    assert_eq!(s.files[1].template, Template::NodeHeader);
}

#[test]
fn scaffold_names_are_checked() {
    let e = create(command(Kind::Operator, "foo/bar", None)).unwrap_err();
    assert_eq!(e, CreateError { kind: Kind::Operator, reason: NameError::PathSeparator });
    assert_eq!(e.message(), "operator name must not contain `/` separators");
    let e = create(command(Kind::CustomNode, "robotñame", None)).unwrap_err();
    assert_eq!(e, CreateError { kind: Kind::CustomNode, reason: NameError::NotAscii });
    assert_eq!(e.message(), "node name must be ASCII");
}
