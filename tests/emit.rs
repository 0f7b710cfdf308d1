use msg_gen::action::Action;
use msg_gen::ident::{validate_name, NameError};
use msg_gen::message::Message;
use msg_gen::package::{interop_support, Package};
use msg_gen::service::Service;
use msg_gen::types::{Constant, ElementType, Field, FieldType, Primitive};

fn prim(p: Primitive) -> FieldType {
    FieldType::Single(ElementType::Primitive(p))
}

fn field(name: &str, ty: FieldType) -> Field {
    Field::new(name.to_string(), ty).unwrap()
}

fn message(name: &str, fields: Vec<Field>) -> Message {
    Message::with_fields(name.to_string(), fields).unwrap()
}

fn three_fields() -> Message {
    message(
        "Pose",
        vec![
            field("f1", prim(Primitive::Int32)),
            field("f2", FieldType::Single(ElementType::Text)),
            field("f3", FieldType::Unbounded(ElementType::Primitive(Primitive::Float64))),
        ],
    )
}

fn nav_action() -> Action {
    Action::new(
        "Nav".to_string(),
        message("Goal", vec![field("target", prim(Primitive::Int32))]),
        message("Result", vec![field("reached", prim(Primitive::Bool))]),
        message("Feedback", vec![field("distance", prim(Primitive::UInt32))]),
    )
    .unwrap()
}

fn full_package(name: &str) -> Package {
    let mut p = Package::new(name.to_string()).unwrap();
    let mut m = three_fields();
    m.constants.push(
        Constant::new("LIMIT".to_string(), Primitive::UInt8, "10".to_string()).unwrap(),
    );
    p.messages.push(m);
    p.messages.push(message(
        "Path",
        vec![
            field("poses", FieldType::Bounded(ElementType::Sibling("Pose".to_string()), 8)),
            field(
                "header",
                FieldType::Single(ElementType::Nested {
                    package: "std_msgs".to_string(),
                    name: "Header".to_string(),
                }),
            ),
            field("id", FieldType::Array(ElementType::Primitive(Primitive::Byte), 16)),
        ],
    ));
    p.services.push(
        Service::new(
            "AddTwo".to_string(),
            message("Request", vec![field("a", prim(Primitive::Int64)), field("b", prim(Primitive::Int64))]),
            message("Response", vec![field("sum", prim(Primitive::Int64))]),
        )
        .unwrap(),
    );
    p.actions.push(nav_action());
    p
}

fn parses(text: &str) -> bool {
    syn::parse_file(text).is_ok()
}

#[test]
fn emission_is_deterministic() {
    let p = full_package("demo");
    for flag in [false, true] {
        assert_eq!(p.token_stream(flag), p.token_stream(flag));
        assert_eq!(p.struct_token_stream(flag), p.struct_token_stream(flag));
        assert_eq!(p.aliases_token_stream(flag), p.aliases_token_stream(flag));
        assert_eq!(full_package("demo").token_stream(flag), p.token_stream(flag));
    }
}

#[test]
fn empty_package_has_three_empty_modules() {
    let p = Package::new("empty_pkg".to_string()).unwrap();
    assert!(p.is_empty());
    let text = p.token_stream(false);
    assert_eq!(
        text,
        "pub mod empty_pkg {\npub mod msg {\n}\npub mod srv {\n}\npub mod action {\n}\n}\n"
    );
    assert!(parses(&text));
    let with_interop = p.token_stream(true);
    assert_eq!(with_interop, text);
    assert_eq!(p.struct_token_stream(true), "");
    assert_eq!(p.struct_token_stream(false), "");
    assert_eq!(p.aliases_token_stream(false), "pub mod empty_pkg {\npub mod msg {\n}\n}\n");
}

#[test]
fn package_with_members_is_not_empty() {
    let mut p = Package::new("p".to_string()).unwrap();
    p.services.push(
        Service::new("S".to_string(), message("Request", vec![]), message("Response", vec![]))
            .unwrap(),
    );
    assert!(!p.is_empty());
    let mut q = Package::new("q".to_string()).unwrap();
    q.actions.push(nav_action());
    assert!(!q.is_empty());
    let mut r = Package::new("r".to_string()).unwrap();
    r.messages.push(message("M", vec![]));
    assert!(!r.is_empty());
}

#[test]
fn fields_keep_their_order() {
    let m = three_fields();
    assert_eq!(
        m.emit("", "crate::interop::FfiSlice", true),
        "#[derive(Debug, Clone, PartialEq)]\npub struct Pose {\npub f1: i32,\npub f2: String,\npub f3: Vec<f64>,\n}\n\
         #[repr(C)]\npub struct PoseFfi {\npub f1: i32,\npub f2: crate::interop::FfiSlice<u8>,\npub f3: crate::interop::FfiSlice<f64>,\n}\n"
    );
    let text = full_package("demo").token_stream(true);
    let a = text.find("pub f1: i32").unwrap();
    let b = text.find("pub f2: String").unwrap();
    let c = text.find("pub f3: Vec<f64>").unwrap();
    assert!(a < b && b < c);
    let ffi = text.find("pub struct PoseFfi").unwrap();
    let a2 = text[ffi..].find("pub f1:").unwrap();
    let b2 = text[ffi..].find("pub f2:").unwrap();
    let c2 = text[ffi..].find("pub f3:").unwrap();
    assert!(a2 < b2 && b2 < c2);
}

#[test]
fn interop_flag_only_adds_a_struct() {
    let m = three_fields();
    let plain = m.emit("", "S", false);
    let both = m.emit("", "S", true);
    assert!(both.starts_with(&plain));
    assert!(!plain.contains("Ffi"));
    assert!(both[plain.len()..].starts_with("#[repr(C)]\npub struct PoseFfi {\n"));
    let p = full_package("demo");
    let native_only = p.token_stream(false);
    let with_interop = p.token_stream(true);
    assert!(with_interop.contains(
        "#[derive(Debug, Clone, PartialEq)]\npub struct Pose {\npub f1: i32,\npub f2: String,\npub f3: Vec<f64>,\n}\n"
    ));
    assert!(native_only.contains(
        "#[derive(Debug, Clone, PartialEq)]\npub struct Pose {\npub f1: i32,\npub f2: String,\npub f3: Vec<f64>,\n}\n"
    ));
    assert!(parses(&native_only));
    assert!(parses(&with_interop));
}

#[test]
fn names_with_separators_or_non_ascii_are_refused() {
    assert_eq!(Package::new("foo/bar".to_string()).unwrap_err(), NameError::PathSeparator);
    assert_eq!(Package::new("robotñame".to_string()).unwrap_err(), NameError::NotAscii);
    assert_eq!(Message::new("foo/bar".to_string()).unwrap_err(), NameError::PathSeparator);
    assert_eq!(Message::new("robotñame".to_string()).unwrap_err(), NameError::NotAscii);
    assert_eq!(
        Field::new("robotñame".to_string(), prim(Primitive::Bool)).unwrap_err(),
        NameError::NotAscii
    );
    assert_eq!(
        Constant::new("a/b".to_string(), Primitive::Bool, "true".to_string()).unwrap_err(),
        NameError::PathSeparator
    );
    let r = Service::new("foo/bar".to_string(), message("A", vec![]), message("B", vec![]));
    assert_eq!(r.unwrap_err(), NameError::PathSeparator);
    let a = nav_action();
    let r = Action::new("robotñame".to_string(), a.goal, a.result, a.feedback);
    assert_eq!(r.unwrap_err(), NameError::NotAscii);
    // a separator is reported before a non-ASCII character
    assert_eq!(Package::new("ñ/x".to_string()).unwrap_err(), NameError::PathSeparator);
}

#[test]
fn construction_accepts_any_ascii_name_without_separator() {
    for name in ["my-pkg", "9lives", "", "two words", "_x9"] {
        let p = Package::new(name.to_string()).unwrap();
        assert_eq!(p.name, name);
        assert!(p.is_empty());
        assert!(Message::new(name.to_string()).is_ok());
    }
    let nested = FieldType::Single(ElementType::Nested {
        package: "geo/msgs".to_string(),
        name: "Point".to_string(),
    });
    assert_eq!(Field::new("p".to_string(), nested).unwrap_err(), NameError::PathSeparator);
    let sibling = FieldType::Unbounded(ElementType::Sibling("Pointñ".to_string()));
    assert_eq!(Field::new("p".to_string(), sibling).unwrap_err(), NameError::NotAscii);
    let sibling = FieldType::Unbounded(ElementType::Sibling("two words".to_string()));
    assert!(Field::new("p".to_string(), sibling).is_ok());
}

#[test]
fn emission_names_must_be_identifiers() {
    assert_eq!(validate_name(""), Err(NameError::NotIdentifier));
    assert_eq!(validate_name("9lives"), Err(NameError::NotIdentifier));
    assert_eq!(validate_name("my-pkg"), Err(NameError::NotIdentifier));
    assert_eq!(validate_name("foo/bar"), Err(NameError::PathSeparator));
    assert_eq!(validate_name("robotñame"), Err(NameError::NotAscii));
    assert_eq!(validate_name("_x9"), Ok(()));
    assert_eq!(validate_name("Nav"), Ok(()));
}

#[test]
fn action_synthesizes_wrapper_messages() {
    let mut p = Package::new("nav_pkg".to_string()).unwrap();
    p.actions.push(nav_action());
    let text = p.token_stream(false);
    let start = text.find("pub mod action {\npub mod Nav {\n").unwrap();
    let body = &text[start..];
    for name in [
        "pub struct Goal {",
        "pub struct Result {",
        "pub struct Feedback {",
        "pub struct SendGoalRequest {\npub goal_id: [u8; 16],\npub goal: Goal,\n}",
        "pub struct SendGoalResponse {\npub accepted: bool,\npub stamp_sec: i32,\npub stamp_nanosec: u32,\n}",
        "pub struct GetResultRequest {\npub goal_id: [u8; 16],\n}",
        "pub struct GetResultResponse {\npub status: i8,\npub result: Result,\n}",
        "pub struct FeedbackMessage {\npub goal_id: [u8; 16],\npub feedback: Feedback,\n}",
    ] {
        assert!(body.contains(name), "missing {name}");
    }
    assert!(parses(&text));
    let with_interop = p.token_stream(true);
    assert!(with_interop.contains("pub struct SendGoalRequestFfi {\npub goal_id: [u8; 16],\npub goal: GoalFfi,\n}"));
    assert!(parses(&with_interop));
}

#[test]
fn packages_emitted_together_match_alone() {
    let a = full_package("alpha");
    let b = full_package("beta");
    let alone_a = a.token_stream(true);
    let alone_b = b.token_stream(true);
    let mut interleaved = Vec::new();
    for _ in 0..3 {
        interleaved.push((a.token_stream(true), b.token_stream(true)));
    }
    for (x, y) in interleaved {
        assert_eq!(x, alone_a);
        assert_eq!(y, alone_b);
    }
    assert_ne!(alone_a, alone_b);
}

#[test]
fn flat_definitions_and_aliases() {
    let mut p = Package::new("geo".to_string()).unwrap();
    p.messages.push(message("Point", vec![field("x", prim(Primitive::Float32))]));
    let defs = p.struct_token_stream(true);
    assert_eq!(
        defs,
        "#[derive(Debug, Clone, PartialEq)]\npub struct geo__Point {\npub x: f32,\n}\n\
         #[repr(C)]\npub struct geo__PointFfi {\npub x: f32,\n}\n"
    );
    let aliases = p.aliases_token_stream(true);
    assert_eq!(
        aliases,
        "pub mod geo {\npub mod msg {\npub type Point = super::super::geo__Point;\n\
         pub type PointFfi = super::super::geo__PointFfi;\n}\n}\n"
    );
    let combined = format!("{}{defs}{aliases}", interop_support());
    assert!(parses(&combined));
    assert_eq!(
        p.aliases_token_stream(false),
        "pub mod geo {\npub mod msg {\npub type Point = super::super::geo__Point;\n}\n}\n"
    );
}

#[test]
fn field_types_render_exactly() {
    let m = message(
        "All",
        vec![
            field("a", FieldType::Array(ElementType::Primitive(Primitive::UInt16), 1234567)),
            field("b", FieldType::Array(ElementType::Text, 0)),
            field("c", FieldType::Bounded(ElementType::Text, 3)),
            field(
                "d",
                FieldType::Single(ElementType::Nested {
                    package: "std_msgs".to_string(),
                    name: "Header".to_string(),
                }),
            ),
            field("e", FieldType::Single(ElementType::Sibling("Other".to_string()))),
            field("f", prim(Primitive::Char)),
        ],
    );
    assert_eq!(
        m.emit("p__", "p__FfiSlice", true),
        "#[derive(Debug, Clone, PartialEq)]\npub struct p__All {\npub a: [u16; 1234567],\npub b: [String; 0],\npub c: Vec<String>,\npub d: crate::std_msgs::msg::Header,\npub e: p__Other,\npub f: u8,\n}\n\
         #[repr(C)]\npub struct p__AllFfi {\npub a: [u16; 1234567],\npub b: [p__FfiSlice<u8>; 0],\npub c: p__FfiSlice<p__FfiSlice<u8>>,\npub d: crate::std_msgs::msg::HeaderFfi,\npub e: p__OtherFfi,\npub f: u8,\n}\n"
    );
}

#[test]
fn constants_follow_the_struct() {
    let mut m = message("Limits", vec![]);
    m.constants.push(Constant::new("MAX".to_string(), Primitive::Int32, "100".to_string()).unwrap());
    m.constants.push(Constant::new("ON".to_string(), Primitive::Bool, "true".to_string()).unwrap());
    let expected = "#[derive(Debug, Clone, PartialEq)]\npub struct Limits {\n}\n\
                    impl Limits {\npub const MAX: i32 = 100;\npub const ON: bool = true;\n}\n";
    assert_eq!(m.emit("", "S", false), expected);
    assert!(parses(expected));
    assert_eq!(
        message("Empty", vec![]).emit("", "S", false),
        "#[derive(Debug, Clone, PartialEq)]\npub struct Empty {\n}\n"
    );
}

#[test]
fn service_wraps_request_and_response() {
    let mut p = Package::new("calc".to_string()).unwrap();
    p.services.push(
        Service::new(
            "AddTwo".to_string(),
            message("Request", vec![field("a", prim(Primitive::Int64))]),
            message("Response", vec![field("sum", prim(Primitive::Int64))]),
        )
        .unwrap(),
    );
    assert_eq!(
        p.token_stream(false),
        "pub mod calc {\npub mod msg {\n}\npub mod srv {\npub mod AddTwo {\n\
         #[derive(Debug, Clone, PartialEq)]\npub struct Request {\npub a: i64,\n}\n\
         #[derive(Debug, Clone, PartialEq)]\npub struct Response {\npub sum: i64,\n}\n}\n}\n\
         pub mod action {\n}\n}\n"
    );
}

#[test]
fn interop_support_declares_the_slice_type_once() {
    let support = interop_support();
    assert_eq!(
        support,
        "pub mod interop {\n#[repr(C)]\npub struct FfiSlice<T> {\npub ptr: *const T,\npub len: usize,\n}\n}\n"
    );
    let a = full_package("alpha");
    let b = full_package("beta");
    let text = format!("{support}{}{}", a.token_stream(true), b.token_stream(true));
    assert_eq!(text.matches("pub struct FfiSlice").count(), 1);
    assert!(text.contains("pub f2: crate::interop::FfiSlice<u8>,"));
    assert!(parses(&text));
}

#[test]
fn flag_changes_no_native_struct_of_a_package() {
    let p = full_package("demo");
    let plain = p.struct_token_stream(false);
    let both = p.struct_token_stream(true);
    let mut stripped = String::new();
    let mut rest = both.as_str();
    while let Some(start) = rest.find("#[repr(C)]\npub struct ") {
        stripped.push_str(&rest[..start]);
        let end = rest[start..].find("\n}\n").unwrap() + start + 3;
        rest = &rest[end..];
    }
    stripped.push_str(rest);
    assert_eq!(stripped, plain);
    let mut q = Package::new("no_msgs".to_string()).unwrap();
    q.actions.push(nav_action());
    assert_eq!(q.struct_token_stream(true), q.struct_token_stream(false));
    assert_eq!(q.struct_token_stream(true), "");
}
