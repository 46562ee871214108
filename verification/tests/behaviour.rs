use builder_synth::generate::{InputKind, RecordSpec};
use builder_synth::runtime::{BuilderInstance, CallError, MissingFieldError, Record, Value};
use builder_synth::schema::{
    Annotation, AnnotationBody, FieldSpec, GenericArg, PathSegment, Token, TypeExpr,
};

fn text(value: &str) -> String {
    value.to_string()
}

fn item(value: &str) -> Value {
    Value::Item(text(value))
}

fn list(values: &[&str]) -> Value {
    Value::List(values.iter().map(|v| text(v)).collect())
}

fn plain_type(name: &str) -> TypeExpr {
    TypeExpr {
        text: text(name),
        path: Some(vec![PathSegment { ident: text(name), generics: None }]),
    }
}

fn wrapper_type(wrapper: &str, inner: &str) -> TypeExpr {
    TypeExpr {
        text: format!("{} < {} >", wrapper, inner),
        path: Some(vec![PathSegment {
            ident: text(wrapper),
            generics: Some(vec![GenericArg::Type(text(inner))]),
        }]),
    }
}

fn annotated(key: &str, name: &str) -> Annotation {
    Annotation {
        leading_colon: false,
        path: vec![text("builder")],
        body: AnnotationBody::List(vec![
            Token::Ident(text(key)),
            Token::Punct('='),
            Token::Literal(format!("\"{}\"", name)),
        ]),
    }
}

fn spec(name: &str, ty: TypeExpr, annotations: Vec<Annotation>) -> FieldSpec {
    FieldSpec { name: text(name), declared_type: ty, annotations }
}

fn instance(fields: Vec<FieldSpec>) -> BuilderInstance {
    let record = RecordSpec { name: text("Command"), kind: InputKind::NamedRecord, fields };
    BuilderInstance::new(builder_synth::generate::derive(&record).unwrap().builder)
}

fn command() -> BuilderInstance {
    instance(vec![
        spec("executable", plain_type("String"), vec![]),
        spec("args", wrapper_type("Vec", "String"), vec![annotated("each", "arg")]),
    ])
}

#[test]
fn command_scenario_builds_the_record() {
    let mut builder = command();
    assert_eq!(builder.call("arg", item("\u{2013}v")), Ok(()));
    assert_eq!(builder.call("arg", item("file")), Ok(()));
    assert_eq!(builder.call("executable", item("ls")), Ok(()));
    assert_eq!(
        builder.build(),
        Ok(Record { values: vec![Some(item("ls")), Some(list(&["\u{2013}v", "file"]))] })
    );
}

#[test]
fn command_scenario_without_executable_fails() {
    let mut builder = command();
    assert_eq!(builder.call("arg", item("\u{2013}v")), Ok(()));
    assert_eq!(builder.call("arg", item("file")), Ok(()));
    let error = builder.build().unwrap_err();
    assert_eq!(error, MissingFieldError { field: text("executable") });
    assert!(error.message().contains("executable"));
    assert_eq!(error.message(), "executable is not set");
}

#[test]
fn optional_field_may_stay_unset() {
    let builder = instance(vec![spec("timeout", wrapper_type("Option", "u32"), vec![])]);
    assert_eq!(builder.build(), Ok(Record { values: vec![None] }));
}

#[test]
fn optional_field_keeps_its_value() {
    let mut builder = instance(vec![spec("timeout", wrapper_type("Option", "u32"), vec![])]);
    assert_eq!(builder.call("timeout", item("30")), Ok(()));
    assert_eq!(builder.build(), Ok(Record { values: vec![Some(item("30"))] }));
}

#[test]
fn fresh_builder_names_the_first_field() {
    let builder = instance(vec![
        spec("host", plain_type("String"), vec![]),
        spec("port", plain_type("u16"), vec![]),
        spec("path", plain_type("String"), vec![]),
    ]);
    assert_eq!(builder.build(), Err(MissingFieldError { field: text("host") }));
}

#[test]
fn first_unset_field_is_reported() {
    let mut builder = instance(vec![
        spec("host", plain_type("String"), vec![]),
        spec("port", plain_type("u16"), vec![]),
        spec("path", plain_type("String"), vec![]),
    ]);
    assert_eq!(builder.call("host", item("localhost")), Ok(()));
    assert_eq!(builder.build(), Err(MissingFieldError { field: text("port") }));
    assert_eq!(builder.call("path", item("/")), Ok(()));
    assert_eq!(builder.build(), Err(MissingFieldError { field: text("port") }));
}

#[test]
fn setters_round_trip() {
    let mut builder = instance(vec![
        spec("host", plain_type("String"), vec![]),
        spec("port", plain_type("u16"), vec![]),
        spec("tags", wrapper_type("Vec", "String"), vec![]),
    ]);
    assert_eq!(builder.call("tags", list(&["a", "b"])), Ok(()));
    assert_eq!(builder.call("port", item("80")), Ok(()));
    assert_eq!(builder.call("host", item("first")), Ok(()));
    assert_eq!(builder.call("host", item("localhost")), Ok(()));
    assert_eq!(
        builder.build(),
        Ok(Record {
            values: vec![Some(item("localhost")), Some(item("80")), Some(list(&["a", "b"]))]
        })
    );
    assert_eq!(
        builder.build(),
        Ok(Record {
            values: vec![Some(item("localhost")), Some(item("80")), Some(list(&["a", "b"]))]
        })
    );
}

#[test]
fn pushes_accumulate_in_call_order() {
    let mut builder = instance(vec![spec(
        "xs",
        wrapper_type("Vec", "u8"),
        vec![annotated("each", "push_x")],
    )]);
    assert_eq!(builder.build(), Ok(Record { values: vec![Some(list(&[]))] }));
    for value in ["3", "1", "2", "1"] {
        assert_eq!(builder.call("push_x", item(value)), Ok(()));
    }
    assert_eq!(builder.build(), Ok(Record { values: vec![Some(list(&["3", "1", "2", "1"]))] }));
}

#[test]
fn direct_setter_replaces_the_list() {
    let mut builder = instance(vec![spec(
        "xs",
        wrapper_type("Vec", "u8"),
        vec![annotated("each", "push_x")],
    )]);
    assert_eq!(builder.call("push_x", item("1")), Ok(()));
    assert_eq!(builder.call("xs", item("7")), Err(CallError::ArgumentMismatch));
    assert_eq!(builder.call("xs", list(&["7", "8"])), Ok(()));
    assert_eq!(builder.call("push_x", item("9")), Ok(()));
    assert_eq!(builder.build(), Ok(Record { values: vec![Some(list(&["7", "8", "9"]))] }));
}

#[test]
fn same_name_accumulator_is_the_only_method() {
    let mut builder = instance(vec![spec(
        "env",
        wrapper_type("Vec", "String"),
        vec![annotated("each", "env")],
    )]);
    assert_eq!(builder.def.methods.len(), 1);
    assert_eq!(builder.call("env", list(&["A=1"])), Err(CallError::ArgumentMismatch));
    assert_eq!(builder.call("env", item("A=1")), Ok(()));
    assert_eq!(builder.call("env", item("B=2")), Ok(()));
    assert_eq!(builder.build(), Ok(Record { values: vec![Some(list(&["A=1", "B=2"]))] }));
}

#[test]
fn unknown_method_changes_nothing() {
    let mut builder = command();
    assert_eq!(builder.call("executable", item("ls")), Ok(()));
    let before = builder.clone();
    assert_eq!(builder.call("nothing", item("x")), Err(CallError::NoSuchMethod));
    assert_eq!(builder.call("arg", list(&["x"])), Err(CallError::ArgumentMismatch));
    assert_eq!(builder, before);
}

#[test]
fn refused_annotation_leaves_no_setter() {
    let mut builder = instance(vec![
        spec("executable", plain_type("String"), vec![]),
        spec("args", wrapper_type("Vec", "String"), vec![annotated("foo", "x")]),
    ]);
    assert_eq!(builder.call("args", list(&["a"])), Err(CallError::NoSuchMethod));
    assert_eq!(builder.call("x", item("a")), Err(CallError::NoSuchMethod));
    assert_eq!(builder.call("executable", item("ls")), Ok(()));
    assert_eq!(builder.build(), Ok(Record { values: vec![Some(item("ls"))] }));
}

#[test]
fn record_without_fields_builds() {
    let builder = instance(vec![]);
    assert_eq!(builder.build(), Ok(Record { values: vec![] }));
}

#[test]
fn hand_made_description_is_tested() {
    let good = instance(vec![spec("host", plain_type("String"), vec![])]).def;
    assert!(good.well_formed());
    let mut bad = good.clone();
    bad.methods[0].slot = 1;
    assert!(!bad.well_formed());
    bad.slots.clear();
    bad.methods.clear();
    assert!(bad.well_formed());
}
