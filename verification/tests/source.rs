use builder_synth::emit::emit;
use builder_synth::generate::{InputKind, RecordSpec};
use builder_synth::schema::{
    Annotation, AnnotationBody, FieldSpec, GenericArg, PathSegment, Token, TypeExpr,
};

fn owned(value: &str) -> String {
    value.to_string()
}

fn simple(name: &str) -> TypeExpr {
    TypeExpr {
        text: owned(name),
        path: Some(vec![PathSegment { ident: owned(name), generics: None }]),
    }
}

fn generic(wrapper: &str, inner: &str) -> TypeExpr {
    TypeExpr {
        text: format!("{} < {} >", wrapper, inner),
        path: Some(vec![PathSegment {
            ident: owned(wrapper),
            generics: Some(vec![GenericArg::Type(owned(inner))]),
        }]),
    }
}

fn each_named(name: &str) -> Annotation {
    Annotation {
        leading_colon: false,
        path: vec![owned("builder")],
        body: AnnotationBody::List(vec![
            Token::Ident(owned("each")),
            Token::Punct('='),
            Token::Literal(format!("\"{}\"", name)),
        ]),
    }
}

fn source(name: &str, fields: Vec<FieldSpec>) -> String {
    let record = RecordSpec { name: owned(name), kind: InputKind::NamedRecord, fields };
    let generated = builder_synth::generate::derive(&record).unwrap();
    assert!(generated.builder.well_formed());
    emit(&generated.builder)
}

#[test]
fn source_of_the_command_builder() {
    let text = source(
        "Command",
        vec![
            FieldSpec { name: owned("executable"), declared_type: simple("String"), annotations: vec![] },
            FieldSpec {
                name: owned("args"),
                declared_type: generic("Vec", "String"),
                annotations: vec![each_named("arg")],
            },
        ],
    );
    let expected = [
        "struct CommandBuilder { ",
        "executable: std::option::Option<String>, ",
        "args: Vec < String >, ",
        "} ",
        "impl CommandBuilder { ",
        "fn executable(&mut self, executable: String) -> &mut Self { ",
        "self.executable = std::option::Option::Some(executable); self } ",
        "fn args(&mut self, args: Vec < String >) -> &mut Self { ",
        "self.args = args; self } ",
        "fn arg(&mut self, arg: String) -> &mut Self { ",
        "self.args.push(arg); self } ",
        "fn build(&self) -> std::result::Result<Command, std::boxed::Box<dyn std::error::Error>> { ",
        "std::result::Result::Ok(Command { ",
        "executable: self.executable.clone().ok_or(\"executable is not set\")?, ",
        "args: self.args.clone(), ",
        "}) } ",
        "} ",
        "impl Command { fn builder() -> CommandBuilder { CommandBuilder { ",
        "executable: std::option::Option::None, ",
        "args: std::vec::Vec::new(), ",
        "} } } ",
    ]
    .concat();
    assert_eq!(text, expected);
    assert!(text.parse::<proc_macro2::TokenStream>().is_ok());
}

#[test]
fn source_of_an_optional_field() {
    let text = source(
        "Job",
        vec![FieldSpec {
            name: owned("timeout"),
            declared_type: generic("Option", "u32"),
            annotations: vec![],
        }],
    );
    let expected = [
        "struct JobBuilder { timeout: Option < u32 >, } ",
        "impl JobBuilder { ",
        "fn timeout(&mut self, timeout: u32) -> &mut Self { ",
        "self.timeout = std::option::Option::Some(timeout); self } ",
        "fn build(&self) -> std::result::Result<Job, std::boxed::Box<dyn std::error::Error>> { ",
        "std::result::Result::Ok(Job { timeout: self.timeout.clone(), }) } ",
        "} ",
        "impl Job { fn builder() -> JobBuilder { JobBuilder { ",
        "timeout: std::option::Option::None, ",
        "} } } ",
    ]
    .concat();
    assert_eq!(text, expected);
}

#[test]
fn source_without_the_suppressed_setter() {
    let text = source(
        "Job",
        vec![FieldSpec {
            name: owned("env"),
            declared_type: generic("Vec", "String"),
            annotations: vec![each_named("env")],
        }],
    );
    assert!(text.contains("fn env(&mut self, env: String) -> &mut Self { self.env.push(env); self } "));
    assert!(!text.contains("self.env = env;"));
    assert_eq!(text.matches("fn env(").count(), 1);
}

#[test]
fn source_of_an_empty_record() {
    let text = source("Unit", vec![]);
    let expected = [
        "struct UnitBuilder { } ",
        "impl UnitBuilder { ",
        "fn build(&self) -> std::result::Result<Unit, std::boxed::Box<dyn std::error::Error>> { ",
        "std::result::Result::Ok(Unit { }) } ",
        "} ",
        "impl Unit { fn builder() -> UnitBuilder { UnitBuilder { } } } ",
    ]
    .concat();
    assert_eq!(text, expected);
}
