//! The input schema: fields, type expressions and raw annotations.

use vstd::prelude::*;
use vstd::string::StringExecFns;

verus! {

/// One token of an annotation's argument list.
#[derive(Debug, Clone, PartialEq, Eq)]
pub enum Token {
    /// An identifier or keyword, by its text.
    Ident(String),
    /// A single punctuation character.
    Punct(char),
    /// A literal, by its source text (quotes and escapes included).
    Literal(String),
    /// A delimited group; its content is never part of a valid annotation.
    Group,
}

/// What follows an annotation's path.
#[derive(Debug, Clone, PartialEq, Eq)]
pub enum AnnotationBody {
    /// Nothing: `#[name]`.
    Bare,
    /// A parenthesized argument list: `#[name(tokens)]`.
    List(Vec<Token>),
    /// A value: `#[name = value]`.
    NameValue,
}

/// One raw annotation attached to a field.
#[derive(Debug, Clone, PartialEq, Eq)]
pub struct Annotation {
    /// Whether the path starts with `::`.
    pub leading_colon: bool,
    /// The identifiers of the path, in order.
    pub path: Vec<String>,
    pub body: AnnotationBody,
}

/// One generic argument of a path segment.
#[derive(Debug, Clone, PartialEq, Eq)]
pub enum GenericArg {
    /// A type argument, by its text.
    Type(String),
    /// A lifetime, constant or binding.
    Other,
}

/// One segment of a type path.
#[derive(Debug, Clone, PartialEq, Eq)]
pub struct PathSegment {
    pub ident: String,
    /// The angle-bracketed arguments, if the segment has any.
    pub generics: Option<Vec<GenericArg>>,
}

/// A declared type: its text, and its path segments where it is a path.
#[derive(Debug, Clone, PartialEq, Eq)]
pub struct TypeExpr {
    pub text: String,
    pub path: Option<Vec<PathSegment>>,
}

/// One field of the record.
#[derive(Debug, Clone, PartialEq, Eq)]
pub struct FieldSpec {
    pub name: String,
    pub declared_type: TypeExpr,
    pub annotations: Vec<Annotation>,
}

/// Whether `text` holds exactly the characters of `literal`.
pub fn text_is(text: &String, literal: &str) -> (res: bool)
    ensures
        res == (text@ == literal@),
{
    let owned = literal.to_owned();
    *text == owned
}

/// `head` followed by `tail`.
pub fn concat(head: &str, tail: &str) -> (res: String)
    ensures
        res@ == head@ + tail@,
{
    head.to_owned().concat(tail)
}

} // verus!
