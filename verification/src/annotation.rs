//! Parsing of a field's `builder(..)` annotations into a configuration.

use vstd::prelude::*;
use syn::ext::IdentExt;
use syn::parse::Parser;
use crate::schema::{Annotation, AnnotationBody, Token, text_is};

verus! {

/// What a field's annotations ask of the builder.
#[derive(Debug, Clone, PartialEq, Eq)]
pub enum AnnotationConfig {
    /// No `builder` annotation.
    Absent,
    /// `builder(each = "name")`: an accumulating setter called `name`.
    Accumulator(String),
    /// `builder()`: the field is stored as it is declared and starts empty.
    CustomBuilder,
}

/// The mathematical value of an `AnnotationConfig`.
pub enum ConfigView {
    Absent,
    Accumulator(Seq<char>),
    CustomBuilder,
}

impl View for AnnotationConfig {
    type V = ConfigView;

    open spec fn view(&self) -> ConfigView {
        match *self {
            AnnotationConfig::Absent => ConfigView::Absent,
            AnnotationConfig::Accumulator(name) => ConfigView::Accumulator(name@),
            AnnotationConfig::CustomBuilder => ConfigView::CustomBuilder,
        }
    }
}

/// Why an annotation was refused.
#[derive(Debug, Clone, Copy, PartialEq, Eq, Structural)]
pub enum SyntaxErrorKind {
    /// The annotation has no parenthesized argument list.
    MissingArguments,
    /// The first token is not the key `each`.
    UnknownKey,
    /// The key is not followed by `=`.
    ExpectedEquals,
    /// The value is not a string literal.
    ExpectedStringLiteral,
    /// Something other than one trailing comma follows the value.
    TrailingTokens,
    /// The string does not spell an identifier.
    InvalidName,
}

/// A refusal inside one argument list: the offending token and the reason.
#[derive(Debug, Clone, Copy, PartialEq, Eq, Structural)]
pub struct BlockError {
    /// Index of the offending token; the list's length where a token is missing.
    pub token: usize,
    pub kind: SyntaxErrorKind,
}

/// A malformed or unrecognized annotation on a field.
#[derive(Debug, Clone, Copy, PartialEq, Eq, Structural)]
pub struct AttributeSyntaxError {
    /// Index of the annotation among the field's annotations.
    pub annotation: usize,
    /// Index of the offending token in its argument list.
    pub token: usize,
    pub kind: SyntaxErrorKind,
}

impl AttributeSyntaxError {
    /// The explanation shown to the user.
    pub fn message(&self) -> (res: String)
        ensures
            res@ == message_of(self.kind),
    {
        match self.kind {
            SyntaxErrorKind::MissingArguments => "expected attribute arguments in parentheses: #[builder(...)]".to_owned(),
            SyntaxErrorKind::UnknownKey => "expected `builder(each = \"...\")`".to_owned(),
            SyntaxErrorKind::ExpectedEquals => "expected `=`".to_owned(),
            SyntaxErrorKind::ExpectedStringLiteral => "expected string literal".to_owned(),
            SyntaxErrorKind::TrailingTokens => "unexpected token".to_owned(),
            SyntaxErrorKind::InvalidName => "expected the name of a method".to_owned(),
        }
    }
}

/// The explanation that belongs to each kind of refusal.
pub open spec fn message_of(kind: SyntaxErrorKind) -> Seq<char> {
    match kind {
        SyntaxErrorKind::MissingArguments => "expected attribute arguments in parentheses: #[builder(...)]"@,
        SyntaxErrorKind::UnknownKey => "expected `builder(each = \"...\")`"@,
        SyntaxErrorKind::ExpectedEquals => "expected `=`"@,
        SyntaxErrorKind::ExpectedStringLiteral => "expected string literal"@,
        SyntaxErrorKind::TrailingTokens => "unexpected token"@,
        SyntaxErrorKind::InvalidName => "expected the name of a method"@,
    }
}

/// The value that the literal with source text `text` denotes, if `text` is
/// one string literal. Decided by `syn`'s literal parser.
pub uninterp spec fn string_literal_value(text: Seq<char>) -> Option<Seq<char>>;

/// Whether `text` is exactly one identifier token, keywords included.
/// Decided by `syn`'s lexer.
pub uninterp spec fn is_identifier_text(text: Seq<char>) -> bool;

/// Calls `syn::parse_str::<syn::LitStr>` and, on success, `LitStr::value`.
/// The contract only gives the outcome its name: `Some` of the unescaped
/// content where `text` parses as a single string literal, `None` where the
/// parser refuses it.
#[verifier::external_body]
fn decode_string_literal(text: &str) -> (res: Option<String>)
    ensures
        match res {
            Some(value) => string_literal_value(text@) == Some(value@),
            None => string_literal_value(text@) is None,
        },
{
    match syn::parse_str::<syn::LitStr>(text) {
        Ok(literal) => Some(literal.value()),
        Err(_) => None,
    }
}

/// Calls `syn::Ident::parse_any` on `text` through `Parser::parse_str`.
/// The contract only gives the outcome its name: whether the whole of
/// `text` was accepted as one identifier.
#[verifier::external_body]
fn is_identifier(text: &str) -> (res: bool)
    ensures
        res == is_identifier_text(text@),
{
    syn::Ident::parse_any.parse_str(text).is_ok()
}

/// Whether `token` is the key `each`.
pub open spec fn is_each_key(token: Token) -> bool {
    match token {
        Token::Ident(name) => name@ == "each"@,
        _ => false,
    }
}

/// Whether `token` is the punctuation character `mark`.
pub open spec fn is_punct(token: Token, mark: char) -> bool {
    match token {
        Token::Punct(c) => c == mark,
        _ => false,
    }
}

/// The characters of an optional string.
pub open spec fn text_of(value: Option<String>) -> Option<Seq<char>> {
    match value {
        Some(s) => Some(s@),
        None => None,
    }
}

/// The outcome of one argument list, given what its third token decodes to
/// (`decoded`) and whether that value spells an identifier (`valid_name`).
///
/// An empty list asks for nothing (`Ok(None)`). Otherwise the list must be
/// `each = <string literal>`, optionally followed by one comma; the first
/// token that departs from this is reported.
pub open spec fn block_outcome(
    tokens: Seq<Token>,
    decoded: Option<Seq<char>>,
    valid_name: bool,
) -> Result<Option<Seq<char>>, BlockError> {
    if tokens.len() == 0 {
        Ok(None)
    } else if !is_each_key(tokens[0]) {
        Err(BlockError { token: 0, kind: SyntaxErrorKind::UnknownKey })
    } else if tokens.len() < 2 || !is_punct(tokens[1], '=') {
        Err(BlockError { token: 1, kind: SyntaxErrorKind::ExpectedEquals })
    } else if tokens.len() < 3 || !(tokens[2] is Literal) || decoded is None {
        Err(BlockError { token: 2, kind: SyntaxErrorKind::ExpectedStringLiteral })
    } else if !(tokens.len() == 3 || (tokens.len() == 4 && is_punct(tokens[3], ','))) {
        Err(BlockError { token: 3, kind: SyntaxErrorKind::TrailingTokens })
    } else if !valid_name {
        Err(BlockError { token: 2, kind: SyntaxErrorKind::InvalidName })
    } else {
        Ok(Some(decoded->Some_0))
    }
}

/// What the third token of `tokens` decodes to, where it is a literal.
pub open spec fn decoded_of(tokens: Seq<Token>) -> Option<Seq<char>> {
    if tokens.len() > 2 {
        match tokens[2] {
            Token::Literal(text) => string_literal_value(text@),
            _ => None,
        }
    } else {
        None
    }
}

/// Whether the third token of `tokens` decodes to an identifier.
pub open spec fn name_valid_of(tokens: Seq<Token>) -> bool {
    match decoded_of(tokens) {
        Some(value) => is_identifier_text(value),
        None => false,
    }
}

fn token_is_each(token: &Token) -> (res: bool)
    ensures
        res == is_each_key(*token),
{
    match token {
        Token::Ident(name) => text_is(name, "each"),
        _ => false,
    }
}

fn token_is_punct(token: &Token, mark: char) -> (res: bool)
    ensures
        res == is_punct(*token, mark),
{
    match token {
        Token::Punct(c) => *c == mark,
        _ => false,
    }
}

fn token_is_literal(token: &Token) -> (res: bool)
    ensures
        res == (*token is Literal),
{
    match token {
        Token::Literal(_) => true,
        _ => false,
    }
}

/// Parses one argument list, with the decoding of its literal supplied.
pub fn parse_block_with(tokens: &Vec<Token>, decoded: Option<String>, valid_name: bool) -> (res: Result<
    Option<String>,
    BlockError,
>)
    ensures
        match res {
            Ok(name) => block_outcome(tokens@, text_of(decoded), valid_name) == Ok::<_, BlockError>(
                text_of(name),
            ),
            Err(e) => block_outcome(tokens@, text_of(decoded), valid_name) == Err::<
                Option<Seq<char>>,
                _,
            >(e),
        },
{
    if tokens.len() == 0 {
        return Ok(None);
    }
    if !token_is_each(&tokens[0]) {
        return Err(BlockError { token: 0, kind: SyntaxErrorKind::UnknownKey });
    }
    if tokens.len() < 2 || !token_is_punct(&tokens[1], '=') {
        return Err(BlockError { token: 1, kind: SyntaxErrorKind::ExpectedEquals });
    }
    if tokens.len() < 3 || !token_is_literal(&tokens[2]) {
        return Err(BlockError { token: 2, kind: SyntaxErrorKind::ExpectedStringLiteral });
    }
    match decoded {
        None => Err(BlockError { token: 2, kind: SyntaxErrorKind::ExpectedStringLiteral }),
        Some(name) => {
            if !(tokens.len() == 3 || (tokens.len() == 4 && token_is_punct(&tokens[3], ','))) {
                Err(BlockError { token: 3, kind: SyntaxErrorKind::TrailingTokens })
            } else if !valid_name {
                Err(BlockError { token: 2, kind: SyntaxErrorKind::InvalidName })
            } else {
                Ok(Some(name))
            }
        },
    }
}

/// Parses one argument list.
pub fn parse_block(tokens: &Vec<Token>) -> (res: Result<Option<String>, BlockError>)
    ensures
        match res {
            Ok(name) => block_outcome(tokens@, decoded_of(tokens@), name_valid_of(tokens@)) == Ok::<
                _,
                BlockError,
            >(text_of(name)),
            Err(e) => block_outcome(tokens@, decoded_of(tokens@), name_valid_of(tokens@)) == Err::<
                Option<Seq<char>>,
                _,
            >(e),
        },
{
    let decoded = if tokens.len() > 2 {
        match &tokens[2] {
            Token::Literal(text) => decode_string_literal(text.as_str()),
            _ => None,
        }
    } else {
        None
    };
    let valid_name = match &decoded {
        Some(value) => is_identifier(value.as_str()),
        None => false,
    };
    parse_block_with(tokens, decoded, valid_name)
}

/// Whether the annotation's path is the single identifier `builder`.
pub open spec fn is_builder_path(annotation: Annotation) -> bool {
    !annotation.leading_colon && annotation.path@.len() == 1 && annotation.path@[0]@
        == "builder"@
}

/// The outcome of one `builder` annotation.
pub open spec fn annotation_outcome(annotation: Annotation) -> Result<Option<Seq<char>>, BlockError> {
    match annotation.body {
        AnnotationBody::List(tokens) => block_outcome(
            tokens@,
            decoded_of(tokens@),
            name_valid_of(tokens@),
        ),
        _ => Err(BlockError { token: 0, kind: SyntaxErrorKind::MissingArguments }),
    }
}

/// The configuration read from the annotations at `start` and after, where
/// `seen` says whether an empty `builder()` came before.
///
/// Annotations with another path are passed over. The first `builder`
/// annotation that is refused, or that names an accumulator, decides.
pub open spec fn config_from(annotations: Seq<Annotation>, start: nat, seen: bool) -> Result<
    ConfigView,
    AttributeSyntaxError,
>
    decreases annotations.len() - start,
{
    if start >= annotations.len() {
        Ok(
            if seen {
                ConfigView::CustomBuilder
            } else {
                ConfigView::Absent
            },
        )
    } else if !is_builder_path(annotations[start as int]) {
        config_from(annotations, start + 1, seen)
    } else {
        match annotation_outcome(annotations[start as int]) {
            Err(e) => Err(
                AttributeSyntaxError { annotation: start as usize, token: e.token, kind: e.kind },
            ),
            Ok(Some(name)) => Ok(ConfigView::Accumulator(name)),
            Ok(None) => config_from(annotations, start + 1, true),
        }
    }
}

/// The configuration that a field's annotations give.
pub open spec fn config_of(annotations: Seq<Annotation>) -> Result<ConfigView, AttributeSyntaxError> {
    config_from(annotations, 0, false)
}

/// Whether the annotation is a `builder` annotation.
pub fn builder_of(annotation: &Annotation) -> (res: bool)
    ensures
        res == is_builder_path(*annotation),
{
    !annotation.leading_colon && annotation.path.len() == 1 && text_is(
        &annotation.path[0],
        "builder",
    )
}

fn parse_annotation(annotation: &Annotation) -> (res: Result<Option<String>, BlockError>)
    ensures
        match res {
            Ok(name) => annotation_outcome(*annotation) == Ok::<_, BlockError>(text_of(name)),
            Err(e) => annotation_outcome(*annotation) == Err::<Option<Seq<char>>, _>(e),
        },
{
    match &annotation.body {
        AnnotationBody::List(tokens) => parse_block(tokens),
        _ => Err(BlockError { token: 0, kind: SyntaxErrorKind::MissingArguments }),
    }
}

/// Reads a field's annotations.
pub fn parse_annotations(annotations: &Vec<Annotation>) -> (res: Result<
    AnnotationConfig,
    AttributeSyntaxError,
>)
    ensures
        match res {
            Ok(config) => config_of(annotations@) == Ok::<_, AttributeSyntaxError>(config@),
            Err(e) => config_of(annotations@) == Err::<ConfigView, _>(e),
        },
{
    let mut seen = false;
    let mut i: usize = 0;
    while i < annotations.len()
        invariant
            i <= annotations.len(),
            config_of(annotations@) == config_from(annotations@, i as nat, seen),
        decreases annotations.len() - i,
    {
        if builder_of(&annotations[i]) {
            match parse_annotation(&annotations[i]) {
                Err(e) => {
                    return Err(AttributeSyntaxError { annotation: i, token: e.token, kind: e.kind });
                },
                Ok(Some(name)) => {
                    return Ok(AnnotationConfig::Accumulator(name));
                },
                Ok(None) => {
                    seen = true;
                },
            }
        }
        i += 1;
    }
    if seen {
        Ok(AnnotationConfig::CustomBuilder)
    } else {
        Ok(AnnotationConfig::Absent)
    }
}

} // verus!
