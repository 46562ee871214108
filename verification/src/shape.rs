//! Structural classification of declared types.

use vstd::prelude::*;
use crate::schema::{GenericArg, TypeExpr, text_is};

verus! {

/// The wrappers that classification recognizes.
#[derive(Debug, Clone, Copy, PartialEq, Eq, Structural)]
pub enum WrapperKind {
    /// `Option<T>`
    Optional,
    /// `Vec<T>`
    List,
}

/// The shape of a declared type.
#[derive(Debug, Clone, PartialEq, Eq)]
pub enum TypeShape {
    /// Not a recognized wrapper; holds the type's text.
    Plain(String),
    /// A recognized wrapper around the inner type, held by its text.
    Wrapped(WrapperKind, String),
}

/// The mathematical value of a `TypeShape`.
pub enum ShapeView {
    Plain(Seq<char>),
    Wrapped(WrapperKind, Seq<char>),
}

impl View for TypeShape {
    type V = ShapeView;

    open spec fn view(&self) -> ShapeView {
        match *self {
            TypeShape::Plain(t) => ShapeView::Plain(t@),
            TypeShape::Wrapped(k, t) => ShapeView::Wrapped(k, t@),
        }
    }
}

/// The inner type of `ty` if `ty` is a one-segment path named `wrapper`
/// with exactly one angle-bracketed argument, that argument being a type.
pub open spec fn unwrapped(wrapper: Seq<char>, ty: TypeExpr) -> Option<Seq<char>> {
    match ty.path {
        Some(segments) => {
            if segments@.len() == 1 && segments@[0].ident@ == wrapper {
                match segments@[0].generics {
                    Some(args) => {
                        if args@.len() == 1 {
                            match args@[0] {
                                GenericArg::Type(inner) => Some(inner@),
                                GenericArg::Other => None,
                            }
                        } else {
                            None
                        }
                    },
                    None => None,
                }
            } else {
                None
            }
        },
        None => None,
    }
}

/// The shape of `ty`: an `Option` or `Vec` wrapper, or plain.
pub open spec fn shape_of(ty: TypeExpr) -> ShapeView {
    if let Some(inner) = unwrapped("Option"@, ty) {
        ShapeView::Wrapped(WrapperKind::Optional, inner)
    } else if let Some(inner) = unwrapped("Vec"@, ty) {
        ShapeView::Wrapped(WrapperKind::List, inner)
    } else {
        ShapeView::Plain(ty.text@)
    }
}

/// Looks through one wrapper named `wrapper_t`.
pub fn unwrap_wrapper_t<'a>(wrapper_t: &str, ty: &'a TypeExpr) -> (res: Option<&'a String>)
    ensures
        match res {
            Some(inner) => unwrapped(wrapper_t@, *ty) == Some(inner@),
            None => unwrapped(wrapper_t@, *ty) is None,
        },
{
    match &ty.path {
        Some(segments) => {
            if segments.len() != 1 || !text_is(&segments[0].ident, wrapper_t) {
                return None;
            }
            match &segments[0].generics {
                Some(args) => {
                    if args.len() != 1 {
                        return None;
                    }
                    match &args[0] {
                        GenericArg::Type(inner) => Some(inner),
                        GenericArg::Other => None,
                    }
                },
                None => None,
            }
        },
        None => None,
    }
}

/// Classifies a declared type.
pub fn detect_shape(ty: &TypeExpr) -> (res: TypeShape)
    ensures
        res@ == shape_of(*ty),
{
    if let Some(inner) = unwrap_wrapper_t("Option", ty) {
        TypeShape::Wrapped(WrapperKind::Optional, inner.clone())
    } else if let Some(inner) = unwrap_wrapper_t("Vec", ty) {
        TypeShape::Wrapped(WrapperKind::List, inner.clone())
    } else {
        TypeShape::Plain(ty.text.clone())
    }
}

} // verus!
