//! Field plans: how the builder stores, sets and finalizes each field.

use vstd::prelude::*;
use crate::annotation::{AnnotationConfig, ConfigView};
use crate::schema::{FieldSpec, TypeExpr, concat};
use crate::shape::{ShapeView, TypeShape, WrapperKind, detect_shape, shape_of};

verus! {

/// How the builder stores a field.
#[derive(Debug, Clone, Copy, PartialEq, Eq, Structural)]
pub enum Representation {
    /// As an optional of the declared type.
    StoredOptional,
    /// As the declared type itself.
    StoredDirect,
    /// As the declared list, filled element by element.
    StoredList,
}

/// What a setter does with its argument.
#[derive(Debug, Clone, Copy, PartialEq, Eq, Structural)]
pub enum SetterBody {
    /// Stores `Some(value)`.
    StoreSome,
    /// Stores the value as it is.
    StoreDirect,
    /// Pushes the value onto the stored list.
    Push,
}

/// What a fresh builder holds for a field.
#[derive(Debug, Clone, Copy, PartialEq, Eq, Structural)]
pub enum DefaultInit {
    /// The absent optional.
    Unset,
    /// The empty list.
    EmptyList,
}

/// How finalization reads a field.
#[derive(Debug, Clone, Copy, PartialEq, Eq, Structural)]
pub enum FinalizeExpr {
    /// The field must have been set; otherwise finalization fails.
    RequireSet,
    /// The stored value is cloned as it is.
    PassThroughClone,
}

/// One setter of the builder.
#[derive(Debug, Clone, PartialEq, Eq)]
pub struct Setter {
    pub name: String,
    pub parameter_type: String,
    pub body: SetterBody,
    /// Whether the setter is left out of the builder's surface.
    pub suppressed: bool,
}

/// The mathematical value of a `Setter`.
pub struct SetterView {
    pub name: Seq<char>,
    pub parameter_type: Seq<char>,
    pub body: SetterBody,
    pub suppressed: bool,
}

impl View for Setter {
    type V = SetterView;

    open spec fn view(&self) -> SetterView {
        SetterView {
            name: self.name@,
            parameter_type: self.parameter_type@,
            body: self.body,
            suppressed: self.suppressed,
        }
    }
}

/// The plan for one field.
#[derive(Debug, Clone, PartialEq, Eq)]
pub struct FieldPlan {
    pub field: String,
    pub declared_type: String,
    pub representation: Representation,
    pub setters: Vec<Setter>,
    pub default_init: DefaultInit,
    pub finalize_expr: FinalizeExpr,
}

/// The mathematical value of a `FieldPlan`.
pub struct PlanView {
    pub field: Seq<char>,
    pub declared_type: Seq<char>,
    pub representation: Representation,
    pub setters: Seq<SetterView>,
    pub default_init: DefaultInit,
    pub finalize_expr: FinalizeExpr,
}

/// The values of `setters`, in order.
pub open spec fn setter_views(setters: Seq<Setter>) -> Seq<SetterView> {
    Seq::new(setters.len(), |i: int| setters[i]@)
}

/// The values of `plans`, in order.
pub open spec fn plan_views(plans: Seq<FieldPlan>) -> Seq<PlanView> {
    Seq::new(plans.len(), |i: int| plans[i]@)
}

impl View for FieldPlan {
    type V = PlanView;

    open spec fn view(&self) -> PlanView {
        PlanView {
            field: self.field@,
            declared_type: self.declared_type@,
            representation: self.representation,
            setters: setter_views(self.setters@),
            default_init: self.default_init,
            finalize_expr: self.finalize_expr,
        }
    }
}

/// An accumulator was asked for on a field whose type is not a list.
#[derive(Debug, Clone, PartialEq, Eq)]
pub struct UnsupportedShapeError {
    pub field: String,
    pub declared_type: String,
}

impl UnsupportedShapeError {
    /// The explanation shown to the user; it names the field.
    pub fn message(&self) -> (res: String)
        ensures
            res@ == "field with `builder(each = ...)` must be of type `Vec`: "@ + self.field@,
    {
        concat("field with `builder(each = ...)` must be of type `Vec`: ", self.field.as_str())
    }
}

/// A setter that is not suppressed.
pub open spec fn setter_of(name: Seq<char>, parameter_type: Seq<char>, body: SetterBody) -> SetterView {
    SetterView { name, parameter_type, body, suppressed: false }
}

/// The plan for a field named `name`, declared as `ty`, configured by
/// `config`; `None` where an accumulator is asked for on a type that is not
/// `Vec<T>`.
///
/// - An accumulator on `Vec<T>`: stored as the list, starting empty, passed
///   through; a direct setter taking the whole list and a push setter
///   taking `T`.
/// - Otherwise `Option<T>`: stored as declared and passed through; the
///   setter takes `T` and stores `Some`.
/// - Otherwise a custom builder: stored as declared, starting empty, passed
///   through; the setter stores its argument.
/// - Otherwise: stored as an optional, starting unset, required at
///   finalization; the setter stores `Some`.
pub open spec fn plan_of(name: Seq<char>, ty: TypeExpr, config: ConfigView) -> Option<PlanView> {
    match config {
        ConfigView::Accumulator(push) => match shape_of(ty) {
            ShapeView::Wrapped(WrapperKind::List, inner) => Some(
                PlanView {
                    field: name,
                    declared_type: ty.text@,
                    representation: Representation::StoredList,
                    setters: seq![
                        setter_of(name, ty.text@, SetterBody::StoreDirect),
                        setter_of(push, inner, SetterBody::Push),
                    ],
                    default_init: DefaultInit::EmptyList,
                    finalize_expr: FinalizeExpr::PassThroughClone,
                },
            ),
            _ => None,
        },
        _ => match shape_of(ty) {
            ShapeView::Wrapped(WrapperKind::Optional, inner) => Some(
                PlanView {
                    field: name,
                    declared_type: ty.text@,
                    representation: Representation::StoredDirect,
                    setters: seq![setter_of(name, inner, SetterBody::StoreSome)],
                    default_init: if config is CustomBuilder {
                        DefaultInit::EmptyList
                    } else {
                        DefaultInit::Unset
                    },
                    finalize_expr: FinalizeExpr::PassThroughClone,
                },
            ),
            _ => if config is CustomBuilder {
                Some(
                    PlanView {
                        field: name,
                        declared_type: ty.text@,
                        representation: Representation::StoredDirect,
                        setters: seq![setter_of(name, ty.text@, SetterBody::StoreDirect)],
                        default_init: DefaultInit::EmptyList,
                        finalize_expr: FinalizeExpr::PassThroughClone,
                    },
                )
            } else {
                Some(
                    PlanView {
                        field: name,
                        declared_type: ty.text@,
                        representation: Representation::StoredOptional,
                        setters: seq![setter_of(name, ty.text@, SetterBody::StoreSome)],
                        default_init: DefaultInit::Unset,
                        finalize_expr: FinalizeExpr::RequireSet,
                    },
                )
            },
        },
    }
}

fn new_setter(name: &String, parameter_type: &String, body: SetterBody) -> (res: Setter)
    ensures
        res@ == setter_of(name@, parameter_type@, body),
{
    Setter { name: name.clone(), parameter_type: parameter_type.clone(), body, suppressed: false }
}

/// Plans one field from its declared type and its parsed configuration.
pub fn classify(field: &FieldSpec, config: &AnnotationConfig) -> (res: Result<
    FieldPlan,
    UnsupportedShapeError,
>)
    ensures
        match res {
            Ok(plan) => plan_of(field.name@, field.declared_type, config@) == Some(plan@),
            Err(e) => plan_of(field.name@, field.declared_type, config@) is None && e.field@
                == field.name@ && e.declared_type@ == field.declared_type.text@,
        },
{
    let shape = detect_shape(&field.declared_type);
    let text = &field.declared_type.text;
    let mut setters: Vec<Setter> = Vec::new();
    let custom = match config {
        AnnotationConfig::CustomBuilder => true,
        _ => false,
    };
    let (representation, default_init, finalize_expr) = match config {
        AnnotationConfig::Accumulator(push) => match &shape {
            TypeShape::Wrapped(WrapperKind::List, inner) => {
                setters.push(new_setter(&field.name, text, SetterBody::StoreDirect));
                setters.push(new_setter(push, inner, SetterBody::Push));
                (
                    Representation::StoredList,
                    DefaultInit::EmptyList,
                    FinalizeExpr::PassThroughClone,
                )
            },
            _ => {
                return Err(
                    UnsupportedShapeError { field: field.name.clone(), declared_type: text.clone() },
                );
            },
        },
        _ => match &shape {
            TypeShape::Wrapped(WrapperKind::Optional, inner) => {
                setters.push(new_setter(&field.name, inner, SetterBody::StoreSome));
                (
                    Representation::StoredDirect,
                    if custom {
                        DefaultInit::EmptyList
                    } else {
                        DefaultInit::Unset
                    },
                    FinalizeExpr::PassThroughClone,
                )
            },
            _ => if custom {
                setters.push(new_setter(&field.name, text, SetterBody::StoreDirect));
                (
                    Representation::StoredDirect,
                    DefaultInit::EmptyList,
                    FinalizeExpr::PassThroughClone,
                )
            } else {
                setters.push(new_setter(&field.name, text, SetterBody::StoreSome));
                (Representation::StoredOptional, DefaultInit::Unset, FinalizeExpr::RequireSet)
            },
        },
    };
    let plan = FieldPlan {
        field: field.name.clone(),
        declared_type: text.clone(),
        representation,
        setters,
        default_init,
        finalize_expr,
    };
    proof {
        let expected = plan_of(field.name@, field.declared_type, config@);
        assert(expected is Some);
        assert(plan@.setters =~= expected->Some_0.setters);
    }
    Ok(plan)
}

} // verus!
