//! The generation pass: from a record's description to its builder.

use vstd::prelude::*;
use crate::annotation::{AttributeSyntaxError, config_of, parse_annotations};
use crate::plan::{FieldPlan, PlanView, UnsupportedShapeError, classify, plan_of, plan_views};
use crate::resolve::{resolve_conflicts, resolved_plans};
use crate::schema::FieldSpec;
use crate::synth::{BuilderDef, builder_for, synthesize};

verus! {

/// The kind of item that generation was asked for.
#[derive(Debug, Clone, Copy, PartialEq, Eq, Structural)]
pub enum InputKind {
    /// A record with named fields: the only kind that gets a builder.
    NamedRecord,
    /// A record with positional fields.
    TupleRecord,
    /// A record without fields or braces.
    UnitRecord,
    Enumeration,
    Union,
}

/// The description of the item that generation was asked for.
#[derive(Debug, Clone, PartialEq, Eq)]
pub struct RecordSpec {
    pub name: String,
    pub kind: InputKind,
    /// The fields in declaration order; empty unless `kind` is `NamedRecord`.
    pub fields: Vec<FieldSpec>,
}

/// A refused annotation, with the index of the field that carries it.
#[derive(Debug, Clone, Copy, PartialEq, Eq, Structural)]
pub struct Diagnostic {
    pub field: usize,
    pub error: AttributeSyntaxError,
}

/// What planning one field gives.
#[derive(Debug, Clone, PartialEq, Eq)]
pub enum FieldResult {
    /// The field has a plan.
    Planned(FieldPlan),
    /// An annotation was refused: the field contributes a diagnostic only.
    Refused(AttributeSyntaxError),
    /// The field's type cannot carry its annotation: generation stops.
    Unsupported(UnsupportedShapeError),
}

/// The mathematical value of a `FieldResult`.
pub enum FieldOutcome {
    Planned(PlanView),
    Refused(AttributeSyntaxError),
    Unsupported,
}

/// The plans and diagnostics of a record's fields.
#[derive(Debug, Clone, PartialEq, Eq)]
pub struct Planned {
    pub plans: Vec<FieldPlan>,
    pub diagnostics: Vec<Diagnostic>,
}

/// The result of a generation pass.
#[derive(Debug, Clone, PartialEq, Eq)]
pub struct Generated {
    pub builder: BuilderDef,
    /// The refused annotations, to be reported in place of the code of
    /// their fields.
    pub diagnostics: Vec<Diagnostic>,
}

/// Why no builder was generated.
#[derive(Debug, Clone, PartialEq, Eq)]
pub enum GenerationError {
    /// The item is not a record with named fields.
    UnsupportedInputKind(InputKind),
    /// A field's type cannot carry its accumulator annotation.
    UnsupportedShape(UnsupportedShapeError),
}

/// What planning `field` gives: a refusal where its annotations are
/// malformed, else its plan, else the finding that its type cannot carry
/// the accumulator.
pub open spec fn outcome_of(field: FieldSpec) -> FieldOutcome {
    match config_of(field.annotations@) {
        Err(e) => FieldOutcome::Refused(e),
        Ok(config) => match plan_of(field.name@, field.declared_type, config) {
            Some(plan) => FieldOutcome::Planned(plan),
            None => FieldOutcome::Unsupported,
        },
    }
}

/// The plans of the first `n` fields, in declaration order; fields with a
/// refused annotation have none.
pub open spec fn plans_upto(fields: Seq<FieldSpec>, n: nat) -> Seq<PlanView>
    decreases n,
{
    if n == 0 {
        Seq::empty()
    } else {
        match outcome_of(fields[n - 1]) {
            FieldOutcome::Planned(plan) => plans_upto(fields, (n - 1) as nat).push(plan),
            _ => plans_upto(fields, (n - 1) as nat),
        }
    }
}

/// The diagnostics of the first `n` fields, in declaration order.
pub open spec fn diagnostics_upto(fields: Seq<FieldSpec>, n: nat) -> Seq<Diagnostic>
    decreases n,
{
    if n == 0 {
        Seq::empty()
    } else {
        match outcome_of(fields[n - 1]) {
            FieldOutcome::Refused(error) => diagnostics_upto(fields, (n - 1) as nat).push(
                Diagnostic { field: (n - 1) as usize, error },
            ),
            _ => diagnostics_upto(fields, (n - 1) as nat),
        }
    }
}

/// No field among the first `n` is unsupported.
pub open spec fn supported_upto(fields: Seq<FieldSpec>, n: int) -> bool {
    forall|j: int| 0 <= j < n && j < fields.len() ==> !(#[trigger] outcome_of(fields[j]) is Unsupported)
}

/// Field `i` is the first unsupported one, and `error` reports it.
pub open spec fn reports_first_unsupported(
    fields: Seq<FieldSpec>,
    error: UnsupportedShapeError,
) -> bool {
    exists|i: int|
        0 <= i < fields.len() && supported_upto(fields, i) && #[trigger] outcome_of(fields[i])
            is Unsupported && error.field@ == fields[i].name@ && error.declared_type@
            == fields[i].declared_type.text@
}

/// Parses the annotations of one field and plans it.
pub fn plan_field(field: &FieldSpec) -> (res: FieldResult)
    ensures
        match res {
            FieldResult::Planned(plan) => outcome_of(*field) == FieldOutcome::Planned(plan@),
            FieldResult::Refused(e) => outcome_of(*field) == FieldOutcome::Refused(e),
            FieldResult::Unsupported(e) => outcome_of(*field) is Unsupported && e.field@
                == field.name@ && e.declared_type@ == field.declared_type.text@,
        },
{
    match parse_annotations(&field.annotations) {
        Err(e) => FieldResult::Refused(e),
        Ok(config) => match classify(field, &config) {
            Ok(plan) => FieldResult::Planned(plan),
            Err(e) => FieldResult::Unsupported(e),
        },
    }
}

/// Plans every field in declaration order. A refused annotation costs its
/// field alone; the first unsupported field stops the pass.
pub fn plan_fields(fields: &Vec<FieldSpec>) -> (res: Result<Planned, UnsupportedShapeError>)
    ensures
        match res {
            Ok(planned) => supported_upto(fields@, fields@.len() as int) && plan_views(
                planned.plans@,
            ) == plans_upto(fields@, fields@.len()) && planned.diagnostics@ == diagnostics_upto(
                fields@,
                fields@.len(),
            ),
            Err(e) => reports_first_unsupported(fields@, e),
        },
{
    let mut plans: Vec<FieldPlan> = Vec::new();
    let mut diagnostics: Vec<Diagnostic> = Vec::new();
    let mut i: usize = 0;
    while i < fields.len()
        invariant
            i <= fields.len(),
            supported_upto(fields@, i as int),
            plan_views(plans@) == plans_upto(fields@, i as nat),
            diagnostics@ == diagnostics_upto(fields@, i as nat),
        decreases fields.len() - i,
    {
        let ghost before = plan_views(plans@);
        match plan_field(&fields[i]) {
            FieldResult::Planned(plan) => {
                plans.push(plan);
                assert(plan_views(plans@) =~= before.push(plan@));
            },
            FieldResult::Refused(error) => {
                diagnostics.push(Diagnostic { field: i, error });
            },
            FieldResult::Unsupported(e) => {
                return Err(e);
            },
        }
        i += 1;
    }
    Ok(Planned { plans, diagnostics })
}

/// Generates the builder of `record`.
///
/// Anything but a record with named fields is refused, and so is a record
/// with an unsupported field. Otherwise the builder is assembled from the
/// resolved plans of the fields whose annotations were accepted, and the
/// refused annotations are handed back beside it.
pub fn derive(record: &RecordSpec) -> (res: Result<Generated, GenerationError>)
    ensures
        match res {
            Ok(generated) => record.kind == InputKind::NamedRecord && supported_upto(
                record.fields@,
                record.fields@.len() as int,
            ) && generated.builder@ == builder_for(
                record.name@,
                resolved_plans(plans_upto(record.fields@, record.fields@.len())),
            ) && generated.builder.wf() && generated.diagnostics@ == diagnostics_upto(
                record.fields@,
                record.fields@.len(),
            ),
            Err(GenerationError::UnsupportedInputKind(kind)) => kind == record.kind && kind
                != InputKind::NamedRecord,
            Err(GenerationError::UnsupportedShape(e)) => record.kind == InputKind::NamedRecord
                && reports_first_unsupported(record.fields@, e),
        },
{
    match record.kind {
        InputKind::NamedRecord => {},
        kind => {
            return Err(GenerationError::UnsupportedInputKind(kind));
        },
    }
    match plan_fields(&record.fields) {
        Err(e) => Err(GenerationError::UnsupportedShape(e)),
        Ok(planned) => {
            let resolved = resolve_conflicts(planned.plans);
            let builder = synthesize(record.name.as_str(), &resolved);
            Ok(Generated { builder, diagnostics: planned.diagnostics })
        },
    }
}

} // verus!
