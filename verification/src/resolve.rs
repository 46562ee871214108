//! Resolution of setter name conflicts inside each field plan.

use vstd::prelude::*;
use crate::plan::{FieldPlan, PlanView, Setter, SetterBody, SetterView, plan_views, setter_views};

verus! {

/// Whether one of `setters` is a push setter called `name`.
pub open spec fn has_push_named(setters: Seq<SetterView>, name: Seq<char>) -> bool {
    exists|k: int|
        0 <= k < setters.len() && (#[trigger] setters[k]).body == SetterBody::Push && setters[k].name
            == name
}

/// A setter after resolution: one that is no push setter is suppressed
/// where a push setter of the same plan bears its name.
pub open spec fn resolved_setter(setters: Seq<SetterView>, j: int) -> SetterView {
    SetterView {
        name: setters[j].name,
        parameter_type: setters[j].parameter_type,
        body: setters[j].body,
        suppressed: setters[j].suppressed || (setters[j].body != SetterBody::Push && has_push_named(
            setters,
            setters[j].name,
        )),
    }
}

/// A plan after resolution: the same plan, each setter resolved.
pub open spec fn resolved_plan(plan: PlanView) -> PlanView {
    PlanView {
        field: plan.field,
        declared_type: plan.declared_type,
        representation: plan.representation,
        setters: Seq::new(plan.setters.len(), |j: int| resolved_setter(plan.setters, j)),
        default_init: plan.default_init,
        finalize_expr: plan.finalize_expr,
    }
}

/// All plans after resolution, in the same order.
pub open spec fn resolved_plans(plans: Seq<PlanView>) -> Seq<PlanView> {
    Seq::new(plans.len(), |i: int| resolved_plan(plans[i]))
}

fn push_named(setters: &Vec<Setter>, name: &String) -> (res: bool)
    ensures
        res == has_push_named(setter_views(setters@), name@),
{
    let mut k: usize = 0;
    while k < setters.len()
        invariant
            k <= setters.len(),
            forall|m: int|
                0 <= m < k ==> !((#[trigger] setter_views(setters@)[m]).body == SetterBody::Push
                    && setter_views(setters@)[m].name == name@),
        decreases setters.len() - k,
    {
        let is_push = match setters[k].body {
            SetterBody::Push => true,
            _ => false,
        };
        if is_push && setters[k].name == *name {
            assert(setter_views(setters@)[k as int].body == SetterBody::Push);
            return true;
        }
        k += 1;
    }
    false
}

/// Resolves the setters of one plan.
pub fn resolve_plan(plan: &FieldPlan) -> (res: FieldPlan)
    ensures
        res@ == resolved_plan(plan@),
{
    let mut setters: Vec<Setter> = Vec::new();
    let mut j: usize = 0;
    while j < plan.setters.len()
        invariant
            j <= plan.setters.len(),
            setters@.len() == j,
            forall|m: int|
                0 <= m < j ==> (#[trigger] setters@[m])@ == resolved_setter(
                    setter_views(plan.setters@),
                    m,
                ),
        decreases plan.setters.len() - j,
    {
        let setter = &plan.setters[j];
        let is_push = match setter.body {
            SetterBody::Push => true,
            _ => false,
        };
        let suppressed = setter.suppressed || (!is_push && push_named(&plan.setters, &setter.name));
        setters.push(
            Setter {
                name: setter.name.clone(),
                parameter_type: setter.parameter_type.clone(),
                body: setter.body,
                suppressed,
            },
        );
        j += 1;
    }
    let res = FieldPlan {
        field: plan.field.clone(),
        declared_type: plan.declared_type.clone(),
        representation: plan.representation,
        setters,
        default_init: plan.default_init,
        finalize_expr: plan.finalize_expr,
    };
    assert(res@.setters =~= resolved_plan(plan@).setters);
    res
}

/// Marks, in every plan, the setters that a push setter of the same plan
/// displaces. Nothing else changes, and the order is kept.
pub fn resolve_conflicts(plans: Vec<FieldPlan>) -> (res: Vec<FieldPlan>)
    ensures
        plan_views(res@) == resolved_plans(plan_views(plans@)),
{
    let mut out: Vec<FieldPlan> = Vec::new();
    let mut i: usize = 0;
    while i < plans.len()
        invariant
            i <= plans.len(),
            out@.len() == i,
            forall|m: int| 0 <= m < i ==> (#[trigger] out@[m])@ == resolved_plan(plans@[m]@),
        decreases plans.len() - i,
    {
        out.push(resolve_plan(&plans[i]));
        i += 1;
    }
    assert(plan_views(out@) =~= resolved_plans(plan_views(plans@)));
    out
}

} // verus!
