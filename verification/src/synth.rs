//! Assembly of the builder's description from the resolved field plans.

use vstd::prelude::*;
use crate::plan::{
    DefaultInit, FieldPlan, FinalizeExpr, PlanView, Representation, Setter, SetterBody, SetterView,
    plan_views, setter_views,
};
use crate::schema::concat;

verus! {

/// One storage slot of the builder.
#[derive(Debug, Clone, PartialEq, Eq)]
pub struct Slot {
    pub field: String,
    pub declared_type: String,
    pub representation: Representation,
    pub default_init: DefaultInit,
    pub finalize_expr: FinalizeExpr,
}

/// The mathematical value of a `Slot`.
pub struct SlotView {
    pub field: Seq<char>,
    pub declared_type: Seq<char>,
    pub representation: Representation,
    pub default_init: DefaultInit,
    pub finalize_expr: FinalizeExpr,
}

impl View for Slot {
    type V = SlotView;

    open spec fn view(&self) -> SlotView {
        SlotView {
            field: self.field@,
            declared_type: self.declared_type@,
            representation: self.representation,
            default_init: self.default_init,
            finalize_expr: self.finalize_expr,
        }
    }
}

/// One method of the builder: a setter that was not suppressed.
#[derive(Debug, Clone, PartialEq, Eq)]
pub struct Method {
    pub name: String,
    pub parameter_type: String,
    /// Index of the slot that the method writes.
    pub slot: usize,
    pub body: SetterBody,
}

/// The mathematical value of a `Method`.
pub struct MethodView {
    pub name: Seq<char>,
    pub parameter_type: Seq<char>,
    pub slot: int,
    pub body: SetterBody,
}

impl View for Method {
    type V = MethodView;

    open spec fn view(&self) -> MethodView {
        MethodView {
            name: self.name@,
            parameter_type: self.parameter_type@,
            slot: self.slot as int,
            body: self.body,
        }
    }
}

/// The builder of one record type.
#[derive(Debug, Clone, PartialEq, Eq)]
pub struct BuilderDef {
    pub record_name: String,
    pub builder_name: String,
    /// One slot per planned field, in declaration order.
    pub slots: Vec<Slot>,
    /// The surviving setters, in declaration order of their fields.
    pub methods: Vec<Method>,
}

/// The mathematical value of a `BuilderDef`.
pub struct BuilderDefView {
    pub record_name: Seq<char>,
    pub builder_name: Seq<char>,
    pub slots: Seq<SlotView>,
    pub methods: Seq<MethodView>,
}

/// The values of `slots`, in order.
pub open spec fn slot_views(slots: Seq<Slot>) -> Seq<SlotView> {
    Seq::new(slots.len(), |i: int| slots[i]@)
}

/// The values of `methods`, in order.
pub open spec fn method_views(methods: Seq<Method>) -> Seq<MethodView> {
    Seq::new(methods.len(), |i: int| methods[i]@)
}

impl View for BuilderDef {
    type V = BuilderDefView;

    open spec fn view(&self) -> BuilderDefView {
        BuilderDefView {
            record_name: self.record_name@,
            builder_name: self.builder_name@,
            slots: slot_views(self.slots@),
            methods: method_views(self.methods@),
        }
    }
}

/// Every method of `def` writes a slot of `def`.
pub open spec fn def_wf(def: BuilderDefView) -> bool {
    forall|m: int| 0 <= m < def.methods.len() ==> 0 <= (#[trigger] def.methods[m]).slot < def.slots.len()
}

impl BuilderDef {
    /// Every method writes a slot that exists.
    pub open spec fn wf(&self) -> bool {
        def_wf(self@)
    }

    /// Tests whether every method writes a slot that exists.
    pub fn well_formed(&self) -> (res: bool)
        ensures
            res == self.wf(),
    {
        let mut m: usize = 0;
        while m < self.methods.len()
            invariant
                m <= self.methods@.len(),
                forall|k: int| 0 <= k < m ==> (#[trigger] self.methods@[k]).slot < self.slots@.len(),
            decreases self.methods.len() - m,
        {
            if self.methods[m].slot >= self.slots.len() {
                assert(self@.methods[m as int] == self.methods@[m as int]@);
                return false;
            }
            m += 1;
        }
        assert forall|k: int| 0 <= k < self@.methods.len() implies 0 <= (#[trigger] self@.methods[k]).slot
            < self@.slots.len() by {
            assert(self@.methods[k] == self.methods@[k]@);
        }
        true
    }
}

/// The slot that stores the field of `plan`.
pub open spec fn slot_of(plan: PlanView) -> SlotView {
    SlotView {
        field: plan.field,
        declared_type: plan.declared_type,
        representation: plan.representation,
        default_init: plan.default_init,
        finalize_expr: plan.finalize_expr,
    }
}

/// The method that `setter` becomes, writing slot number `slot`.
pub open spec fn method_of(setter: SetterView, slot: int) -> MethodView {
    MethodView { name: setter.name, parameter_type: setter.parameter_type, slot, body: setter.body }
}

/// The methods for the first `n` of `setters`: those not suppressed, in order.
pub open spec fn surviving(setters: Seq<SetterView>, slot: int, n: nat) -> Seq<MethodView>
    decreases n,
{
    if n == 0 {
        Seq::empty()
    } else if setters[n - 1].suppressed {
        surviving(setters, slot, (n - 1) as nat)
    } else {
        surviving(setters, slot, (n - 1) as nat).push(method_of(setters[n - 1], slot))
    }
}

/// The methods for the first `n` of `plans`, field after field.
pub open spec fn methods_upto(plans: Seq<PlanView>, n: nat) -> Seq<MethodView>
    decreases n,
{
    if n == 0 {
        Seq::empty()
    } else {
        methods_upto(plans, (n - 1) as nat) + surviving(
            plans[n - 1].setters,
            n - 1,
            plans[n - 1].setters.len(),
        )
    }
}

/// The builder for the record `record_name` with the resolved `plans`: it
/// is named after the record with the suffix `Builder`, has one slot per
/// plan and one method per surviving setter, all in declaration order.
pub open spec fn builder_for(record_name: Seq<char>, plans: Seq<PlanView>) -> BuilderDefView {
    BuilderDefView {
        record_name,
        builder_name: record_name + "Builder"@,
        slots: Seq::new(plans.len(), |i: int| slot_of(plans[i])),
        methods: methods_upto(plans, plans.len()),
    }
}

/// Every method of `methods_upto(plans, n)` writes a slot below `n`.
pub proof fn lemma_methods_upto_slots(plans: Seq<PlanView>, n: nat)
    requires
        n <= plans.len(),
    ensures
        forall|m: int|
            0 <= m < methods_upto(plans, n).len() ==> 0 <= (#[trigger] methods_upto(plans, n)[m]).slot
                < n,
    decreases n,
{
    if n > 0 {
        lemma_methods_upto_slots(plans, (n - 1) as nat);
        lemma_surviving_slots(plans[n - 1].setters, n - 1, plans[n - 1].setters.len());
    }
}

/// Every method of `surviving(setters, slot, n)` writes `slot`.
pub proof fn lemma_surviving_slots(setters: Seq<SetterView>, slot: int, n: nat)
    requires
        n <= setters.len(),
    ensures
        forall|m: int|
            0 <= m < surviving(setters, slot, n).len() ==> (#[trigger] surviving(setters, slot, n)[m]).slot
                == slot,
    decreases n,
{
    if n > 0 {
        lemma_surviving_slots(setters, slot, (n - 1) as nat);
    }
}

fn new_slot(plan: &FieldPlan) -> (res: Slot)
    ensures
        res@ == slot_of(plan@),
{
    Slot {
        field: plan.field.clone(),
        declared_type: plan.declared_type.clone(),
        representation: plan.representation,
        default_init: plan.default_init,
        finalize_expr: plan.finalize_expr,
    }
}

fn new_method(setter: &Setter, slot: usize) -> (res: Method)
    ensures
        res@ == method_of(setter@, slot as int),
{
    Method {
        name: setter.name.clone(),
        parameter_type: setter.parameter_type.clone(),
        slot,
        body: setter.body,
    }
}

/// Assembles the builder of the record `record_name` from its resolved plans.
pub fn synthesize(record_name: &str, plans: &Vec<FieldPlan>) -> (res: BuilderDef)
    ensures
        res@ == builder_for(record_name@, plan_views(plans@)),
        res.wf(),
{
    let ghost views = plan_views(plans@);
    let mut slots: Vec<Slot> = Vec::new();
    let mut methods: Vec<Method> = Vec::new();
    let mut i: usize = 0;
    while i < plans.len()
        invariant
            i <= plans.len(),
            views == plan_views(plans@),
            slots@.len() == i,
            forall|m: int| 0 <= m < i ==> (#[trigger] slots@[m])@ == slot_of(views[m]),
            method_views(methods@) == methods_upto(views, i as nat),
        decreases plans.len() - i,
    {
        let plan = &plans[i];
        slots.push(new_slot(plan));
        let ghost before = method_views(methods@);
        let ghost setters = setter_views(plan.setters@);
        let mut j: usize = 0;
        while j < plan.setters.len()
            invariant
                j <= plan.setters.len(),
                setters == setter_views(plan.setters@),
                method_views(methods@) == before + surviving(setters, i as int, j as nat),
            decreases plan.setters.len() - j,
        {
            let ghost old_views = method_views(methods@);
            if !plan.setters[j].suppressed {
                methods.push(new_method(&plan.setters[j], i));
                assert(method_views(methods@) =~= old_views.push(
                    method_of(setters[j as int], i as int),
                ));
            }
            assert(method_views(methods@) =~= before + surviving(setters, i as int, (j + 1) as nat));
            j += 1;
        }
        assert(views[i as int].setters == setters);
        i += 1;
    }
    let res = BuilderDef {
        record_name: record_name.to_owned(),
        builder_name: concat(record_name, "Builder"),
        slots,
        methods,
    };
    proof {
        assert(res@.slots =~= builder_for(record_name@, views).slots);
        lemma_methods_upto_slots(views, views.len());
    }
    res
}

} // verus!
