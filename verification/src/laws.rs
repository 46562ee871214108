//! What holds of every generated builder.

use vstd::prelude::*;
use crate::annotation::{
    AttributeSyntaxError, ConfigView, SyntaxErrorKind, config_of, is_builder_path, is_each_key,
};
use crate::generate::{Diagnostic, FieldOutcome, diagnostics_upto, outcome_of, plans_upto};
use crate::plan::{FinalizeExpr, SetterBody, plan_of};
use crate::resolve::{has_push_named, resolved_plan, resolved_plans};
use crate::runtime::{
    CallError, ValueView, call_outcome, find_from, first_missing, fresh_state, initial, is_missing,
    stored_after,
};
use crate::schema::{AnnotationBody, FieldSpec, TypeExpr};
use crate::shape::{ShapeView, WrapperKind, shape_of};
use crate::synth::{
    BuilderDefView, MethodView, SlotView, builder_for, def_wf, method_of, slot_of, surviving,
};

verus! {

/// A field without annotations whose type is no recognized wrapper.
pub open spec fn is_plain_field(field: FieldSpec) -> bool {
    field.annotations@.len() == 0 && shape_of(field.declared_type) is Plain
}

/// The plan of a plain field without annotations.
pub proof fn lemma_plain_plan(field: FieldSpec)
    requires
        is_plain_field(field),
    ensures
        outcome_of(field) == FieldOutcome::Planned(
            plan_of(field.name@, field.declared_type, ConfigView::Absent)->Some_0,
        ),
        plan_of(field.name@, field.declared_type, ConfigView::Absent) is Some,
{
    assert(config_of(field.annotations@) == Ok::<_, AttributeSyntaxError>(ConfigView::Absent));
}

/// Where the first `n` fields are plain, each has its plan, in order.
pub proof fn lemma_plain_plans(fields: Seq<FieldSpec>, n: nat)
    requires
        n <= fields.len(),
        forall|i: int| 0 <= i < fields.len() ==> is_plain_field(#[trigger] fields[i]),
    ensures
        plans_upto(fields, n).len() == n,
        forall|i: int|
            0 <= i < n ==> (#[trigger] plans_upto(fields, n)[i]) == plan_of(
                fields[i].name@,
                fields[i].declared_type,
                ConfigView::Absent,
            )->Some_0,
    decreases n,
{
    if n > 0 {
        lemma_plain_plans(fields, (n - 1) as nat);
        lemma_plain_plan(fields[n - 1]);
    }
}

/// Finalization succeeds exactly where no required slot holds nothing, and
/// where it fails, the reported slot is the first such slot.
pub proof fn lemma_first_missing(slots: Seq<SlotView>, state: Seq<Option<ValueView>>, start: nat)
    requires
        start <= slots.len(),
    ensures
        match first_missing(slots, state, start) {
            None => forall|i: int| start <= i < slots.len() ==> !is_missing(slots[i], state[i]),
            Some(k) => start <= k < slots.len() && is_missing(slots[k], state[k]) && forall|i: int|
                start <= i < k ==> !is_missing(slots[i], state[i]),
        },
    decreases slots.len() - start,
{
    if start < slots.len() && !is_missing(slots[start as int], state[start as int]) {
        lemma_first_missing(slots, state, start + 1);
    }
}

/// The method that a name finds bears that name.
pub proof fn lemma_find_from(methods: Seq<MethodView>, name: Seq<char>, start: nat)
    ensures
        match find_from(methods, name, start) {
            None => true,
            Some(m) => start <= m < methods.len() && methods[m].name == name,
        },
    decreases methods.len() - start,
{
    if start < methods.len() && methods[start as int].name != name {
        lemma_find_from(methods, name, start + 1);
    }
}

/// On a record with at least one field, all of them plain and without
/// annotations, finalizing the fresh builder fails on the first field.
pub proof fn law_fresh_builder_misses_first_field(record_name: Seq<char>, fields: Seq<FieldSpec>)
    requires
        fields.len() > 0,
        forall|i: int| 0 <= i < fields.len() ==> is_plain_field(#[trigger] fields[i]),
    ensures
        ({
            let def = builder_for(record_name, resolved_plans(plans_upto(fields, fields.len())));
            &&& def.slots.len() == fields.len()
            &&& def.slots[0].field == fields[0].name@
            &&& first_missing(def.slots, fresh_state(def.slots), 0) == Some(0int)
        }),
{
    lemma_plain_plans(fields, fields.len());
    lemma_plain_plan(fields[0]);
    let plans = plans_upto(fields, fields.len());
    assert(plans[0] == plan_of(fields[0].name@, fields[0].declared_type, ConfigView::Absent)->Some_0);
    let def = builder_for(record_name, resolved_plans(plans));
    assert(def.slots[0] == slot_of(resolved_plans(plans)[0]));
}

/// Whether `name` finds a method of `def` that stores `arg`: one that
/// stores `Some`, or one that stores directly and is handed a list.
pub open spec fn is_store(def: BuilderDefView, name: Seq<char>, arg: ValueView) -> bool {
    find_from(def.methods, name, 0) matches Some(m) && (def.methods[m].body == SetterBody::StoreSome || (
        def.methods[m].body == SetterBody::StoreDirect && arg is List))
}

/// The slot written by the method that `name` finds.
pub open spec fn slot_written(def: BuilderDefView, name: Seq<char>) -> int {
    def.methods[find_from(def.methods, name, 0)->Some_0].slot
}

/// The state after the calls `calls`, in order; each names a method and
/// gives its argument. The first refusal ends the sequence.
pub open spec fn after_sequence(
    def: BuilderDefView,
    state: Seq<Option<ValueView>>,
    calls: Seq<(Seq<char>, ValueView)>,
) -> Result<Seq<Option<ValueView>>, CallError>
    decreases calls.len(),
{
    if calls.len() == 0 {
        Ok(state)
    } else {
        match after_sequence(def, state, calls.drop_last()) {
            Ok(before) => call_outcome(def, before, calls.last().0, calls.last().1),
            Err(e) => Err(e),
        }
    }
}

/// What `slot` holds after the storing calls `calls`: the argument of the
/// last call that writes it, or `before` where none does.
pub open spec fn last_stored(
    def: BuilderDefView,
    calls: Seq<(Seq<char>, ValueView)>,
    slot: int,
    before: Option<ValueView>,
) -> Option<ValueView>
    decreases calls.len(),
{
    if calls.len() == 0 {
        before
    } else if slot_written(def, calls.last().0) == slot {
        Some(calls.last().1)
    } else {
        last_stored(def, calls.drop_last(), slot, before)
    }
}

/// After any sequence of calls of storing setters, every slot holds
/// exactly the value passed to the last call of its setter, and a slot that
/// no call wrote holds what it held before. If then no required slot is
/// empty, finalization succeeds; the record it gives is what the slots hold.
pub proof fn law_round_trip(
    def: BuilderDefView,
    state: Seq<Option<ValueView>>,
    calls: Seq<(Seq<char>, ValueView)>,
)
    requires
        def_wf(def),
        state.len() == def.slots.len(),
        forall|k: int| 0 <= k < calls.len() ==> is_store(def, (#[trigger] calls[k]).0, calls[k].1),
    ensures
        after_sequence(def, state, calls) is Ok,
        ({
            let after = after_sequence(def, state, calls)->Ok_0;
            &&& after.len() == state.len()
            &&& forall|s: int|
                0 <= s < state.len() ==> #[trigger] after[s] == last_stored(def, calls, s, state[s])
            &&& (forall|s: int| 0 <= s < state.len() ==> !is_missing(def.slots[s], #[trigger] after[s]))
                ==> first_missing(def.slots, after, 0) is None
        }),
    decreases calls.len(),
{
    if calls.len() > 0 {
        let earlier = calls.drop_last();
        assert forall|k: int| 0 <= k < earlier.len() implies is_store(
            def,
            (#[trigger] earlier[k]).0,
            earlier[k].1,
        ) by {
            assert(earlier[k] == calls[k]);
        }
        law_round_trip(def, state, earlier);
        assert(is_store(def, calls[calls.len() - 1].0, calls[calls.len() - 1].1));
        lemma_find_from(def.methods, calls.last().0, 0);
    }
    lemma_first_missing(def.slots, after_sequence(def, state, calls)->Ok_0, 0);
}

/// A field declared as `Option<T>` never fails finalization, whatever its
/// slot holds: where it has a plan at all, the plan passes the slot through.
pub proof fn law_optional_field_never_missing(
    name: Seq<char>,
    ty: TypeExpr,
    config: ConfigView,
    stored: Option<ValueView>,
)
    requires
        shape_of(ty) matches ShapeView::Wrapped(WrapperKind::Optional, _),
    ensures
        plan_of(name, ty, config) matches Some(plan) ==> plan.finalize_expr
            == FinalizeExpr::PassThroughClone && !is_missing(slot_of(resolved_plan(plan)), stored),
        !(config is Accumulator) ==> plan_of(name, ty, config) is Some,
{
}

/// The slot on which finalization fails is a required one.
pub proof fn law_only_required_slots_fail(slots: Seq<SlotView>, state: Seq<Option<ValueView>>)
    ensures
        first_missing(slots, state, 0) matches Some(k) ==> 0 <= k < slots.len() && slots[k].finalize_expr
            == FinalizeExpr::RequireSet,
{
    lemma_first_missing(slots, state, 0);
}

/// The state after calling the method `name` once for each of `values`, in
/// order, each time with a single value.
pub open spec fn after_calls(
    def: BuilderDefView,
    state: Seq<Option<ValueView>>,
    name: Seq<char>,
    values: Seq<Seq<char>>,
) -> Result<Seq<Option<ValueView>>, CallError>
    decreases values.len(),
{
    if values.len() == 0 {
        Ok(state)
    } else {
        match after_calls(def, state, name, values.drop_last()) {
            Ok(before) => call_outcome(def, before, name, ValueView::Item(values.last())),
            Err(e) => Err(e),
        }
    }
}

/// Calling a push setter once for each of `values` appends exactly
/// `values`, in call order, to the list that its slot held, and changes no
/// other slot. On a slot that starts empty the list is then `values`.
pub proof fn law_pushes_accumulate(
    def: BuilderDefView,
    state: Seq<Option<ValueView>>,
    name: Seq<char>,
    held: Seq<Seq<char>>,
    values: Seq<Seq<char>>,
)
    requires
        def_wf(def),
        state.len() == def.slots.len(),
        find_from(def.methods, name, 0) is Some,
        def.methods[find_from(def.methods, name, 0)->Some_0].body == SetterBody::Push,
        state[def.methods[find_from(def.methods, name, 0)->Some_0].slot] == Some(ValueView::List(held)),
    ensures
        after_calls(def, state, name, values) == Ok::<_, CallError>(
            state.update(
                def.methods[find_from(def.methods, name, 0)->Some_0].slot,
                Some(ValueView::List(held + values)),
            ),
        ),
    decreases values.len(),
{
    lemma_find_from(def.methods, name, 0);
    let m = find_from(def.methods, name, 0)->Some_0;
    let slot = def.methods[m].slot;
    if values.len() == 0 {
        assert(held + values =~= held);
        assert(state.update(slot, Some(ValueView::List(held + values))) =~= state);
    } else {
        law_pushes_accumulate(def, state, name, held, values.drop_last());
        let before = state.update(slot, Some(ValueView::List(held + values.drop_last())));
        assert((held + values.drop_last()).push(values.last()) =~= held + values);
        assert(before.update(slot, Some(ValueView::List(held + values))) =~= state.update(
            slot,
            Some(ValueView::List(held + values)),
        ));
    }
}

/// Where the accumulator of a `Vec<T>` field bears the field's own name,
/// the direct setter is suppressed and the push setter is the field's only
/// method; its first call on the fresh slot gives the one-element list.
/// Under any other name both setters survive.
pub proof fn law_same_name_leaves_push_only(
    name: Seq<char>,
    push: Seq<char>,
    ty: TypeExpr,
    slot: int,
    first: Seq<char>,
)
    requires
        shape_of(ty) matches ShapeView::Wrapped(WrapperKind::List, _),
    ensures
        plan_of(name, ty, ConfigView::Accumulator(push)) is Some,
        ({
            let plan = resolved_plan(plan_of(name, ty, ConfigView::Accumulator(push))->Some_0);
            &&& plan.setters.len() == 2
            &&& plan.setters[0].suppressed == (push == name)
            &&& !plan.setters[1].suppressed
            &&& plan.setters[1].body == SetterBody::Push
            &&& plan.setters[1].name == push
            &&& push == name ==> surviving(plan.setters, slot, 2) == seq![method_of(plan.setters[1], slot)]
            &&& push != name ==> surviving(plan.setters, slot, 2) == seq![
                method_of(plan.setters[0], slot),
                method_of(plan.setters[1], slot),
            ]
            &&& stored_after(SetterBody::Push, initial(slot_of(plan)), ValueView::Item(first)) == Some(
                Some(ValueView::List(seq![first])),
            )
        }),
{
    let raw = plan_of(name, ty, ConfigView::Accumulator(push))->Some_0;
    let plan = resolved_plan(raw);
    assert(raw.setters[1].body == SetterBody::Push);
    if push == name {
        assert(has_push_named(raw.setters, raw.setters[0].name));
    } else {
        assert(!has_push_named(raw.setters, raw.setters[0].name));
    }
    reveal_with_fuel(surviving, 3);
    assert(surviving(plan.setters, slot, 2) =~= if push == name {
        seq![method_of(plan.setters[1], slot)]
    } else {
        seq![method_of(plan.setters[0], slot), method_of(plan.setters[1], slot)]
    });
    assert(Seq::<Seq<char>>::empty().push(first) =~= seq![first]);
}

/// A field whose first annotation is a `builder` list that starts with
/// anything but the key `each` is refused for an unknown key: it gets no
/// plan, and so neither a slot nor a setter, and its diagnostic is recorded.
pub proof fn law_unknown_key_is_refused(fields: Seq<FieldSpec>, n: nat)
    requires
        0 < n <= fields.len(),
        fields[n - 1].annotations@.len() > 0,
        is_builder_path(fields[n - 1].annotations@[0]),
        fields[n - 1].annotations@[0].body matches AnnotationBody::List(tokens) && tokens@.len() > 0
            && !is_each_key(tokens@[0]),
    ensures
        outcome_of(fields[n - 1]) == FieldOutcome::Refused(
            AttributeSyntaxError { annotation: 0, token: 0, kind: SyntaxErrorKind::UnknownKey },
        ),
        plans_upto(fields, n) == plans_upto(fields, (n - 1) as nat),
        diagnostics_upto(fields, n) == diagnostics_upto(fields, (n - 1) as nat).push(
            Diagnostic {
                field: (n - 1) as usize,
                error: AttributeSyntaxError {
                    annotation: 0,
                    token: 0,
                    kind: SyntaxErrorKind::UnknownKey,
                },
            },
        ),
{
}

} // verus!
