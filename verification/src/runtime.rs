//! The behaviour of a synthesized builder: filling its slots through its
//! methods, and finalizing them into a record.

use vstd::prelude::*;
use crate::plan::{DefaultInit, FinalizeExpr, SetterBody};
use crate::schema::{concat, text_is};
use crate::synth::{BuilderDef, BuilderDefView, Method, MethodView, SlotView, method_views, slot_views};

verus! {

/// A value handed to a setter or held by a slot.
#[derive(Debug, Clone, PartialEq, Eq)]
pub enum Value {
    /// One value, by its text.
    Item(String),
    /// A list of values, in order.
    List(Vec<String>),
}

/// The mathematical value of a `Value`.
pub enum ValueView {
    Item(Seq<char>),
    List(Seq<Seq<char>>),
}

/// The texts of `items`, in order.
pub open spec fn items_view(items: Seq<String>) -> Seq<Seq<char>> {
    Seq::new(items.len(), |i: int| items[i]@)
}

impl View for Value {
    type V = ValueView;

    open spec fn view(&self) -> ValueView {
        match *self {
            Value::Item(item) => ValueView::Item(item@),
            Value::List(items) => ValueView::List(items_view(items@)),
        }
    }
}

/// What a slot holds: nothing, or a value.
pub open spec fn stored_view(stored: Option<Value>) -> Option<ValueView> {
    match stored {
        Some(value) => Some(value@),
        None => None,
    }
}

/// What the slots hold, slot by slot.
pub open spec fn state_view(state: Seq<Option<Value>>) -> Seq<Option<ValueView>> {
    Seq::new(state.len(), |i: int| stored_view(state[i]))
}

/// Why a call on the builder was refused.
#[derive(Debug, Clone, Copy, PartialEq, Eq, Structural)]
pub enum CallError {
    /// The builder has no method of that name.
    NoSuchMethod,
    /// The method takes a single value and was handed a list, or takes a
    /// list and was handed a single value.
    ArgumentMismatch,
}

/// A required field was never set.
#[derive(Debug, Clone, PartialEq, Eq)]
pub struct MissingFieldError {
    pub field: String,
}

impl MissingFieldError {
    /// The explanation shown to the user; it starts with the field's name.
    pub fn message(&self) -> (res: String)
        ensures
            res@ == self.field@ + " is not set"@,
    {
        concat(self.field.as_str(), " is not set")
    }
}

/// The finalized record: the value of each field, in declaration order.
/// `None` stands for an optional field that was left absent.
#[derive(Debug, Clone, PartialEq, Eq)]
pub struct Record {
    pub values: Vec<Option<Value>>,
}

/// A builder being filled.
#[derive(Debug, Clone, PartialEq, Eq)]
pub struct BuilderInstance {
    pub def: BuilderDef,
    pub state: Vec<Option<Value>>,
}

/// What a fresh builder holds in `slot`.
pub open spec fn initial(slot: SlotView) -> Option<ValueView> {
    match slot.default_init {
        DefaultInit::Unset => None,
        DefaultInit::EmptyList => Some(ValueView::List(Seq::empty())),
    }
}

/// What a fresh builder holds.
pub open spec fn fresh_state(slots: Seq<SlotView>) -> Seq<Option<ValueView>> {
    Seq::new(slots.len(), |i: int| initial(slots[i]))
}

/// The first method at `start` or after that is called `name`.
pub open spec fn find_from(methods: Seq<MethodView>, name: Seq<char>, start: nat) -> Option<int>
    decreases methods.len() - start,
{
    if start >= methods.len() {
        None
    } else if methods[start as int].name == name {
        Some(start as int)
    } else {
        find_from(methods, name, start + 1)
    }
}

/// What a slot holds after a setter with `body` ran on `current` with
/// `arg`; `None` where the argument does not fit the setter.
///
/// A setter that stores `Some` replaces the content by its argument. A
/// setter that stores directly does so with a list. A push setter appends a
/// single value to the list, starting a list where there is none.
pub open spec fn stored_after(body: SetterBody, current: Option<ValueView>, arg: ValueView) -> Option<
    Option<ValueView>,
> {
    match body {
        SetterBody::StoreSome => Some(Some(arg)),
        SetterBody::StoreDirect => match arg {
            ValueView::List(_) => Some(Some(arg)),
            ValueView::Item(_) => None,
        },
        SetterBody::Push => match arg {
            ValueView::Item(item) => Some(
                Some(
                    ValueView::List(
                        match current {
                            Some(ValueView::List(items)) => items.push(item),
                            _ => seq![item],
                        },
                    ),
                ),
            ),
            ValueView::List(_) => None,
        },
    }
}

/// The state after calling the method `name` with `arg`, or the refusal.
pub open spec fn call_outcome(
    def: BuilderDefView,
    state: Seq<Option<ValueView>>,
    name: Seq<char>,
    arg: ValueView,
) -> Result<Seq<Option<ValueView>>, CallError> {
    match find_from(def.methods, name, 0) {
        None => Err(CallError::NoSuchMethod),
        Some(m) => match stored_after(def.methods[m].body, state[def.methods[m].slot], arg) {
            None => Err(CallError::ArgumentMismatch),
            Some(stored) => Ok(state.update(def.methods[m].slot, stored)),
        },
    }
}

/// Whether finalization fails on `slot` holding `stored`.
pub open spec fn is_missing(slot: SlotView, stored: Option<ValueView>) -> bool {
    slot.finalize_expr == FinalizeExpr::RequireSet && stored is None
}

/// The first slot at `start` or after on which finalization fails.
pub open spec fn first_missing(slots: Seq<SlotView>, state: Seq<Option<ValueView>>, start: nat) -> Option<
    int,
>
    decreases slots.len() - start,
{
    if start >= slots.len() {
        None
    } else if is_missing(slots[start as int], state[start as int]) {
        Some(start as int)
    } else {
        first_missing(slots, state, start + 1)
    }
}

fn clone_items(items: &Vec<String>) -> (res: Vec<String>)
    ensures
        res@ == items@,
{
    let mut out: Vec<String> = Vec::new();
    let mut i: usize = 0;
    while i < items.len()
        invariant
            i <= items.len(),
            out@ == items@.take(i as int),
        decreases items.len() - i,
    {
        out.push(items[i].clone());
        assert(out@ =~= items@.take(i + 1));
        i += 1;
    }
    assert(out@ =~= items@);
    out
}

fn clone_stored(stored: &Option<Value>) -> (res: Option<Value>)
    ensures
        stored_view(res) == stored_view(*stored),
{
    match stored {
        None => None,
        Some(Value::Item(item)) => Some(Value::Item(item.clone())),
        Some(Value::List(items)) => Some(Value::List(clone_items(items))),
    }
}

fn find_method(methods: &Vec<Method>, name: &str) -> (res: Option<usize>)
    ensures
        match res {
            Some(m) => find_from(method_views(methods@), name@, 0) == Some(m as int) && m
                < methods@.len(),
            None => find_from(method_views(methods@), name@, 0) is None,
        },
{
    let mut i: usize = 0;
    while i < methods.len()
        invariant
            i <= methods.len(),
            find_from(method_views(methods@), name@, 0) == find_from(
                method_views(methods@),
                name@,
                i as nat,
            ),
        decreases methods.len() - i,
    {
        if text_is(&methods[i].name, name) {
            return Some(i);
        }
        i += 1;
    }
    None
}

fn apply(body: SetterBody, current: &Option<Value>, arg: Value) -> (res: Option<Option<Value>>)
    ensures
        match res {
            Some(stored) => stored_after(body, stored_view(*current), arg@) == Some(
                stored_view(stored),
            ),
            None => stored_after(body, stored_view(*current), arg@) is None,
        },
{
    match body {
        SetterBody::StoreSome => Some(Some(arg)),
        SetterBody::StoreDirect => match arg {
            Value::List(items) => Some(Some(Value::List(items))),
            Value::Item(_) => None,
        },
        SetterBody::Push => match arg {
            Value::Item(item) => {
                let mut items = match current {
                    Some(Value::List(items)) => clone_items(items),
                    _ => Vec::new(),
                };
                let ghost before = items@;
                items.push(item);
                proof {
                    assert(items_view(items@) =~= items_view(before).push(item@));
                    if !(stored_view(*current) matches Some(ValueView::List(_))) {
                        assert(items_view(items@) =~= seq![item@]);
                    }
                }
                Some(Some(Value::List(items)))
            },
            Value::List(_) => None,
        },
    }
}

impl BuilderInstance {
    /// The slots match the builder's description.
    pub open spec fn wf(&self) -> bool {
        self.def.wf() && self.state@.len() == self.def.slots@.len()
    }

    /// What the slots hold.
    pub open spec fn contents(&self) -> Seq<Option<ValueView>> {
        state_view(self.state@)
    }

    /// A fresh builder: every slot holds its default.
    pub fn new(def: BuilderDef) -> (res: Self)
        requires
            def.wf(),
        ensures
            res.wf(),
            res.def == def,
            res.contents() == fresh_state(def@.slots),
    {
        let mut state: Vec<Option<Value>> = Vec::new();
        let mut i: usize = 0;
        while i < def.slots.len()
            invariant
                i <= def.slots.len(),
                state@.len() == i,
                forall|k: int| 0 <= k < i ==> stored_view(#[trigger] state@[k]) == initial(def.slots@[k]@),
            decreases def.slots.len() - i,
        {
            let stored = match def.slots[i].default_init {
                DefaultInit::Unset => None,
                DefaultInit::EmptyList => {
                    let empty: Vec<String> = Vec::new();
                    assert(items_view(empty@) =~= Seq::<Seq<char>>::empty());
                    Some(Value::List(empty))
                },
            };
            state.push(stored);
            i += 1;
        }
        assert(state_view(state@) =~= fresh_state(def@.slots));
        BuilderInstance { def, state }
    }

    /// Calls the method `name` with `arg`. A refused call changes nothing.
    pub fn call(&mut self, name: &str, arg: Value) -> (res: Result<(), CallError>)
        requires
            old(self).wf(),
        ensures
            final(self).wf(),
            final(self).def == old(self).def,
            match res {
                Ok(()) => call_outcome(old(self).def@, old(self).contents(), name@, arg@) == Ok::<
                    _,
                    CallError,
                >(final(self).contents()),
                Err(e) => call_outcome(old(self).def@, old(self).contents(), name@, arg@) == Err::<
                    Seq<Option<ValueView>>,
                    _,
                >(e) && final(self).contents() == old(self).contents(),
            },
    {
        match find_method(&self.def.methods, name) {
            None => Err(CallError::NoSuchMethod),
            Some(m) => {
                let slot = self.def.methods[m].slot;
                let body = self.def.methods[m].body;
                assert(method_views(self.def.methods@)[m as int] == self.def.methods@[m as int]@);
                assert(state_view(self.state@)[slot as int] == stored_view(self.state@[slot as int]));
                match apply(body, &self.state[slot], arg) {
                    None => Err(CallError::ArgumentMismatch),
                    Some(stored) => {
                        let ghost before = state_view(self.state@);
                        self.state.set(slot, stored);
                        assert(state_view(self.state@) =~= before.update(
                            slot as int,
                            stored_view(stored),
                        ));
                        Ok(())
                    },
                }
            },
        }
    }

    /// Finalizes the builder: every slot is read in declaration order, and
    /// the first required slot that holds nothing fails the operation.
    pub fn build(&self) -> (res: Result<Record, MissingFieldError>)
        requires
            self.wf(),
        ensures
            match res {
                Ok(record) => first_missing(self.def@.slots, self.contents(), 0) is None
                    && state_view(record.values@) == self.contents(),
                Err(e) => match first_missing(self.def@.slots, self.contents(), 0) {
                    Some(i) => 0 <= i < self.def.slots@.len() && e.field@ == self.def.slots@[i].field@,
                    None => false,
                },
            },
    {
        let mut values: Vec<Option<Value>> = Vec::new();
        let mut i: usize = 0;
        while i < self.state.len()
            invariant
                self.wf(),
                i <= self.state@.len(),
                values@.len() == i,
                forall|k: int| 0 <= k < i ==> stored_view(#[trigger] values@[k]) == stored_view(self.state@[k]),
                first_missing(self.def@.slots, self.contents(), 0) == first_missing(
                    self.def@.slots,
                    self.contents(),
                    i as nat,
                ),
            decreases self.state.len() - i,
        {
            assert(slot_views(self.def.slots@)[i as int] == self.def.slots@[i as int]@);
            assert(state_view(self.state@)[i as int] == stored_view(self.state@[i as int]));
            let required = match self.def.slots[i].finalize_expr {
                FinalizeExpr::RequireSet => true,
                FinalizeExpr::PassThroughClone => false,
            };
            if required && self.state[i].is_none() {
                return Err(MissingFieldError { field: self.def.slots[i].field.clone() });
            }
            values.push(clone_stored(&self.state[i]));
            i += 1;
        }
        assert(state_view(values@) =~= self.contents());
        Ok(Record { values })
    }
}

} // verus!
