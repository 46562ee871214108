//! The source text of a builder.

use vstd::prelude::*;
use vstd::string::StringExecFns;
use crate::plan::{DefaultInit, FinalizeExpr, Representation, SetterBody};
use crate::synth::{BuilderDef, BuilderDefView, Method, MethodView, Slot, SlotView, def_wf, method_views, slot_views};

verus! {

/// The three places where every slot appears in the source.
#[derive(Debug, Clone, Copy, PartialEq, Eq, Structural)]
pub enum SlotPart {
    /// The slot's declaration in the builder type.
    Declaration,
    /// The slot's line in the finalize operation.
    Finalizer,
    /// The slot's line in the constructor.
    Default,
}

/// The type under which `slot` is stored.
pub open spec fn stored_type_text(slot: SlotView) -> Seq<char> {
    match slot.representation {
        Representation::StoredOptional => "std::option::Option<"@ + slot.declared_type + ">"@,
        _ => slot.declared_type,
    }
}

/// What the finalize operation does with `slot`.
pub open spec fn finalize_text(slot: SlotView) -> Seq<char> {
    match slot.finalize_expr {
        FinalizeExpr::RequireSet => "self."@ + slot.field + ".clone().ok_or(\""@ + slot.field
            + " is not set\")?"@,
        FinalizeExpr::PassThroughClone => "self."@ + slot.field + ".clone()"@,
    }
}

/// What the constructor puts into a slot.
pub open spec fn default_text(default_init: DefaultInit) -> Seq<char> {
    match default_init {
        DefaultInit::Unset => "std::option::Option::None"@,
        DefaultInit::EmptyList => "std::vec::Vec::new()"@,
    }
}

/// The line of `slot` in `part`: its name, a colon, and what that part
/// says of it, closed by a comma.
pub open spec fn part_text(part: SlotPart, slot: SlotView) -> Seq<char> {
    slot.field + ": "@ + (match part {
        SlotPart::Declaration => stored_type_text(slot),
        SlotPart::Finalizer => finalize_text(slot),
        SlotPart::Default => default_text(slot.default_init),
    }) + ", "@
}

/// The lines of the first `n` slots in `part`, in declaration order.
pub open spec fn parts_text(part: SlotPart, slots: Seq<SlotView>, n: nat) -> Seq<char>
    decreases n,
{
    if n == 0 {
        Seq::empty()
    } else {
        parts_text(part, slots, (n - 1) as nat) + part_text(part, slots[n - 1])
    }
}

/// The statement by which a method called `name` writes `field`.
pub open spec fn store_text(body: SetterBody, field: Seq<char>, name: Seq<char>) -> Seq<char> {
    match body {
        SetterBody::StoreSome => "self."@ + field + " = std::option::Option::Some("@ + name + ");"@,
        SetterBody::StoreDirect => "self."@ + field + " = "@ + name + ";"@,
        SetterBody::Push => "self."@ + field + ".push("@ + name + ");"@,
    }
}

/// A method: it takes one argument, named like itself, writes `field` and
/// hands the builder back.
pub open spec fn method_text(method: MethodView, field: Seq<char>) -> Seq<char> {
    "fn "@ + method.name + "(&mut self, "@ + method.name + ": "@ + method.parameter_type
        + ") -> &mut Self { "@ + store_text(method.body, field, method.name) + " self } "@
}

/// The first `n` methods of `def`, in order.
pub open spec fn methods_text(def: BuilderDefView, n: nat) -> Seq<char>
    decreases n,
{
    if n == 0 {
        Seq::empty()
    } else {
        methods_text(def, (n - 1) as nat) + method_text(
            def.methods[n - 1],
            def.slots[def.methods[n - 1].slot].field,
        )
    }
}

/// The builder type: one declaration per slot.
pub open spec fn struct_text(def: BuilderDefView) -> Seq<char> {
    "struct "@ + def.builder_name + " { "@ + parts_text(
        SlotPart::Declaration,
        def.slots,
        def.slots.len(),
    ) + "} "@
}

/// The finalize operation: the record, field by field.
pub open spec fn build_text(def: BuilderDefView) -> Seq<char> {
    "fn build(&self) -> std::result::Result<"@ + def.record_name
        + ", std::boxed::Box<dyn std::error::Error>> { std::result::Result::Ok("@ + def.record_name
        + " { "@ + parts_text(SlotPart::Finalizer, def.slots, def.slots.len()) + "}) } "@
}

/// The builder's methods and its finalize operation.
pub open spec fn impl_text(def: BuilderDefView) -> Seq<char> {
    "impl "@ + def.builder_name + " { "@ + methods_text(def, def.methods.len()) + build_text(def)
        + "} "@
}

/// The record's constructor of a fresh builder.
pub open spec fn constructor_text(def: BuilderDefView) -> Seq<char> {
    "impl "@ + def.record_name + " { fn builder() -> "@ + def.builder_name + " { "@
        + def.builder_name + " { "@ + parts_text(SlotPart::Default, def.slots, def.slots.len())
        + "} } } "@
}

/// The source of the builder: its type, its methods with the finalize
/// operation, and the record's constructor.
pub open spec fn source_of(def: BuilderDefView) -> Seq<char> {
    struct_text(def) + impl_text(def) + constructor_text(def)
}

fn stored_type(slot: &Slot) -> (res: String)
    ensures
        res@ == stored_type_text(slot@),
{
    match slot.representation {
        Representation::StoredOptional => {
            let mut out = "std::option::Option<".to_owned();
            out.append(slot.declared_type.as_str());
            out.append(">");
            out
        },
        _ => slot.declared_type.clone(),
    }
}

fn finalizer(slot: &Slot) -> (res: String)
    ensures
        res@ == finalize_text(slot@),
{
    let mut out = "self.".to_owned();
    out.append(slot.field.as_str());
    match slot.finalize_expr {
        FinalizeExpr::RequireSet => {
            out.append(".clone().ok_or(\"");
            out.append(slot.field.as_str());
            out.append(" is not set\")?");
        },
        FinalizeExpr::PassThroughClone => {
            out.append(".clone()");
        },
    }
    out
}

fn default_value(default_init: DefaultInit) -> (res: String)
    ensures
        res@ == default_text(default_init),
{
    match default_init {
        DefaultInit::Unset => "std::option::Option::None".to_owned(),
        DefaultInit::EmptyList => "std::vec::Vec::new()".to_owned(),
    }
}

fn part(which: SlotPart, slot: &Slot) -> (res: String)
    ensures
        res@ == part_text(which, slot@),
{
    let what = match which {
        SlotPart::Declaration => stored_type(slot),
        SlotPart::Finalizer => finalizer(slot),
        SlotPart::Default => default_value(slot.default_init),
    };
    let mut out = slot.field.clone();
    out.append(": ");
    out.append(what.as_str());
    out.append(", ");
    out
}

fn parts(which: SlotPart, slots: &Vec<Slot>) -> (res: String)
    ensures
        res@ == parts_text(which, slot_views(slots@), slots@.len()),
{
    let mut out = String::new();
    let mut i: usize = 0;
    while i < slots.len()
        invariant
            i <= slots@.len(),
            out@ == parts_text(which, slot_views(slots@), i as nat),
        decreases slots.len() - i,
    {
        let line = part(which, &slots[i]);
        assert(slot_views(slots@)[i as int] == slots@[i as int]@);
        out.append(line.as_str());
        i += 1;
    }
    out
}

fn store(body: SetterBody, field: &str, name: &str) -> (res: String)
    ensures
        res@ == store_text(body, field@, name@),
{
    let mut out = "self.".to_owned();
    out.append(field);
    match body {
        SetterBody::StoreSome => {
            out.append(" = std::option::Option::Some(");
            out.append(name);
            out.append(");");
        },
        SetterBody::StoreDirect => {
            out.append(" = ");
            out.append(name);
            out.append(";");
        },
        SetterBody::Push => {
            out.append(".push(");
            out.append(name);
            out.append(");");
        },
    }
    out
}

fn method(setter: &Method, field: &str) -> (res: String)
    ensures
        res@ == method_text(setter@, field@),
{
    let body = store(setter.body, field, setter.name.as_str());
    let mut out = "fn ".to_owned();
    out.append(setter.name.as_str());
    out.append("(&mut self, ");
    out.append(setter.name.as_str());
    out.append(": ");
    out.append(setter.parameter_type.as_str());
    out.append(") -> &mut Self { ");
    out.append(body.as_str());
    out.append(" self } ");
    out
}

fn methods(def: &BuilderDef) -> (res: String)
    requires
        def.wf(),
    ensures
        res@ == methods_text(def@, def@.methods.len()),
{
    let mut out = String::new();
    let mut i: usize = 0;
    while i < def.methods.len()
        invariant
            def.wf(),
            i <= def.methods@.len(),
            out@ == methods_text(def@, i as nat),
        decreases def.methods.len() - i,
    {
        assert(method_views(def.methods@)[i as int] == def.methods@[i as int]@);
        let slot = def.methods[i].slot;
        assert(slot_views(def.slots@)[slot as int] == def.slots@[slot as int]@);
        let text = method(&def.methods[i], def.slots[slot].field.as_str());
        out.append(text.as_str());
        i += 1;
    }
    out
}

fn struct_source(def: &BuilderDef) -> (res: String)
    ensures
        res@ == struct_text(def@),
{
    let declarations = parts(SlotPart::Declaration, &def.slots);
    let mut out = "struct ".to_owned();
    out.append(def.builder_name.as_str());
    out.append(" { ");
    out.append(declarations.as_str());
    out.append("} ");
    out
}

fn build_source(def: &BuilderDef) -> (res: String)
    ensures
        res@ == build_text(def@),
{
    let finalizers = parts(SlotPart::Finalizer, &def.slots);
    let mut out = "fn build(&self) -> std::result::Result<".to_owned();
    out.append(def.record_name.as_str());
    out.append(", std::boxed::Box<dyn std::error::Error>> { std::result::Result::Ok(");
    out.append(def.record_name.as_str());
    out.append(" { ");
    out.append(finalizers.as_str());
    out.append("}) } ");
    out
}

fn impl_source(def: &BuilderDef) -> (res: String)
    requires
        def.wf(),
    ensures
        res@ == impl_text(def@),
{
    let setters = methods(def);
    let build = build_source(def);
    let mut out = "impl ".to_owned();
    out.append(def.builder_name.as_str());
    out.append(" { ");
    out.append(setters.as_str());
    out.append(build.as_str());
    out.append("} ");
    out
}

fn constructor_source(def: &BuilderDef) -> (res: String)
    ensures
        res@ == constructor_text(def@),
{
    let defaults = parts(SlotPart::Default, &def.slots);
    let mut out = "impl ".to_owned();
    out.append(def.record_name.as_str());
    out.append(" { fn builder() -> ");
    out.append(def.builder_name.as_str());
    out.append(" { ");
    out.append(def.builder_name.as_str());
    out.append(" { ");
    out.append(defaults.as_str());
    out.append("} } } ");
    out
}

/// Writes the builder out as source text.
pub fn emit(def: &BuilderDef) -> (res: String)
    requires
        def.wf(),
    ensures
        res@ == source_of(def@),
{
    let mut out = struct_source(def);
    out.append(impl_source(def).as_str());
    out.append(constructor_source(def).as_str());
    out
}

} // verus!
