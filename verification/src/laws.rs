//! Proved laws of plan generation: what the generated plans mean under the
//! reference evaluation, and how generation fails on invalid combinations.

use vstd::prelude::*;
use crate::assemble::{
    spec_assemble, spec_assemble_attrs, spec_assemble_contents, spec_serialize, FieldInput, Plan,
};
use crate::plan::{
    spec_generate, FieldDescriptor, FieldPlanModel, PlanError, SerializationOp, ValueExpr,
    ValueSource,
};
use crate::role::{role_allows, spec_active_role, spec_flag_count, spec_resolve, FieldRole,
    RoleError, RoleFlags};
use crate::shape::{spec_classify, DeclaredType, ShapeError, TypeShape};
use crate::semantics::{
    eval_attr_ops, eval_content_each, eval_content_ops, eval_field_attrs, eval_field_contents,
    eval_plan_attrs, eval_plan_contents, lookup, payload, scalar_text, AttrEvent, EvalEnv,
    PlanEvent, Value,
};

verus! {

/// A scalar field with `Element` role serializes to exactly one child
/// element, named by the field's (possibly renamed) label, whose text is
/// the value's canonical form, and contributes no attribute.
pub proof fn lemma_scalar_element_single_child(d: FieldDescriptor, env: EvalEnv, t: Seq<char>)
    requires
        d.role == FieldRole::Element,
        d.shape matches TypeShape::Scalar(_),
        lookup(env, ValueSource::Field(d.label)) == Value::Text(t),
    ensures
        spec_generate(d) matches Ok(m) && {
            &&& eval_field_attrs(m, env) =~= Seq::<AttrEvent>::empty()
            &&& eval_field_contents(m, env) =~= seq![
                PlanEvent::Start { name: d.renamed_label@ },
                PlanEvent::Characters { text: t },
                PlanEvent::End,
            ]
        },
{
    reveal_with_fuel(crate::semantics::eval_attr_ops, 2);
    reveal_with_fuel(crate::semantics::eval_content_ops, 2);
    reveal_with_fuel(crate::semantics::eval_attr_op, 2);
    reveal_with_fuel(crate::semantics::eval_content_op, 2);
    let m = spec_generate(d)->Ok_0;
    assert(m.content_ops.drop_last() =~= Seq::<SerializationOp>::empty());
}

/// An absent `Optional(Scalar)` attribute field contributes no attribute at
/// all to the start tag — not an empty attribute.
pub proof fn lemma_optional_attribute_absent(d: FieldDescriptor, env: EvalEnv)
    requires
        d.role == FieldRole::Attribute,
        d.shape matches TypeShape::Optional(inner) && *inner matches TypeShape::Scalar(_),
        lookup(env, ValueSource::Field(d.label)) is Absent,
    ensures
        spec_generate(d) matches Ok(m) && eval_field_attrs(m, env) =~= Seq::<AttrEvent>::empty(),
{
    reveal_with_fuel(crate::semantics::eval_attr_ops, 2);
    reveal_with_fuel(crate::semantics::eval_content_ops, 2);
    reveal_with_fuel(crate::semantics::eval_attr_op, 2);
    reveal_with_fuel(crate::semantics::eval_content_op, 2);
    let m = spec_generate(d)->Ok_0;
    assert(m.attribute_ops.drop_last() =~= Seq::<SerializationOp>::empty());
}

/// A present `Optional(Scalar)` attribute field contributes exactly one
/// attribute, named by the renamed label, carrying the value's text.
pub proof fn lemma_optional_attribute_present(d: FieldDescriptor, env: EvalEnv, t: Seq<char>)
    requires
        d.role == FieldRole::Attribute,
        d.shape matches TypeShape::Optional(inner) && *inner matches TypeShape::Scalar(_),
        lookup(env, ValueSource::Field(d.label)) == Value::Present(Box::new(Value::Text(t))),
    ensures
        spec_generate(d) matches Ok(m) && eval_field_attrs(m, env) =~= seq![AttrEvent::Pair {
            name: d.renamed_label@,
            value: t,
        }],
{
    reveal_with_fuel(crate::semantics::eval_attr_ops, 2);
    reveal_with_fuel(crate::semantics::eval_content_ops, 2);
    reveal_with_fuel(crate::semantics::eval_attr_op, 2);
    reveal_with_fuel(crate::semantics::eval_content_op, 2);
    let m = spec_generate(d)->Ok_0;
    assert(m.attribute_ops.drop_last() =~= Seq::<SerializationOp>::empty());
}

/// An absent `Optional(Scalar)` element field emits zero events.
pub proof fn lemma_optional_element_absent(d: FieldDescriptor, env: EvalEnv)
    requires
        d.role == FieldRole::Element,
        d.shape matches TypeShape::Optional(inner) && *inner matches TypeShape::Scalar(_),
        lookup(env, ValueSource::Field(d.label)) is Absent,
    ensures
        spec_generate(d) matches Ok(m) && eval_field_contents(m, env) =~= Seq::<PlanEvent>::empty(),
{
    reveal_with_fuel(crate::semantics::eval_attr_ops, 2);
    reveal_with_fuel(crate::semantics::eval_content_ops, 2);
    reveal_with_fuel(crate::semantics::eval_attr_op, 2);
    reveal_with_fuel(crate::semantics::eval_content_op, 2);
    let m = spec_generate(d)->Ok_0;
    assert(m.content_ops.drop_last() =~= Seq::<SerializationOp>::empty());
}

/// A present `Optional(Scalar)` element field emits exactly its one child
/// element with the value's text.
pub proof fn lemma_optional_element_present(d: FieldDescriptor, env: EvalEnv, t: Seq<char>)
    requires
        d.role == FieldRole::Element,
        d.shape matches TypeShape::Optional(inner) && *inner matches TypeShape::Scalar(_),
        lookup(env, ValueSource::Field(d.label)) == Value::Present(Box::new(Value::Text(t))),
    ensures
        spec_generate(d) matches Ok(m) && eval_field_contents(m, env) =~= seq![
            PlanEvent::Start { name: d.renamed_label@ },
            PlanEvent::Characters { text: t },
            PlanEvent::End,
        ],
{
    reveal_with_fuel(crate::semantics::eval_attr_ops, 2);
    reveal_with_fuel(crate::semantics::eval_content_ops, 2);
    reveal_with_fuel(crate::semantics::eval_attr_op, 2);
    reveal_with_fuel(crate::semantics::eval_content_op, 2);
    let m = spec_generate(d)->Ok_0;
    assert(m.content_ops.drop_last() =~= Seq::<SerializationOp>::empty());
}

/// An absent `Optional(Scalar)` text-content field still emits its text
/// node, as empty text: text cannot be absent once the element exists.
pub proof fn lemma_optional_text_absent_empty(d: FieldDescriptor, env: EvalEnv)
    requires
        d.role == FieldRole::TextContent,
        d.shape matches TypeShape::Optional(inner) && *inner matches TypeShape::Scalar(_),
        lookup(env, ValueSource::Field(d.label)) is Absent,
    ensures
        spec_generate(d) matches Ok(m) && eval_field_contents(m, env) =~= seq![
            PlanEvent::Characters { text: Seq::<char>::empty() },
        ],
{
    reveal_with_fuel(crate::semantics::eval_attr_ops, 2);
    reveal_with_fuel(crate::semantics::eval_content_ops, 2);
    reveal_with_fuel(crate::semantics::eval_attr_op, 2);
    reveal_with_fuel(crate::semantics::eval_content_op, 2);
    let m = spec_generate(d)->Ok_0;
    assert(m.content_ops.drop_last() =~= Seq::<SerializationOp>::empty());
}

/// A present `Optional(Scalar)` text-content field emits its text.
pub proof fn lemma_optional_text_present(d: FieldDescriptor, env: EvalEnv, t: Seq<char>)
    requires
        d.role == FieldRole::TextContent,
        d.shape matches TypeShape::Optional(inner) && *inner matches TypeShape::Scalar(_),
        lookup(env, ValueSource::Field(d.label)) == Value::Present(Box::new(Value::Text(t))),
    ensures
        spec_generate(d) matches Ok(m) && eval_field_contents(m, env) =~= seq![
            PlanEvent::Characters { text: t },
        ],
{
    reveal_with_fuel(crate::semantics::eval_attr_ops, 2);
    reveal_with_fuel(crate::semantics::eval_content_ops, 2);
    reveal_with_fuel(crate::semantics::eval_attr_op, 2);
    reveal_with_fuel(crate::semantics::eval_content_op, 2);
    let m = spec_generate(d)->Ok_0;
    assert(m.content_ops.drop_last() =~= Seq::<SerializationOp>::empty());
}

/// The events of a scalar collection under `Element` role: one labeled
/// element per item, each wrapping the item's text, in item order.
pub open spec fn wrapped_scalar_elements(name: Seq<char>, items: Seq<Value>) -> Seq<PlanEvent>
    decreases items.len(),
{
    if items.len() == 0 {
        Seq::empty()
    } else {
        seq![
            PlanEvent::Start { name },
            PlanEvent::Characters { text: scalar_text(payload(items.first())) },
            PlanEvent::End,
        ] + wrapped_scalar_elements(name, items.drop_first())
    }
}

/// Running the per-item element body over a sequence of items yields
/// exactly the wrapped elements of those items.
proof fn lemma_each_scalar_element(n: String, items: Seq<Value>, env: EvalEnv)
    ensures
        eval_content_each(
            SerializationOp::EmitElement {
                name: n,
                value: ValueExpr::Canonical(ValueSource::Bound),
            },
            items,
            env,
        ) =~= wrapped_scalar_elements(n@, items),
    decreases items.len(),
{
    reveal_with_fuel(crate::semantics::eval_content_each, 2);
    reveal_with_fuel(crate::semantics::eval_content_op, 2);
    if items.len() != 0 {
        lemma_each_scalar_element(n, items.drop_first(), env);
    }
}

/// The length of the wrapped elements: three events per item.
proof fn lemma_wrapped_scalar_elements_len(name: Seq<char>, items: Seq<Value>)
    ensures
        wrapped_scalar_elements(name, items).len() == 3 * items.len(),
    decreases items.len(),
{
    if items.len() != 0 {
        lemma_wrapped_scalar_elements_len(name, items.drop_first());
    }
}

/// A `Collection(Scalar)` field with N items under `Element` role emits
/// exactly N child elements (3 N events), each wrapping one item's text in
/// an element named by the field's label, in item order; N = 0 emits
/// nothing at all — no empty wrapper.
pub proof fn lemma_collection_element_per_item(d: FieldDescriptor, env: EvalEnv, items: Seq<Value>)
    requires
        d.role == FieldRole::Element,
        d.shape matches TypeShape::Collection(inner) && *inner matches TypeShape::Scalar(_),
        lookup(env, ValueSource::Field(d.label)) == Value::Items(items),
    ensures
        spec_generate(d) matches Ok(m) && {
            &&& eval_field_contents(m, env) =~= wrapped_scalar_elements(d.renamed_label@, items)
            &&& eval_field_contents(m, env).len() == 3 * items.len()
            &&& items.len() == 0 ==> eval_field_contents(m, env) =~= Seq::<PlanEvent>::empty()
        },
{
    reveal_with_fuel(crate::semantics::eval_attr_ops, 2);
    reveal_with_fuel(crate::semantics::eval_content_ops, 2);
    reveal_with_fuel(crate::semantics::eval_attr_op, 2);
    reveal_with_fuel(crate::semantics::eval_content_op, 2);
    let m = spec_generate(d)->Ok_0;
    assert(m.content_ops.drop_last() =~= Seq::<SerializationOp>::empty());
    lemma_each_scalar_element(d.renamed_label, items, env);
    lemma_wrapped_scalar_elements_len(d.renamed_label@, items);
}

/// A flattened `Record` field never gets a wrapping element or start tag of
/// its own: its whole content contribution is one delegation with the start
/// and end tag suppressed and no element name, and its attribute
/// contribution is the merge of the nested record's attributes and
/// namespace into the parent's start tag.
pub proof fn lemma_flatten_record_suppresses_wrapper(d: FieldDescriptor, env: EvalEnv)
    requires
        d.role == FieldRole::Flatten,
        d.shape == TypeShape::Record,
    ensures
        spec_generate(d) matches Ok(m) && {
            &&& eval_field_contents(m, env) =~= seq![PlanEvent::Delegated {
                name: None,
                skip_start_end: true,
                generic: d.is_generic,
                value: payload(lookup(env, ValueSource::Field(d.label))),
            }]
            &&& forall|j: int| 0 <= j < eval_field_contents(m, env).len() ==> !(
                eval_field_contents(m, env)[j] is Start)
            &&& eval_field_attrs(m, env) =~= seq![AttrEvent::Merged {
                value: lookup(env, ValueSource::Field(d.label)),
            }]
        },
{
    reveal_with_fuel(crate::semantics::eval_attr_ops, 2);
    reveal_with_fuel(crate::semantics::eval_content_ops, 2);
    reveal_with_fuel(crate::semantics::eval_attr_op, 2);
    reveal_with_fuel(crate::semantics::eval_content_op, 2);
    let m = spec_generate(d)->Ok_0;
    assert(m.content_ops.drop_last() =~= Seq::<SerializationOp>::empty());
    assert(m.attribute_ops.drop_last() =~= Seq::<SerializationOp>::empty());
}

/// Assembly distributes over concatenation of per-field plans.
pub proof fn lemma_assemble_contents_concat(a: Seq<FieldPlanModel>, b: Seq<FieldPlanModel>)
    ensures
        spec_assemble_contents(a + b) =~= spec_assemble_contents(a) + spec_assemble_contents(b),
    decreases b.len(),
{
    if b.len() == 0 {
        assert(a + b =~= a);
    } else {
        assert((a + b).drop_last() =~= a + b.drop_last());
        lemma_assemble_contents_concat(a, b.drop_last());
    }
}

/// Assembly distributes over concatenation of per-field plans.
pub proof fn lemma_assemble_attrs_concat(a: Seq<FieldPlanModel>, b: Seq<FieldPlanModel>)
    ensures
        spec_assemble_attrs(a + b) =~= spec_assemble_attrs(a) + spec_assemble_attrs(b),
    decreases b.len(),
{
    if b.len() == 0 {
        assert(a + b =~= a);
    } else {
        assert((a + b).drop_last() =~= a + b.drop_last());
        lemma_assemble_attrs_concat(a, b.drop_last());
    }
}

/// Each field's operations stand contiguously at the field's declared
/// position in the assembled record plan, on both the attribute side and
/// the content side: declaration order is the serialization order.
pub proof fn lemma_field_plan_position(ms: Seq<FieldPlanModel>, i: int)
    requires
        0 <= i < ms.len(),
    ensures
        spec_assemble_contents(ms) =~= spec_assemble_contents(ms.take(i)) + ms[i].content_ops
            + spec_assemble_contents(ms.skip(i + 1)),
        spec_assemble_attrs(ms) =~= spec_assemble_attrs(ms.take(i)) + ms[i].attribute_ops
            + spec_assemble_attrs(ms.skip(i + 1)),
{
    assert(ms =~= ms.take(i) + seq![ms[i]] + ms.skip(i + 1));
    lemma_assemble_contents_concat(ms.take(i) + seq![ms[i]], ms.skip(i + 1));
    lemma_assemble_contents_concat(ms.take(i), seq![ms[i]]);
    lemma_assemble_attrs_concat(ms.take(i) + seq![ms[i]], ms.skip(i + 1));
    lemma_assemble_attrs_concat(ms.take(i), seq![ms[i]]);
    reveal_with_fuel(crate::assemble::spec_assemble_contents, 2);
    reveal_with_fuel(crate::assemble::spec_assemble_attrs, 2);
    assert(seq![ms[i]].drop_last() =~= Seq::<FieldPlanModel>::empty());
    assert(spec_assemble_contents(seq![ms[i]]) =~= ms[i].content_ops);
    assert(spec_assemble_attrs(seq![ms[i]]) =~= ms[i].attribute_ops);
}

/// Two or more role flags set on one field fail resolution with
/// `Conflicting`, whatever the shape.
pub proof fn lemma_conflicting_flags_rejected(f: RoleFlags, shape: TypeShape)
    requires
        spec_flag_count(f) >= 2,
    ensures
        spec_resolve(f, shape) == Err::<FieldRole, RoleError>(RoleError::Conflicting),
{
}

/// A role that does not fit the resolved shape fails resolution with
/// `Incompatible`, carrying that role and shape — never a silent fallback
/// to `Element` behavior.
pub proof fn lemma_incompatible_role_rejected(f: RoleFlags, shape: TypeShape)
    requires
        spec_flag_count(f) < 2,
        !role_allows(spec_active_role(f), shape),
    ensures
        spec_resolve(f, shape) == Err::<FieldRole, RoleError>(RoleError::Incompatible {
            role: spec_active_role(f),
            shape,
        }),
{
}

/// An `Option` wrapping a type that already classifies as `Optional` fails
/// classification with `DoublyWrapped` — never silently flattened.
pub proof fn lemma_doubly_wrapped_rejected(t: DeclaredType)
    requires
        t.name@ == "Option"@,
        t.parameter matches Some(p) && spec_classify(*p) matches Ok(s) && s is Optional,
    ensures
        spec_classify(t) == Err::<TypeShape, ShapeError>(ShapeError::DoublyWrapped),
{
}

/// `Attribute` role on a raw `Collection` shape has no defined mapping and
/// fails generation with `Unimplemented`, carrying that shape and role —
/// a hard failure, never a silent no-op.
pub proof fn lemma_attribute_on_collection_unimplemented(d: FieldDescriptor)
    requires
        d.role == FieldRole::Attribute,
        d.shape matches TypeShape::Collection(_),
    ensures
        spec_generate(d) == Err::<FieldPlanModel, PlanError>(PlanError::Unimplemented {
            shape: d.shape,
            role: d.role,
        }),
{
}

/// Plan generation is deterministic: two plans generated from identical
/// field inputs are structurally identical — no hidden counters, no
/// ordering nondeterminism.
pub proof fn lemma_plan_generation_deterministic(fields: Seq<FieldInput>, p1: Plan, p2: Plan)
    requires
        spec_serialize(fields) matches Ok(m) && p1@ == m && p2@ == m,
    ensures
        p1@ == p2@,
        p1.attribute_ops@ == p2.attribute_ops@,
        p1.content_ops@ == p2.content_ops@,
{
}

/// Evaluating a sequence of operations distributes over concatenation.
proof fn lemma_eval_content_ops_concat(a: Seq<SerializationOp>, b: Seq<SerializationOp>, env: EvalEnv)
    ensures
        eval_content_ops(a + b, env) =~= eval_content_ops(a, env) + eval_content_ops(b, env),
    decreases b.len(),
{
    if b.len() == 0 {
        assert(a + b =~= a);
    } else {
        assert((a + b).drop_last() =~= a + b.drop_last());
        lemma_eval_content_ops_concat(a, b.drop_last(), env);
    }
}

/// Evaluating a sequence of operations distributes over concatenation.
proof fn lemma_eval_attr_ops_concat(a: Seq<SerializationOp>, b: Seq<SerializationOp>, env: EvalEnv)
    ensures
        eval_attr_ops(a + b, env) =~= eval_attr_ops(a, env) + eval_attr_ops(b, env),
    decreases b.len(),
{
    if b.len() == 0 {
        assert(a + b =~= a);
    } else {
        assert((a + b).drop_last() =~= a + b.drop_last());
        lemma_eval_attr_ops_concat(a, b.drop_last(), env);
    }
}

/// The attribute pairs of all fields' plans, in declaration order.
pub open spec fn fields_attr_events(ms: Seq<FieldPlanModel>, env: EvalEnv) -> Seq<AttrEvent>
    decreases ms.len(),
{
    if ms.len() == 0 {
        Seq::empty()
    } else {
        fields_attr_events(ms.drop_last(), env) + eval_field_attrs(ms.last(), env)
    }
}

/// The content events of all fields' plans, in declaration order.
pub open spec fn fields_content_events(ms: Seq<FieldPlanModel>, env: EvalEnv) -> Seq<PlanEvent>
    decreases ms.len(),
{
    if ms.len() == 0 {
        Seq::empty()
    } else {
        fields_content_events(ms.drop_last(), env) + eval_field_contents(ms.last(), env)
    }
}

/// The assembled record plan means exactly what its fields' plans mean,
/// field by field in declaration order: assembly neither reorders, drops
/// nor duplicates any field's attributes or events.
pub proof fn lemma_assembled_plan_evaluates_fieldwise(ms: Seq<FieldPlanModel>, env: EvalEnv)
    ensures
        eval_plan_attrs(spec_assemble(ms), env) =~= fields_attr_events(ms, env),
        eval_plan_contents(spec_assemble(ms), env) =~= fields_content_events(ms, env),
    decreases ms.len(),
{
    if ms.len() != 0 {
        lemma_assembled_plan_evaluates_fieldwise(ms.drop_last(), env);
        lemma_eval_attr_ops_concat(spec_assemble_attrs(ms.drop_last()), ms.last().attribute_ops, env);
        lemma_eval_content_ops_concat(
            spec_assemble_contents(ms.drop_last()),
            ms.last().content_ops,
            env,
        );
    }
}

} // verus!
