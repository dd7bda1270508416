//! The reference meaning of a plan: a mathematical evaluation of its
//! operations against one record instance. The external writer driver is
//! expected to realize exactly this: the attribute-producing operations
//! yield the pairs attached to the enclosing start tag, and the
//! content-producing operations yield the event stream written after it.
//! Delegation to a nested record stays one opaque event here, since the
//! nested record serializes through its own plan.

use vstd::prelude::*;
use crate::plan::{FieldPlanModel, SerializationOp, ValueExpr, ValueSource};
use crate::assemble::PlanModel;

verus! {

/// One field value of a record instance, for evaluation. A scalar carries
/// its canonical text form; a nested record carries only its
/// serialized-to-text content, everything else about it being its own
/// plan's business.
pub enum Value {
    Text(Seq<char>),
    Absent,
    Present(Box<Value>),
    Items(Seq<Value>),
    Nested { content: Seq<char> },
}

/// One record instance: its field values by label, and the value bound by
/// the nearest enclosing `Conditional` or `ForEach` during evaluation.
pub struct EvalEnv {
    pub fields: Map<Seq<char>, Value>,
    pub bound: Option<Value>,
}

/// An attribute-side outcome: one attribute pair, or the attributes and
/// namespace of a nested record merged into the enclosing start tag.
pub enum AttrEvent {
    Pair { name: Seq<char>, value: Seq<char> },
    Merged { value: Value },
}

/// A content-side outcome: an element start, its text, an element end, or
/// one delegated nested serialization with its pending start-tag state.
pub enum PlanEvent {
    Start { name: Seq<char> },
    Characters { text: Seq<char> },
    End,
    Delegated { name: Option<Seq<char>>, skip_start_end: bool, generic: bool, value: Value },
}

/// The value a source denotes; a label that the instance does not bind
/// denotes absence.
pub open spec fn lookup(env: EvalEnv, src: ValueSource) -> Value {
    match src {
        ValueSource::Field(l) => if env.fields.dom().contains(l@) {
            env.fields[l@]
        } else {
            Value::Absent
        },
        ValueSource::Bound => match env.bound {
            Some(v) => v,
            None => Value::Absent,
        },
    }
}

/// Whether an optional value is present.
pub open spec fn is_present(v: Value) -> bool {
    !(v is Absent)
}

/// The value behind a presence wrapper.
pub open spec fn payload(v: Value) -> Value {
    match v {
        Value::Present(inner) => *inner,
        _ => v,
    }
}

/// A scalar's text.
pub open spec fn scalar_text(v: Value) -> Seq<char> {
    match v {
        Value::Text(s) => s,
        _ => Seq::empty(),
    }
}

/// A nested record's serialized-to-text content.
pub open spec fn nested_text(v: Value) -> Seq<char> {
    match v {
        Value::Nested { content } => content,
        _ => Seq::empty(),
    }
}

/// The environment with a value bound for a body.
pub open spec fn with_bound(env: EvalEnv, v: Value) -> EvalEnv {
    EvalEnv { fields: env.fields, bound: Some(v) }
}

/// The text a value expression evaluates to. Scalar values already carry
/// their canonical text, so the verbatim and the canonical conversion read
/// the same thing; a guarded or bound value is read behind its presence
/// wrapper.
pub open spec fn eval_expr(e: ValueExpr, env: EvalEnv) -> Seq<char> {
    match e {
        ValueExpr::Verbatim(s) => scalar_text(payload(lookup(env, s))),
        ValueExpr::Canonical(s) => scalar_text(payload(lookup(env, s))),
        ValueExpr::NestedContent(s) => nested_text(payload(lookup(env, s))),
        ValueExpr::OrEmpty(s) => {
            let v = lookup(env, s);
            if v is Absent {
                Seq::empty()
            } else {
                scalar_text(payload(v))
            }
        },
    }
}

/// The attribute pairs one operation contributes to the enclosing start
/// tag. A guarded attribute of an absent value contributes nothing at all,
/// never an empty attribute.
pub open spec fn eval_attr_op(op: SerializationOp, env: EvalEnv) -> Seq<AttrEvent>
    decreases op, 0int,
{
    match op {
        SerializationOp::EmitAttribute { name, value, guard } => match guard {
            None => seq![AttrEvent::Pair { name: name@, value: eval_expr(value, env) }],
            Some(g) => if is_present(lookup(env, g)) {
                seq![AttrEvent::Pair { name: name@, value: eval_expr(value, env) }]
            } else {
                Seq::empty()
            },
        },
        SerializationOp::MergeAttributes { source } => seq![AttrEvent::Merged {
            value: lookup(env, source),
        }],
        SerializationOp::Conditional { guard, body } => {
            let v = lookup(env, guard);
            if is_present(v) {
                eval_attr_op(*body, with_bound(env, payload(v)))
            } else {
                Seq::empty()
            }
        },
        SerializationOp::ForEach { collection, body } => match lookup(env, collection) {
            Value::Items(items) => eval_attr_each(*body, items, env),
            _ => Seq::empty(),
        },
        _ => Seq::empty(),
    }
}

/// The attribute pairs of a body run once per item, in order.
pub open spec fn eval_attr_each(body: SerializationOp, items: Seq<Value>, env: EvalEnv) -> Seq<AttrEvent>
    decreases body, items.len() + 1int,
{
    if items.len() == 0 {
        Seq::empty()
    } else {
        eval_attr_op(body, with_bound(env, items.first())) + eval_attr_each(
            body,
            items.drop_first(),
            env,
        )
    }
}

/// The events one operation writes after the enclosing start tag. An
/// operation guarded by an absent value writes nothing at all.
pub open spec fn eval_content_op(op: SerializationOp, env: EvalEnv) -> Seq<PlanEvent>
    decreases op, 0int,
{
    match op {
        SerializationOp::EmitCharacters { value } => seq![PlanEvent::Characters {
            text: eval_expr(value, env),
        }],
        SerializationOp::EmitElement { name, value } => seq![
            PlanEvent::Start { name: name@ },
            PlanEvent::Characters { text: eval_expr(value, env) },
            PlanEvent::End,
        ],
        SerializationOp::Delegate { name, skip_start_end, generic, source } => seq![
            PlanEvent::Delegated {
                name: match name {
                    Some(n) => Some(n@),
                    None => None,
                },
                skip_start_end,
                generic,
                value: payload(lookup(env, source)),
            },
        ],
        SerializationOp::Conditional { guard, body } => {
            let v = lookup(env, guard);
            if is_present(v) {
                eval_content_op(*body, with_bound(env, payload(v)))
            } else {
                Seq::empty()
            }
        },
        SerializationOp::ForEach { collection, body } => match lookup(env, collection) {
            Value::Items(items) => eval_content_each(*body, items, env),
            _ => Seq::empty(),
        },
        _ => Seq::empty(),
    }
}

/// The events of a body run once per item, in order.
pub open spec fn eval_content_each(body: SerializationOp, items: Seq<Value>, env: EvalEnv) -> Seq<PlanEvent>
    decreases body, items.len() + 1int,
{
    if items.len() == 0 {
        Seq::empty()
    } else {
        eval_content_op(body, with_bound(env, items.first())) + eval_content_each(
            body,
            items.drop_first(),
            env,
        )
    }
}

/// All attribute pairs of an operation sequence, in order.
pub open spec fn eval_attr_ops(ops: Seq<SerializationOp>, env: EvalEnv) -> Seq<AttrEvent>
    decreases ops.len(),
{
    if ops.len() == 0 {
        Seq::empty()
    } else {
        eval_attr_ops(ops.drop_last(), env) + eval_attr_op(ops.last(), env)
    }
}

/// All content events of an operation sequence, in order.
pub open spec fn eval_content_ops(ops: Seq<SerializationOp>, env: EvalEnv) -> Seq<PlanEvent>
    decreases ops.len(),
{
    if ops.len() == 0 {
        Seq::empty()
    } else {
        eval_content_ops(ops.drop_last(), env) + eval_content_op(ops.last(), env)
    }
}

/// The attribute pairs a whole record plan attaches to the enclosing
/// start tag.
pub open spec fn eval_plan_attrs(m: PlanModel, env: EvalEnv) -> Seq<AttrEvent> {
    eval_attr_ops(m.attribute_ops, env)
}

/// The events a whole record plan writes after the enclosing start tag.
pub open spec fn eval_plan_contents(m: PlanModel, env: EvalEnv) -> Seq<PlanEvent> {
    eval_content_ops(m.content_ops, env)
}

/// The attribute pairs one field's plan contributes.
pub open spec fn eval_field_attrs(m: FieldPlanModel, env: EvalEnv) -> Seq<AttrEvent> {
    eval_attr_ops(m.attribute_ops, env)
}

/// The events one field's plan contributes.
pub open spec fn eval_field_contents(m: FieldPlanModel, env: EvalEnv) -> Seq<PlanEvent> {
    eval_content_ops(m.content_ops, env)
}

} // verus!
