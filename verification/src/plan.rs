//! The serialization plan generator: for one field it combines type shape
//! and role into the ordered writer operations that serialize the field,
//! split into the attribute-producing side (attached to the enclosing start
//! tag before it opens) and the content-producing side (emitted after it).

use vstd::prelude::*;
use crate::role::FieldRole;
use crate::shape::{ScalarKind, TypeShape};

verus! {

/// Which value an operation reads.
#[derive(Debug, PartialEq, Eq)]
pub enum ValueSource {
    /// The field of the record with this label.
    Field(String),
    /// The value bound by the nearest enclosing operation: the present
    /// payload of a `Conditional`, or the current item of a `ForEach`.
    Bound,
}

/// How a value turns into text.
#[derive(Debug, PartialEq, Eq)]
pub enum ValueExpr {
    /// The value's own text, used directly with no conversion.
    Verbatim(ValueSource),
    /// The value's canonical to-string form.
    Canonical(ValueSource),
    /// The nested record's own serialized-to-text form.
    NestedContent(ValueSource),
    /// The canonical form when the optional value is present, empty text
    /// when it is absent.
    OrEmpty(ValueSource),
}

/// One writer operation of a serialization plan.
///
/// A presence guard (`guard` field, or a `Conditional` wrapper) makes an
/// operation run only when the referenced optional value is present; the
/// expression of a guarded operation then reads the present payload.
#[derive(Debug, PartialEq, Eq)]
pub enum SerializationOp {
    /// Attach one attribute to the enclosing start tag.
    EmitAttribute { name: String, value: ValueExpr, guard: Option<ValueSource> },
    /// Write a characters event, with no wrapping element.
    EmitCharacters { value: ValueExpr },
    /// Write a start tag named `name`, the value's text, and an end tag.
    EmitElement { name: String, value: ValueExpr },
    /// Merge the nested record's own attributes and namespace declarations
    /// into the enclosing start tag before it opens.
    MergeAttributes { source: ValueSource },
    /// Configure the pending start tag (its name, whether start and end tag
    /// are suppressed, genericness) and immediately delegate to the nested
    /// record's own serialization — one atomic step, never interleaved.
    Delegate { name: Option<String>, skip_start_end: bool, generic: bool, source: ValueSource },
    /// Run the body only when the guarded value is present, with the
    /// present payload bound for the body.
    Conditional { guard: ValueSource, body: Box<SerializationOp> },
    /// Run the body once per item of the collection, in order, with the
    /// item bound for the body.
    ForEach { collection: ValueSource, body: Box<SerializationOp> },
}

/// One field's contribution to the plan: its attribute-producing operations
/// and its content-producing operations, either possibly empty.
#[derive(Debug, PartialEq, Eq)]
pub struct FieldPlan {
    pub attribute_ops: Vec<SerializationOp>,
    pub content_ops: Vec<SerializationOp>,
}

/// The mathematical value of a `FieldPlan`.
#[verifier::ext_equal]
pub struct FieldPlanModel {
    pub attribute_ops: Seq<SerializationOp>,
    pub content_ops: Seq<SerializationOp>,
}

impl View for FieldPlan {
    type V = FieldPlanModel;

    open spec fn view(&self) -> FieldPlanModel {
        FieldPlanModel { attribute_ops: self.attribute_ops@, content_ops: self.content_ops@ }
    }
}

/// Canonical, already-extracted facts about one field.
#[derive(Debug, PartialEq, Eq)]
pub struct FieldDescriptor {
    pub label: String,
    pub renamed_label: String,
    pub shape: TypeShape,
    pub role: FieldRole,
    pub is_generic: bool,
}

/// Plan generation failure.
#[derive(Debug, PartialEq, Eq)]
pub enum PlanError {
    /// A shape/role combination with no defined mapping. A hard failure:
    /// silently emitting nothing would be data loss indistinguishable from
    /// success.
    Unimplemented { shape: TypeShape, role: FieldRole },
}

impl Clone for ValueSource {
    fn clone(&self) -> (r: Self)
        ensures
            r == *self,
    {
        match self {
            ValueSource::Field(l) => ValueSource::Field(l.clone()),
            ValueSource::Bound => ValueSource::Bound,
        }
    }
}

impl Clone for ValueExpr {
    fn clone(&self) -> (r: Self)
        ensures
            r == *self,
    {
        match self {
            ValueExpr::Verbatim(s) => ValueExpr::Verbatim(s.clone()),
            ValueExpr::Canonical(s) => ValueExpr::Canonical(s.clone()),
            ValueExpr::NestedContent(s) => ValueExpr::NestedContent(s.clone()),
            ValueExpr::OrEmpty(s) => ValueExpr::OrEmpty(s.clone()),
        }
    }
}

impl Clone for SerializationOp {
    fn clone(&self) -> (r: Self)
        ensures
            r == *self,
        decreases *self,
    {
        match self {
            SerializationOp::EmitAttribute { name, value, guard } => SerializationOp::EmitAttribute {
                name: name.clone(),
                value: value.clone(),
                guard: match guard {
                    Some(g) => Some(g.clone()),
                    None => None,
                },
            },
            SerializationOp::EmitCharacters { value } => SerializationOp::EmitCharacters {
                value: value.clone(),
            },
            SerializationOp::EmitElement { name, value } => SerializationOp::EmitElement {
                name: name.clone(),
                value: value.clone(),
            },
            SerializationOp::MergeAttributes { source } => SerializationOp::MergeAttributes {
                source: source.clone(),
            },
            SerializationOp::Delegate { name, skip_start_end, generic, source } => SerializationOp::Delegate {
                name: match name {
                    Some(n) => Some(n.clone()),
                    None => None,
                },
                skip_start_end: *skip_start_end,
                generic: *generic,
                source: source.clone(),
            },
            SerializationOp::Conditional { guard, body } => SerializationOp::Conditional {
                guard: guard.clone(),
                body: Box::new((**body).clone()),
            },
            SerializationOp::ForEach { collection, body } => SerializationOp::ForEach {
                collection: collection.clone(),
                body: Box::new((**body).clone()),
            },
        }
    }
}

/// A model with only attribute-producing operations.
pub open spec fn attrs_only(ops: Seq<SerializationOp>) -> FieldPlanModel {
    FieldPlanModel { attribute_ops: ops, content_ops: Seq::empty() }
}

/// A model with only content-producing operations.
pub open spec fn content_only(ops: Seq<SerializationOp>) -> FieldPlanModel {
    FieldPlanModel { attribute_ops: Seq::empty(), content_ops: ops }
}

/// The `Unimplemented` failure for this descriptor.
pub open spec fn spec_unimplemented(d: FieldDescriptor) -> Result<FieldPlanModel, PlanError> {
    Err(PlanError::Unimplemented { shape: d.shape, role: d.role })
}

/// The plan of a field with `Attribute` role.
pub open spec fn spec_attribute_plan(d: FieldDescriptor) -> Result<FieldPlanModel, PlanError> {
    match d.shape {
        TypeShape::Scalar(_) => Ok(attrs_only(seq![SerializationOp::EmitAttribute {
            name: d.renamed_label,
            value: ValueExpr::Canonical(ValueSource::Field(d.label)),
            guard: None,
        }])),
        TypeShape::Optional(inner) => match *inner {
            TypeShape::Scalar(ScalarKind::Text) => Ok(attrs_only(seq![SerializationOp::EmitAttribute {
                name: d.renamed_label,
                value: ValueExpr::Verbatim(ValueSource::Field(d.label)),
                guard: Some(ValueSource::Field(d.label)),
            }])),
            TypeShape::Scalar(_) => Ok(attrs_only(seq![SerializationOp::EmitAttribute {
                name: d.renamed_label,
                value: ValueExpr::Canonical(ValueSource::Field(d.label)),
                guard: Some(ValueSource::Field(d.label)),
            }])),
            TypeShape::Record => Ok(attrs_only(seq![SerializationOp::EmitAttribute {
                name: d.renamed_label,
                value: ValueExpr::NestedContent(ValueSource::Field(d.label)),
                guard: Some(ValueSource::Field(d.label)),
            }])),
            TypeShape::Collection(c) => match *c {
                TypeShape::Scalar(_) => Ok(attrs_only(seq![SerializationOp::Conditional {
                    guard: ValueSource::Field(d.label),
                    body: Box::new(SerializationOp::ForEach {
                        collection: ValueSource::Bound,
                        body: Box::new(SerializationOp::EmitAttribute {
                            name: d.renamed_label,
                            value: ValueExpr::Canonical(ValueSource::Bound),
                            guard: None,
                        }),
                    }),
                }])),
                _ => spec_unimplemented(d),
            },
            TypeShape::Optional(_) => spec_unimplemented(d),
        },
        TypeShape::Record => Ok(attrs_only(seq![SerializationOp::EmitAttribute {
            name: d.renamed_label,
            value: ValueExpr::NestedContent(ValueSource::Field(d.label)),
            guard: None,
        }])),
        TypeShape::Collection(_) => spec_unimplemented(d),
    }
}

/// The plan of a field with `TextContent` role.
pub open spec fn spec_text_plan(d: FieldDescriptor) -> Result<FieldPlanModel, PlanError> {
    match d.shape {
        TypeShape::Scalar(_) => Ok(content_only(seq![SerializationOp::EmitCharacters {
            value: ValueExpr::Canonical(ValueSource::Field(d.label)),
        }])),
        TypeShape::Optional(inner) => match *inner {
            TypeShape::Scalar(_) => Ok(content_only(seq![SerializationOp::EmitCharacters {
                value: ValueExpr::OrEmpty(ValueSource::Field(d.label)),
            }])),
            _ => spec_unimplemented(d),
        },
        _ => spec_unimplemented(d),
    }
}

/// The plan of a field with `Flatten` role.
pub open spec fn spec_flatten_plan(d: FieldDescriptor) -> Result<FieldPlanModel, PlanError> {
    match d.shape {
        TypeShape::Record => Ok(FieldPlanModel {
            attribute_ops: seq![SerializationOp::MergeAttributes {
                source: ValueSource::Field(d.label),
            }],
            content_ops: seq![SerializationOp::Delegate {
                name: None,
                skip_start_end: true,
                generic: d.is_generic,
                source: ValueSource::Field(d.label),
            }],
        }),
        TypeShape::Optional(inner) => match *inner {
            TypeShape::Record => Ok(content_only(seq![SerializationOp::Conditional {
                guard: ValueSource::Field(d.label),
                body: Box::new(SerializationOp::Delegate {
                    name: None,
                    skip_start_end: true,
                    generic: d.is_generic,
                    source: ValueSource::Bound,
                }),
            }])),
            _ => spec_unimplemented(d),
        },
        TypeShape::Collection(inner) => match *inner {
            TypeShape::Record => Ok(content_only(seq![SerializationOp::ForEach {
                collection: ValueSource::Field(d.label),
                body: Box::new(SerializationOp::Delegate {
                    name: None,
                    skip_start_end: true,
                    generic: d.is_generic,
                    source: ValueSource::Bound,
                }),
            }])),
            TypeShape::Optional(_) => Ok(content_only(seq![SerializationOp::ForEach {
                collection: ValueSource::Field(d.label),
                body: Box::new(SerializationOp::Conditional {
                    guard: ValueSource::Bound,
                    body: Box::new(SerializationOp::Delegate {
                        name: None,
                        skip_start_end: true,
                        generic: d.is_generic,
                        source: ValueSource::Bound,
                    }),
                }),
            }])),
            _ => spec_unimplemented(d),
        },
        _ => spec_unimplemented(d),
    }
}

/// The plan of a field with `Element` role (the default).
pub open spec fn spec_element_plan(d: FieldDescriptor) -> Result<FieldPlanModel, PlanError> {
    match d.shape {
        TypeShape::Scalar(_) => Ok(content_only(seq![SerializationOp::EmitElement {
            name: d.renamed_label,
            value: ValueExpr::Canonical(ValueSource::Field(d.label)),
        }])),
        TypeShape::Optional(inner) => match *inner {
            TypeShape::Scalar(_) => Ok(content_only(seq![SerializationOp::Conditional {
                guard: ValueSource::Field(d.label),
                body: Box::new(SerializationOp::EmitElement {
                    name: d.renamed_label,
                    value: ValueExpr::Canonical(ValueSource::Bound),
                }),
            }])),
            TypeShape::Collection(_) => Ok(content_only(seq![SerializationOp::Conditional {
                guard: ValueSource::Field(d.label),
                body: Box::new(SerializationOp::ForEach {
                    collection: ValueSource::Bound,
                    body: Box::new(SerializationOp::EmitElement {
                        name: d.renamed_label,
                        value: ValueExpr::Canonical(ValueSource::Bound),
                    }),
                }),
            }])),
            TypeShape::Record => Ok(content_only(seq![SerializationOp::Conditional {
                guard: ValueSource::Field(d.label),
                body: Box::new(SerializationOp::Delegate {
                    name: Some(d.renamed_label),
                    skip_start_end: false,
                    generic: d.is_generic,
                    source: ValueSource::Bound,
                }),
            }])),
            TypeShape::Optional(_) => spec_unimplemented(d),
        },
        TypeShape::Collection(inner) => match *inner {
            TypeShape::Scalar(_) => Ok(content_only(seq![SerializationOp::ForEach {
                collection: ValueSource::Field(d.label),
                body: Box::new(SerializationOp::EmitElement {
                    name: d.renamed_label,
                    value: ValueExpr::Canonical(ValueSource::Bound),
                }),
            }])),
            TypeShape::Record => Ok(content_only(seq![SerializationOp::ForEach {
                collection: ValueSource::Field(d.label),
                body: Box::new(SerializationOp::Delegate {
                    name: Some(d.renamed_label),
                    skip_start_end: false,
                    generic: d.is_generic,
                    source: ValueSource::Bound,
                }),
            }])),
            TypeShape::Optional(_) => Ok(content_only(seq![SerializationOp::ForEach {
                collection: ValueSource::Field(d.label),
                body: Box::new(SerializationOp::Conditional {
                    guard: ValueSource::Bound,
                    body: Box::new(SerializationOp::Delegate {
                        name: None,
                        skip_start_end: false,
                        generic: d.is_generic,
                        source: ValueSource::Bound,
                    }),
                }),
            }])),
            TypeShape::Collection(_) => spec_unimplemented(d),
        },
        TypeShape::Record => Ok(content_only(seq![SerializationOp::Delegate {
            name: Some(d.renamed_label),
            skip_start_end: false,
            generic: d.is_generic,
            source: ValueSource::Field(d.label),
        }])),
    }
}

/// What plan generation returns for one field: the dispatch is shape-first,
/// role-second, following the generation table; a `Skip` field contributes
/// nothing; a combination with no mapping is `Unimplemented`.
pub open spec fn spec_generate(d: FieldDescriptor) -> Result<FieldPlanModel, PlanError> {
    match d.role {
        FieldRole::Skip => Ok(FieldPlanModel { attribute_ops: Seq::empty(), content_ops: Seq::empty() }),
        FieldRole::Attribute => spec_attribute_plan(d),
        FieldRole::TextContent => spec_text_plan(d),
        FieldRole::Flatten => spec_flatten_plan(d),
        FieldRole::Element => spec_element_plan(d),
    }
}

/// The executable result agrees with the model result: same success or the
/// very same error, and on success the same operations on both sides.
pub open spec fn plan_matches(r: Result<FieldPlan, PlanError>, m: Result<FieldPlanModel, PlanError>) -> bool {
    match (r, m) {
        (Ok(p), Ok(mm)) => p@ == mm,
        (Err(e), Err(f)) => e == f,
        _ => false,
    }
}

/// A vector holding exactly one operation.
fn one_op(op: SerializationOp) -> (v: Vec<SerializationOp>)
    ensures
        v@ =~= seq![op],
{
    let mut v: Vec<SerializationOp> = Vec::new();
    v.push(op);
    v
}

/// A plan with only this attribute-producing operation.
fn attr_plan(op: SerializationOp) -> (p: FieldPlan)
    ensures
        p@ =~= attrs_only(seq![op]),
{
    FieldPlan { attribute_ops: one_op(op), content_ops: Vec::new() }
}

/// A plan with only this content-producing operation.
fn content_plan(op: SerializationOp) -> (p: FieldPlan)
    ensures
        p@ =~= content_only(seq![op]),
{
    FieldPlan { attribute_ops: Vec::new(), content_ops: one_op(op) }
}

/// The `Unimplemented` failure for this descriptor.
fn unimplemented_for(d: &FieldDescriptor) -> (r: Result<FieldPlan, PlanError>)
    ensures
        Result::<FieldPlanModel, PlanError>::Err(r->Err_0) == spec_unimplemented(*d),
        r is Err,
{
    Err(PlanError::Unimplemented { shape: d.shape.clone(), role: d.role })
}

/// Generates one field's plan from its descriptor: the ordered operations
/// that serialize the field, placed on the attribute side, the content
/// side, or both, exactly as the generation table maps its shape and role.
pub fn generate(d: &FieldDescriptor) -> (r: Result<FieldPlan, PlanError>)
    ensures
        plan_matches(r, spec_generate(*d)),
{
    match d.role {
        FieldRole::Skip => Ok(FieldPlan { attribute_ops: Vec::new(), content_ops: Vec::new() }),
        FieldRole::Attribute => generate_attribute(d),
        FieldRole::TextContent => generate_text(d),
        FieldRole::Flatten => generate_flatten(d),
        FieldRole::Element => generate_element(d),
    }
}

/// The `Attribute` column of the generation table.
fn generate_attribute(d: &FieldDescriptor) -> (r: Result<FieldPlan, PlanError>)
    requires
        d.role == FieldRole::Attribute,
    ensures
        plan_matches(r, spec_attribute_plan(*d)),
{
    match &d.shape {
        TypeShape::Scalar(_) => Ok(attr_plan(SerializationOp::EmitAttribute {
            name: d.renamed_label.clone(),
            value: ValueExpr::Canonical(ValueSource::Field(d.label.clone())),
            guard: None,
        })),
        TypeShape::Optional(inner) => match &**inner {
            TypeShape::Scalar(ScalarKind::Text) => Ok(attr_plan(SerializationOp::EmitAttribute {
                name: d.renamed_label.clone(),
                value: ValueExpr::Verbatim(ValueSource::Field(d.label.clone())),
                guard: Some(ValueSource::Field(d.label.clone())),
            })),
            TypeShape::Scalar(_) => Ok(attr_plan(SerializationOp::EmitAttribute {
                name: d.renamed_label.clone(),
                value: ValueExpr::Canonical(ValueSource::Field(d.label.clone())),
                guard: Some(ValueSource::Field(d.label.clone())),
            })),
            TypeShape::Record => Ok(attr_plan(SerializationOp::EmitAttribute {
                name: d.renamed_label.clone(),
                value: ValueExpr::NestedContent(ValueSource::Field(d.label.clone())),
                guard: Some(ValueSource::Field(d.label.clone())),
            })),
            TypeShape::Collection(c) => match &**c {
                TypeShape::Scalar(_) => Ok(attr_plan(SerializationOp::Conditional {
                    guard: ValueSource::Field(d.label.clone()),
                    body: Box::new(SerializationOp::ForEach {
                        collection: ValueSource::Bound,
                        body: Box::new(SerializationOp::EmitAttribute {
                            name: d.renamed_label.clone(),
                            value: ValueExpr::Canonical(ValueSource::Bound),
                            guard: None,
                        }),
                    }),
                })),
                _ => unimplemented_for(d),
            },
            TypeShape::Optional(_) => unimplemented_for(d),
        },
        TypeShape::Record => Ok(attr_plan(SerializationOp::EmitAttribute {
            name: d.renamed_label.clone(),
            value: ValueExpr::NestedContent(ValueSource::Field(d.label.clone())),
            guard: None,
        })),
        TypeShape::Collection(_) => unimplemented_for(d),
    }
}

/// The `TextContent` column of the generation table.
fn generate_text(d: &FieldDescriptor) -> (r: Result<FieldPlan, PlanError>)
    requires
        d.role == FieldRole::TextContent,
    ensures
        plan_matches(r, spec_text_plan(*d)),
{
    match &d.shape {
        TypeShape::Scalar(_) => Ok(content_plan(SerializationOp::EmitCharacters {
            value: ValueExpr::Canonical(ValueSource::Field(d.label.clone())),
        })),
        TypeShape::Optional(inner) => match &**inner {
            TypeShape::Scalar(_) => Ok(content_plan(SerializationOp::EmitCharacters {
                value: ValueExpr::OrEmpty(ValueSource::Field(d.label.clone())),
            })),
            _ => unimplemented_for(d),
        },
        _ => unimplemented_for(d),
    }
}

/// The `Flatten` column of the generation table.
fn generate_flatten(d: &FieldDescriptor) -> (r: Result<FieldPlan, PlanError>)
    requires
        d.role == FieldRole::Flatten,
    ensures
        plan_matches(r, spec_flatten_plan(*d)),
{
    match &d.shape {
        TypeShape::Record => Ok(FieldPlan {
            attribute_ops: one_op(SerializationOp::MergeAttributes {
                source: ValueSource::Field(d.label.clone()),
            }),
            content_ops: one_op(SerializationOp::Delegate {
                name: None,
                skip_start_end: true,
                generic: d.is_generic,
                source: ValueSource::Field(d.label.clone()),
            }),
        }),
        TypeShape::Optional(inner) => match &**inner {
            TypeShape::Record => Ok(content_plan(SerializationOp::Conditional {
                guard: ValueSource::Field(d.label.clone()),
                body: Box::new(SerializationOp::Delegate {
                    name: None,
                    skip_start_end: true,
                    generic: d.is_generic,
                    source: ValueSource::Bound,
                }),
            })),
            _ => unimplemented_for(d),
        },
        TypeShape::Collection(inner) => match &**inner {
            TypeShape::Record => Ok(content_plan(SerializationOp::ForEach {
                collection: ValueSource::Field(d.label.clone()),
                body: Box::new(SerializationOp::Delegate {
                    name: None,
                    skip_start_end: true,
                    generic: d.is_generic,
                    source: ValueSource::Bound,
                }),
            })),
            TypeShape::Optional(_) => Ok(content_plan(SerializationOp::ForEach {
                collection: ValueSource::Field(d.label.clone()),
                body: Box::new(SerializationOp::Conditional {
                    guard: ValueSource::Bound,
                    body: Box::new(SerializationOp::Delegate {
                        name: None,
                        skip_start_end: true,
                        generic: d.is_generic,
                        source: ValueSource::Bound,
                    }),
                }),
            })),
            _ => unimplemented_for(d),
        },
        _ => unimplemented_for(d),
    }
}

/// The `Element` column of the generation table.
fn generate_element(d: &FieldDescriptor) -> (r: Result<FieldPlan, PlanError>)
    requires
        d.role == FieldRole::Element,
    ensures
        plan_matches(r, spec_element_plan(*d)),
{
    match &d.shape {
        TypeShape::Scalar(_) => Ok(content_plan(SerializationOp::EmitElement {
            name: d.renamed_label.clone(),
            value: ValueExpr::Canonical(ValueSource::Field(d.label.clone())),
        })),
        TypeShape::Optional(inner) => match &**inner {
            TypeShape::Scalar(_) => Ok(content_plan(SerializationOp::Conditional {
                guard: ValueSource::Field(d.label.clone()),
                body: Box::new(SerializationOp::EmitElement {
                    name: d.renamed_label.clone(),
                    value: ValueExpr::Canonical(ValueSource::Bound),
                }),
            })),
            TypeShape::Collection(_) => Ok(content_plan(SerializationOp::Conditional {
                guard: ValueSource::Field(d.label.clone()),
                body: Box::new(SerializationOp::ForEach {
                    collection: ValueSource::Bound,
                    body: Box::new(SerializationOp::EmitElement {
                        name: d.renamed_label.clone(),
                        value: ValueExpr::Canonical(ValueSource::Bound),
                    }),
                }),
            })),
            TypeShape::Record => Ok(content_plan(SerializationOp::Conditional {
                guard: ValueSource::Field(d.label.clone()),
                body: Box::new(SerializationOp::Delegate {
                    name: Some(d.renamed_label.clone()),
                    skip_start_end: false,
                    generic: d.is_generic,
                    source: ValueSource::Bound,
                }),
            })),
            TypeShape::Optional(_) => unimplemented_for(d),
        },
        TypeShape::Collection(inner) => match &**inner {
            TypeShape::Scalar(_) => Ok(content_plan(SerializationOp::ForEach {
                collection: ValueSource::Field(d.label.clone()),
                body: Box::new(SerializationOp::EmitElement {
                    name: d.renamed_label.clone(),
                    value: ValueExpr::Canonical(ValueSource::Bound),
                }),
            })),
            TypeShape::Record => Ok(content_plan(SerializationOp::ForEach {
                collection: ValueSource::Field(d.label.clone()),
                body: Box::new(SerializationOp::Delegate {
                    name: Some(d.renamed_label.clone()),
                    skip_start_end: false,
                    generic: d.is_generic,
                    source: ValueSource::Bound,
                }),
            })),
            TypeShape::Optional(_) => Ok(content_plan(SerializationOp::ForEach {
                collection: ValueSource::Field(d.label.clone()),
                body: Box::new(SerializationOp::Conditional {
                    guard: ValueSource::Bound,
                    body: Box::new(SerializationOp::Delegate {
                        name: None,
                        skip_start_end: false,
                        generic: d.is_generic,
                        source: ValueSource::Bound,
                    }),
                }),
            })),
            TypeShape::Collection(_) => unimplemented_for(d),
        },
        TypeShape::Record => Ok(content_plan(SerializationOp::Delegate {
            name: Some(d.renamed_label.clone()),
            skip_start_end: false,
            generic: d.is_generic,
            source: ValueSource::Field(d.label.clone()),
        })),
    }
}

} // verus!
