//! The plan assembler and the whole-record pipeline: classification, role
//! resolution and plan generation for every field, then concatenation of
//! the per-field plans into the record's plan, in declaration order.

use vstd::prelude::*;
use crate::plan::{
    generate, plan_matches, spec_generate, FieldDescriptor, FieldPlan, FieldPlanModel, PlanError,
    SerializationOp,
};
use crate::role::{resolve, spec_resolve, RoleError, RoleFlags};
use crate::shape::{classify, spec_classify, DeclaredType, ShapeError};

verus! {

/// A record's serialization plan: the attribute-producing operations that
/// must be attached to the enclosing start tag before it opens, then the
/// content-producing operations, both in field declaration order. No
/// reordering, no deduplication: declaration order is the contract.
#[derive(Debug, PartialEq, Eq)]
pub struct Plan {
    pub attribute_ops: Vec<SerializationOp>,
    pub content_ops: Vec<SerializationOp>,
}

/// The mathematical value of a `Plan`.
#[verifier::ext_equal]
pub struct PlanModel {
    pub attribute_ops: Seq<SerializationOp>,
    pub content_ops: Seq<SerializationOp>,
}

impl View for Plan {
    type V = PlanModel;

    open spec fn view(&self) -> PlanModel {
        PlanModel { attribute_ops: self.attribute_ops@, content_ops: self.content_ops@ }
    }
}

/// What the extractor hands over for one field, before classification.
#[derive(Debug, PartialEq, Eq)]
pub struct FieldInput {
    pub label: String,
    pub renamed_label: String,
    pub declared: DeclaredType,
    pub flags: RoleFlags,
    pub is_generic: bool,
}

/// Any failure of plan generation. A failure on one field aborts the whole
/// record's plan: a record is serializable as a whole or not at all.
#[derive(Debug, PartialEq, Eq)]
pub enum GenError {
    Shape(ShapeError),
    Role(RoleError),
    Plan(PlanError),
}

/// The models of a sequence of field plans.
pub open spec fn models_of(plans: Seq<FieldPlan>) -> Seq<FieldPlanModel> {
    plans.map_values(|fp: FieldPlan| fp@)
}

/// The concatenation of the attribute-producing operations, in order.
pub open spec fn spec_assemble_attrs(ms: Seq<FieldPlanModel>) -> Seq<SerializationOp>
    decreases ms.len(),
{
    if ms.len() == 0 {
        Seq::empty()
    } else {
        spec_assemble_attrs(ms.drop_last()) + ms.last().attribute_ops
    }
}

/// The concatenation of the content-producing operations, in order.
pub open spec fn spec_assemble_contents(ms: Seq<FieldPlanModel>) -> Seq<SerializationOp>
    decreases ms.len(),
{
    if ms.len() == 0 {
        Seq::empty()
    } else {
        spec_assemble_contents(ms.drop_last()) + ms.last().content_ops
    }
}

/// What assembly returns: both groups concatenated in declaration order.
pub open spec fn spec_assemble(ms: Seq<FieldPlanModel>) -> PlanModel {
    PlanModel {
        attribute_ops: spec_assemble_attrs(ms),
        content_ops: spec_assemble_contents(ms),
    }
}

/// The descriptor of one field: its declared type classified into a shape
/// and its flags resolved into a role, each failure aborting generation.
pub open spec fn spec_descriptor(f: FieldInput) -> Result<FieldDescriptor, GenError> {
    match spec_classify(f.declared) {
        Err(e) => Err(GenError::Shape(e)),
        Ok(shape) => match spec_resolve(f.flags, shape) {
            Err(e) => Err(GenError::Role(e)),
            Ok(role) => Ok(FieldDescriptor {
                label: f.label,
                renamed_label: f.renamed_label,
                shape,
                role,
                is_generic: f.is_generic,
            }),
        },
    }
}

/// One field's plan, from the raw field input.
pub open spec fn spec_field_plan(f: FieldInput) -> Result<FieldPlanModel, GenError> {
    match spec_descriptor(f) {
        Err(e) => Err(e),
        Ok(d) => match spec_generate(d) {
            Err(e) => Err(GenError::Plan(e)),
            Ok(m) => Ok(m),
        },
    }
}

/// The plans of all fields in declaration order, or the first failure.
pub open spec fn spec_field_plans(fields: Seq<FieldInput>) -> Result<Seq<FieldPlanModel>, GenError>
    decreases fields.len(),
{
    if fields.len() == 0 {
        Ok(Seq::empty())
    } else {
        match spec_field_plans(fields.drop_last()) {
            Err(e) => Err(e),
            Ok(ms) => match spec_field_plan(fields.last()) {
                Err(e) => Err(e),
                Ok(m) => Ok(ms.push(m)),
            },
        }
    }
}

/// What the whole pipeline returns for a record's fields.
pub open spec fn spec_serialize(fields: Seq<FieldInput>) -> Result<PlanModel, GenError> {
    match spec_field_plans(fields) {
        Err(e) => Err(e),
        Ok(ms) => Ok(spec_assemble(ms)),
    }
}

/// The executable result agrees with the model result.
pub open spec fn field_plan_matches(r: Result<FieldPlan, GenError>, m: Result<FieldPlanModel, GenError>) -> bool {
    match (r, m) {
        (Ok(p), Ok(mm)) => p@ == mm,
        (Err(e), Err(f)) => e == f,
        _ => false,
    }
}

/// A failure on any prefix of the fields is the failure of the whole.
proof fn lemma_field_plans_err(fields: Seq<FieldInput>, k: int)
    requires
        0 <= k <= fields.len(),
        spec_field_plans(fields.take(k)) is Err,
    ensures
        spec_field_plans(fields) == spec_field_plans(fields.take(k)),
    decreases fields.len() - k,
{
    if k == fields.len() {
        assert(fields.take(k) =~= fields);
    } else {
        assert(fields.take(k + 1).drop_last() =~= fields.take(k));
        assert(spec_field_plans(fields.take(k + 1)) == spec_field_plans(fields.take(k)));
        lemma_field_plans_err(fields, k + 1);
    }
}

/// Builds the canonical descriptor of one field.
pub fn build_descriptor(f: &FieldInput) -> (r: Result<FieldDescriptor, GenError>)
    ensures
        r == spec_descriptor(*f),
{
    match classify(&f.declared) {
        Err(e) => Err(GenError::Shape(e)),
        Ok(shape) => match resolve(&f.flags, &shape) {
            Err(e) => Err(GenError::Role(e)),
            Ok(role) => Ok(FieldDescriptor {
                label: f.label.clone(),
                renamed_label: f.renamed_label.clone(),
                shape,
                role,
                is_generic: f.is_generic,
            }),
        },
    }
}

/// Builds one field's plan from its raw input.
pub fn field_plan(f: &FieldInput) -> (r: Result<FieldPlan, GenError>)
    ensures
        field_plan_matches(r, spec_field_plan(*f)),
{
    match build_descriptor(f) {
        Err(e) => Err(e),
        Ok(d) => match generate(&d) {
            Err(e) => Err(GenError::Plan(e)),
            Ok(p) => {
                proof {
                    assert(plan_matches(Ok(p), spec_generate(d)));
                }
                Ok(p)
            },
        },
    }
}

/// Appends a copy of every operation of `src` to `dst`, in order.
fn append_cloned(dst: &mut Vec<SerializationOp>, src: &Vec<SerializationOp>)
    ensures
        final(dst)@ == old(dst)@ + src@,
{
    let mut j: usize = 0;
    while j < src.len()
        invariant
            j <= src.len(),
            dst@ =~= old(dst)@ + src@.take(j as int),
        decreases src.len() - j,
    {
        dst.push(src[j].clone());
        assert(src@.take(j as int + 1) =~= src@.take(j as int).push(src@[j as int]));
        j = j + 1;
    }
    assert(src@.take(src@.len() as int) =~= src@);
}

/// Concatenates the per-field plans into the record's plan: all
/// attribute-producing operations in field declaration order, then all
/// content-producing operations in field declaration order.
pub fn assemble(plans: &Vec<FieldPlan>) -> (p: Plan)
    ensures
        p@ == spec_assemble(models_of(plans@)),
{
    let mut attribute_ops: Vec<SerializationOp> = Vec::new();
    let mut content_ops: Vec<SerializationOp> = Vec::new();
    let mut i: usize = 0;
    while i < plans.len()
        invariant
            i <= plans.len(),
            attribute_ops@ =~= spec_assemble_attrs(models_of(plans@.take(i as int))),
            content_ops@ =~= spec_assemble_contents(models_of(plans@.take(i as int))),
        decreases plans.len() - i,
    {
        append_cloned(&mut attribute_ops, &plans[i].attribute_ops);
        append_cloned(&mut content_ops, &plans[i].content_ops);
        proof {
            assert(models_of(plans@.take(i as int + 1)).drop_last() =~= models_of(
                plans@.take(i as int),
            ));
            assert(models_of(plans@.take(i as int + 1)).last() == plans@[i as int]@);
        }
        i = i + 1;
    }
    proof {
        assert(plans@.take(plans@.len() as int) =~= plans@);
    }
    let p = Plan { attribute_ops, content_ops };
    proof {
        assert(p@ =~= spec_assemble(models_of(plans@)));
    }
    p
}

/// Builds the serialization plan of a record from the ordered inputs of its
/// fields: classifies each declared type, resolves each role, generates each
/// field's plan, and assembles them in declaration order. The first failing
/// field aborts the whole record's plan with its error.
///
/// Caller contracts: a record should declare at most one text-content
/// field (each such field emits its own text node, in order); and repeated
/// attribute occurrences from an optional scalar collection deliberately
/// share one attribute name, a departure from attribute uniqueness.
pub fn serialize(fields: &Vec<FieldInput>) -> (r: Result<Plan, GenError>)
    ensures
        r matches Ok(p) ==> spec_serialize(fields@) matches Ok(m) && p@ == m,
        r matches Err(e) ==> spec_serialize(fields@) matches Err(f) && e == f,
{
    let mut plans: Vec<FieldPlan> = Vec::new();
    let mut i: usize = 0;
    while i < fields.len()
        invariant
            i <= fields.len(),
            spec_field_plans(fields@.take(i as int)) matches Ok(ms) && ms == models_of(plans@),
        decreases fields.len() - i,
    {
        match field_plan(&fields[i]) {
            Err(e) => {
                proof {
                    assert(fields@.take(i as int + 1).drop_last() =~= fields@.take(i as int));
                    assert(spec_field_plans(fields@.take(i as int + 1)) is Err);
                    lemma_field_plans_err(fields@, i as int + 1);
                }
                return Err(e);
            },
            Ok(fp) => {
                proof {
                    assert(fields@.take(i as int + 1).drop_last() =~= fields@.take(i as int));
                    assert(fields@.take(i as int + 1).last() == fields@[i as int]);
                    assert(models_of(plans@.push(fp)) =~= models_of(plans@).push(fp@));
                }
                plans.push(fp);
            },
        }
        i = i + 1;
    }
    proof {
        assert(fields@.take(fields@.len() as int) =~= fields@);
    }
    let p = assemble(&plans);
    Ok(p)
}

} // verus!
