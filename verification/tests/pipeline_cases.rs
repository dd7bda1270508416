use xml_plan::assemble::{serialize, FieldInput, GenError, Plan};
use xml_plan::plan::{PlanError, SerializationOp, ValueExpr, ValueSource};
use xml_plan::role::{FieldRole, RoleError, RoleFlags};
use xml_plan::shape::{DeclaredType, ShapeError, TypeShape};

/// A field value for running a plan, mirroring the library's evaluation
/// model: scalars carry their canonical text.
#[derive(Clone, Debug, PartialEq)]
enum Val {
    Text(String),
    Absent,
    Present(Box<Val>),
    Items(Vec<Val>),
}

#[derive(Debug, PartialEq)]
enum Evt {
    Start(String),
    Chars(String),
    End,
    Delegated(Option<String>, bool, bool),
}

struct Env {
    fields: Vec<(String, Val)>,
    bound: Option<Val>,
}

fn lookup(env: &Env, src: &ValueSource) -> Val {
    match src {
        ValueSource::Field(l) => env
            .fields
            .iter()
            .find(|(k, _)| k == l)
            .map(|(_, v)| v.clone())
            .unwrap_or(Val::Absent),
        ValueSource::Bound => env.bound.clone().unwrap_or(Val::Absent),
    }
}

fn payload(v: Val) -> Val {
    match v {
        Val::Present(inner) => *inner,
        other => other,
    }
}

fn scalar_text(v: Val) -> String {
    match v {
        Val::Text(s) => s,
        _ => String::new(),
    }
}

fn eval_expr(e: &ValueExpr, env: &Env) -> String {
    match e {
        ValueExpr::Verbatim(s) | ValueExpr::Canonical(s) => scalar_text(payload(lookup(env, s))),
        ValueExpr::NestedContent(_) => String::new(),
        ValueExpr::OrEmpty(s) => {
            let v = lookup(env, s);
            if v == Val::Absent {
                String::new()
            } else {
                scalar_text(payload(v))
            }
        }
    }
}

fn with_bound(env: &Env, v: Val) -> Env {
    Env { fields: env.fields.clone(), bound: Some(v) }
}

fn eval_attr_op(op: &SerializationOp, env: &Env, out: &mut Vec<(String, String)>) {
    match op {
        SerializationOp::EmitAttribute { name, value, guard } => {
            let emit = match guard {
                None => true,
                Some(g) => lookup(env, g) != Val::Absent,
            };
            if emit {
                out.push((name.clone(), eval_expr(value, env)));
            }
        }
        SerializationOp::Conditional { guard, body } => {
            let v = lookup(env, guard);
            if v != Val::Absent {
                eval_attr_op(body, &with_bound(env, payload(v)), out);
            }
        }
        SerializationOp::ForEach { collection, body } => {
            if let Val::Items(items) = lookup(env, collection) {
                for item in items {
                    eval_attr_op(body, &with_bound(env, item), out);
                }
            }
        }
        _ => {}
    }
}

fn eval_content_op(op: &SerializationOp, env: &Env, out: &mut Vec<Evt>) {
    match op {
        SerializationOp::EmitCharacters { value } => out.push(Evt::Chars(eval_expr(value, env))),
        SerializationOp::EmitElement { name, value } => {
            out.push(Evt::Start(name.clone()));
            out.push(Evt::Chars(eval_expr(value, env)));
            out.push(Evt::End);
        }
        SerializationOp::Delegate { name, skip_start_end, generic, .. } => {
            out.push(Evt::Delegated(name.clone(), *skip_start_end, *generic));
        }
        SerializationOp::Conditional { guard, body } => {
            let v = lookup(env, guard);
            if v != Val::Absent {
                eval_content_op(body, &with_bound(env, payload(v)), out);
            }
        }
        SerializationOp::ForEach { collection, body } => {
            if let Val::Items(items) = lookup(env, collection) {
                for item in items {
                    eval_content_op(body, &with_bound(env, item), out);
                }
            }
        }
        _ => {}
    }
}

fn run(plan: &Plan, fields: Vec<(&str, Val)>) -> (Vec<(String, String)>, Vec<Evt>) {
    let env = Env {
        fields: fields.into_iter().map(|(k, v)| (k.to_string(), v)).collect(),
        bound: None,
    };
    let mut attrs = Vec::new();
    for op in &plan.attribute_ops {
        eval_attr_op(op, &env, &mut attrs);
    }
    let mut evts = Vec::new();
    for op in &plan.content_ops {
        eval_content_op(op, &env, &mut evts);
    }
    (attrs, evts)
}

fn leaf(name: &str) -> DeclaredType {
    DeclaredType { name: name.to_string(), parameter: None }
}

fn wrap(name: &str, inner: DeclaredType) -> DeclaredType {
    DeclaredType { name: name.to_string(), parameter: Some(Box::new(inner)) }
}

fn input(label: &str, declared: DeclaredType, flags: RoleFlags) -> FieldInput {
    FieldInput {
        label: label.to_string(),
        renamed_label: label.to_string(),
        declared,
        flags,
        is_generic: false,
    }
}

fn no_flags() -> RoleFlags {
    RoleFlags { attribute: false, text_content: false, flatten: false, skip: false }
}

fn attr_flags() -> RoleFlags {
    RoleFlags { attribute: true, ..no_flags() }
}

fn scenario_fields() -> Vec<FieldInput> {
    vec![
        input("id", wrap("Option", leaf("i32")), attr_flags()),
        input("name", leaf("String"), no_flags()),
        input("tags", wrap("Vec", leaf("String")), no_flags()),
    ]
}

#[test]
fn scenario_present_id_scalar_and_collection() {
    let plan = serialize(&scenario_fields()).unwrap();
    let (attrs, evts) = run(
        &plan,
        vec![
            ("id", Val::Present(Box::new(Val::Text("42".to_string())))),
            ("name", Val::Text("Billy".to_string())),
            (
                "tags",
                Val::Items(vec![Val::Text("a".to_string()), Val::Text("b".to_string())]),
            ),
        ],
    );
    assert_eq!(attrs, vec![("id".to_string(), "42".to_string())]);
    assert_eq!(
        evts,
        vec![
            Evt::Start("name".to_string()),
            Evt::Chars("Billy".to_string()),
            Evt::End,
            Evt::Start("tags".to_string()),
            Evt::Chars("a".to_string()),
            Evt::End,
            Evt::Start("tags".to_string()),
            Evt::Chars("b".to_string()),
            Evt::End,
        ]
    );
}

#[test]
fn scenario_absent_id_has_no_attribute_at_all() {
    let plan = serialize(&scenario_fields()).unwrap();
    let (attrs, evts) = run(
        &plan,
        vec![
            ("id", Val::Absent),
            ("name", Val::Text("Billy".to_string())),
            ("tags", Val::Items(vec![])),
        ],
    );
    assert_eq!(attrs, vec![]);
    assert_eq!(
        evts,
        vec![
            Evt::Start("name".to_string()),
            Evt::Chars("Billy".to_string()),
            Evt::End,
        ]
    );
}

#[test]
fn optional_element_presence_round_trip() {
    let fields = vec![input("note", wrap("Option", leaf("String")), no_flags())];
    let plan = serialize(&fields).unwrap();
    let (_, present) = run(
        &plan,
        vec![("note", Val::Present(Box::new(Val::Text("hi".to_string()))))],
    );
    assert_eq!(
        present,
        vec![Evt::Start("note".to_string()), Evt::Chars("hi".to_string()), Evt::End]
    );
    let (_, absent) = run(&plan, vec![("note", Val::Absent)]);
    assert_eq!(absent, vec![]);
}

#[test]
fn optional_text_content_absent_is_empty_text() {
    let fields = vec![input(
        "body",
        wrap("Option", leaf("String")),
        RoleFlags { text_content: true, ..no_flags() },
    )];
    let plan = serialize(&fields).unwrap();
    let (_, evts) = run(&plan, vec![("body", Val::Absent)]);
    assert_eq!(evts, vec![Evt::Chars(String::new())]);
}

#[test]
fn collection_emits_one_element_per_item() {
    let fields = vec![input("tags", wrap("Vec", leaf("u8")), no_flags())];
    let plan = serialize(&fields).unwrap();
    for n in 0..4usize {
        let items: Vec<Val> = (0..n).map(|i| Val::Text(i.to_string())).collect();
        let (_, evts) = run(&plan, vec![("tags", Val::Items(items))]);
        assert_eq!(evts.len(), 3 * n);
    }
    let (_, empty) = run(&plan, vec![("tags", Val::Items(vec![]))]);
    assert_eq!(empty, vec![]);
}

#[test]
fn flatten_record_never_opens_a_wrapper() {
    let fields = vec![
        input("base", leaf("Address"), RoleFlags { flatten: true, ..no_flags() }),
        input("name", leaf("String"), no_flags()),
    ];
    let plan = serialize(&fields).unwrap();
    assert_eq!(
        plan.attribute_ops,
        vec![SerializationOp::MergeAttributes {
            source: ValueSource::Field("base".to_string()),
        }]
    );
    let (_, evts) = run(
        &plan,
        vec![("base", Val::Text(String::new())), ("name", Val::Text("n".to_string()))],
    );
    assert_eq!(
        evts,
        vec![
            Evt::Delegated(None, true, false),
            Evt::Start("name".to_string()),
            Evt::Chars("n".to_string()),
            Evt::End,
        ]
    );
}

#[test]
fn repeated_attribute_occurrences_share_one_name() {
    let fields = vec![input("tag", wrap("Option", wrap("Vec", leaf("String"))), attr_flags())];
    let plan = serialize(&fields).unwrap();
    let (attrs, _) = run(
        &plan,
        vec![(
            "tag",
            Val::Present(Box::new(Val::Items(vec![
                Val::Text("x".to_string()),
                Val::Text("y".to_string()),
            ]))),
        )],
    );
    assert_eq!(
        attrs,
        vec![
            ("tag".to_string(), "x".to_string()),
            ("tag".to_string(), "y".to_string()),
        ]
    );
}

#[test]
fn one_bad_field_aborts_the_whole_record() {
    let fields = vec![
        input("name", leaf("String"), no_flags()),
        input("bad", wrap("Option", wrap("Option", leaf("i32"))), no_flags()),
    ];
    assert_eq!(serialize(&fields), Err(GenError::Shape(ShapeError::DoublyWrapped)));
}

#[test]
fn conflicting_flags_abort_the_record() {
    let fields = vec![input(
        "x",
        leaf("String"),
        RoleFlags { attribute: true, text_content: true, ..no_flags() },
    )];
    assert_eq!(serialize(&fields), Err(GenError::Role(RoleError::Conflicting)));
}

#[test]
fn incompatible_role_reports_role_and_shape() {
    let fields = vec![input("items", wrap("Vec", leaf("Address")), attr_flags())];
    assert_eq!(
        serialize(&fields),
        Err(GenError::Role(RoleError::Incompatible {
            role: FieldRole::Attribute,
            shape: TypeShape::Collection(Box::new(TypeShape::Record)),
        }))
    );
}

#[test]
fn unimplemented_combination_reports_shape_and_role() {
    let fields = vec![input("tags", wrap("Vec", leaf("String")), attr_flags())];
    assert_eq!(
        serialize(&fields),
        Err(GenError::Plan(PlanError::Unimplemented {
            shape: TypeShape::Collection(Box::new(TypeShape::Scalar(
                xml_plan::shape::ScalarKind::Text
            ))),
            role: FieldRole::Attribute,
        }))
    );
}

#[test]
fn serialize_twice_yields_identical_plans() {
    let first = serialize(&scenario_fields()).unwrap();
    let second = serialize(&scenario_fields()).unwrap();
    assert_eq!(first, second);
}

#[test]
fn skipped_field_leaves_no_trace() {
    let fields = vec![
        input("hidden", leaf("String"), RoleFlags { skip: true, ..no_flags() }),
        input("name", leaf("String"), no_flags()),
    ];
    let plan = serialize(&fields).unwrap();
    assert_eq!(plan.attribute_ops, vec![]);
    assert_eq!(plan.content_ops.len(), 1);
}
