use xml_plan::plan::{
    generate, FieldDescriptor, FieldPlan, PlanError, SerializationOp, ValueExpr, ValueSource,
};
use xml_plan::role::FieldRole;
use xml_plan::shape::{ScalarKind, TypeShape};

fn descriptor(label: &str, shape: TypeShape, role: FieldRole) -> FieldDescriptor {
    FieldDescriptor {
        label: label.to_string(),
        renamed_label: label.to_string(),
        shape,
        role,
        is_generic: false,
    }
}

fn field(label: &str) -> ValueSource {
    ValueSource::Field(label.to_string())
}

fn optional(inner: TypeShape) -> TypeShape {
    TypeShape::Optional(Box::new(inner))
}

fn collection(inner: TypeShape) -> TypeShape {
    TypeShape::Collection(Box::new(inner))
}

#[test]
fn generate_scalar_attribute() {
    let d = descriptor("id", TypeShape::Scalar(ScalarKind::U32), FieldRole::Attribute);
    let p = generate(&d).unwrap();
    assert_eq!(
        p.attribute_ops,
        vec![SerializationOp::EmitAttribute {
            name: "id".to_string(),
            value: ValueExpr::Canonical(field("id")),
            guard: None,
        }]
    );
    assert!(p.content_ops.is_empty());
}

#[test]
fn generate_optional_string_attribute_is_verbatim() {
    let d = descriptor("id", optional(TypeShape::Scalar(ScalarKind::Text)), FieldRole::Attribute);
    let p = generate(&d).unwrap();
    assert_eq!(
        p.attribute_ops,
        vec![SerializationOp::EmitAttribute {
            name: "id".to_string(),
            value: ValueExpr::Verbatim(field("id")),
            guard: Some(field("id")),
        }]
    );
}

#[test]
fn generate_optional_number_attribute_is_guarded() {
    let d = descriptor("id", optional(TypeShape::Scalar(ScalarKind::I32)), FieldRole::Attribute);
    let p = generate(&d).unwrap();
    assert_eq!(
        p.attribute_ops,
        vec![SerializationOp::EmitAttribute {
            name: "id".to_string(),
            value: ValueExpr::Canonical(field("id")),
            guard: Some(field("id")),
        }]
    );
}

#[test]
fn generate_record_attribute_uses_nested_content() {
    let d = descriptor("info", TypeShape::Record, FieldRole::Attribute);
    let p = generate(&d).unwrap();
    assert_eq!(
        p.attribute_ops,
        vec![SerializationOp::EmitAttribute {
            name: "info".to_string(),
            value: ValueExpr::NestedContent(field("info")),
            guard: None,
        }]
    );
}

#[test]
fn generate_optional_collection_attribute_repeats_name() {
    let d = descriptor(
        "tags",
        optional(collection(TypeShape::Scalar(ScalarKind::Text))),
        FieldRole::Attribute,
    );
    let p = generate(&d).unwrap();
    assert_eq!(
        p.attribute_ops,
        vec![SerializationOp::Conditional {
            guard: field("tags"),
            body: Box::new(SerializationOp::ForEach {
                collection: ValueSource::Bound,
                body: Box::new(SerializationOp::EmitAttribute {
                    name: "tags".to_string(),
                    value: ValueExpr::Canonical(ValueSource::Bound),
                    guard: None,
                }),
            }),
        }]
    );
}

#[test]
fn generate_collection_attribute_unimplemented() {
    let shape = collection(TypeShape::Scalar(ScalarKind::Text));
    let d = descriptor("tags", collection(TypeShape::Scalar(ScalarKind::Text)), FieldRole::Attribute);
    assert_eq!(
        generate(&d),
        Err(PlanError::Unimplemented { shape, role: FieldRole::Attribute })
    );
}

#[test]
fn generate_scalar_element() {
    let d = descriptor("name", TypeShape::Scalar(ScalarKind::Text), FieldRole::Element);
    let p = generate(&d).unwrap();
    assert!(p.attribute_ops.is_empty());
    assert_eq!(
        p.content_ops,
        vec![SerializationOp::EmitElement {
            name: "name".to_string(),
            value: ValueExpr::Canonical(field("name")),
        }]
    );
}

#[test]
fn generate_optional_scalar_element() {
    let d = descriptor("name", optional(TypeShape::Scalar(ScalarKind::Text)), FieldRole::Element);
    let p = generate(&d).unwrap();
    assert_eq!(
        p.content_ops,
        vec![SerializationOp::Conditional {
            guard: field("name"),
            body: Box::new(SerializationOp::EmitElement {
                name: "name".to_string(),
                value: ValueExpr::Canonical(ValueSource::Bound),
            }),
        }]
    );
}

#[test]
fn generate_collection_scalar_element() {
    let d = descriptor("tags", collection(TypeShape::Scalar(ScalarKind::Text)), FieldRole::Element);
    let p = generate(&d).unwrap();
    assert_eq!(
        p.content_ops,
        vec![SerializationOp::ForEach {
            collection: field("tags"),
            body: Box::new(SerializationOp::EmitElement {
                name: "tags".to_string(),
                value: ValueExpr::Canonical(ValueSource::Bound),
            }),
        }]
    );
}

#[test]
fn generate_record_element_delegates_named() {
    let d = descriptor("info", TypeShape::Record, FieldRole::Element);
    let p = generate(&d).unwrap();
    assert_eq!(
        p.content_ops,
        vec![SerializationOp::Delegate {
            name: Some("info".to_string()),
            skip_start_end: false,
            generic: false,
            source: field("info"),
        }]
    );
}

#[test]
fn generate_optional_record_element_guarded() {
    let d = descriptor("info", optional(TypeShape::Record), FieldRole::Element);
    let p = generate(&d).unwrap();
    assert_eq!(
        p.content_ops,
        vec![SerializationOp::Conditional {
            guard: field("info"),
            body: Box::new(SerializationOp::Delegate {
                name: Some("info".to_string()),
                skip_start_end: false,
                generic: false,
                source: ValueSource::Bound,
            }),
        }]
    );
}

#[test]
fn generate_collection_record_element() {
    let d = descriptor("items", collection(TypeShape::Record), FieldRole::Element);
    let p = generate(&d).unwrap();
    assert_eq!(
        p.content_ops,
        vec![SerializationOp::ForEach {
            collection: field("items"),
            body: Box::new(SerializationOp::Delegate {
                name: Some("items".to_string()),
                skip_start_end: false,
                generic: false,
                source: ValueSource::Bound,
            }),
        }]
    );
}

#[test]
fn generate_collection_optional_record_skips_absent_items() {
    let d = descriptor("items", collection(optional(TypeShape::Record)), FieldRole::Element);
    let p = generate(&d).unwrap();
    assert_eq!(
        p.content_ops,
        vec![SerializationOp::ForEach {
            collection: field("items"),
            body: Box::new(SerializationOp::Conditional {
                guard: ValueSource::Bound,
                body: Box::new(SerializationOp::Delegate {
                    name: None,
                    skip_start_end: false,
                    generic: false,
                    source: ValueSource::Bound,
                }),
            }),
        }]
    );
}

#[test]
fn generate_flatten_record_merges_and_delegates() {
    let d = descriptor("base", TypeShape::Record, FieldRole::Flatten);
    let p = generate(&d).unwrap();
    assert_eq!(
        p,
        FieldPlan {
            attribute_ops: vec![SerializationOp::MergeAttributes { source: field("base") }],
            content_ops: vec![SerializationOp::Delegate {
                name: None,
                skip_start_end: true,
                generic: false,
                source: field("base"),
            }],
        }
    );
}

#[test]
fn generate_flatten_optional_record_guarded() {
    let d = descriptor("base", optional(TypeShape::Record), FieldRole::Flatten);
    let p = generate(&d).unwrap();
    assert!(p.attribute_ops.is_empty());
    assert_eq!(
        p.content_ops,
        vec![SerializationOp::Conditional {
            guard: field("base"),
            body: Box::new(SerializationOp::Delegate {
                name: None,
                skip_start_end: true,
                generic: false,
                source: ValueSource::Bound,
            }),
        }]
    );
}

#[test]
fn generate_flatten_collection_record() {
    let d = descriptor("parts", collection(TypeShape::Record), FieldRole::Flatten);
    let p = generate(&d).unwrap();
    assert_eq!(
        p.content_ops,
        vec![SerializationOp::ForEach {
            collection: field("parts"),
            body: Box::new(SerializationOp::Delegate {
                name: None,
                skip_start_end: true,
                generic: false,
                source: ValueSource::Bound,
            }),
        }]
    );
}

#[test]
fn generate_text_content_scalar() {
    let d = descriptor("body", TypeShape::Scalar(ScalarKind::Text), FieldRole::TextContent);
    let p = generate(&d).unwrap();
    assert_eq!(
        p.content_ops,
        vec![SerializationOp::EmitCharacters { value: ValueExpr::Canonical(field("body")) }]
    );
}

#[test]
fn generate_text_content_optional_or_empty() {
    let d = descriptor(
        "body",
        optional(TypeShape::Scalar(ScalarKind::Text)),
        FieldRole::TextContent,
    );
    let p = generate(&d).unwrap();
    assert_eq!(
        p.content_ops,
        vec![SerializationOp::EmitCharacters { value: ValueExpr::OrEmpty(field("body")) }]
    );
}

#[test]
fn generate_text_content_on_record_unimplemented() {
    let d = descriptor("body", TypeShape::Record, FieldRole::TextContent);
    assert_eq!(
        generate(&d),
        Err(PlanError::Unimplemented { shape: TypeShape::Record, role: FieldRole::TextContent })
    );
}

#[test]
fn generate_skip_contributes_nothing() {
    let d = descriptor("hidden", TypeShape::Scalar(ScalarKind::Text), FieldRole::Skip);
    let p = generate(&d).unwrap();
    assert!(p.attribute_ops.is_empty());
    assert!(p.content_ops.is_empty());
}

#[test]
fn generate_is_deterministic() {
    let d = descriptor("tags", collection(TypeShape::Scalar(ScalarKind::Text)), FieldRole::Element);
    let first = generate(&d).unwrap();
    let second = generate(&d).unwrap();
    assert_eq!(first, second);
}
