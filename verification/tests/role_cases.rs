use xml_plan::role::{resolve, FieldRole, RoleError, RoleFlags};
use xml_plan::shape::{ScalarKind, TypeShape};

fn no_flags() -> RoleFlags {
    RoleFlags { attribute: false, text_content: false, flatten: false, skip: false }
}

fn scalar() -> TypeShape {
    TypeShape::Scalar(ScalarKind::Text)
}

fn optional(inner: TypeShape) -> TypeShape {
    TypeShape::Optional(Box::new(inner))
}

fn collection(inner: TypeShape) -> TypeShape {
    TypeShape::Collection(Box::new(inner))
}

#[test]
fn resolve_default_is_element() {
    assert_eq!(resolve(&no_flags(), &scalar()), Ok(FieldRole::Element));
}

#[test]
fn resolve_single_flags() {
    assert_eq!(
        resolve(&RoleFlags { attribute: true, ..no_flags() }, &scalar()),
        Ok(FieldRole::Attribute)
    );
    assert_eq!(
        resolve(&RoleFlags { text_content: true, ..no_flags() }, &scalar()),
        Ok(FieldRole::TextContent)
    );
    assert_eq!(
        resolve(&RoleFlags { flatten: true, ..no_flags() }, &TypeShape::Record),
        Ok(FieldRole::Flatten)
    );
    assert_eq!(resolve(&RoleFlags { skip: true, ..no_flags() }, &scalar()), Ok(FieldRole::Skip));
}

#[test]
fn resolve_conflicting_flags_rejected() {
    let flags = RoleFlags { attribute: true, text_content: true, ..no_flags() };
    assert_eq!(resolve(&flags, &scalar()), Err(RoleError::Conflicting));
    let flags = RoleFlags { flatten: true, skip: true, ..no_flags() };
    assert_eq!(resolve(&flags, &TypeShape::Record), Err(RoleError::Conflicting));
}

#[test]
fn resolve_text_content_needs_scalar() {
    let flags = RoleFlags { text_content: true, ..no_flags() };
    assert_eq!(resolve(&flags, &optional(scalar())), Ok(FieldRole::TextContent));
    assert_eq!(
        resolve(&flags, &TypeShape::Record),
        Err(RoleError::Incompatible { role: FieldRole::TextContent, shape: TypeShape::Record })
    );
    assert_eq!(
        resolve(&flags, &collection(scalar())),
        Err(RoleError::Incompatible {
            role: FieldRole::TextContent,
            shape: collection(scalar()),
        })
    );
}

#[test]
fn resolve_flatten_needs_record() {
    let flags = RoleFlags { flatten: true, ..no_flags() };
    assert_eq!(resolve(&flags, &optional(TypeShape::Record)), Ok(FieldRole::Flatten));
    assert_eq!(resolve(&flags, &collection(TypeShape::Record)), Ok(FieldRole::Flatten));
    assert_eq!(
        resolve(&flags, &scalar()),
        Err(RoleError::Incompatible { role: FieldRole::Flatten, shape: scalar() })
    );
}

#[test]
fn resolve_attribute_not_on_record_collection() {
    let flags = RoleFlags { attribute: true, ..no_flags() };
    assert_eq!(
        resolve(&flags, &collection(TypeShape::Record)),
        Err(RoleError::Incompatible {
            role: FieldRole::Attribute,
            shape: collection(TypeShape::Record),
        })
    );
    assert_eq!(
        resolve(&flags, &optional(collection(TypeShape::Record))),
        Err(RoleError::Incompatible {
            role: FieldRole::Attribute,
            shape: optional(collection(TypeShape::Record)),
        })
    );
    // a scalar collection passes resolution; generation rejects it later
    assert_eq!(resolve(&flags, &collection(scalar())), Ok(FieldRole::Attribute));
}
