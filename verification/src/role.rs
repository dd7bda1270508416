//! The role resolver: it turns a field's descriptor flags into the single
//! role that governs the field, and rejects role/shape combinations that are
//! structurally invalid.

use vstd::prelude::*;
use crate::shape::TypeShape;

verus! {

/// Where a field's serialized form is placed.
#[derive(Clone, Copy, Debug, PartialEq, Eq, Structural)]
pub enum FieldRole {
    /// An attribute of the enclosing start tag.
    Attribute,
    /// The text content of the enclosing element, with no wrapping element.
    TextContent,
    /// The field's own wrapping element is suppressed; its contents merge
    /// into the parent's attribute set and content stream.
    Flatten,
    /// A child element named by the field's label (the default).
    Element,
    /// The field is not serialized at all.
    Skip,
}

/// The raw, mutually exclusive role flags of a field descriptor.
#[derive(Clone, Copy, Debug, PartialEq, Eq, Structural)]
pub struct RoleFlags {
    pub attribute: bool,
    pub text_content: bool,
    pub flatten: bool,
    pub skip: bool,
}

/// Role resolution failure.
#[derive(Debug, PartialEq, Eq)]
pub enum RoleError {
    /// More than one of the mutually exclusive role flags is set.
    Conflicting,
    /// The role is not valid for the resolved shape.
    Incompatible { role: FieldRole, shape: TypeShape },
}

/// How many of the mutually exclusive flags are set.
pub open spec fn spec_flag_count(f: RoleFlags) -> int {
    (if f.attribute { 1int } else { 0int }) + (if f.text_content { 1int } else { 0int })
        + (if f.flatten { 1int } else { 0int }) + (if f.skip { 1int } else { 0int })
}

/// The role a flag set selects, in precedence order
/// `Skip > TextContent > Flatten > Attribute > Element`.
pub open spec fn spec_active_role(f: RoleFlags) -> FieldRole {
    if f.skip {
        FieldRole::Skip
    } else if f.text_content {
        FieldRole::TextContent
    } else if f.flatten {
        FieldRole::Flatten
    } else if f.attribute {
        FieldRole::Attribute
    } else {
        FieldRole::Element
    }
}

/// The role/shape compatibility invariant: `TextContent` only on `Scalar` or
/// `Optional(Scalar)`; `Flatten` only on `Record`, `Optional(Record)` or
/// `Collection(Record)`; `Attribute` not on `Collection(Record)` nor on
/// `Optional(Collection(Record))`.
pub open spec fn role_allows(role: FieldRole, shape: TypeShape) -> bool {
    match role {
        FieldRole::TextContent => {
            ||| shape matches TypeShape::Scalar(_)
            ||| (shape matches TypeShape::Optional(inner) && *inner matches TypeShape::Scalar(_))
        },
        FieldRole::Flatten => {
            ||| shape == TypeShape::Record
            ||| (shape matches TypeShape::Optional(inner) && *inner == TypeShape::Record)
            ||| (shape matches TypeShape::Collection(inner) && *inner == TypeShape::Record)
        },
        FieldRole::Attribute => {
            &&& !(shape matches TypeShape::Collection(inner) && *inner == TypeShape::Record)
            &&& !(shape matches TypeShape::Optional(inner) && *inner
                matches TypeShape::Collection(c) && *c == TypeShape::Record)
        },
        FieldRole::Element => true,
        FieldRole::Skip => true,
    }
}

/// What resolution returns: the selected role when the flags agree and the
/// role fits the shape, `Conflicting` when two or more flags are set, and
/// `Incompatible` when the role does not fit the shape.
pub open spec fn spec_resolve(f: RoleFlags, shape: TypeShape) -> Result<FieldRole, RoleError> {
    if spec_flag_count(f) >= 2 {
        Err(RoleError::Conflicting)
    } else {
        let role = spec_active_role(f);
        if role_allows(role, shape) {
            Ok(role)
        } else {
            Err(RoleError::Incompatible { role, shape })
        }
    }
}

/// Whether `role` is valid on `shape`.
pub fn role_allowed(role: FieldRole, shape: &TypeShape) -> (r: bool)
    ensures
        r == role_allows(role, *shape),
{
    match role {
        FieldRole::TextContent => match shape {
            TypeShape::Scalar(_) => true,
            TypeShape::Optional(inner) => matches!(&**inner, TypeShape::Scalar(_)),
            _ => false,
        },
        FieldRole::Flatten => match shape {
            TypeShape::Record => true,
            TypeShape::Optional(inner) => matches!(&**inner, TypeShape::Record),
            TypeShape::Collection(inner) => matches!(&**inner, TypeShape::Record),
            _ => false,
        },
        FieldRole::Attribute => match shape {
            TypeShape::Collection(inner) => !matches!(&**inner, TypeShape::Record),
            TypeShape::Optional(inner) => match &**inner {
                TypeShape::Collection(c) => !matches!(&**c, TypeShape::Record),
                _ => true,
            },
            _ => true,
        },
        FieldRole::Element => true,
        FieldRole::Skip => true,
    }
}

/// Resolves the descriptor flags of a field into its governing role and
/// validates that the role fits the field's shape.
pub fn resolve(flags: &RoleFlags, shape: &TypeShape) -> (r: Result<FieldRole, RoleError>)
    ensures
        r == spec_resolve(*flags, *shape),
{
    let mut count: u8 = 0;
    if flags.attribute {
        count = count + 1;
    }
    if flags.text_content {
        count = count + 1;
    }
    if flags.flatten {
        count = count + 1;
    }
    if flags.skip {
        count = count + 1;
    }
    if count >= 2 {
        return Err(RoleError::Conflicting);
    }
    let role = if flags.skip {
        FieldRole::Skip
    } else if flags.text_content {
        FieldRole::TextContent
    } else if flags.flatten {
        FieldRole::Flatten
    } else if flags.attribute {
        FieldRole::Attribute
    } else {
        FieldRole::Element
    };
    if role_allowed(role, shape) {
        Ok(role)
    } else {
        Err(RoleError::Incompatible { role, shape: shape.clone() })
    }
}

} // verus!
