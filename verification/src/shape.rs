//! The type shape classifier: it normalizes a field's declared type into the
//! closed taxonomy of shapes that plan generation dispatches on.

use vstd::prelude::*;

verus! {

/// The scalar leaf kinds: types with a canonical textual form.
#[derive(Clone, Copy, Debug, PartialEq, Eq, Structural)]
pub enum ScalarKind {
    Text,
    Boolean,
    I8,
    U8,
    I16,
    U16,
    I32,
    U32,
    I64,
    U64,
    F32,
    F64,
}

/// A field's declared type as the extractor hands it over: a type name plus
/// at most one generic parameter, itself described the same way.
#[derive(Debug, PartialEq, Eq)]
pub struct DeclaredType {
    pub name: String,
    pub parameter: Option<Box<DeclaredType>>,
}

/// The normalized shape of a field's type.
#[derive(Debug, PartialEq, Eq)]
pub enum TypeShape {
    /// A leaf with a canonical to-string conversion.
    Scalar(ScalarKind),
    /// A presence-qualified wrapper; `Optional(Optional(_))` is rejected.
    Optional(Box<TypeShape>),
    /// An ordered, repeatable wrapper; `Collection(Collection(_))` is rejected.
    Collection(Box<TypeShape>),
    /// Any other type; it is assumed to expose the serialization contract
    /// itself (nested record, handled by delegation).
    Record,
}

/// Classification failure.
#[derive(Debug, PartialEq, Eq)]
pub enum ShapeError {
    /// `Optional(Optional(_))` or `Collection(Collection(_))`: such a type
    /// has no defined serialization and is rejected at generation time.
    DoublyWrapped,
}

impl Clone for TypeShape {
    fn clone(&self) -> (r: Self)
        ensures
            r == *self,
        decreases *self,
    {
        match self {
            TypeShape::Scalar(k) => TypeShape::Scalar(*k),
            TypeShape::Optional(inner) => TypeShape::Optional(Box::new((**inner).clone())),
            TypeShape::Collection(inner) => TypeShape::Collection(Box::new((**inner).clone())),
            TypeShape::Record => TypeShape::Record,
        }
    }
}

/// The scalar kind a type name denotes, if any.
pub open spec fn spec_scalar_kind(name: Seq<char>) -> Option<ScalarKind> {
    if name == "String"@ {
        Some(ScalarKind::Text)
    } else if name == "bool"@ {
        Some(ScalarKind::Boolean)
    } else if name == "i8"@ {
        Some(ScalarKind::I8)
    } else if name == "u8"@ {
        Some(ScalarKind::U8)
    } else if name == "i16"@ {
        Some(ScalarKind::I16)
    } else if name == "u16"@ {
        Some(ScalarKind::U16)
    } else if name == "i32"@ {
        Some(ScalarKind::I32)
    } else if name == "u32"@ {
        Some(ScalarKind::U32)
    } else if name == "i64"@ {
        Some(ScalarKind::I64)
    } else if name == "u64"@ {
        Some(ScalarKind::U64)
    } else if name == "f32"@ {
        Some(ScalarKind::F32)
    } else if name == "f64"@ {
        Some(ScalarKind::F64)
    } else {
        None
    }
}

/// What classification returns: `Option<X>` and `Vec<X>` wrappers become
/// `Optional` and `Collection` nodes (rejecting a doubled wrapper), a known
/// scalar name becomes `Scalar`, and everything else is a `Record`.
pub open spec fn spec_classify(t: DeclaredType) -> Result<TypeShape, ShapeError>
    decreases t,
{
    match t.parameter {
        Some(p) => {
            if t.name@ == "Option"@ {
                match spec_classify(*p) {
                    Ok(inner) => if inner is Optional {
                        Err(ShapeError::DoublyWrapped)
                    } else {
                        Ok(TypeShape::Optional(Box::new(inner)))
                    },
                    Err(e) => Err(e),
                }
            } else if t.name@ == "Vec"@ {
                match spec_classify(*p) {
                    Ok(inner) => if inner is Collection {
                        Err(ShapeError::DoublyWrapped)
                    } else {
                        Ok(TypeShape::Collection(Box::new(inner)))
                    },
                    Err(e) => Err(e),
                }
            } else {
                Ok(TypeShape::Record)
            }
        },
        None => match spec_scalar_kind(t.name@) {
            Some(k) => Ok(TypeShape::Scalar(k)),
            None => Ok(TypeShape::Record),
        },
    }
}

/// Whether a name equals a literal, by characters.
fn name_is(name: &String, lit: &str) -> (r: bool)
    ensures
        r == (name@ == lit@),
{
    let l = String::from_str(lit);
    *name == l
}

/// The scalar kind a type name denotes, if any.
pub fn scalar_kind_of(name: &String) -> (r: Option<ScalarKind>)
    ensures
        r == spec_scalar_kind(name@),
{
    if name_is(name, "String") {
        Some(ScalarKind::Text)
    } else if name_is(name, "bool") {
        Some(ScalarKind::Boolean)
    } else if name_is(name, "i8") {
        Some(ScalarKind::I8)
    } else if name_is(name, "u8") {
        Some(ScalarKind::U8)
    } else if name_is(name, "i16") {
        Some(ScalarKind::I16)
    } else if name_is(name, "u16") {
        Some(ScalarKind::U16)
    } else if name_is(name, "i32") {
        Some(ScalarKind::I32)
    } else if name_is(name, "u32") {
        Some(ScalarKind::U32)
    } else if name_is(name, "i64") {
        Some(ScalarKind::I64)
    } else if name_is(name, "u64") {
        Some(ScalarKind::U64)
    } else if name_is(name, "f32") {
        Some(ScalarKind::F32)
    } else if name_is(name, "f64") {
        Some(ScalarKind::F64)
    } else {
        None
    }
}

/// Normalizes a declared type into its `TypeShape`, unwrapping `Option` and
/// `Vec` wrappers recursively and rejecting a doubled wrapper.
pub fn classify(t: &DeclaredType) -> (r: Result<TypeShape, ShapeError>)
    ensures
        r == spec_classify(*t),
    decreases *t,
{
    match &t.parameter {
        Some(p) => {
            if name_is(&t.name, "Option") {
                match classify(&**p) {
                    Ok(inner) => {
                        if matches!(inner, TypeShape::Optional(_)) {
                            Err(ShapeError::DoublyWrapped)
                        } else {
                            Ok(TypeShape::Optional(Box::new(inner)))
                        }
                    },
                    Err(e) => Err(e),
                }
            } else if name_is(&t.name, "Vec") {
                match classify(&**p) {
                    Ok(inner) => {
                        if matches!(inner, TypeShape::Collection(_)) {
                            Err(ShapeError::DoublyWrapped)
                        } else {
                            Ok(TypeShape::Collection(Box::new(inner)))
                        }
                    },
                    Err(e) => Err(e),
                }
            } else {
                Ok(TypeShape::Record)
            }
        },
        None => match scalar_kind_of(&t.name) {
            Some(k) => Ok(TypeShape::Scalar(k)),
            None => Ok(TypeShape::Record),
        },
    }
}

} // verus!
