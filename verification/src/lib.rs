//! Generation of XML serialization plans for record types.
//!
//! Given the declared shape of each field of a record (its type, its role
//! among attribute / element / text content / flattened, and its labels),
//! this crate computes a deterministic, ordered plan of writer operations
//! that serializes one instance of the record: which attributes go into the
//! enclosing start tag, and which events follow it, under which presence
//! guards. The plan is pure data; an external writer driver executes it.

pub mod assemble;
pub mod laws;
pub mod plan;
pub mod role;
pub mod semantics;
pub mod shape;
