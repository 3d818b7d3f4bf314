use vstd::prelude::*;
use crate::text::str_eq;

verus! {

/// How a result column's store type is read back: the fixed
/// dispatch table of the raw statement front end.
#[derive(Clone, Copy, Debug, PartialEq, Eq, Structural)]
pub enum ColumnKind {
    /// A 32-bit integer column.
    Int4,
    /// A 64-bit integer column.
    Int8,
    /// A floating-point column.
    Float,
    /// A character column.
    Text,
    /// A boolean column.
    Bool,
    /// A timestamp column, read back as text.
    Timestamp,
    /// Anything else, read back as null.
    Other,
}

/// The kind a store type name maps to.
pub open spec fn kind_for(name: Seq<char>) -> ColumnKind {
    if name == "int4"@ {
        ColumnKind::Int4
    } else if name == "int8"@ {
        ColumnKind::Int8
    } else if name == "float4"@ || name == "float8"@ {
        ColumnKind::Float
    } else if name == "varchar"@ || name == "text"@ {
        ColumnKind::Text
    } else if name == "bool"@ {
        ColumnKind::Bool
    } else if name == "timestamp"@ {
        ColumnKind::Timestamp
    } else {
        ColumnKind::Other
    }
}

/// Classifies a store type name for reading a result column back.
pub fn classify(name: &str) -> (k: ColumnKind)
    ensures
        k == kind_for(name@),
{
    if str_eq(name, "int4") {
        ColumnKind::Int4
    } else if str_eq(name, "int8") {
        ColumnKind::Int8
    } else if str_eq(name, "float4") || str_eq(name, "float8") {
        ColumnKind::Float
    } else if str_eq(name, "varchar") || str_eq(name, "text") {
        ColumnKind::Text
    } else if str_eq(name, "bool") {
        ColumnKind::Bool
    } else if str_eq(name, "timestamp") {
        ColumnKind::Timestamp
    } else {
        ColumnKind::Other
    }
}

} // verus!
