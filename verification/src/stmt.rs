use vstd::prelude::*;
use crate::fixed::Fixed;

verus! {

/// One value bound to a positional placeholder of a statement.
///
/// Caller-supplied values travel only here, never through statement
/// text: the builder emits `$1`, `$2`, ... in the text and keeps the
/// values beside it, in placeholder order.
#[derive(Clone, Debug, PartialEq)]
pub enum BindValue {
    /// A 32-bit integer threshold.
    Int(i32),
    /// A 64-bit integer, used for limit and offset.
    Big(i64),
    /// An exact decimal, used for fractional thresholds and sort weights.
    Num(Fixed),
    /// A text value, bound verbatim.
    Text(String),
}

/// The mathematical value of a bound parameter.
pub enum BindV {
    Int(i32),
    Big(i64),
    Num(Fixed),
    Text(Seq<char>),
}

impl View for BindValue {
    type V = BindV;

    open spec fn view(&self) -> BindV {
        match self {
            BindValue::Int(v) => BindV::Int(*v),
            BindValue::Big(v) => BindV::Big(*v),
            BindValue::Num(v) => BindV::Num(*v),
            BindValue::Text(s) => BindV::Text(s@),
        }
    }
}

/// The values of a run of bound parameters, in placeholder order.
pub open spec fn binds_view(s: Seq<BindValue>) -> Seq<BindV> {
    s.map_values(|b: BindValue| b@)
}

/// A SQL statement: text whose only caller-dependent parts are
/// positional placeholders `$1..$n`, and the `n` values bound to them.
#[derive(Debug)]
pub struct Statement {
    pub text: String,
    pub binds: Vec<BindValue>,
}

} // verus!
