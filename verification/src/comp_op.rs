//! The comparison operators, their inversion table, and the evaluation of an
//! operator against a three-way comparison outcome.

use vstd::prelude::*;

verus! {

/// A comparison operator. `Eq`, `Lt` and `Gt` double as the outcomes of a
/// three-way comparison; `Ne`, `Le` and `Ge` are query-only operators.
#[derive(Clone, Copy, Debug, PartialEq, Eq, Structural)]
pub enum CompOp {
    Eq,
    Ne,
    Lt,
    Le,
    Ge,
    Gt,
}

/// Holds of the three operators that a comparison can yield as its outcome.
pub open spec fn is_ordering(ord: CompOp) -> bool {
    ord == CompOp::Eq || ord == CompOp::Lt || ord == CompOp::Gt
}

/// What a three-way outcome becomes when the two sides swap: `Lt` and `Gt`
/// trade places and `Eq` stays. Operators that are not outcomes stay as they
/// are; they are never flipped.
pub open spec fn spec_flip_ordering(ord: CompOp) -> CompOp {
    match ord {
        CompOp::Lt => CompOp::Gt,
        CompOp::Gt => CompOp::Lt,
        _ => ord,
    }
}

/// The inversion table: `Eq` and `Ne` are mutual inverses, as are `Lt` and
/// `Gt`, and `Le` and `Ge`. This pairing is a fixed convention; in particular
/// `Eq` and `Ne` invert to each other rather than to themselves.
pub open spec fn spec_invert(op: CompOp) -> CompOp {
    match op {
        CompOp::Eq => CompOp::Ne,
        CompOp::Ne => CompOp::Eq,
        CompOp::Lt => CompOp::Gt,
        CompOp::Le => CompOp::Ge,
        CompOp::Ge => CompOp::Le,
        CompOp::Gt => CompOp::Lt,
    }
}

/// Whether the operator `op` accepts the three-way outcome `ord`:
/// `Eq` accepts exactly `Eq`, `Ne` everything else, `Lt` exactly `Lt`,
/// `Le` everything but `Gt`, `Gt` exactly `Gt`, and `Ge` everything but `Lt`.
pub open spec fn spec_evaluate(ord: CompOp, op: CompOp) -> bool {
    match op {
        CompOp::Eq => ord == CompOp::Eq,
        CompOp::Ne => ord != CompOp::Eq,
        CompOp::Lt => ord == CompOp::Lt,
        CompOp::Le => ord != CompOp::Gt,
        CompOp::Ge => ord != CompOp::Lt,
        CompOp::Gt => ord == CompOp::Gt,
    }
}

impl CompOp {
    /// The inverse operator, per the inversion table.
    pub fn invert(&self) -> (r: CompOp)
        ensures
            r == spec_invert(*self),
    {
        match self {
            CompOp::Eq => CompOp::Ne,
            CompOp::Ne => CompOp::Eq,
            CompOp::Lt => CompOp::Gt,
            CompOp::Le => CompOp::Ge,
            CompOp::Ge => CompOp::Le,
            CompOp::Gt => CompOp::Lt,
        }
    }
}

/// Evaluate the operator `op` against the three-way outcome `ord`.
pub fn evaluate(ord: CompOp, op: &CompOp) -> (r: bool)
    ensures
        r == spec_evaluate(ord, *op),
{
    match op {
        CompOp::Eq => matches!(ord, CompOp::Eq),
        CompOp::Ne => !matches!(ord, CompOp::Eq),
        CompOp::Lt => matches!(ord, CompOp::Lt),
        CompOp::Le => !matches!(ord, CompOp::Gt),
        CompOp::Ge => !matches!(ord, CompOp::Lt),
        CompOp::Gt => matches!(ord, CompOp::Gt),
    }
}

/// Predicate consistency: whenever a three-way outcome is not `Eq`, an
/// operator and its inverse accept it with opposite answers.
pub proof fn lemma_evaluate_invert(ord: CompOp, op: CompOp)
    requires
        is_ordering(ord),
        ord != CompOp::Eq,
    ensures
        spec_evaluate(ord, op) == !spec_evaluate(ord, spec_invert(op)),
{
}

} // verus!
