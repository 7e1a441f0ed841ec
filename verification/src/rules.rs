//! The typing rules for accessors, operators and calls. They are kept apart
//! from the traversal, so that a rule can be refined without touching it.

use vstd::prelude::*;
use crate::analysis::Analysis;
use crate::ast::{BinaryOp, Follow, IndexKind, UnaryOp};
use crate::diagnostic::Diagnostic;
use crate::lattice::{ClassId, Type};

verus! {

/// What a rule decides: the value, and what is to be reported, if anything.
pub struct Verdict {
    pub value: Analysis,
    pub diagnostic: Option<Diagnostic>,
}

/// A value of the given shape, with no constant.
pub open spec fn of_shape(ty: Type) -> Analysis {
    Analysis { ty, value: None }
}

/// The unconstrained value, with nothing to report.
pub open spec fn unconstrained() -> Verdict {
    Verdict { value: of_shape(Type::Any), diagnostic: None }
}

/// The unconstrained value, given up with a report.
pub open spec fn given_up(diagnostic: Diagnostic) -> Verdict {
    Verdict { value: of_shape(Type::Any), diagnostic: Some(diagnostic) }
}

/// Whether the accessor looks its member up at run time, so that nothing
/// can be known of the receiver's class.
pub open spec fn is_runtime_lookup(kind: IndexKind) -> bool {
    kind == IndexKind::Colon || kind == IndexKind::SafeColon
}

/// The value reached from `lhs` through one accessor. A member looked up at
/// run time is unconstrained by design; indexing and the other accessors
/// have no rule yet, which is reported.
pub open spec fn follow_rule(lhs: Analysis, follow: Follow) -> Verdict {
    match follow {
        Follow::Index => given_up(Diagnostic::UnhandledIndex),
        Follow::Field(kind, name) => if is_runtime_lookup(kind) {
            unconstrained()
        } else {
            given_up(Diagnostic::UnhandledField { name })
        },
        Follow::Call(kind, name) => if is_runtime_lookup(kind) {
            unconstrained()
        } else {
            given_up(Diagnostic::UnhandledMethod { name })
        },
    }
}

/// The value of a unary operator applied to `operand`. Logical negation
/// gives a number whatever it is applied to; the arithmetic operators take a
/// number to a number; everything else leaves an unconstrained operand
/// unconstrained and is given up on any other.
pub open spec fn unary_rule(operand: Analysis, op: UnaryOp) -> Verdict {
    if op == UnaryOp::Not || operand.ty == Type::Number {
        Verdict { value: of_shape(Type::Number), diagnostic: None }
    } else if operand.ty == Type::Any {
        unconstrained()
    } else {
        given_up(Diagnostic::UnhandledUnary { op, operand: operand.ty })
    }
}

/// The value of a binary operator: no operator has a rule yet.
pub open spec fn binary_rule(lhs: Analysis, rhs: Analysis, op: BinaryOp) -> Verdict {
    given_up(Diagnostic::UnhandledBinary { op })
}

/// The value of a call of `name`, looked up from the class `src`, on the
/// given arguments: calls have no rule yet.
pub open spec fn call_rule(src: ClassId, name: String, args: Seq<Analysis>) -> Verdict {
    given_up(Diagnostic::UnhandledCall { name })
}

} // verus!
