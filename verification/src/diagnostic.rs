//! What the analysis reports when it cannot tell what a value is.

use vstd::prelude::*;
use crate::ast::{BinaryOp, UnaryOp};
use crate::lattice::Type;

verus! {

/// A notice of the analysis. Each one marks a place where the shape of a
/// value was given up as unconstrained.
#[allow(inconsistent_fields)]
#[derive(Debug, PartialEq, Eq)]
pub enum Diagnostic {
    /// The type path in the declaration of the variable names no class.
    UnresolvedVarType { name: String },
    /// A `new` that names no class stands where no class is expected.
    NewWithoutHint,
    /// A class path in an expression names no class.
    UnresolvedPath,
    /// The identifier is a field of the class, but the field's declaration
    /// names no type, or a type that is no class.
    UnresolvedFieldType { name: String },
    /// The identifier is neither a variable nor a field.
    UnresolvedIdent { name: String },
    /// A kind of term that the analysis has no rule for.
    UnhandledTerm,
    /// Indexing, which has no rule yet.
    UnhandledIndex,
    /// Access to a field of a value, which has no rule yet.
    UnhandledField { name: String },
    /// A method call on a value, which has no rule yet.
    UnhandledMethod { name: String },
    /// A unary operator applied to a shape that it has no rule for.
    UnhandledUnary { op: UnaryOp, operand: Type },
    /// A binary operator; none has a rule yet.
    UnhandledBinary { op: BinaryOp },
    /// A call of a procedure by its bare name, which has no rule yet.
    UnhandledCall { name: String },
}

impl Clone for Diagnostic {
    fn clone(&self) -> (copy: Self)
        ensures
            copy == *self,
    {
        match self {
            Diagnostic::UnresolvedVarType { name } => Diagnostic::UnresolvedVarType {
                name: name.clone(),
            },
            Diagnostic::NewWithoutHint => Diagnostic::NewWithoutHint,
            Diagnostic::UnresolvedPath => Diagnostic::UnresolvedPath,
            Diagnostic::UnresolvedFieldType { name } => Diagnostic::UnresolvedFieldType {
                name: name.clone(),
            },
            Diagnostic::UnresolvedIdent { name } => Diagnostic::UnresolvedIdent {
                name: name.clone(),
            },
            Diagnostic::UnhandledTerm => Diagnostic::UnhandledTerm,
            Diagnostic::UnhandledIndex => Diagnostic::UnhandledIndex,
            Diagnostic::UnhandledField { name } => Diagnostic::UnhandledField {
                name: name.clone(),
            },
            Diagnostic::UnhandledMethod { name } => Diagnostic::UnhandledMethod {
                name: name.clone(),
            },
            Diagnostic::UnhandledUnary { op, operand } => Diagnostic::UnhandledUnary {
                op: *op,
                operand: *operand,
            },
            Diagnostic::UnhandledBinary { op } => Diagnostic::UnhandledBinary { op: *op },
            Diagnostic::UnhandledCall { name } => Diagnostic::UnhandledCall { name: name.clone() },
        }
    }
}

} // verus!
