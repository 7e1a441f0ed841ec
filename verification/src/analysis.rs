//! Abstract values: a shape, refined by a constant where one is known.

use vstd::prelude::*;
use crate::lattice::{Constant, Type, WellKnown, shape_of};

verus! {

/// An atom of the analysis: the shape of a value and, where the value is
/// known at compile time, the constant itself.
#[derive(Debug, PartialEq, Eq)]
pub struct Analysis {
    pub ty: Type,
    pub value: Option<Constant>,
}

impl Analysis {
    /// A constant only ever refines the shape: where one is present, the
    /// shape is the constant's own.
    pub open spec fn consistent(self, classes: WellKnown) -> bool {
        match self.value {
            Some(constant) => self.ty == shape_of(classes, constant),
            None => true,
        }
    }

    /// The unconstrained value.
    pub fn empty() -> (analysis: Analysis)
        ensures
            analysis == (Analysis { ty: Type::Any, value: None }),
    {
        Analysis { ty: Type::Any, value: None }
    }

    /// The null value, which is also its own constant.
    pub fn null() -> (analysis: Analysis)
        ensures
            analysis == (Analysis { ty: Type::Null, value: Some(Constant::Null) }),
    {
        Analysis { ty: Type::Null, value: Some(Constant::Null) }
    }

    /// Wraps a constant: the result carries it unchanged, under its shape.
    pub fn from_value(classes: &WellKnown, value: Constant) -> (analysis: Analysis)
        ensures
            analysis == (Analysis { ty: shape_of(*classes, value), value: Some(value) }),
            analysis.consistent(*classes),
    {
        Analysis { ty: Type::from_constant(classes, &value), value: Some(value) }
    }
}

impl From<Type> for Analysis {
    /// A value of which only the shape is known.
    fn from(ty: Type) -> (analysis: Analysis) {
        Analysis { ty, value: None }
    }
}

impl vstd::std_specs::convert::FromSpecImpl<Type> for Analysis {
    open spec fn obeys_from_spec() -> bool {
        true
    }

    open spec fn from_spec(ty: Type) -> Analysis {
        Analysis { ty, value: None }
    }
}

impl Clone for Analysis {
    fn clone(&self) -> (copy: Self)
        ensures
            copy == *self,
    {
        let value = match &self.value {
            Some(constant) => Some(constant.clone()),
            None => None,
        };
        Analysis { ty: self.ty, value }
    }
}

} // verus!
