//! What the analysis knows of the class that owns a procedure.

use vstd::prelude::*;
use crate::ast::{DeclaredType, Statement};
use crate::lattice::ClassId;

verus! {

/// A field that a class declares.
#[derive(Debug, PartialEq, Eq)]
pub struct FieldDecl {
    pub name: String,
    pub var_type: DeclaredType,
}

/// The class that owns the procedure under analysis.
#[derive(Debug, PartialEq, Eq)]
pub struct ClassInfo {
    pub id: ClassId,
    /// Whether the class is the root of the hierarchy.
    pub is_root: bool,
    /// The fields that the class and its ancestors declare, those of the
    /// class itself first, then those of each ancestor in turn, so that the
    /// nearest declaration of a name comes first.
    pub fields: Vec<FieldDecl>,
}

/// A parameter of a procedure.
#[derive(Debug, PartialEq, Eq)]
pub struct Parameter {
    pub name: String,
}

/// The body of a procedure, as the hierarchy holds it.
#[derive(Debug, PartialEq, Eq)]
pub enum Code {
    /// The body was parsed.
    Present(Vec<Statement>),
    /// The body did not parse.
    Invalid,
    /// The procedure is built into the language and has no body.
    Builtin,
    /// Bodies were not asked for.
    Disabled,
}

/// One definition of a procedure.
#[derive(Debug, PartialEq, Eq)]
pub struct ProcValue {
    pub parameters: Vec<Parameter>,
    pub code: Code,
}

/// The declared type of the first field called `name` at or after `start`.
pub open spec fn declared_field_from(fields: Seq<FieldDecl>, name: Seq<char>, start: int) -> Option<
    DeclaredType,
>
    decreases fields.len() - start,
{
    if start < 0 || start >= fields.len() {
        None
    } else if fields[start].name@ == name {
        Some(fields[start].var_type)
    } else {
        declared_field_from(fields, name, start + 1)
    }
}

/// The declared type of the field called `name`: that of its nearest
/// declaration.
pub open spec fn declared_field(fields: Seq<FieldDecl>, name: Seq<char>) -> Option<DeclaredType> {
    declared_field_from(fields, name, 0)
}

impl ClassInfo {
    /// Looks a field up by name, in the class and then in its ancestors.
    pub fn get_var_declaration(&self, name: &String) -> (found: Option<DeclaredType>)
        ensures
            found == declared_field(self.fields@, name@),
    {
        let mut i: usize = 0;
        while i < self.fields.len()
            invariant
                i <= self.fields@.len(),
                declared_field(self.fields@, name@) == declared_field_from(
                    self.fields@,
                    name@,
                    i as int,
                ),
            decreases self.fields@.len() - i,
        {
            if self.fields[i].name == *name {
                return Some(self.fields[i].var_type);
            }
            i += 1;
        }
        None
    }
}

} // verus!
