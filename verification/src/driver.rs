//! Which procedures are analyzed: those whose body is present.

use vstd::prelude::*;
use crate::analyzer::ProcAnalyzer;
use crate::class::{ClassInfo, Code, ProcValue};
use crate::lattice::WellKnown;
use crate::model::{initial_state, run_procedure};

verus! {

/// The four states in which the body of a procedure may be.
#[derive(Copy, Clone, Debug, PartialEq, Eq)]
pub enum CodeKind {
    Present,
    Invalid,
    Builtin,
    Disabled,
}

impl Code {
    /// The state of this body.
    pub open spec fn spec_kind(&self) -> CodeKind {
        match *self {
            Code::Present(_) => CodeKind::Present,
            Code::Invalid => CodeKind::Invalid,
            Code::Builtin => CodeKind::Builtin,
            Code::Disabled => CodeKind::Disabled,
        }
    }

    /// The state of this body.
    #[verifier::when_used_as_spec(spec_kind)]
    pub fn kind(&self) -> (kind: CodeKind)
        ensures
            kind == self.spec_kind(),
    {
        match self {
            Code::Present(_) => CodeKind::Present,
            Code::Invalid => CodeKind::Invalid,
            Code::Builtin => CodeKind::Builtin,
            Code::Disabled => CodeKind::Disabled,
        }
    }
}

/// How many procedures were met in each state.
#[derive(Copy, Clone, Debug, PartialEq, Eq)]
pub struct Tally {
    pub present: usize,
    pub invalid: usize,
    pub builtin: usize,
    pub disabled: usize,
}

/// How many of the first `n` procedures have a body in the given state.
pub open spec fn count_of(procs: Seq<ProcValue>, n: nat, kind: CodeKind) -> nat
    decreases n,
{
    if n == 0 || n > procs.len() {
        0
    } else if procs[n - 1].code.spec_kind() == kind {
        count_of(procs, (n - 1) as nat, kind) + 1
    } else {
        count_of(procs, (n - 1) as nat, kind)
    }
}

/// Analyzes a procedure of the class `ty` if its body is present, and only
/// then. The analysis starts afresh: no procedure sees the variables of
/// another.
pub fn check_proc<'o>(classes: WellKnown, ty: &'o ClassInfo, proc: &ProcValue) -> (analysis: Option<
    ProcAnalyzer<'o>,
>)
    ensures
        match proc.code {
            Code::Present(block) => {
                &&& analysis matches Some(analyzer)
                &&& analyzer.class() == *ty
                &&& analyzer.classes() == classes
                &&& analyzer@ == run_procedure(
                    *ty,
                    initial_state(classes, *ty),
                    proc.parameters@,
                    block@,
                )
            },
            _ => analysis is None,
        },
{
    match &proc.code {
        Code::Present(code) => {
            let mut analyzer = ProcAnalyzer::new(classes, ty);
            analyzer.run(proc, code);
            Some(analyzer)
        },
        _ => None,
    }
}

/// Counts the procedures by the state of their bodies.
pub fn tally(procs: &Vec<ProcValue>) -> (counts: Tally)
    ensures
        counts.present == count_of(procs@, procs@.len(), CodeKind::Present),
        counts.invalid == count_of(procs@, procs@.len(), CodeKind::Invalid),
        counts.builtin == count_of(procs@, procs@.len(), CodeKind::Builtin),
        counts.disabled == count_of(procs@, procs@.len(), CodeKind::Disabled),
{
    let mut counts = Tally { present: 0, invalid: 0, builtin: 0, disabled: 0 };
    let mut i: usize = 0;
    while i < procs.len()
        invariant
            i <= procs@.len(),
            counts.present == count_of(procs@, i as nat, CodeKind::Present),
            counts.invalid == count_of(procs@, i as nat, CodeKind::Invalid),
            counts.builtin == count_of(procs@, i as nat, CodeKind::Builtin),
            counts.disabled == count_of(procs@, i as nat, CodeKind::Disabled),
            counts.present + counts.invalid + counts.builtin + counts.disabled == i,
        decreases procs@.len() - i,
    {
        match procs[i].code.kind() {
            CodeKind::Present => counts.present += 1,
            CodeKind::Invalid => counts.invalid += 1,
            CodeKind::Builtin => counts.builtin += 1,
            CodeKind::Disabled => counts.disabled += 1,
        }
        i += 1;
    }
    counts
}

} // verus!
