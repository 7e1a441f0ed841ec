//! What the walk over a procedure body computes, stated as functions on the
//! state of the analysis.

use vstd::prelude::*;
use crate::analysis::Analysis;
use crate::ast::{Case, DeclaredType, Expression, Follow, NewType, Statement, Term, UnaryOp, VarStatement};
use crate::class::{ClassInfo, Parameter, declared_field};
use crate::diagnostic::Diagnostic;
use crate::lattice::{ClassId, Constant, Type, WellKnown};
use crate::rules::{Verdict, binary_rule, call_rule, follow_rule, of_shape, unary_rule};

verus! {

/// The state of the analysis of one procedure.
pub struct State {
    /// The variables, each with what is known of its value.
    pub env: Map<Seq<char>, Analysis>,
    /// What has been reported, in the order of the source.
    pub diagnostics: Seq<Diagnostic>,
    /// The value found for each expression, in the order in which their
    /// evaluation ended: an expression comes after the expressions inside it.
    pub annotations: Seq<Analysis>,
}

/// A state and the value of the expression that led to it.
pub struct Evaluated {
    pub state: State,
    pub value: Analysis,
}

/// A state and the hint under which an initializer is evaluated in it.
pub struct Hinted {
    pub state: State,
    pub hint: Option<ClassId>,
}

/// A state and the values of the expressions that led to it.
pub struct EvaluatedList {
    pub state: State,
    pub values: Seq<Analysis>,
}

impl State {
    /// The state after a report.
    pub open spec fn report(self, diagnostic: Diagnostic) -> State {
        State { diagnostics: self.diagnostics.push(diagnostic), ..self }
    }

    /// The state after the value of an expression is recorded.
    pub open spec fn annotate(self, value: Analysis) -> State {
        State { annotations: self.annotations.push(value), ..self }
    }

    /// The state after a variable is bound, in place of any earlier binding.
    pub open spec fn bind(self, name: Seq<char>, value: Analysis) -> State {
        State { env: self.env.insert(name, value), ..self }
    }

    /// The value that a rule decided on, and the state after its report.
    pub open spec fn conclude(self, verdict: Verdict) -> Evaluated {
        Evaluated {
            state: match verdict.diagnostic {
                Some(diagnostic) => self.report(diagnostic),
                None => self,
            },
            value: verdict.value,
        }
    }

    /// The value of a known shape, in an unchanged state.
    pub open spec fn yields(self, ty: Type) -> Evaluated {
        Evaluated { state: self, value: of_shape(ty) }
    }

    /// A literal: the constant under its shape, in an unchanged state.
    pub open spec fn literal(self, ty: Type, constant: Constant) -> Evaluated {
        Evaluated { state: self, value: Analysis { ty, value: Some(constant) } }
    }

    /// The unconstrained value, after a report.
    pub open spec fn gives_up(self, diagnostic: Diagnostic) -> Evaluated {
        Evaluated { state: self.report(diagnostic), value: of_shape(Type::Any) }
    }
}

/// The value reached through the accessors, applied from first to last.
pub open spec fn apply_follows(start: Evaluated, follows: Seq<Follow>) -> Evaluated
    decreases follows.len(),
{
    if follows.len() == 0 {
        start
    } else {
        let inner = apply_follows(start, follows.drop_last());
        inner.state.conclude(follow_rule(inner.value, follows.last()))
    }
}

/// The value under the unary operators, applied from last to first: the one
/// written nearest to the term comes first.
pub open spec fn apply_unaries(start: Evaluated, ops: Seq<UnaryOp>) -> Evaluated
    decreases ops.len(),
{
    if ops.len() == 0 {
        start
    } else {
        let inner = apply_unaries(start, ops.drop_first());
        inner.state.conclude(unary_rule(inner.value, ops[0]))
    }
}

/// What an identifier stands for: a variable before a field of the class.
pub open spec fn eval_ident(class: ClassInfo, state: State, name: String) -> Evaluated {
    if state.env.contains_key(name@) {
        Evaluated { state, value: state.env[name@] }
    } else {
        match declared_field(class.fields@, name@) {
            Some(DeclaredType::Class(target)) => state.yields(Type::Instance(target)),
            Some(_) => state.gives_up(Diagnostic::UnresolvedFieldType { name }),
            None => state.gives_up(Diagnostic::UnresolvedIdent { name }),
        }
    }
}

/// The value of an expression, where a value of class `hint` is expected if
/// there is a hint, and the state after its evaluation.
pub open spec fn eval_expression(
    class: ClassInfo,
    state: State,
    expression: Expression,
    hint: Option<ClassId>,
) -> Evaluated
    decreases expression, 0nat,
{
    let outcome = match expression {
        Expression::Base { unary, term, follow } => {
            let base_hint = if follow@.len() == 0 && unary@.len() == 0 {
                hint
            } else {
                None
            };
            apply_unaries(apply_follows(eval_term(class, state, term, base_hint), follow@), unary@)
        },
        Expression::BinaryOp { op, lhs, rhs } => {
            let left = eval_expression(class, state, *lhs, None);
            let right = eval_expression(class, left.state, *rhs, None);
            right.state.conclude(binary_rule(left.value, right.value, op))
        },
        Expression::AssignOp { op, lhs, rhs } => {
            let target = eval_expression(class, state, *lhs, None);
            eval_expression(class, target.state, *rhs, None)
        },
        Expression::TernaryOp { cond, if_, else_ } => {
            let condition = eval_expression(class, state, *cond, None);
            let taken = eval_expression(class, condition.state, *if_, hint);
            let other = eval_expression(class, taken.state, *else_, hint);
            Evaluated { state: other.state, value: taken.value }
        },
    };
    Evaluated { state: outcome.state.annotate(outcome.value), value: outcome.value }
}

/// The value of a term, and the state after its evaluation.
pub open spec fn eval_term(class: ClassInfo, state: State, term: Term, hint: Option<ClassId>) -> Evaluated
    decreases term, 0nat,
{
    match term {
        Term::Null => state.literal(Type::Null, Constant::Null),
        Term::New { type_: NewType::Implicit } => match hint {
            Some(expected) => state.yields(Type::Instance(expected)),
            None => state.gives_up(Diagnostic::NewWithoutHint),
        },
        Term::New { type_: NewType::Ident(_) } => state.yields(Type::Any),
        Term::New { type_: NewType::Prefab(prefab) } => match prefab.target {
            Some(target) => state.yields(Type::Instance(target)),
            None => state.gives_up(Diagnostic::UnresolvedPath),
        },
        Term::List => state.yields(Type::List(None)),
        Term::Prefab(prefab) => match prefab.target {
            Some(target) => state.yields(Type::Typepath(target)),
            None => state.gives_up(Diagnostic::UnresolvedPath),
        },
        Term::String(text) => state.literal(Type::String, Constant::String(text)),
        Term::Resource(text) => state.literal(Type::Resource, Constant::Resource(text)),
        Term::Int(number) => state.literal(Type::Number, Constant::Int(number)),
        Term::Float(bits) => state.literal(Type::Number, Constant::Float(bits)),
        Term::Expr(inner) => eval_expression(class, state, *inner, hint),
        Term::InterpString => state.yields(Type::String),
        Term::Call(name, args) => {
            let arguments = eval_arguments(class, state, args@, args@.len());
            arguments.state.conclude(call_rule(class.id, name, arguments.values))
        },
        Term::Ident(name) => eval_ident(class, state, name),
        _ => state.gives_up(Diagnostic::UnhandledTerm),
    }
}

/// The values of the first `n` arguments of a call, each evaluated without
/// a hint, in order.
pub open spec fn eval_arguments(class: ClassInfo, state: State, args: Seq<Expression>, n: nat) -> EvaluatedList
    decreases args, n,
{
    if n == 0 || n > args.len() {
        EvaluatedList { state, values: Seq::empty() }
    } else {
        let before = eval_arguments(class, state, args, (n - 1) as nat);
        let argument = eval_expression(class, before.state, args[n - 1], None);
        EvaluatedList { state: argument.state, values: before.values.push(argument.value) }
    }
}

/// The state after the first `n` parts of a `switch` case: each value, and
/// both ends of each range, evaluated without a hint.
pub open spec fn walk_case_parts(class: ClassInfo, state: State, parts: Seq<Case>, n: nat) -> State
    decreases n,
{
    if n == 0 || n > parts.len() {
        state
    } else {
        let before = walk_case_parts(class, state, parts, (n - 1) as nat);
        match parts[n - 1] {
            Case::Exact(value) => eval_expression(class, before, value, None).state,
            Case::Range(start, end) => {
                let low = eval_expression(class, before, start, None);
                eval_expression(class, low.state, end, None).state
            },
        }
    }
}

/// The state after a variable declaration. The declared type, where it
/// names a class, is the hint for the initializer; a variable without an
/// initializer is null. The name is bound in place of any earlier binding.
pub open spec fn walk_var(class: ClassInfo, state: State, var: VarStatement) -> State {
    let declared = match var.var_type {
        DeclaredType::Untyped => Hinted { state, hint: None },
        DeclaredType::Class(target) => Hinted { state, hint: Some(target) },
        DeclaredType::Unresolved => Hinted {
            state: state.report(Diagnostic::UnresolvedVarType { name: var.name }),
            hint: None,
        },
    };
    let initial = match var.value {
        Some(expression) => eval_expression(class, declared.state, expression, declared.hint),
        None => declared.state.literal(Type::Null, Constant::Null),
    };
    initial.state.bind(var.name@, initial.value)
}

/// The state after the first `n` declarations of a list of them.
pub open spec fn walk_vars(class: ClassInfo, state: State, vars: Seq<VarStatement>, n: nat) -> State
    decreases n,
{
    if n == 0 || n > vars.len() {
        state
    } else {
        walk_var(class, walk_vars(class, state, vars, (n - 1) as nat), vars[n - 1])
    }
}

/// The state after an optional expression, evaluated without a hint.
pub open spec fn eval_optional(class: ClassInfo, state: State, expression: Option<Expression>) -> State {
    match expression {
        Some(expression) => eval_expression(class, state, expression, None).state,
        None => state,
    }
}

/// The state after one statement. Every part of the statement is walked
/// once, in the order of the source, in the one environment: the arms of a
/// conditional are neither kept apart nor joined, and a loop body is not
/// walked to a fixed point.
pub open spec fn walk_statement(class: ClassInfo, state: State, statement: Statement) -> State
    decreases statement, 0nat,
{
    match statement {
        Statement::Expr(expression) => eval_expression(class, state, expression, None).state,
        Statement::Return(value) => eval_optional(class, state, value),
        Statement::Throw(expression) => eval_expression(class, state, expression, None).state,
        Statement::While { condition, block } => {
            let tested = eval_expression(class, state, condition, None).state;
            walk_block(class, tested, block@, block@.len())
        },
        Statement::DoWhile { block, condition } => {
            let walked = walk_block(class, state, block@, block@.len());
            eval_expression(class, walked, condition, None).state
        },
        Statement::If { arms, else_arm } => {
            let walked = walk_arms(class, state, arms@, arms@.len());
            match else_arm {
                Some(block) => walk_block(class, walked, block@, block@.len()),
                None => walked,
            }
        },
        Statement::ForLoop { init, test, inc, block } => {
            let started = match init {
                Some(init) => walk_statement(class, state, *init),
                None => state,
            };
            let tested = eval_optional(class, started, test);
            let stepped = match inc {
                Some(inc) => walk_statement(class, tested, *inc),
                None => tested,
            };
            walk_block(class, stepped, block@, block@.len())
        },
        Statement::ForList { in_list, block } => {
            let listed = eval_optional(class, state, in_list);
            walk_block(class, listed, block@, block@.len())
        },
        Statement::ForRange { start, end, step, block } => {
            let low = eval_expression(class, state, start, None).state;
            let high = eval_expression(class, low, end, None).state;
            let stepped = eval_optional(class, high, step);
            walk_block(class, stepped, block@, block@.len())
        },
        Statement::Var(var) => walk_var(class, state, var),
        Statement::Vars(vars) => walk_vars(class, state, vars@, vars@.len()),
        Statement::Setting => state,
        Statement::Spawn { delay, block } => {
            let delayed = eval_optional(class, state, delay);
            walk_block(class, delayed, block@, block@.len())
        },
        Statement::Switch { input, cases, default } => {
            let switched = eval_expression(class, state, input, None).state;
            let walked = walk_cases(class, switched, cases@, cases@.len());
            match default {
                Some(block) => walk_block(class, walked, block@, block@.len()),
                None => walked,
            }
        },
        Statement::TryCatch { try_block, catch_block } => {
            let tried = walk_block(class, state, try_block@, try_block@.len());
            walk_block(class, tried, catch_block@, catch_block@.len())
        },
        Statement::Continue => state,
        Statement::Break => state,
        Statement::Label { block } => walk_block(class, state, block@, block@.len()),
        Statement::Del(expression) => eval_expression(class, state, expression, None).state,
    }
}

/// The state after the first `n` statements of a block.
pub open spec fn walk_block(class: ClassInfo, state: State, block: Seq<Statement>, n: nat) -> State
    decreases block, n,
{
    if n == 0 || n > block.len() {
        state
    } else {
        walk_statement(class, walk_block(class, state, block, (n - 1) as nat), block[n - 1])
    }
}

/// The state after the first `n` arms of a conditional: of each, the
/// condition and then the block.
pub open spec fn walk_arms(
    class: ClassInfo,
    state: State,
    arms: Seq<(Expression, Vec<Statement>)>,
    n: nat,
) -> State
    decreases arms, n,
{
    if n == 0 || n > arms.len() {
        state
    } else {
        let before = walk_arms(class, state, arms, (n - 1) as nat);
        let tested = eval_expression(class, before, arms[n - 1].0, None).state;
        walk_block(class, tested, arms[n - 1].1@, arms[n - 1].1@.len())
    }
}

/// The state after the first `n` cases of a `switch`: of each, the values
/// it matches and then the block.
pub open spec fn walk_cases(
    class: ClassInfo,
    state: State,
    cases: Seq<(Vec<Case>, Vec<Statement>)>,
    n: nat,
) -> State
    decreases cases, n,
{
    if n == 0 || n > cases.len() {
        state
    } else {
        let before = walk_cases(class, state, cases, (n - 1) as nat);
        let matched = walk_case_parts(class, before, cases[n - 1].0@, cases[n - 1].0@.len());
        walk_block(class, matched, cases[n - 1].1@, cases[n - 1].1@.len())
    }
}

/// The variables that every procedure starts with: the return slot `.`,
/// which is unconstrained; `args`, a list; `usr`, a mob; `src`, an instance
/// of the owning class, unless that is the root; and `global`.
pub open spec fn seed_env(classes: WellKnown, class: ClassInfo) -> Map<Seq<char>, Analysis> {
    let common = Map::<Seq<char>, Analysis>::empty().insert("."@, of_shape(Type::Any)).insert(
        "args"@,
        of_shape(Type::List(None)),
    ).insert("usr"@, of_shape(Type::Instance(classes.mob)));
    let owned = if class.is_root {
        common
    } else {
        common.insert("src"@, of_shape(Type::Instance(class.id)))
    };
    owned.insert("global"@, of_shape(Type::Global))
}

/// The state in which the analysis of a procedure starts.
pub open spec fn initial_state(classes: WellKnown, class: ClassInfo) -> State {
    State { env: seed_env(classes, class), diagnostics: Seq::empty(), annotations: Seq::empty() }
}

/// The state after the first `n` parameters are bound, each unconstrained.
pub open spec fn bind_parameters(state: State, parameters: Seq<Parameter>, n: nat) -> State
    decreases n,
{
    if n == 0 || n > parameters.len() {
        state
    } else {
        bind_parameters(state, parameters, (n - 1) as nat).bind(
            parameters[n - 1].name@,
            of_shape(Type::Any),
        )
    }
}

/// The state after the analysis of a procedure body that starts in
/// `state`: the parameters are bound, then the body is walked.
pub open spec fn run_procedure(
    class: ClassInfo,
    state: State,
    parameters: Seq<Parameter>,
    block: Seq<Statement>,
) -> State {
    walk_block(class, bind_parameters(state, parameters, parameters.len()), block, block.len())
}

} // verus!
