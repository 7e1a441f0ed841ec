//! What holds of every walk.

use vstd::prelude::*;
use crate::analysis::Analysis;
use crate::ast::{Case, DeclaredType, Expression, Follow, NewType, Statement, Term, UnaryOp};
use crate::ast::VarStatement;
use crate::census::{arm_nodes, argument_nodes, block_nodes, case_nodes, case_part_nodes};
use crate::census::{expression_nodes, optional_nodes, statement_nodes, term_nodes, var_nodes, vars_nodes};
use crate::class::{ClassInfo, Parameter, declared_field};
use crate::diagnostic::Diagnostic;
use crate::lattice::{ClassId, Constant, Type, WellKnown, shape_of};
use crate::model::{Evaluated, State};
use crate::model::{apply_follows, apply_unaries, eval_arguments, eval_expression, eval_ident, eval_optional, eval_term};
use crate::model::{bind_parameters, initial_state, run_procedure};
use crate::model::{walk_arms, walk_block, walk_case_parts, walk_cases, walk_statement, walk_var, walk_vars};
use crate::rules::{Verdict, of_shape, unary_rule};

verus! {

/// `after` continues `before`: what was reported and what was annotated is
/// still there, in its place, and `grown` annotations have come after it.
pub open spec fn continues(before: State, after: State, grown: nat) -> bool {
    &&& before.diagnostics.len() <= after.diagnostics.len()
    &&& forall|i: int|
        0 <= i < before.diagnostics.len() ==> after.diagnostics[i] == before.diagnostics[i]
    &&& after.annotations.len() == before.annotations.len() + grown
    &&& forall|i: int|
        0 <= i < before.annotations.len() ==> after.annotations[i] == before.annotations[i]
}

/// Accessors touch neither the variables nor the annotations.
pub proof fn lemma_apply_follows(start: Evaluated, follows: Seq<Follow>)
    ensures
        apply_follows(start, follows).state.env == start.state.env,
        continues(start.state, apply_follows(start, follows).state, 0),
    decreases follows.len(),
{
    if follows.len() > 0 {
        lemma_apply_follows(start, follows.drop_last());
    }
}

/// Unary operators touch neither the variables nor the annotations.
pub proof fn lemma_apply_unaries(start: Evaluated, ops: Seq<UnaryOp>)
    ensures
        apply_unaries(start, ops).state.env == start.state.env,
        continues(start.state, apply_unaries(start, ops).state, 0),
    decreases ops.len(),
{
    if ops.len() > 0 {
        lemma_apply_unaries(start, ops.drop_first());
    }
}

/// Evaluating an expression binds no variable, loses nothing of what was
/// reported or annotated, and annotates each expression in it once; the
/// expression's own annotation, its value, comes last.
pub proof fn lemma_eval_expression(
    class: ClassInfo,
    state: State,
    expression: Expression,
    hint: Option<ClassId>,
)
    ensures
        eval_expression(class, state, expression, hint).state.env == state.env,
        continues(
            state,
            eval_expression(class, state, expression, hint).state,
            expression_nodes(expression),
        ),
        eval_expression(class, state, expression, hint).state.annotations.last() == eval_expression(
            class,
            state,
            expression,
            hint,
        ).value,
    decreases expression, 0nat,
{
    match expression {
        Expression::Base { unary, term, follow } => {
            let base_hint = if follow@.len() == 0 && unary@.len() == 0 {
                hint
            } else {
                None
            };
            let base = eval_term(class, state, term, base_hint);
            lemma_eval_term(class, state, term, base_hint);
            lemma_apply_follows(base, follow@);
            lemma_apply_unaries(apply_follows(base, follow@), unary@);
        },
        Expression::BinaryOp { op, lhs, rhs } => {
            let left = eval_expression(class, state, *lhs, None);
            lemma_eval_expression(class, state, *lhs, None);
            lemma_eval_expression(class, left.state, *rhs, None);
        },
        Expression::AssignOp { op, lhs, rhs } => {
            let target = eval_expression(class, state, *lhs, None);
            lemma_eval_expression(class, state, *lhs, None);
            lemma_eval_expression(class, target.state, *rhs, None);
        },
        Expression::TernaryOp { cond, if_, else_ } => {
            let condition = eval_expression(class, state, *cond, None);
            let taken = eval_expression(class, condition.state, *if_, hint);
            lemma_eval_expression(class, state, *cond, None);
            lemma_eval_expression(class, condition.state, *if_, hint);
            lemma_eval_expression(class, taken.state, *else_, hint);
        },
    }
}

/// Evaluating a term binds no variable, loses nothing of what was reported
/// or annotated, and annotates each expression inside the term once.
pub proof fn lemma_eval_term(class: ClassInfo, state: State, term: Term, hint: Option<ClassId>)
    ensures
        eval_term(class, state, term, hint).state.env == state.env,
        continues(state, eval_term(class, state, term, hint).state, term_nodes(term)),
    decreases term, 0nat,
{
    match term {
        Term::Expr(inner) => {
            lemma_eval_expression(class, state, *inner, hint);
        },
        Term::Call(name, args) => {
            lemma_eval_arguments(class, state, args@, args@.len());
        },
        _ => {},
    }
}

/// Evaluating the arguments of a call binds no variable, loses nothing of
/// what was reported or annotated, annotates each expression in them once,
/// and gives one value for each argument.
pub proof fn lemma_eval_arguments(class: ClassInfo, state: State, args: Seq<Expression>, n: nat)
    requires
        n <= args.len(),
    ensures
        eval_arguments(class, state, args, n).state.env == state.env,
        continues(state, eval_arguments(class, state, args, n).state, argument_nodes(args, n)),
        eval_arguments(class, state, args, n).values.len() == n,
    decreases args, n,
{
    if n > 0 {
        let before = eval_arguments(class, state, args, (n - 1) as nat);
        lemma_eval_arguments(class, state, args, (n - 1) as nat);
        lemma_eval_expression(class, before.state, args[n - 1], None);
    }
}

/// Evaluating an expression that may be absent loses nothing and annotates
/// each expression in it once.
pub proof fn lemma_eval_optional(class: ClassInfo, state: State, expression: Option<Expression>)
    ensures
        eval_optional(class, state, expression).env == state.env,
        continues(state, eval_optional(class, state, expression), optional_nodes(expression)),
{
    if let Some(expression) = expression {
        lemma_eval_expression(class, state, expression, None);
    }
}

/// The parts of a `switch` case bind no variable, lose nothing, and
/// annotate each expression in them once.
pub proof fn lemma_walk_case_parts(class: ClassInfo, state: State, parts: Seq<Case>, n: nat)
    requires
        n <= parts.len(),
    ensures
        walk_case_parts(class, state, parts, n).env == state.env,
        continues(state, walk_case_parts(class, state, parts, n), case_part_nodes(parts, n)),
    decreases n,
{
    if n > 0 {
        let before = walk_case_parts(class, state, parts, (n - 1) as nat);
        lemma_walk_case_parts(class, state, parts, (n - 1) as nat);
        match parts[n - 1] {
            Case::Exact(value) => {
                lemma_eval_expression(class, before, value, None);
            },
            Case::Range(start, end) => {
                let low = eval_expression(class, before, start, None);
                lemma_eval_expression(class, before, start, None);
                lemma_eval_expression(class, low.state, end, None);
            },
        }
    }
}

/// A declaration loses nothing, annotates each expression of its
/// initializer once, and binds its variable and no other.
pub proof fn lemma_walk_var(class: ClassInfo, state: State, var: VarStatement)
    ensures
        continues(state, walk_var(class, state, var), var_nodes(var)),
        walk_var(class, state, var).env.dom() == state.env.dom().insert(var.name@),
        forall|name: Seq<char>|
            name != var.name@ && state.env.contains_key(name) ==> walk_var(class, state, var).env[name]
                == state.env[name],
{
    let declared = match var.var_type {
        DeclaredType::Unresolved => state.report(
            Diagnostic::UnresolvedVarType { name: var.name },
        ),
        _ => state,
    };
    let hint = match var.var_type {
        DeclaredType::Class(target) => Some(target),
        _ => None,
    };
    if let Some(expression) = var.value {
        lemma_eval_expression(class, declared, expression, hint);
    }
}

/// Declarations lose nothing and annotate each expression of their
/// initializers once.
pub proof fn lemma_walk_vars(class: ClassInfo, state: State, vars: Seq<VarStatement>, n: nat)
    requires
        n <= vars.len(),
    ensures
        continues(state, walk_vars(class, state, vars, n), vars_nodes(vars, n)),
    decreases n,
{
    if n > 0 {
        lemma_walk_vars(class, state, vars, (n - 1) as nat);
        lemma_walk_var(class, walk_vars(class, state, vars, (n - 1) as nat), vars[n - 1]);
    }
}

/// A statement loses nothing of what was reported or annotated, and
/// annotates each expression in it once.
pub proof fn lemma_walk_statement(class: ClassInfo, state: State, statement: Statement)
    ensures
        continues(state, walk_statement(class, state, statement), statement_nodes(statement)),
    decreases statement, 0nat,
{
    match statement {
        Statement::Expr(expression) => {
            lemma_eval_expression(class, state, expression, None);
        },
        Statement::Return(value) => {
            lemma_eval_optional(class, state, value);
        },
        Statement::Throw(expression) => {
            lemma_eval_expression(class, state, expression, None);
        },
        Statement::While { condition, block } => {
            let tested = eval_expression(class, state, condition, None).state;
            lemma_eval_expression(class, state, condition, None);
            lemma_walk_block(class, tested, block@, block@.len());
        },
        Statement::DoWhile { block, condition } => {
            let walked = walk_block(class, state, block@, block@.len());
            lemma_walk_block(class, state, block@, block@.len());
            lemma_eval_expression(class, walked, condition, None);
        },
        Statement::If { arms, else_arm } => {
            let walked = walk_arms(class, state, arms@, arms@.len());
            lemma_walk_arms(class, state, arms@, arms@.len());
            if let Some(block) = else_arm {
                lemma_walk_block(class, walked, block@, block@.len());
            }
        },
        Statement::ForLoop { init, test, inc, block } => {
            let started = match init {
                Some(init) => walk_statement(class, state, *init),
                None => state,
            };
            if let Some(init) = init {
                lemma_walk_statement(class, state, *init);
            }
            let tested = eval_optional(class, started, test);
            lemma_eval_optional(class, started, test);
            let stepped = match inc {
                Some(inc) => walk_statement(class, tested, *inc),
                None => tested,
            };
            if let Some(inc) = inc {
                lemma_walk_statement(class, tested, *inc);
            }
            lemma_walk_block(class, stepped, block@, block@.len());
        },
        Statement::ForList { in_list, block } => {
            let listed = eval_optional(class, state, in_list);
            lemma_eval_optional(class, state, in_list);
            lemma_walk_block(class, listed, block@, block@.len());
        },
        Statement::ForRange { start, end, step, block } => {
            let low = eval_expression(class, state, start, None).state;
            lemma_eval_expression(class, state, start, None);
            let high = eval_expression(class, low, end, None).state;
            lemma_eval_expression(class, low, end, None);
            let stepped = eval_optional(class, high, step);
            lemma_eval_optional(class, high, step);
            lemma_walk_block(class, stepped, block@, block@.len());
        },
        Statement::Var(var) => {
            lemma_walk_var(class, state, var);
        },
        Statement::Vars(vars) => {
            lemma_walk_vars(class, state, vars@, vars@.len());
        },
        Statement::Setting => {},
        Statement::Spawn { delay, block } => {
            let delayed = eval_optional(class, state, delay);
            lemma_eval_optional(class, state, delay);
            lemma_walk_block(class, delayed, block@, block@.len());
        },
        Statement::Switch { input, cases, default } => {
            let switched = eval_expression(class, state, input, None).state;
            lemma_eval_expression(class, state, input, None);
            let walked = walk_cases(class, switched, cases@, cases@.len());
            lemma_walk_cases(class, switched, cases@, cases@.len());
            if let Some(block) = default {
                lemma_walk_block(class, walked, block@, block@.len());
            }
        },
        Statement::TryCatch { try_block, catch_block } => {
            let tried = walk_block(class, state, try_block@, try_block@.len());
            lemma_walk_block(class, state, try_block@, try_block@.len());
            lemma_walk_block(class, tried, catch_block@, catch_block@.len());
        },
        Statement::Continue => {},
        Statement::Break => {},
        Statement::Label { block } => {
            lemma_walk_block(class, state, block@, block@.len());
        },
        Statement::Del(expression) => {
            lemma_eval_expression(class, state, expression, None);
        },
    }
}

/// The statements of a block lose nothing of what was reported or
/// annotated, and annotate each expression in them once.
pub proof fn lemma_walk_block(class: ClassInfo, state: State, block: Seq<Statement>, n: nat)
    requires
        n <= block.len(),
    ensures
        continues(state, walk_block(class, state, block, n), block_nodes(block, n)),
    decreases block, n,
{
    if n > 0 {
        lemma_walk_block(class, state, block, (n - 1) as nat);
        lemma_walk_statement(class, walk_block(class, state, block, (n - 1) as nat), block[n - 1]);
    }
}

/// The arms of a conditional lose nothing of what was reported or
/// annotated, and annotate each expression in them once.
pub proof fn lemma_walk_arms(
    class: ClassInfo,
    state: State,
    arms: Seq<(Expression, Vec<Statement>)>,
    n: nat,
)
    requires
        n <= arms.len(),
    ensures
        continues(state, walk_arms(class, state, arms, n), arm_nodes(arms, n)),
    decreases arms, n,
{
    if n > 0 {
        let before = walk_arms(class, state, arms, (n - 1) as nat);
        lemma_walk_arms(class, state, arms, (n - 1) as nat);
        let tested = eval_expression(class, before, arms[n - 1].0, None).state;
        lemma_eval_expression(class, before, arms[n - 1].0, None);
        lemma_walk_block(class, tested, arms[n - 1].1@, arms[n - 1].1@.len());
    }
}

/// The cases of a `switch` lose nothing of what was reported or annotated,
/// and annotate each expression in them once.
pub proof fn lemma_walk_cases(
    class: ClassInfo,
    state: State,
    cases: Seq<(Vec<Case>, Vec<Statement>)>,
    n: nat,
)
    requires
        n <= cases.len(),
    ensures
        continues(state, walk_cases(class, state, cases, n), case_nodes(cases, n)),
    decreases cases, n,
{
    if n > 0 {
        let before = walk_cases(class, state, cases, (n - 1) as nat);
        lemma_walk_cases(class, state, cases, (n - 1) as nat);
        let matched = walk_case_parts(class, before, cases[n - 1].0@, cases[n - 1].0@.len());
        lemma_walk_case_parts(class, before, cases[n - 1].0@, cases[n - 1].0@.len());
        lemma_walk_block(class, matched, cases[n - 1].1@, cases[n - 1].1@.len());
    }
}

/// Binding the parameters reports and annotates nothing.
pub proof fn lemma_bind_parameters(state: State, parameters: Seq<Parameter>, n: nat)
    requires
        n <= parameters.len(),
    ensures
        bind_parameters(state, parameters, n).diagnostics == state.diagnostics,
        bind_parameters(state, parameters, n).annotations == state.annotations,
    decreases n,
{
    if n > 0 {
        lemma_bind_parameters(state, parameters, (n - 1) as nat);
    }
}

/// The walk is total and reaches everything: whatever the body of a
/// procedure holds, its analysis gives every expression in it a value. The
/// annotations of a walk that starts afresh are as many as the body has
/// expressions.
pub proof fn law_every_expression_is_annotated(
    classes: WellKnown,
    class: ClassInfo,
    parameters: Seq<Parameter>,
    block: Seq<Statement>,
)
    ensures
        run_procedure(
            class,
            initial_state(classes, class),
            parameters,
            block,
        ).annotations.len() == block_nodes(block, block.len()),
{
    let start = initial_state(classes, class);
    lemma_bind_parameters(start, parameters, parameters.len());
    lemma_walk_block(
        class,
        bind_parameters(start, parameters, parameters.len()),
        block,
        block.len(),
    );
}

/// Every variable's value is consistent, and so is every annotation.
pub open spec fn consistent_state(state: State, classes: WellKnown) -> bool {
    &&& forall|name: Seq<char>|
        state.env.contains_key(name) ==> (#[trigger] state.env[name]).consistent(classes)
    &&& forall|i: int|
        0 <= i < state.annotations.len() ==> (#[trigger] state.annotations[i]).consistent(classes)
}

/// Accessors keep a consistent state consistent and give a consistent value.
pub proof fn lemma_apply_follows_consistent(start: Evaluated, follows: Seq<Follow>, classes: WellKnown)
    requires
        consistent_state(start.state, classes),
        start.value.consistent(classes),
    ensures
        consistent_state(apply_follows(start, follows).state, classes),
        apply_follows(start, follows).value.consistent(classes),
    decreases follows.len(),
{
    if follows.len() > 0 {
        lemma_apply_follows_consistent(start, follows.drop_last(), classes);
    }
}

/// Unary operators keep a consistent state consistent and give a
/// consistent value.
pub proof fn lemma_apply_unaries_consistent(start: Evaluated, ops: Seq<UnaryOp>, classes: WellKnown)
    requires
        consistent_state(start.state, classes),
        start.value.consistent(classes),
    ensures
        consistent_state(apply_unaries(start, ops).state, classes),
        apply_unaries(start, ops).value.consistent(classes),
    decreases ops.len(),
{
    if ops.len() > 0 {
        lemma_apply_unaries_consistent(start, ops.drop_first(), classes);
    }
}

/// An expression evaluated in a consistent state has a consistent value and
/// leaves a consistent state.
pub proof fn lemma_eval_expression_consistent(
    class: ClassInfo,
    state: State,
    expression: Expression,
    hint: Option<ClassId>,
    classes: WellKnown,
)
    requires
        consistent_state(state, classes),
    ensures
        consistent_state(eval_expression(class, state, expression, hint).state, classes),
        eval_expression(class, state, expression, hint).value.consistent(classes),
    decreases expression, 0nat,
{
    match expression {
        Expression::Base { unary, term, follow } => {
            let base_hint = if follow@.len() == 0 && unary@.len() == 0 {
                hint
            } else {
                None
            };
            let base = eval_term(class, state, term, base_hint);
            lemma_eval_term_consistent(class, state, term, base_hint, classes);
            lemma_apply_follows_consistent(base, follow@, classes);
            lemma_apply_unaries_consistent(apply_follows(base, follow@), unary@, classes);
        },
        Expression::BinaryOp { op, lhs, rhs } => {
            let left = eval_expression(class, state, *lhs, None);
            lemma_eval_expression_consistent(class, state, *lhs, None, classes);
            lemma_eval_expression_consistent(class, left.state, *rhs, None, classes);
        },
        Expression::AssignOp { op, lhs, rhs } => {
            let target = eval_expression(class, state, *lhs, None);
            lemma_eval_expression_consistent(class, state, *lhs, None, classes);
            lemma_eval_expression_consistent(class, target.state, *rhs, None, classes);
        },
        Expression::TernaryOp { cond, if_, else_ } => {
            let condition = eval_expression(class, state, *cond, None);
            let taken = eval_expression(class, condition.state, *if_, hint);
            lemma_eval_expression_consistent(class, state, *cond, None, classes);
            lemma_eval_expression_consistent(class, condition.state, *if_, hint, classes);
            lemma_eval_expression_consistent(class, taken.state, *else_, hint, classes);
        },
    }
}

/// A term evaluated in a consistent state has a consistent value and leaves
/// a consistent state.
pub proof fn lemma_eval_term_consistent(
    class: ClassInfo,
    state: State,
    term: Term,
    hint: Option<ClassId>,
    classes: WellKnown,
)
    requires
        consistent_state(state, classes),
    ensures
        consistent_state(eval_term(class, state, term, hint).state, classes),
        eval_term(class, state, term, hint).value.consistent(classes),
    decreases term, 0nat,
{
    match term {
        Term::Expr(inner) => {
            lemma_eval_expression_consistent(class, state, *inner, hint, classes);
        },
        Term::Call(name, args) => {
            lemma_eval_arguments_consistent(class, state, args@, args@.len(), classes);
        },
        _ => {},
    }
}

/// The arguments of a call, evaluated in a consistent state, leave a
/// consistent state.
pub proof fn lemma_eval_arguments_consistent(
    class: ClassInfo,
    state: State,
    args: Seq<Expression>,
    n: nat,
    classes: WellKnown,
)
    requires
        n <= args.len(),
        consistent_state(state, classes),
    ensures
        consistent_state(eval_arguments(class, state, args, n).state, classes),
    decreases args, n,
{
    if n > 0 {
        let before = eval_arguments(class, state, args, (n - 1) as nat);
        lemma_eval_arguments_consistent(class, state, args, (n - 1) as nat, classes);
        lemma_eval_expression_consistent(class, before.state, args[n - 1], None, classes);
    }
}

/// The parts of a `switch` case keep a consistent state consistent.
pub proof fn lemma_walk_case_parts_consistent(
    class: ClassInfo,
    state: State,
    parts: Seq<Case>,
    n: nat,
    classes: WellKnown,
)
    requires
        n <= parts.len(),
        consistent_state(state, classes),
    ensures
        consistent_state(walk_case_parts(class, state, parts, n), classes),
    decreases n,
{
    if n > 0 {
        let before = walk_case_parts(class, state, parts, (n - 1) as nat);
        lemma_walk_case_parts_consistent(class, state, parts, (n - 1) as nat, classes);
        match parts[n - 1] {
            Case::Exact(value) => {
                lemma_eval_expression_consistent(class, before, value, None, classes);
            },
            Case::Range(start, end) => {
                let low = eval_expression(class, before, start, None);
                lemma_eval_expression_consistent(class, before, start, None, classes);
                lemma_eval_expression_consistent(class, low.state, end, None, classes);
            },
        }
    }
}

/// A declaration keeps a consistent state consistent.
pub proof fn lemma_walk_var_consistent(
    class: ClassInfo,
    state: State,
    var: VarStatement,
    classes: WellKnown,
)
    requires
        consistent_state(state, classes),
    ensures
        consistent_state(walk_var(class, state, var), classes),
{
    let declared = match var.var_type {
        DeclaredType::Unresolved => state.report(
            Diagnostic::UnresolvedVarType { name: var.name },
        ),
        _ => state,
    };
    let hint = match var.var_type {
        DeclaredType::Class(target) => Some(target),
        _ => None,
    };
    if let Some(expression) = var.value {
        lemma_eval_expression_consistent(class, declared, expression, hint, classes);
    }
}

/// Declarations keep a consistent state consistent.
pub proof fn lemma_walk_vars_consistent(
    class: ClassInfo,
    state: State,
    vars: Seq<VarStatement>,
    n: nat,
    classes: WellKnown,
)
    requires
        n <= vars.len(),
        consistent_state(state, classes),
    ensures
        consistent_state(walk_vars(class, state, vars, n), classes),
    decreases n,
{
    if n > 0 {
        lemma_walk_vars_consistent(class, state, vars, (n - 1) as nat, classes);
        lemma_walk_var_consistent(
            class,
            walk_vars(class, state, vars, (n - 1) as nat),
            vars[n - 1],
            classes,
        );
    }
}

/// An expression that may be absent keeps a consistent state consistent.
pub proof fn lemma_eval_optional_consistent(
    class: ClassInfo,
    state: State,
    expression: Option<Expression>,
    classes: WellKnown,
)
    requires
        consistent_state(state, classes),
    ensures
        consistent_state(eval_optional(class, state, expression), classes),
{
    if let Some(expression) = expression {
        lemma_eval_expression_consistent(class, state, expression, None, classes);
    }
}

/// A statement keeps a consistent state consistent.
pub proof fn lemma_walk_statement_consistent(
    class: ClassInfo,
    state: State,
    statement: Statement,
    classes: WellKnown,
)
    requires
        consistent_state(state, classes),
    ensures
        consistent_state(walk_statement(class, state, statement), classes),
    decreases statement, 0nat,
{
    match statement {
        Statement::Expr(expression) => {
            lemma_eval_expression_consistent(class, state, expression, None, classes);
        },
        Statement::Return(value) => {
            lemma_eval_optional_consistent(class, state, value, classes);
        },
        Statement::Throw(expression) => {
            lemma_eval_expression_consistent(class, state, expression, None, classes);
        },
        Statement::While { condition, block } => {
            let tested = eval_expression(class, state, condition, None).state;
            lemma_eval_expression_consistent(class, state, condition, None, classes);
            lemma_walk_block_consistent(class, tested, block@, block@.len(), classes);
        },
        Statement::DoWhile { block, condition } => {
            let walked = walk_block(class, state, block@, block@.len());
            lemma_walk_block_consistent(class, state, block@, block@.len(), classes);
            lemma_eval_expression_consistent(class, walked, condition, None, classes);
        },
        Statement::If { arms, else_arm } => {
            let walked = walk_arms(class, state, arms@, arms@.len());
            lemma_walk_arms_consistent(class, state, arms@, arms@.len(), classes);
            if let Some(block) = else_arm {
                lemma_walk_block_consistent(class, walked, block@, block@.len(), classes);
            }
        },
        Statement::ForLoop { init, test, inc, block } => {
            let started = match init {
                Some(init) => walk_statement(class, state, *init),
                None => state,
            };
            if let Some(init) = init {
                lemma_walk_statement_consistent(class, state, *init, classes);
            }
            let tested = eval_optional(class, started, test);
            lemma_eval_optional_consistent(class, started, test, classes);
            let stepped = match inc {
                Some(inc) => walk_statement(class, tested, *inc),
                None => tested,
            };
            if let Some(inc) = inc {
                lemma_walk_statement_consistent(class, tested, *inc, classes);
            }
            lemma_walk_block_consistent(class, stepped, block@, block@.len(), classes);
        },
        Statement::ForList { in_list, block } => {
            let listed = eval_optional(class, state, in_list);
            lemma_eval_optional_consistent(class, state, in_list, classes);
            lemma_walk_block_consistent(class, listed, block@, block@.len(), classes);
        },
        Statement::ForRange { start, end, step, block } => {
            let low = eval_expression(class, state, start, None).state;
            lemma_eval_expression_consistent(class, state, start, None, classes);
            let high = eval_expression(class, low, end, None).state;
            lemma_eval_expression_consistent(class, low, end, None, classes);
            let stepped = eval_optional(class, high, step);
            lemma_eval_optional_consistent(class, high, step, classes);
            lemma_walk_block_consistent(class, stepped, block@, block@.len(), classes);
        },
        Statement::Var(var) => {
            lemma_walk_var_consistent(class, state, var, classes);
        },
        Statement::Vars(vars) => {
            lemma_walk_vars_consistent(class, state, vars@, vars@.len(), classes);
        },
        Statement::Setting => {},
        Statement::Spawn { delay, block } => {
            let delayed = eval_optional(class, state, delay);
            lemma_eval_optional_consistent(class, state, delay, classes);
            lemma_walk_block_consistent(class, delayed, block@, block@.len(), classes);
        },
        Statement::Switch { input, cases, default } => {
            let switched = eval_expression(class, state, input, None).state;
            lemma_eval_expression_consistent(class, state, input, None, classes);
            let walked = walk_cases(class, switched, cases@, cases@.len());
            lemma_walk_cases_consistent(class, switched, cases@, cases@.len(), classes);
            if let Some(block) = default {
                lemma_walk_block_consistent(class, walked, block@, block@.len(), classes);
            }
        },
        Statement::TryCatch { try_block, catch_block } => {
            let tried = walk_block(class, state, try_block@, try_block@.len());
            lemma_walk_block_consistent(class, state, try_block@, try_block@.len(), classes);
            lemma_walk_block_consistent(class, tried, catch_block@, catch_block@.len(), classes);
        },
        Statement::Continue => {},
        Statement::Break => {},
        Statement::Label { block } => {
            lemma_walk_block_consistent(class, state, block@, block@.len(), classes);
        },
        Statement::Del(expression) => {
            lemma_eval_expression_consistent(class, state, expression, None, classes);
        },
    }
}

/// The statements of a block keep a consistent state consistent.
pub proof fn lemma_walk_block_consistent(
    class: ClassInfo,
    state: State,
    block: Seq<Statement>,
    n: nat,
    classes: WellKnown,
)
    requires
        n <= block.len(),
        consistent_state(state, classes),
    ensures
        consistent_state(walk_block(class, state, block, n), classes),
    decreases block, n,
{
    if n > 0 {
        lemma_walk_block_consistent(class, state, block, (n - 1) as nat, classes);
        lemma_walk_statement_consistent(
            class,
            walk_block(class, state, block, (n - 1) as nat),
            block[n - 1],
            classes,
        );
    }
}

/// The arms of a conditional keep a consistent state consistent.
pub proof fn lemma_walk_arms_consistent(
    class: ClassInfo,
    state: State,
    arms: Seq<(Expression, Vec<Statement>)>,
    n: nat,
    classes: WellKnown,
)
    requires
        n <= arms.len(),
        consistent_state(state, classes),
    ensures
        consistent_state(walk_arms(class, state, arms, n), classes),
    decreases arms, n,
{
    if n > 0 {
        let before = walk_arms(class, state, arms, (n - 1) as nat);
        lemma_walk_arms_consistent(class, state, arms, (n - 1) as nat, classes);
        let tested = eval_expression(class, before, arms[n - 1].0, None).state;
        lemma_eval_expression_consistent(class, before, arms[n - 1].0, None, classes);
        lemma_walk_block_consistent(class, tested, arms[n - 1].1@, arms[n - 1].1@.len(), classes);
    }
}

/// The cases of a `switch` keep a consistent state consistent.
pub proof fn lemma_walk_cases_consistent(
    class: ClassInfo,
    state: State,
    cases: Seq<(Vec<Case>, Vec<Statement>)>,
    n: nat,
    classes: WellKnown,
)
    requires
        n <= cases.len(),
        consistent_state(state, classes),
    ensures
        consistent_state(walk_cases(class, state, cases, n), classes),
    decreases cases, n,
{
    if n > 0 {
        let before = walk_cases(class, state, cases, (n - 1) as nat);
        lemma_walk_cases_consistent(class, state, cases, (n - 1) as nat, classes);
        let matched = walk_case_parts(class, before, cases[n - 1].0@, cases[n - 1].0@.len());
        lemma_walk_case_parts_consistent(
            class,
            before,
            cases[n - 1].0@,
            cases[n - 1].0@.len(),
            classes,
        );
        lemma_walk_block_consistent(class, matched, cases[n - 1].1@, cases[n - 1].1@.len(), classes);
    }
}

/// Binding the parameters keeps a consistent state consistent.
pub proof fn lemma_bind_parameters_consistent(
    state: State,
    parameters: Seq<Parameter>,
    n: nat,
    classes: WellKnown,
)
    requires
        n <= parameters.len(),
        consistent_state(state, classes),
    ensures
        consistent_state(bind_parameters(state, parameters, n), classes),
    decreases n,
{
    if n > 0 {
        lemma_bind_parameters_consistent(state, parameters, (n - 1) as nat, classes);
    }
}

/// A constant only ever refines a shape and never contradicts it: in the
/// analysis of a procedure, every variable's value and every annotation
/// that carries a constant has that constant's shape.
pub proof fn law_constants_agree_with_shapes(
    classes: WellKnown,
    class: ClassInfo,
    parameters: Seq<Parameter>,
    block: Seq<Statement>,
)
    ensures
        consistent_state(
            run_procedure(class, initial_state(classes, class), parameters, block),
            classes,
        ),
{
    let start = initial_state(classes, class);
    assert(consistent_state(start, classes));
    lemma_bind_parameters_consistent(start, parameters, parameters.len(), classes);
    lemma_walk_block_consistent(
        class,
        bind_parameters(start, parameters, parameters.len()),
        block,
        block.len(),
        classes,
    );
}

/// The shape of a constant depends on its kind alone: two constants of one
/// kind have one shape, whatever they hold.
pub proof fn law_shape_depends_on_kind(classes: WellKnown, a: Constant, b: Constant)
    requires
        a.kind() == b.kind(),
    ensures
        shape_of(classes, a) == shape_of(classes, b),
{
}

/// Logical negation gives a number, and reports nothing, whatever it is
/// applied to.
pub proof fn law_negation_gives_number(operand: Analysis)
    ensures
        unary_rule(operand, UnaryOp::Not) == (Verdict {
            value: of_shape(Type::Number),
            diagnostic: None,
        }),
{
}

/// A hint reaches a term that stands alone: a `new` that names no class,
/// with no accessor and no operator around it, constructs an instance of
/// the class that is expected, and reports nothing.
pub proof fn law_hint_reaches_bare_term(
    class: ClassInfo,
    state: State,
    expression: Expression,
    expected: ClassId,
)
    requires
        expression matches Expression::Base { unary, term, follow } && unary@.len() == 0
            && follow@.len() == 0 && term == (Term::New { type_: NewType::Implicit }),
    ensures
        eval_expression(class, state, expression, Some(expected)) == (Evaluated {
            state: state.annotate(of_shape(Type::Instance(expected))),
            value: of_shape(Type::Instance(expected)),
        }),
{
    let bare = Term::New { type_: NewType::Implicit };
    assert(eval_term(class, state, bare, Some(expected)) == state.yields(
        Type::Instance(expected),
    ));
}

/// A declaration hands the class of its declared type to its initializer:
/// a variable that is declared with a class and initialized by a bare `new`
/// is bound to an instance of that class.
pub proof fn law_declared_type_is_the_hint(
    class: ClassInfo,
    state: State,
    var: VarStatement,
    declared: ClassId,
)
    requires
        var.var_type == DeclaredType::Class(declared),
        var.value matches Some(Expression::Base { unary, term, follow }) && unary@.len() == 0
            && follow@.len() == 0 && term == (Term::New { type_: NewType::Implicit }),
    ensures
        walk_var(class, state, var) == state.annotate(of_shape(Type::Instance(declared))).bind(
            var.name@,
            of_shape(Type::Instance(declared)),
        ),
{
    law_hint_reaches_bare_term(class, state, var.value->0, declared);
}

/// A hint does not cross an accessor or a unary operator: an expression
/// with either around its term is evaluated as if nothing were expected.
pub proof fn law_hint_stops_at_accessors_and_operators(
    class: ClassInfo,
    state: State,
    expression: Expression,
    hint: Option<ClassId>,
)
    requires
        expression matches Expression::Base { unary, term, follow } && (unary@.len() > 0
            || follow@.len() > 0),
    ensures
        eval_expression(class, state, expression, hint) == eval_expression(
            class,
            state,
            expression,
            None,
        ),
{
}

/// An expression that ends in an accessor, with no operator around it, is
/// unconstrained, whatever is expected of it.
pub proof fn law_accessors_are_unconstrained(
    class: ClassInfo,
    state: State,
    expression: Expression,
    hint: Option<ClassId>,
)
    requires
        expression matches Expression::Base { unary, term, follow } && unary@.len() == 0
            && follow@.len() > 0,
    ensures
        eval_expression(class, state, expression, hint).value == of_shape(Type::Any),
{
}

/// Variables shadow fields: an identifier that is bound in the environment
/// has the value it is bound to, whatever the class declares.
pub proof fn law_variables_shadow_fields(class: ClassInfo, state: State, name: String)
    requires
        state.env.contains_key(name@),
    ensures
        eval_ident(class, state, name) == (Evaluated { state, value: state.env[name@] }),
        eval_term(class, state, Term::Ident(name), None) == (Evaluated {
            state,
            value: state.env[name@],
        }),
{
}

/// A declaration binds its variable to the value of its initializer, or to
/// null where it has none, whatever the variable was bound to before; no
/// other variable changes.
pub proof fn law_declaration_binds_its_value(class: ClassInfo, state: State, var: VarStatement)
    ensures
        walk_var(class, state, var).env == state.env.insert(
            var.name@,
            match var.value {
                Some(expression) => eval_expression(
                    class,
                    match var.var_type {
                        DeclaredType::Unresolved => state.report(
                            Diagnostic::UnresolvedVarType { name: var.name },
                        ),
                        _ => state,
                    },
                    expression,
                    match var.var_type {
                        DeclaredType::Class(target) => Some(target),
                        _ => None,
                    },
                ).value,
                None => Analysis { ty: Type::Null, value: Some(Constant::Null) },
            },
        ),
{
    let declared = match var.var_type {
        DeclaredType::Unresolved => state.report(Diagnostic::UnresolvedVarType { name: var.name }),
        _ => state,
    };
    let hint = match var.var_type {
        DeclaredType::Class(target) => Some(target),
        _ => None,
    };
    if let Some(expression) = var.value {
        lemma_eval_expression(class, declared, expression, hint);
    }
}

/// An identifier that is neither a variable nor a field is reported once,
/// and is unconstrained.
pub proof fn law_undeclared_identifier_is_reported_once(
    class: ClassInfo,
    state: State,
    expression: Expression,
    name: String,
    hint: Option<ClassId>,
)
    requires
        expression matches Expression::Base { unary, term, follow } && unary@.len() == 0
            && follow@.len() == 0 && term == Term::Ident(name),
        !state.env.contains_key(name@),
        declared_field(class.fields@, name@) is None,
    ensures
        eval_expression(class, state, expression, hint) == (Evaluated {
            state: state.report(Diagnostic::UnresolvedIdent { name }).annotate(
                of_shape(Type::Any),
            ),
            value: of_shape(Type::Any),
        }),
{
    assert(eval_term(class, state, Term::Ident(name), hint) == state.gives_up(
        Diagnostic::UnresolvedIdent { name },
    ));
}

} // verus!
