//! How many expressions a piece of syntax holds.

use vstd::prelude::*;
use crate::ast::{Case, Expression, Statement, Term, VarStatement};

verus! {

/// The number of expressions in an expression: itself and those inside it.
pub open spec fn expression_nodes(expression: Expression) -> nat
    decreases expression, 0nat,
{
    1 + match expression {
        Expression::Base { unary, term, follow } => term_nodes(term),
        Expression::BinaryOp { op, lhs, rhs } => expression_nodes(*lhs) + expression_nodes(*rhs),
        Expression::AssignOp { op, lhs, rhs } => expression_nodes(*lhs) + expression_nodes(*rhs),
        Expression::TernaryOp { cond, if_, else_ } => expression_nodes(*cond) + expression_nodes(
            *if_,
        ) + expression_nodes(*else_),
    }
}

/// The number of expressions inside a term.
pub open spec fn term_nodes(term: Term) -> nat
    decreases term, 0nat,
{
    match term {
        Term::Expr(inner) => expression_nodes(*inner),
        Term::Call(name, args) => argument_nodes(args@, args@.len()),
        _ => 0,
    }
}

/// The number of expressions in the first `n` arguments of a call.
pub open spec fn argument_nodes(args: Seq<Expression>, n: nat) -> nat
    decreases args, n,
{
    if n == 0 || n > args.len() {
        0
    } else {
        argument_nodes(args, (n - 1) as nat) + expression_nodes(args[n - 1])
    }
}

/// The number of expressions in an expression that may be absent.
pub open spec fn optional_nodes(expression: Option<Expression>) -> nat {
    match expression {
        Some(expression) => expression_nodes(expression),
        None => 0,
    }
}

/// The number of expressions in the first `n` parts of a `switch` case.
pub open spec fn case_part_nodes(parts: Seq<Case>, n: nat) -> nat
    decreases n,
{
    if n == 0 || n > parts.len() {
        0
    } else {
        case_part_nodes(parts, (n - 1) as nat) + match parts[n - 1] {
            Case::Exact(value) => expression_nodes(value),
            Case::Range(start, end) => expression_nodes(start) + expression_nodes(end),
        }
    }
}

/// The number of expressions in a variable declaration.
pub open spec fn var_nodes(var: VarStatement) -> nat {
    optional_nodes(var.value)
}

/// The number of expressions in the first `n` declarations of a list.
pub open spec fn vars_nodes(vars: Seq<VarStatement>, n: nat) -> nat
    decreases n,
{
    if n == 0 || n > vars.len() {
        0
    } else {
        vars_nodes(vars, (n - 1) as nat) + var_nodes(vars[n - 1])
    }
}

/// The number of expressions in a statement.
pub open spec fn statement_nodes(statement: Statement) -> nat
    decreases statement, 0nat,
{
    match statement {
        Statement::Expr(expression) => expression_nodes(expression),
        Statement::Return(value) => optional_nodes(value),
        Statement::Throw(expression) => expression_nodes(expression),
        Statement::While { condition, block } => expression_nodes(condition) + block_nodes(
            block@,
            block@.len(),
        ),
        Statement::DoWhile { block, condition } => block_nodes(block@, block@.len())
            + expression_nodes(condition),
        Statement::If { arms, else_arm } => arm_nodes(arms@, arms@.len()) + match else_arm {
            Some(block) => block_nodes(block@, block@.len()),
            None => 0,
        },
        Statement::ForLoop { init, test, inc, block } => (match init {
            Some(init) => statement_nodes(*init),
            None => 0,
        }) + optional_nodes(test) + (match inc {
            Some(inc) => statement_nodes(*inc),
            None => 0,
        }) + block_nodes(block@, block@.len()),
        Statement::ForList { in_list, block } => optional_nodes(in_list) + block_nodes(
            block@,
            block@.len(),
        ),
        Statement::ForRange { start, end, step, block } => expression_nodes(start)
            + expression_nodes(end) + optional_nodes(step) + block_nodes(block@, block@.len()),
        Statement::Var(var) => var_nodes(var),
        Statement::Vars(vars) => vars_nodes(vars@, vars@.len()),
        Statement::Setting => 0,
        Statement::Spawn { delay, block } => optional_nodes(delay) + block_nodes(
            block@,
            block@.len(),
        ),
        Statement::Switch { input, cases, default } => expression_nodes(input) + case_nodes(
            cases@,
            cases@.len(),
        ) + match default {
            Some(block) => block_nodes(block@, block@.len()),
            None => 0,
        },
        Statement::TryCatch { try_block, catch_block } => block_nodes(try_block@, try_block@.len())
            + block_nodes(catch_block@, catch_block@.len()),
        Statement::Continue => 0,
        Statement::Break => 0,
        Statement::Label { block } => block_nodes(block@, block@.len()),
        Statement::Del(expression) => expression_nodes(expression),
    }
}

/// The number of expressions in the first `n` statements of a block.
pub open spec fn block_nodes(block: Seq<Statement>, n: nat) -> nat
    decreases block, n,
{
    if n == 0 || n > block.len() {
        0
    } else {
        block_nodes(block, (n - 1) as nat) + statement_nodes(block[n - 1])
    }
}

/// The number of expressions in the first `n` arms of a conditional.
pub open spec fn arm_nodes(arms: Seq<(Expression, Vec<Statement>)>, n: nat) -> nat
    decreases arms, n,
{
    if n == 0 || n > arms.len() {
        0
    } else {
        arm_nodes(arms, (n - 1) as nat) + expression_nodes(arms[n - 1].0) + block_nodes(
            arms[n - 1].1@,
            arms[n - 1].1@.len(),
        )
    }
}

/// The number of expressions in the first `n` cases of a `switch`.
pub open spec fn case_nodes(cases: Seq<(Vec<Case>, Vec<Statement>)>, n: nat) -> nat
    decreases cases, n,
{
    if n == 0 || n > cases.len() {
        0
    } else {
        case_nodes(cases, (n - 1) as nat) + case_part_nodes(
            cases[n - 1].0@,
            cases[n - 1].0@.len(),
        ) + block_nodes(cases[n - 1].1@, cases[n - 1].1@.len())
    }
}

} // verus!
