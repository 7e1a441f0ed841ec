//! The walk over a procedure body.

use vstd::prelude::*;
use crate::analysis::Analysis;
use crate::ast::{BinaryOp, Case, DeclaredType, Expression, Follow, IndexKind, NewType};
use crate::ast::{Statement, Term, UnaryOp, VarStatement};
use crate::class::{ClassInfo, ProcValue};
use crate::diagnostic::Diagnostic;
use crate::environment::Environment;
use crate::lattice::{ClassId, Constant, Type, WellKnown};
use crate::model::{Evaluated, EvaluatedList, State};
use crate::model::{bind_parameters, initial_state, run_procedure};
use crate::model::{apply_follows, apply_unaries, eval_arguments, eval_expression, eval_term};
use crate::model::{walk_arms, walk_block, walk_case_parts, walk_cases, walk_statement, walk_var, walk_vars};
use crate::rules::{binary_rule, call_rule, follow_rule, unary_rule};

verus! {

/// The analysis of one procedure: the class that owns it, its variables,
/// and what the walk has found so far.
pub struct ProcAnalyzer<'o> {
    classes: WellKnown,
    ty: &'o ClassInfo,
    local_vars: Environment,
    diagnostics: Vec<Diagnostic>,
    annotations: Vec<Analysis>,
}

impl<'o> View for ProcAnalyzer<'o> {
    type V = State;

    closed spec fn view(&self) -> State {
        State {
            env: self.local_vars@,
            diagnostics: self.diagnostics@,
            annotations: self.annotations@,
        }
    }
}

impl<'o> ProcAnalyzer<'o> {
    /// The class that owns the procedure.
    pub closed spec fn class(&self) -> ClassInfo {
        *self.ty
    }

    /// The builtin classes.
    pub closed spec fn classes(&self) -> WellKnown {
        self.classes
    }

    /// Starts the analysis of a procedure of the class `ty`.
    pub fn new(classes: WellKnown, ty: &'o ClassInfo) -> (analyzer: Self)
        ensures
            analyzer.class() == *ty,
            analyzer.classes() == classes,
            analyzer@ == initial_state(classes, *ty),
    {
        let mut local_vars = Environment::new();
        local_vars.insert(".".to_owned(), Analysis::empty());
        local_vars.insert("args".to_owned(), Analysis::from(Type::List(None)));
        local_vars.insert("usr".to_owned(), Analysis::from(Type::Instance(classes.mob)));
        if !ty.is_root {
            local_vars.insert("src".to_owned(), Analysis::from(Type::Instance(ty.id)));
        }
        local_vars.insert("global".to_owned(), Analysis::from(Type::Global));

        ProcAnalyzer { classes, ty, local_vars, diagnostics: Vec::new(), annotations: Vec::new() }
    }

    /// The variables and what is known of each.
    pub fn local_vars(&self) -> (env: &Environment)
        ensures
            env@ == self@.env,
    {
        &self.local_vars
    }

    /// What has been reported so far.
    pub fn diagnostics(&self) -> (diagnostics: &Vec<Diagnostic>)
        ensures
            diagnostics@ == self@.diagnostics,
    {
        &self.diagnostics
    }

    /// The values found so far, one for each expression evaluated.
    pub fn annotations(&self) -> (annotations: &Vec<Analysis>)
        ensures
            annotations@ == self@.annotations,
    {
        &self.annotations
    }

    /// Analyzes the body `block` of the procedure `proc`: binds each
    /// parameter, unconstrained, and walks the body.
    pub fn run(&mut self, proc: &ProcValue, block: &Vec<Statement>)
        ensures
            final(self).class() == old(self).class(),
            final(self).classes() == old(self).classes(),
            final(self)@ == run_procedure(old(self).class(), old(self)@, proc.parameters@, block@),
    {
        let ghost class = self.class();
        let ghost classes = self.classes();
        let ghost start = self@;
        let mut i: usize = 0;
        while i < proc.parameters.len()
            invariant
                i <= proc.parameters@.len(),
                self.class() == class,
                self.classes() == classes,
                self@ == bind_parameters(start, proc.parameters@, i as nat),
            decreases proc.parameters@.len() - i,
        {
            self.local_vars.insert(proc.parameters[i].name.clone(), Analysis::empty());
            i += 1;
        }
        self.visit_block(block);
    }

    /// Reports that a value was given up, and gives the unconstrained value.
    fn give_up(&mut self, diagnostic: Diagnostic) -> (value: Analysis)
        ensures
            final(self).class() == old(self).class(),
            final(self).classes() == old(self).classes(),
            (Evaluated { state: final(self)@, value }) == old(self)@.gives_up(diagnostic),
    {
        self.diagnostics.push(diagnostic);
        Analysis::empty()
    }

    /// The value reached from `lhs` through the accessor `rhs`.
    pub fn visit_follow(&mut self, lhs: Analysis, rhs: &Follow) -> (value: Analysis)
        ensures
            final(self).class() == old(self).class(),
            final(self).classes() == old(self).classes(),
            (Evaluated { state: final(self)@, value }) == old(self)@.conclude(follow_rule(lhs, *rhs)),
    {
        match rhs {
            Follow::Field(IndexKind::Colon, _) => Analysis::empty(),
            Follow::Field(IndexKind::SafeColon, _) => Analysis::empty(),
            Follow::Call(IndexKind::Colon, _) => Analysis::empty(),
            Follow::Call(IndexKind::SafeColon, _) => Analysis::empty(),
            Follow::Index => self.give_up(Diagnostic::UnhandledIndex),
            Follow::Field(_, name) => self.give_up(Diagnostic::UnhandledField { name: name.clone() }),
            Follow::Call(_, name) => self.give_up(Diagnostic::UnhandledMethod { name: name.clone() }),
        }
    }

    /// The value of the unary operator `op` applied to `rhs`.
    pub fn visit_unary(&mut self, rhs: Analysis, op: &UnaryOp) -> (value: Analysis)
        ensures
            final(self).class() == old(self).class(),
            final(self).classes() == old(self).classes(),
            (Evaluated { state: final(self)@, value }) == old(self)@.conclude(unary_rule(rhs, *op)),
    {
        match (op, rhs.ty) {
            // `!x` tests whether `x` is true and negates that: it gives 1 or 0.
            (UnaryOp::Not, _) => Analysis::from(Type::Number),
            (UnaryOp::Neg, Type::Number) => Analysis::from(Type::Number),
            (UnaryOp::BitNot, Type::Number) => Analysis::from(Type::Number),
            (UnaryOp::PreIncr, Type::Number) => Analysis::from(Type::Number),
            (UnaryOp::PostIncr, Type::Number) => Analysis::from(Type::Number),
            (UnaryOp::PreDecr, Type::Number) => Analysis::from(Type::Number),
            (UnaryOp::PostDecr, Type::Number) => Analysis::from(Type::Number),
            (_, Type::Any) => Analysis::empty(),
            _ => self.give_up(Diagnostic::UnhandledUnary { op: *op, operand: rhs.ty }),
        }
    }

    /// The value of the binary operator `op` applied to `lhs` and `rhs`.
    pub fn visit_binary(&mut self, lhs: Analysis, rhs: Analysis, op: BinaryOp) -> (value: Analysis)
        ensures
            final(self).class() == old(self).class(),
            final(self).classes() == old(self).classes(),
            (Evaluated { state: final(self)@, value }) == old(self)@.conclude(binary_rule(lhs, rhs, op)),
    {
        self.give_up(Diagnostic::UnhandledBinary { op })
    }

    /// The value of a call of the procedure `proc`, looked up from the
    /// class `src`, on the arguments `args`.
    pub fn visit_call(&mut self, src: ClassId, proc: &String, args: &Vec<Analysis>) -> (value: Analysis)
        ensures
            final(self).class() == old(self).class(),
            final(self).classes() == old(self).classes(),
            (Evaluated { state: final(self)@, value }) == old(self)@.conclude(
                call_rule(src, *proc, args@),
            ),
    {
        self.give_up(Diagnostic::UnhandledCall { name: proc.clone() })
    }

    /// Evaluates an expression, where a value of class `type_hint` is
    /// expected if there is a hint. The hint reaches the term only where
    /// neither an accessor nor a unary operator stands around it. The value
    /// is recorded as the expression's annotation.
    pub fn visit_expression(&mut self, expression: &Expression, type_hint: Option<ClassId>) -> (value:
        Analysis)
        ensures
            final(self).class() == old(self).class(),
            final(self).classes() == old(self).classes(),
            (Evaluated { state: final(self)@, value }) == eval_expression(
                old(self).class(),
                old(self)@,
                *expression,
                type_hint,
            ),
        decreases expression, 0nat,
    {
        let ghost class = self.class();
        let ghost classes = self.classes();
        let ghost start = self@;
        let value = match expression {
            Expression::Base { unary, term, follow } => {
                let base_type_hint = if follow.len() == 0 && unary.len() == 0 {
                    type_hint
                } else {
                    None
                };
                let mut ty = self.visit_term(term, base_type_hint);
                let ghost base = Evaluated { state: self@, value: ty };
                let mut i: usize = 0;
                while i < follow.len()
                    invariant
                        i <= follow@.len(),
                        self.class() == class,
                        self.classes() == classes,
                        (Evaluated { state: self@, value: ty }) == apply_follows(
                            base,
                            follow@.take(i as int),
                        ),
                    decreases follow@.len() - i,
                {
                    assert(follow@.take(i + 1).drop_last() =~= follow@.take(i as int));
                    ty = self.visit_follow(ty, &follow[i]);
                    i += 1;
                }
                assert(follow@.take(i as int) =~= follow@);
                let ghost followed = Evaluated { state: self@, value: ty };
                let mut j: usize = unary.len();
                while j > 0
                    invariant
                        j <= unary@.len(),
                        self.class() == class,
                        self.classes() == classes,
                        (Evaluated { state: self@, value: ty }) == apply_unaries(
                            followed,
                            unary@.skip(j as int),
                        ),
                    decreases j,
                {
                    j -= 1;
                    assert(unary@.skip(j as int).drop_first() =~= unary@.skip(j + 1));
                    ty = self.visit_unary(ty, &unary[j]);
                }
                assert(unary@.skip(0) =~= unary@);
                ty
            },
            Expression::BinaryOp { op, lhs, rhs } => {
                let lty = self.visit_expression(lhs, None);
                let rty = self.visit_expression(rhs, None);
                self.visit_binary(lty, rty, *op)
            },
            Expression::AssignOp { lhs, rhs, .. } => {
                self.visit_expression(lhs, None);
                self.visit_expression(rhs, None)
            },
            Expression::TernaryOp { cond, if_, else_ } => {
                self.visit_expression(cond, None);
                let ty = self.visit_expression(if_, type_hint);
                self.visit_expression(else_, type_hint);
                ty
            },
        };
        self.annotations.push(value.clone());
        value
    }

    /// Evaluates the arguments of a call, each without a hint, in order.
    fn visit_arguments(&mut self, args: &Vec<Expression>) -> (values: Vec<Analysis>)
        ensures
            final(self).class() == old(self).class(),
            final(self).classes() == old(self).classes(),
            (EvaluatedList { state: final(self)@, values: values@ }) == eval_arguments(
                old(self).class(),
                old(self)@,
                args@,
                args@.len(),
            ),
        decreases args, 0nat,
    {
        let ghost class = self.class();
        let ghost classes = self.classes();
        let ghost start = self@;
        let mut values: Vec<Analysis> = Vec::new();
        let mut i: usize = 0;
        while i < args.len()
            invariant
                i <= args@.len(),
                self.class() == class,
                self.classes() == classes,
                (EvaluatedList { state: self@, values: values@ }) == eval_arguments(
                    class,
                    start,
                    args@,
                    i as nat,
                ),
            decreases args@.len() - i,
        {
            let value = self.visit_expression(&args[i], None);
            values.push(value);
            i += 1;
        }
        values
    }

    /// Evaluates a term, where a value of class `type_hint` is expected if
    /// there is a hint.
    pub fn visit_term(&mut self, term: &Term, type_hint: Option<ClassId>) -> (value: Analysis)
        ensures
            final(self).class() == old(self).class(),
            final(self).classes() == old(self).classes(),
            (Evaluated { state: final(self)@, value }) == eval_term(
                old(self).class(),
                old(self)@,
                *term,
                type_hint,
            ),
        decreases term, 0nat,
    {
        match term {
            Term::Null => Analysis::null(),
            Term::New { type_ } => match type_ {
                NewType::Implicit => if let Some(hint) = type_hint {
                    Analysis::from(Type::Instance(hint))
                } else {
                    self.give_up(Diagnostic::NewWithoutHint)
                },
                NewType::Ident(_) => Analysis::from(Type::Any),
                NewType::Prefab(prefab) => {
                    if let Some(ty) = prefab.target {
                        Analysis::from(Type::Instance(ty))
                    } else {
                        self.give_up(Diagnostic::UnresolvedPath)
                    }
                },
            },
            Term::List => Analysis::from(Type::List(None)),
            Term::Prefab(prefab) => {
                if let Some(ty) = prefab.target {
                    Analysis::from(Type::Typepath(ty))
                } else {
                    self.give_up(Diagnostic::UnresolvedPath)
                }
            },
            Term::String(text) => Analysis::from_value(&self.classes, Constant::String(text.clone())),
            Term::Resource(text) => Analysis::from_value(
                &self.classes,
                Constant::Resource(text.clone()),
            ),
            Term::Int(number) => Analysis::from_value(&self.classes, Constant::Int(*number)),
            Term::Float(number) => Analysis::from_value(&self.classes, Constant::Float(*number)),
            Term::Expr(expr) => self.visit_expression(expr, type_hint),
            Term::InterpString => Analysis::from(Type::String),
            Term::Call(unscoped_name, args) => {
                let src = self.ty.id;
                let args = self.visit_arguments(args);
                self.visit_call(src, unscoped_name, &args)
            },
            Term::Ident(unscoped_name) => {
                if let Some(var) = self.local_vars.get(unscoped_name) {
                    var.clone()
                } else if let Some(decl) = self.ty.get_var_declaration(unscoped_name) {
                    if let DeclaredType::Class(ty) = decl {
                        Analysis::from(Type::Instance(ty))
                    } else {
                        self.give_up(Diagnostic::UnresolvedFieldType { name: unscoped_name.clone() })
                    }
                } else {
                    self.give_up(Diagnostic::UnresolvedIdent { name: unscoped_name.clone() })
                }
            },
            _ => self.give_up(Diagnostic::UnhandledTerm),
        }
    }

    /// Walks the statements of a block, in order.
    pub fn visit_block(&mut self, block: &Vec<Statement>)
        ensures
            final(self).class() == old(self).class(),
            final(self).classes() == old(self).classes(),
            final(self)@ == walk_block(old(self).class(), old(self)@, block@, block@.len()),
        decreases block, 0nat,
    {
        let ghost class = self.class();
        let ghost classes = self.classes();
        let ghost start = self@;
        let mut i: usize = 0;
        while i < block.len()
            invariant
                i <= block@.len(),
                self.class() == class,
                self.classes() == classes,
                self@ == walk_block(class, start, block@, i as nat),
            decreases block@.len() - i,
        {
            self.visit_statement(&block[i]);
            i += 1;
        }
    }

    /// Walks one statement: every expression in it is evaluated and every
    /// block in it is walked, once and in the order of the source.
    #[verifier::loop_isolation(false)]
    pub fn visit_statement(&mut self, statement: &Statement)
        ensures
            final(self).class() == old(self).class(),
            final(self).classes() == old(self).classes(),
            final(self)@ == walk_statement(old(self).class(), old(self)@, *statement),
        decreases statement, 0nat,
    {
        let ghost class = self.class();
        let ghost classes = self.classes();
        match statement {
            Statement::Expr(expr) => {
                self.visit_expression(expr, None);
            },
            Statement::Return(Some(expr)) => {
                self.visit_expression(expr, None);
            },
            Statement::Return(None) => {},
            Statement::Throw(expr) => {
                self.visit_expression(expr, None);
            },
            Statement::While { condition, block } => {
                self.visit_expression(condition, None);
                self.visit_block(block);
            },
            Statement::DoWhile { block, condition } => {
                self.visit_block(block);
                self.visit_expression(condition, None);
            },
            Statement::If { arms, else_arm } => {
                let ghost start = self@;
                let mut i: usize = 0;
                while i < arms.len()
                    invariant
                        i <= arms@.len(),
                        self.class() == class,
                        self.classes() == classes,
                        self@ == walk_arms(class, start, arms@, i as nat),
                    decreases arms@.len() - i,
                {
                    let (condition, block) = &arms[i];
                    self.visit_expression(condition, None);
                    self.visit_block(block);
                    i += 1;
                }
                if let Some(else_arm) = else_arm {
                    self.visit_block(else_arm);
                }
            },
            Statement::ForLoop { init, test, inc, block } => {
                if let Some(init) = init {
                    self.visit_statement(init);
                }
                if let Some(test) = test {
                    self.visit_expression(test, None);
                }
                if let Some(inc) = inc {
                    self.visit_statement(inc);
                }
                self.visit_block(block);
            },
            Statement::ForList { in_list, block } => {
                if let Some(in_list) = in_list {
                    self.visit_expression(in_list, None);
                }
                self.visit_block(block);
            },
            Statement::ForRange { start, end, step, block } => {
                self.visit_expression(start, None);
                self.visit_expression(end, None);
                if let Some(step) = step {
                    self.visit_expression(step, None);
                }
                self.visit_block(block);
            },
            Statement::Var(var) => self.visit_var(var),
            Statement::Vars(vars) => {
                let ghost start = self@;
                let mut i: usize = 0;
                while i < vars.len()
                    invariant
                        i <= vars@.len(),
                        self.class() == class,
                        self.classes() == classes,
                        self@ == walk_vars(class, start, vars@, i as nat),
                    decreases vars@.len() - i,
                {
                    self.visit_var(&vars[i]);
                    i += 1;
                }
            },
            Statement::Setting => {},
            Statement::Spawn { delay, block } => {
                if let Some(delay) = delay {
                    self.visit_expression(delay, None);
                }
                self.visit_block(block);
            },
            Statement::Switch { input, cases, default } => {
                self.visit_expression(input, None);
                let ghost start = self@;
                let mut i: usize = 0;
                while i < cases.len()
                    invariant
                        i <= cases@.len(),
                        self.class() == class,
                        self.classes() == classes,
                        self@ == walk_cases(class, start, cases@, i as nat),
                    decreases cases@.len() - i,
                {
                    let (case, block) = &cases[i];
                    let ghost before = self@;
                    let mut j: usize = 0;
                    while j < case.len()
                        invariant
                            i < cases@.len(),
                            j <= case@.len(),
                            self.class() == class,
                            self.classes() == classes,
                            self@ == walk_case_parts(class, before, case@, j as nat),
                        decreases case@.len() - j,
                    {
                        match &case[j] {
                            Case::Exact(expr) => {
                                self.visit_expression(expr, None);
                            },
                            Case::Range(start, end) => {
                                self.visit_expression(start, None);
                                self.visit_expression(end, None);
                            },
                        }
                        j += 1;
                    }
                    self.visit_block(block);
                    i += 1;
                }
                if let Some(default) = default {
                    self.visit_block(default);
                }
            },
            Statement::TryCatch { try_block, catch_block } => {
                self.visit_block(try_block);
                self.visit_block(catch_block);
            },
            Statement::Continue => {},
            Statement::Break => {},
            Statement::Label { block } => self.visit_block(block),
            Statement::Del(expr) => {
                self.visit_expression(expr, None);
            },
        }
    }

    /// Walks a variable declaration. The declared type, where it names a
    /// class, is the hint for the initializer; a variable without an
    /// initializer is null. The variable is bound in place of any earlier
    /// binding of its name.
    pub fn visit_var(&mut self, var: &VarStatement)
        ensures
            final(self).class() == old(self).class(),
            final(self).classes() == old(self).classes(),
            final(self)@ == walk_var(old(self).class(), old(self)@, *var),
    {
        // The type that the initializer is expected to have.
        let type_hint = match var.var_type {
            DeclaredType::Untyped => None,
            DeclaredType::Class(ty) => Some(ty),
            DeclaredType::Unresolved => {
                self.diagnostics.push(Diagnostic::UnresolvedVarType { name: var.name.clone() });
                None
            },
        };

        // The value of the initializer, if there is one.
        let val = match &var.value {
            Some(expr) => self.visit_expression(expr, type_hint),
            None => Analysis::null(),
        };

        self.local_vars.insert(var.name.clone(), val);
    }
}

} // verus!
