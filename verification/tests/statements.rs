use dreamchecker::analysis::Analysis;
use dreamchecker::analyzer::ProcAnalyzer;
use dreamchecker::ast::{BinaryOp, Case, DeclaredType, Expression, Follow, IndexKind, NewType};
use dreamchecker::ast::{Statement, Term, UnaryOp, VarStatement};
use dreamchecker::class::{ClassInfo, Code, FieldDecl, Parameter, ProcValue};
use dreamchecker::diagnostic::Diagnostic;
use dreamchecker::lattice::{ClassId, Constant, Type, WellKnown};

const MOB: ClassId = ClassId(1);
const FOO: ClassId = ClassId(7);
const ABC: ClassId = ClassId(12);
const OWNER: ClassId = ClassId(9);

fn classes() -> WellKnown {
    WellKnown { mob: MOB, icon: ClassId(2), matrix: ClassId(3), sound: ClassId(4) }
}

fn owner() -> ClassInfo {
    ClassInfo {
        id: OWNER,
        is_root: false,
        fields: vec![FieldDecl { name: "n".to_owned(), var_type: DeclaredType::Class(FOO) }],
    }
}

fn base(term: Term) -> Expression {
    Expression::Base { unary: vec![], term, follow: vec![] }
}

fn ident(name: &str) -> Expression {
    base(Term::Ident(name.to_owned()))
}

fn number(value: i32) -> Expression {
    base(Term::Int(value))
}

fn text(value: &str) -> Expression {
    base(Term::String(value.to_owned()))
}

fn shape(ty: Type) -> Analysis {
    Analysis { ty, value: None }
}

fn var(name: &str, var_type: DeclaredType, value: Option<Expression>) -> VarStatement {
    VarStatement { var_type, name: name.to_owned(), value }
}

fn unresolved(name: &str) -> Diagnostic {
    Diagnostic::UnresolvedIdent { name: name.to_owned() }
}

fn no_params() -> ProcValue {
    ProcValue { parameters: vec![], code: Code::Builtin }
}

fn lookup(analyzer: &ProcAnalyzer, name: &str) -> Option<Analysis> {
    analyzer.local_vars().get(&name.to_owned()).cloned()
}

#[test]
fn declaration_hands_its_class_to_a_bare_new() {
    // var/A/B/C/x = new()
    let class = owner();
    let mut analyzer = ProcAnalyzer::new(classes(), &class);
    let declaration =
        var("x", DeclaredType::Class(ABC), Some(base(Term::New { type_: NewType::Implicit })));
    analyzer.visit_var(&declaration);
    assert_eq!(analyzer.annotations(), &vec![shape(Type::Instance(ABC))]);
    assert_eq!(lookup(&analyzer, "x"), Some(shape(Type::Instance(ABC))));
    assert!(analyzer.diagnostics().is_empty());
}

#[test]
fn declared_class_does_not_type_a_field_access() {
    // var/A/B/C/x = y.field
    let class = owner();
    let mut analyzer = ProcAnalyzer::new(classes(), &class);
    analyzer.visit_var(&var("y", DeclaredType::Class(FOO), Some(base(Term::New { type_: NewType::Implicit }))));
    let access = Expression::Base {
        unary: vec![],
        term: Term::Ident("y".to_owned()),
        follow: vec![Follow::Field(IndexKind::Dot, "field".to_owned())],
    };
    analyzer.visit_var(&var("x", DeclaredType::Class(ABC), Some(access)));
    assert_eq!(analyzer.annotations().last(), Some(&shape(Type::Any)));
    assert_eq!(lookup(&analyzer, "x"), Some(shape(Type::Any)));
    assert_eq!(
        analyzer.diagnostics(),
        &vec![Diagnostic::UnhandledField { name: "field".to_owned() }]
    );
}

#[test]
fn local_variable_shadows_a_field() {
    // The class declares field `n` of class FOO; a local `n` is a number.
    let class = owner();
    let mut analyzer = ProcAnalyzer::new(classes(), &class);
    assert_eq!(analyzer.visit_expression(&ident("n"), None), shape(Type::Instance(FOO)));
    analyzer.visit_var(&var("n", DeclaredType::Untyped, Some(number(1))));
    let value = analyzer.visit_expression(&ident("n"), None);
    assert_eq!(value.ty, Type::Number);
    assert_eq!(value, Analysis { ty: Type::Number, value: Some(Constant::Int(1)) });
    assert!(analyzer.diagnostics().is_empty());
}

#[test]
fn last_walked_arm_wins() {
    // if (cond) { var/x = "a" } else { var/x = 1 }; x
    let class = owner();
    let mut analyzer = ProcAnalyzer::new(classes(), &class);
    let conditional = Statement::If {
        arms: vec![(
            ident("usr"),
            vec![Statement::Var(var("x", DeclaredType::Untyped, Some(text("a"))))],
        )],
        else_arm: Some(vec![Statement::Var(var("x", DeclaredType::Untyped, Some(number(1))))]),
    };
    analyzer.visit_statement(&conditional);
    let value = analyzer.visit_expression(&ident("x"), None);
    assert_eq!(value.ty, Type::Number);
    assert_eq!(value.value, Some(Constant::Int(1)));
    assert!(analyzer.diagnostics().is_empty());
}

#[test]
fn last_walked_arm_wins_without_else() {
    let class = owner();
    let mut analyzer = ProcAnalyzer::new(classes(), &class);
    let conditional = Statement::If {
        arms: vec![
            (ident("usr"), vec![Statement::Var(var("x", DeclaredType::Untyped, Some(number(1))))]),
            (ident("src"), vec![Statement::Var(var("x", DeclaredType::Untyped, Some(text("a"))))]),
        ],
        else_arm: None,
    };
    analyzer.visit_statement(&conditional);
    assert_eq!(
        lookup(&analyzer, "x"),
        Some(Analysis { ty: Type::String, value: Some(Constant::String("a".to_owned())) })
    );
}

#[test]
fn one_undeclared_identifier_gives_one_diagnostic() {
    let class = owner();
    let mut analyzer = ProcAnalyzer::new(classes(), &class);
    let body = vec![
        Statement::Var(var("a", DeclaredType::Untyped, Some(number(1)))),
        Statement::Return(Some(ident("undeclared"))),
        Statement::Expr(ident("a")),
    ];
    analyzer.run(&no_params(), &body);
    assert_eq!(analyzer.diagnostics(), &vec![unresolved("undeclared")]);
    assert_eq!(analyzer.annotations().len(), 3);
}

#[test]
fn run_binds_each_parameter_unconstrained() {
    let class = owner();
    let mut analyzer = ProcAnalyzer::new(classes(), &class);
    let procedure = ProcValue {
        parameters: vec![Parameter { name: "a".to_owned() }, Parameter { name: "usr".to_owned() }],
        code: Code::Builtin,
    };
    let body = vec![Statement::Expr(ident("a")), Statement::Expr(ident("b"))];
    analyzer.run(&procedure, &body);
    assert_eq!(lookup(&analyzer, "a"), Some(shape(Type::Any)));
    assert_eq!(lookup(&analyzer, "usr"), Some(shape(Type::Any)));
    assert_eq!(lookup(&analyzer, "args"), Some(shape(Type::List(None))));
    assert_eq!(analyzer.diagnostics(), &vec![unresolved("b")]);
}

#[test]
fn run_on_an_empty_body_changes_nothing() {
    let class = owner();
    let mut analyzer = ProcAnalyzer::new(classes(), &class);
    analyzer.run(&no_params(), &vec![]);
    assert!(analyzer.diagnostics().is_empty());
    assert!(analyzer.annotations().is_empty());
    assert_eq!(lookup(&analyzer, "src"), Some(shape(Type::Instance(OWNER))));
    assert_eq!(lookup(&analyzer, "."), Some(shape(Type::Any)));
    assert_eq!(lookup(&analyzer, "global"), Some(shape(Type::Global)));
}

#[test]
fn declaration_without_initializer_is_null() {
    let class = owner();
    let mut analyzer = ProcAnalyzer::new(classes(), &class);
    analyzer.visit_var(&var("x", DeclaredType::Class(FOO), None));
    assert_eq!(lookup(&analyzer, "x"), Some(Analysis { ty: Type::Null, value: Some(Constant::Null) }));
    assert!(analyzer.annotations().is_empty());
    assert!(analyzer.diagnostics().is_empty());
}

#[test]
fn unresolved_declared_type_is_reported_and_gives_no_hint() {
    let class = owner();
    let mut analyzer = ProcAnalyzer::new(classes(), &class);
    let declaration =
        var("x", DeclaredType::Unresolved, Some(base(Term::New { type_: NewType::Implicit })));
    analyzer.visit_var(&declaration);
    assert_eq!(
        analyzer.diagnostics(),
        &vec![
            Diagnostic::UnresolvedVarType { name: "x".to_owned() },
            Diagnostic::NewWithoutHint,
        ]
    );
    assert_eq!(lookup(&analyzer, "x"), Some(shape(Type::Any)));
}

#[test]
fn untyped_declaration_gives_no_hint_and_no_report_of_its_own() {
    let class = owner();
    let mut analyzer = ProcAnalyzer::new(classes(), &class);
    let declaration =
        var("x", DeclaredType::Untyped, Some(base(Term::New { type_: NewType::Implicit })));
    analyzer.visit_var(&declaration);
    assert_eq!(analyzer.diagnostics(), &vec![Diagnostic::NewWithoutHint]);
}

#[test]
fn declaration_overwrites_an_earlier_one() {
    let class = owner();
    let mut analyzer = ProcAnalyzer::new(classes(), &class);
    analyzer.visit_var(&var("x", DeclaredType::Untyped, Some(text("a"))));
    analyzer.visit_var(&var("x", DeclaredType::Untyped, None));
    assert_eq!(lookup(&analyzer, "x"), Some(Analysis { ty: Type::Null, value: Some(Constant::Null) }));
}

#[test]
fn initializer_sees_the_earlier_binding() {
    // var/x = 1; var/x = !x
    let class = owner();
    let mut analyzer = ProcAnalyzer::new(classes(), &class);
    analyzer.visit_var(&var("x", DeclaredType::Untyped, Some(text("a"))));
    let negated = Expression::Base {
        unary: vec![UnaryOp::Neg],
        term: Term::Ident("x".to_owned()),
        follow: vec![],
    };
    analyzer.visit_var(&var("x", DeclaredType::Untyped, Some(negated)));
    assert_eq!(
        analyzer.diagnostics(),
        &vec![Diagnostic::UnhandledUnary { op: UnaryOp::Neg, operand: Type::String }]
    );
    assert_eq!(lookup(&analyzer, "x"), Some(shape(Type::Any)));
}

#[test]
fn several_declarations_are_walked_in_order() {
    let class = owner();
    let mut analyzer = ProcAnalyzer::new(classes(), &class);
    let declarations = Statement::Vars(vec![
        var("a", DeclaredType::Untyped, Some(number(1))),
        var("b", DeclaredType::Untyped, Some(ident("a"))),
        var("c", DeclaredType::Untyped, Some(ident("d"))),
    ]);
    analyzer.visit_statement(&declarations);
    assert_eq!(lookup(&analyzer, "b"), Some(Analysis { ty: Type::Number, value: Some(Constant::Int(1)) }));
    assert_eq!(lookup(&analyzer, "c"), Some(shape(Type::Any)));
    assert_eq!(analyzer.diagnostics(), &vec![unresolved("d")]);
}

#[test]
fn variable_declared_in_a_block_stays_visible() {
    let class = owner();
    let mut analyzer = ProcAnalyzer::new(classes(), &class);
    let body = vec![
        Statement::While {
            condition: ident("usr"),
            block: vec![Statement::Var(var("inner", DeclaredType::Untyped, Some(number(2))))],
        },
        Statement::Expr(ident("inner")),
    ];
    analyzer.visit_block(&body);
    assert!(analyzer.diagnostics().is_empty());
    assert_eq!(
        analyzer.annotations().last(),
        Some(&Analysis { ty: Type::Number, value: Some(Constant::Int(2)) })
    );
}

#[test]
fn simple_statements_evaluate_their_expression() {
    let class = owner();
    for statement in [
        Statement::Expr(ident("x")),
        Statement::Return(Some(ident("x"))),
        Statement::Throw(ident("x")),
        Statement::Del(ident("x")),
    ] {
        let mut analyzer = ProcAnalyzer::new(classes(), &class);
        analyzer.visit_statement(&statement);
        assert_eq!(analyzer.diagnostics(), &vec![unresolved("x")]);
        assert_eq!(analyzer.annotations(), &vec![shape(Type::Any)]);
    }
}

#[test]
fn statements_give_their_expressions_no_hint() {
    let class = owner();
    let mut analyzer = ProcAnalyzer::new(classes(), &class);
    analyzer.visit_statement(&Statement::Expr(base(Term::New { type_: NewType::Implicit })));
    assert_eq!(analyzer.diagnostics(), &vec![Diagnostic::NewWithoutHint]);
}

#[test]
fn statements_without_parts_do_nothing() {
    let class = owner();
    let mut analyzer = ProcAnalyzer::new(classes(), &class);
    for statement in
        [Statement::Return(None), Statement::Setting, Statement::Continue, Statement::Break]
    {
        analyzer.visit_statement(&statement);
    }
    assert!(analyzer.diagnostics().is_empty());
    assert!(analyzer.annotations().is_empty());
    assert_eq!(lookup(&analyzer, "usr"), Some(shape(Type::Instance(MOB))));
}

#[test]
fn while_tests_then_walks_the_body_once() {
    let class = owner();
    let mut analyzer = ProcAnalyzer::new(classes(), &class);
    let statement = Statement::While {
        condition: ident("c"),
        block: vec![Statement::Expr(ident("b"))],
    };
    analyzer.visit_statement(&statement);
    assert_eq!(analyzer.diagnostics(), &vec![unresolved("c"), unresolved("b")]);
}

#[test]
fn do_while_walks_the_body_then_tests() {
    let class = owner();
    let mut analyzer = ProcAnalyzer::new(classes(), &class);
    let statement = Statement::DoWhile {
        block: vec![Statement::Expr(ident("b"))],
        condition: ident("c"),
    };
    analyzer.visit_statement(&statement);
    assert_eq!(analyzer.diagnostics(), &vec![unresolved("b"), unresolved("c")]);
}

#[test]
fn loop_body_is_not_walked_to_a_fixed_point() {
    // while (c) { x; var/x = 1 }: the read comes before the declaration.
    let class = owner();
    let mut analyzer = ProcAnalyzer::new(classes(), &class);
    let statement = Statement::While {
        condition: ident("usr"),
        block: vec![
            Statement::Expr(ident("x")),
            Statement::Var(var("x", DeclaredType::Untyped, Some(number(1)))),
        ],
    };
    analyzer.visit_statement(&statement);
    assert_eq!(analyzer.diagnostics(), &vec![unresolved("x")]);
}

#[test]
fn conditional_walks_every_arm_in_order() {
    let class = owner();
    let mut analyzer = ProcAnalyzer::new(classes(), &class);
    let statement = Statement::If {
        arms: vec![
            (ident("c1"), vec![Statement::Expr(ident("b1"))]),
            (ident("c2"), vec![Statement::Expr(ident("b2"))]),
        ],
        else_arm: Some(vec![Statement::Expr(ident("e"))]),
    };
    analyzer.visit_statement(&statement);
    assert_eq!(
        analyzer.diagnostics(),
        &vec![
            unresolved("c1"),
            unresolved("b1"),
            unresolved("c2"),
            unresolved("b2"),
            unresolved("e"),
        ]
    );
}

#[test]
fn counted_loop_walks_init_test_step_body() {
    let class = owner();
    let mut analyzer = ProcAnalyzer::new(classes(), &class);
    let statement = Statement::ForLoop {
        init: Some(Box::new(Statement::Var(var("i", DeclaredType::Untyped, Some(number(0)))))),
        test: Some(ident("t")),
        inc: Some(Box::new(Statement::Expr(Expression::Base {
            unary: vec![UnaryOp::PostIncr],
            term: Term::Ident("i".to_owned()),
            follow: vec![],
        }))),
        block: vec![Statement::Expr(ident("b"))],
    };
    analyzer.visit_statement(&statement);
    assert_eq!(analyzer.diagnostics(), &vec![unresolved("t"), unresolved("b")]);
    assert_eq!(
        analyzer.annotations(),
        &vec![
            Analysis { ty: Type::Number, value: Some(Constant::Int(0)) },
            shape(Type::Any),
            shape(Type::Number),
            shape(Type::Any),
        ]
    );
}

#[test]
fn counted_loop_without_header_walks_the_body() {
    let class = owner();
    let mut analyzer = ProcAnalyzer::new(classes(), &class);
    let statement = Statement::ForLoop {
        init: None,
        test: None,
        inc: None,
        block: vec![Statement::Expr(ident("b"))],
    };
    analyzer.visit_statement(&statement);
    assert_eq!(analyzer.diagnostics(), &vec![unresolved("b")]);
}

#[test]
fn collection_loop_evaluates_the_collection_then_the_body() {
    let class = owner();
    let mut analyzer = ProcAnalyzer::new(classes(), &class);
    analyzer.visit_statement(&Statement::ForList {
        in_list: Some(ident("l")),
        block: vec![Statement::Expr(ident("b"))],
    });
    analyzer.visit_statement(&Statement::ForList {
        in_list: None,
        block: vec![Statement::Expr(ident("c"))],
    });
    assert_eq!(analyzer.diagnostics(), &vec![unresolved("l"), unresolved("b"), unresolved("c")]);
}

#[test]
fn range_loop_evaluates_bounds_step_body() {
    let class = owner();
    let mut analyzer = ProcAnalyzer::new(classes(), &class);
    analyzer.visit_statement(&Statement::ForRange {
        start: ident("s"),
        end: ident("e"),
        step: Some(ident("p")),
        block: vec![Statement::Expr(ident("b"))],
    });
    analyzer.visit_statement(&Statement::ForRange {
        start: number(1),
        end: number(2),
        step: None,
        block: vec![],
    });
    assert_eq!(
        analyzer.diagnostics(),
        &vec![unresolved("s"), unresolved("e"), unresolved("p"), unresolved("b")]
    );
    assert_eq!(analyzer.annotations().len(), 6);
}

#[test]
fn spawn_evaluates_the_delay_then_the_body() {
    let class = owner();
    let mut analyzer = ProcAnalyzer::new(classes(), &class);
    analyzer.visit_statement(&Statement::Spawn {
        delay: Some(ident("d")),
        block: vec![Statement::Expr(ident("b"))],
    });
    analyzer.visit_statement(&Statement::Spawn { delay: None, block: vec![] });
    assert_eq!(analyzer.diagnostics(), &vec![unresolved("d"), unresolved("b")]);
}

#[test]
fn switch_walks_input_cases_and_default() {
    let class = owner();
    let mut analyzer = ProcAnalyzer::new(classes(), &class);
    let statement = Statement::Switch {
        input: ident("i"),
        cases: vec![
            (
                vec![Case::Exact(ident("a")), Case::Range(ident("lo"), ident("hi"))],
                vec![Statement::Expr(ident("b1"))],
            ),
            (vec![Case::Exact(number(3))], vec![Statement::Expr(ident("b2"))]),
        ],
        default: Some(vec![Statement::Expr(ident("d"))]),
    };
    analyzer.visit_statement(&statement);
    assert_eq!(
        analyzer.diagnostics(),
        &vec![
            unresolved("i"),
            unresolved("a"),
            unresolved("lo"),
            unresolved("hi"),
            unresolved("b1"),
            unresolved("b2"),
            unresolved("d"),
        ]
    );
    assert_eq!(analyzer.annotations().len(), 8);
}

#[test]
fn switch_cases_do_not_isolate_their_variables() {
    let class = owner();
    let mut analyzer = ProcAnalyzer::new(classes(), &class);
    let statement = Statement::Switch {
        input: ident("usr"),
        cases: vec![
            (vec![], vec![Statement::Var(var("x", DeclaredType::Untyped, Some(text("a"))))]),
            (vec![], vec![Statement::Var(var("x", DeclaredType::Untyped, Some(number(1))))]),
        ],
        default: None,
    };
    analyzer.visit_statement(&statement);
    assert_eq!(lookup(&analyzer, "x"), Some(Analysis { ty: Type::Number, value: Some(Constant::Int(1)) }));
}

#[test]
fn try_and_catch_are_both_walked() {
    let class = owner();
    let mut analyzer = ProcAnalyzer::new(classes(), &class);
    analyzer.visit_statement(&Statement::TryCatch {
        try_block: vec![Statement::Expr(ident("t"))],
        catch_block: vec![Statement::Expr(ident("c"))],
    });
    assert_eq!(analyzer.diagnostics(), &vec![unresolved("t"), unresolved("c")]);
}

#[test]
fn labelled_block_is_walked() {
    let class = owner();
    let mut analyzer = ProcAnalyzer::new(classes(), &class);
    analyzer.visit_statement(&Statement::Label { block: vec![Statement::Expr(ident("b"))] });
    assert_eq!(analyzer.diagnostics(), &vec![unresolved("b")]);
}

#[test]
fn every_expression_of_a_body_is_annotated() {
    // Five expressions: `a + 1` is three, `(b)` is two.
    let class = owner();
    let mut analyzer = ProcAnalyzer::new(classes(), &class);
    let body = vec![
        Statement::Expr(Expression::BinaryOp {
            op: BinaryOp::Add,
            lhs: Box::new(ident("a")),
            rhs: Box::new(number(1)),
        }),
        Statement::If {
            arms: vec![],
            else_arm: Some(vec![Statement::Return(Some(base(Term::Expr(Box::new(ident("b"))))))]),
        },
    ];
    analyzer.run(&no_params(), &body);
    assert_eq!(analyzer.annotations().len(), 5);
}

#[test]
fn constants_in_the_result_agree_with_their_shapes() {
    let class = owner();
    let wk = classes();
    let mut analyzer = ProcAnalyzer::new(wk, &class);
    let body = vec![
        Statement::Var(var("a", DeclaredType::Untyped, Some(text("s")))),
        Statement::Var(var("b", DeclaredType::Untyped, Some(base(Term::Float(1.0f32.to_bits()))))),
        Statement::Var(var("c", DeclaredType::Untyped, None)),
        Statement::Expr(base(Term::Resource("r.dmi".to_owned()))),
    ];
    analyzer.run(&no_params(), &body);
    for name in ["a", "b", "c"] {
        let value = lookup(&analyzer, name).unwrap();
        let constant = value.value.clone().unwrap();
        assert_eq!(value.ty, Type::from_constant(&wk, &constant));
    }
    for value in analyzer.annotations() {
        if let Some(constant) = &value.value {
            assert_eq!(value.ty, Type::from_constant(&wk, constant));
        }
    }
}
