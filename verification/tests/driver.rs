use dreamchecker::analysis::Analysis;
use dreamchecker::ast::{Expression, Statement, Term};
use dreamchecker::class::{ClassInfo, Code, Parameter, ProcValue};
use dreamchecker::diagnostic::Diagnostic;
use dreamchecker::driver::{check_proc, tally, CodeKind, Tally};
use dreamchecker::lattice::{ClassId, Type, WellKnown};

fn classes() -> WellKnown {
    WellKnown { mob: ClassId(1), icon: ClassId(2), matrix: ClassId(3), sound: ClassId(4) }
}

fn read(name: &str) -> Statement {
    Statement::Expr(Expression::Base {
        unary: vec![],
        term: Term::Ident(name.to_owned()),
        follow: vec![],
    })
}

fn procedure(code: Code) -> ProcValue {
    ProcValue { parameters: vec![Parameter { name: "p".to_owned() }], code }
}

#[test]
fn present_body_is_analyzed() {
    let class = ClassInfo { id: ClassId(5), is_root: false, fields: vec![] };
    let proc = procedure(Code::Present(vec![read("p"), read("q")]));
    let analyzer = check_proc(classes(), &class, &proc).unwrap();
    assert_eq!(analyzer.diagnostics(), &vec![Diagnostic::UnresolvedIdent { name: "q".to_owned() }]);
    assert_eq!(analyzer.annotations().len(), 2);
    assert_eq!(
        analyzer.local_vars().get(&"src".to_owned()),
        Some(&Analysis { ty: Type::Instance(ClassId(5)), value: None })
    );
}

#[test]
fn other_bodies_are_not_analyzed() {
    let class = ClassInfo { id: ClassId(5), is_root: false, fields: vec![] };
    for code in [Code::Invalid, Code::Builtin, Code::Disabled] {
        assert!(check_proc(classes(), &class, &procedure(code)).is_none());
    }
}

#[test]
fn each_procedure_starts_afresh() {
    let class = ClassInfo { id: ClassId(0), is_root: true, fields: vec![] };
    let first = procedure(Code::Present(vec![Statement::Var(dreamchecker::ast::VarStatement {
        var_type: dreamchecker::ast::DeclaredType::Untyped,
        name: "x".to_owned(),
        value: None,
    })]));
    let second = procedure(Code::Present(vec![read("x")]));
    assert!(check_proc(classes(), &class, &first).unwrap().diagnostics().is_empty());
    assert_eq!(
        check_proc(classes(), &class, &second).unwrap().diagnostics(),
        &vec![Diagnostic::UnresolvedIdent { name: "x".to_owned() }]
    );
}

#[test]
fn code_kinds() {
    assert_eq!(Code::Present(vec![]).kind(), CodeKind::Present);
    assert_eq!(Code::Invalid.kind(), CodeKind::Invalid);
    assert_eq!(Code::Builtin.kind(), CodeKind::Builtin);
    assert_eq!(Code::Disabled.kind(), CodeKind::Disabled);
}

#[test]
fn tally_counts_each_kind() {
    let procs = vec![
        procedure(Code::Present(vec![])),
        procedure(Code::Builtin),
        procedure(Code::Present(vec![read("a")])),
        procedure(Code::Invalid),
        procedure(Code::Builtin),
        procedure(Code::Builtin),
        procedure(Code::Disabled),
    ];
    assert_eq!(tally(&procs), Tally { present: 2, invalid: 1, builtin: 3, disabled: 1 });
}

#[test]
fn tally_of_nothing_is_zero() {
    assert_eq!(tally(&vec![]), Tally { present: 0, invalid: 0, builtin: 0, disabled: 0 });
}
