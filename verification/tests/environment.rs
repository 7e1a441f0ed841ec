use dreamchecker::analysis::Analysis;
use dreamchecker::ast::DeclaredType;
use dreamchecker::class::{ClassInfo, FieldDecl};
use dreamchecker::environment::Environment;
use dreamchecker::lattice::{ClassId, Constant, Type};

fn name(text: &str) -> String {
    text.to_owned()
}

#[test]
fn new_environment_binds_nothing() {
    let env = Environment::new();
    assert_eq!(env.get(&name("x")), None);
    assert_eq!(env.get(&name("")), None);
}

#[test]
fn inserted_binding_is_found() {
    let mut env = Environment::new();
    env.insert(name("x"), Analysis::from(Type::Number));
    assert_eq!(env.get(&name("x")), Some(&Analysis::from(Type::Number)));
    assert_eq!(env.get(&name("y")), None);
}

#[test]
fn inserting_again_overwrites() {
    let mut env = Environment::new();
    env.insert(name("x"), Analysis::from(Type::String));
    env.insert(name("y"), Analysis::from(Type::Global));
    env.insert(name("x"), Analysis::from(Type::Number));
    assert_eq!(env.get(&name("x")), Some(&Analysis::from(Type::Number)));
    assert_eq!(env.get(&name("y")), Some(&Analysis::from(Type::Global)));
}

#[test]
fn bindings_keep_their_constants() {
    let mut env = Environment::new();
    let value = Analysis { ty: Type::Number, value: Some(Constant::Int(3)) };
    env.insert(name("n"), value.clone());
    assert_eq!(env.get(&name("n")), Some(&value));
}

#[test]
fn names_are_compared_exactly() {
    let mut env = Environment::new();
    env.insert(name("abc"), Analysis::from(Type::Number));
    assert_eq!(env.get(&name("ab")), None);
    assert_eq!(env.get(&name("abcd")), None);
    assert_eq!(env.get(&name("ABC")), None);
}

#[test]
fn field_lookup_finds_the_declared_type() {
    let class = ClassInfo {
        id: ClassId(5),
        is_root: false,
        fields: vec![
            FieldDecl { name: name("a"), var_type: DeclaredType::Untyped },
            FieldDecl { name: name("b"), var_type: DeclaredType::Class(ClassId(8)) },
            FieldDecl { name: name("c"), var_type: DeclaredType::Unresolved },
        ],
    };
    assert_eq!(class.get_var_declaration(&name("a")), Some(DeclaredType::Untyped));
    assert_eq!(class.get_var_declaration(&name("b")), Some(DeclaredType::Class(ClassId(8))));
    assert_eq!(class.get_var_declaration(&name("c")), Some(DeclaredType::Unresolved));
    assert_eq!(class.get_var_declaration(&name("d")), None);
}

#[test]
fn field_lookup_takes_the_nearest_declaration() {
    let class = ClassInfo {
        id: ClassId(5),
        is_root: false,
        fields: vec![
            FieldDecl { name: name("n"), var_type: DeclaredType::Class(ClassId(1)) },
            FieldDecl { name: name("n"), var_type: DeclaredType::Class(ClassId(2)) },
        ],
    };
    assert_eq!(class.get_var_declaration(&name("n")), Some(DeclaredType::Class(ClassId(1))));
}

#[test]
fn class_without_fields_declares_nothing() {
    let class = ClassInfo { id: ClassId(0), is_root: true, fields: vec![] };
    assert_eq!(class.get_var_declaration(&name("n")), None);
}
