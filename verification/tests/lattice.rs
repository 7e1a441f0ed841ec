use dreamchecker::analysis::Analysis;
use dreamchecker::lattice::{ClassId, ConstFn, Constant, Type, WellKnown};
use dreamchecker::lattice::{ICON_PATH, MATRIX_PATH, MOB_PATH, SOUND_PATH};

fn classes() -> WellKnown {
    WellKnown { mob: ClassId(1), icon: ClassId(2), matrix: ClassId(3), sound: ClassId(4) }
}

#[test]
fn null_constant_has_null_shape() {
    assert_eq!(Type::from_constant(&classes(), &Constant::Null), Type::Null);
}

#[test]
fn string_constant_has_string_shape() {
    let ty = Type::from_constant(&classes(), &Constant::String("a".to_owned()));
    assert_eq!(ty, Type::String);
}

#[test]
fn every_string_constant_has_the_same_shape() {
    for text in ["", "a", "hello world", "\n"] {
        let ty = Type::from_constant(&classes(), &Constant::String(text.to_owned()));
        assert_eq!(ty, Type::String);
    }
}

#[test]
fn resource_constant_has_resource_shape() {
    let ty = Type::from_constant(&classes(), &Constant::Resource("icon.dmi".to_owned()));
    assert_eq!(ty, Type::Resource);
}

#[test]
fn integer_constant_is_a_number() {
    assert_eq!(Type::from_constant(&classes(), &Constant::Int(0)), Type::Number);
    assert_eq!(Type::from_constant(&classes(), &Constant::Int(-7)), Type::Number);
    assert_eq!(Type::from_constant(&classes(), &Constant::Int(i32::MAX)), Type::Number);
}

#[test]
fn float_constant_is_a_number() {
    let bits = 1.5f32.to_bits();
    assert_eq!(Type::from_constant(&classes(), &Constant::Float(bits)), Type::Number);
    assert_eq!(Type::from_constant(&classes(), &Constant::Float(f32::NAN.to_bits())), Type::Number);
}

#[test]
fn list_constant_is_a_list_of_unknown_elements() {
    assert_eq!(Type::from_constant(&classes(), &Constant::List), Type::List(None));
}

#[test]
fn constructor_constants_are_instances_of_their_classes() {
    let wk = classes();
    assert_eq!(
        Type::from_constant(&wk, &Constant::Call(ConstFn::Icon)),
        Type::Instance(ClassId(2))
    );
    assert_eq!(
        Type::from_constant(&wk, &Constant::Call(ConstFn::Matrix)),
        Type::Instance(ClassId(3))
    );
    assert_eq!(
        Type::from_constant(&wk, &Constant::Call(ConstFn::Sound)),
        Type::Instance(ClassId(4))
    );
}

#[test]
fn list_builder_constant_is_a_list() {
    assert_eq!(Type::from_constant(&classes(), &Constant::Call(ConstFn::Newlist)), Type::List(None));
}

#[test]
fn other_constants_are_unconstrained() {
    assert_eq!(Type::from_constant(&classes(), &Constant::New), Type::Any);
    assert_eq!(Type::from_constant(&classes(), &Constant::Prefab), Type::Any);
}

#[test]
fn constructor_shapes_follow_the_well_known_classes() {
    let wk = WellKnown { mob: ClassId(10), icon: ClassId(20), matrix: ClassId(30), sound: ClassId(40) };
    assert_eq!(
        Type::from_constant(&wk, &Constant::Call(ConstFn::Icon)),
        Type::Instance(ClassId(20))
    );
}

#[test]
fn empty_analysis_is_unconstrained() {
    assert_eq!(Analysis::empty(), Analysis { ty: Type::Any, value: None });
}

#[test]
fn null_analysis_carries_the_null_constant() {
    assert_eq!(Analysis::null(), Analysis { ty: Type::Null, value: Some(Constant::Null) });
}

#[test]
fn analysis_from_shape_has_no_constant() {
    let analysis = Analysis::from(Type::Instance(ClassId(9)));
    assert_eq!(analysis.ty, Type::Instance(ClassId(9)));
    assert_eq!(analysis.value, None);
    let list: Analysis = Type::List(None).into();
    assert_eq!(list, Analysis { ty: Type::List(None), value: None });
}

#[test]
fn wrapping_a_constant_keeps_shape_and_value() {
    let wk = classes();
    let wrapped = Analysis::from_value(&wk, Constant::String("abc".to_owned()));
    assert_eq!(wrapped.ty, Type::String);
    assert_eq!(wrapped.value, Some(Constant::String("abc".to_owned())));

    let wrapped = Analysis::from_value(&wk, Constant::Int(42));
    assert_eq!(wrapped.ty, Type::Number);
    assert_eq!(wrapped.value, Some(Constant::Int(42)));

    let wrapped = Analysis::from_value(&wk, Constant::Float(2.5f32.to_bits()));
    assert_eq!(wrapped.ty, Type::Number);
    assert_eq!(wrapped.value, Some(Constant::Float(2.5f32.to_bits())));

    let wrapped = Analysis::from_value(&wk, Constant::Call(ConstFn::Sound));
    assert_eq!(wrapped.ty, Type::Instance(ClassId(4)));
    assert_eq!(wrapped.value, Some(Constant::Call(ConstFn::Sound)));

    let wrapped = Analysis::from_value(&wk, Constant::Prefab);
    assert_eq!(wrapped.ty, Type::Any);
    assert_eq!(wrapped.value, Some(Constant::Prefab));
}

#[test]
fn cloning_an_analysis_copies_it() {
    let wk = classes();
    let original = Analysis::from_value(&wk, Constant::Resource("a.ogg".to_owned()));
    let copy = original.clone();
    assert_eq!(copy, original);
    assert_eq!(Constant::String("x".to_owned()).clone(), Constant::String("x".to_owned()));
    assert_eq!(Constant::Call(ConstFn::Matrix).clone(), Constant::Call(ConstFn::Matrix));
}

#[test]
fn builtin_classes_have_their_paths() {
    assert_eq!(MOB_PATH, "/mob");
    assert_eq!(ICON_PATH, "/icon");
    assert_eq!(MATRIX_PATH, "/matrix");
    assert_eq!(SOUND_PATH, "/sound");
}

#[test]
fn builtin_classes_resolve_when_all_are_found() {
    let found = WellKnown::resolve(
        Some(ClassId(1)),
        Some(ClassId(2)),
        Some(ClassId(3)),
        Some(ClassId(4)),
    );
    assert_eq!(found, Some(classes()));
}

#[test]
fn builtin_classes_do_not_resolve_when_one_is_missing() {
    let id = Some(ClassId(1));
    assert_eq!(WellKnown::resolve(None, id, id, id), None);
    assert_eq!(WellKnown::resolve(id, None, id, id), None);
    assert_eq!(WellKnown::resolve(id, id, None, id), None);
    assert_eq!(WellKnown::resolve(id, id, id, None), None);
    assert_eq!(WellKnown::resolve(None, None, None, None), None);
}
