//! The lattice of value shapes, and the rule that gives a constant its shape.

use vstd::prelude::*;

verus! {

/// A class of the hierarchy, named by the index of its node.
#[derive(Copy, Clone, Debug, PartialEq, Eq, Hash)]
pub struct ClassId(pub usize);

/// The builtin classes that the analysis refers to by name. Whoever owns the
/// hierarchy looks them up once; the hierarchy guarantees that they exist.
#[derive(Copy, Clone, Debug, PartialEq, Eq)]
pub struct WellKnown {
    /// `/mob`, the class of `usr`.
    pub mob: ClassId,
    /// `/icon`.
    pub icon: ClassId,
    /// `/matrix`.
    pub matrix: ClassId,
    /// `/sound`.
    pub sound: ClassId,
}

/// The path of the class of `usr`.
pub const MOB_PATH: &'static str = "/mob";

/// The path of the class that the `icon` constructor builds.
pub const ICON_PATH: &'static str = "/icon";

/// The path of the class that the `matrix` constructor builds.
pub const MATRIX_PATH: &'static str = "/matrix";

/// The path of the class that the `sound` constructor builds.
pub const SOUND_PATH: &'static str = "/sound";

impl WellKnown {
    /// The builtin classes, from what the hierarchy holds under their
    /// paths. There is no analysis without all four of them.
    pub fn resolve(
        mob: Option<ClassId>,
        icon: Option<ClassId>,
        matrix: Option<ClassId>,
        sound: Option<ClassId>,
    ) -> (classes: Option<WellKnown>)
        ensures
            classes == if mob is Some && icon is Some && matrix is Some && sound is Some {
                Some(WellKnown { mob: mob->0, icon: icon->0, matrix: matrix->0, sound: sound->0 })
            } else {
                None
            },
    {
        match (mob, icon, matrix, sound) {
            (Some(mob), Some(icon), Some(matrix), Some(sound)) => Some(
                WellKnown { mob, icon, matrix, sound },
            ),
            _ => None,
        }
    }
}

/// The shape of a value. Exactly one case holds at a time.
#[derive(Copy, Clone, Debug, PartialEq, Eq)]
pub enum Type {
    /// Unconstrained: the top of the lattice.
    Any,
    Null,
    String,
    Resource,
    Number,
    /// A list, with the class of its elements where that is known.
    List(Option<ClassId>),
    /// An instance of the class.
    Instance(ClassId),
    /// A reference to the class itself.
    Typepath(ClassId),
    /// The global namespace.
    Global,
}

/// The builtin constructors that may stand in a constant.
#[derive(Copy, Clone, Debug, PartialEq, Eq)]
pub enum ConstFn {
    Icon,
    Matrix,
    Newlist,
    Sound,
}

/// A folded compile-time constant. The analysis classifies constants and
/// hands them on; it never evaluates them.
#[derive(Debug, PartialEq, Eq)]
pub enum Constant {
    Null,
    /// An instantiation, `new`.
    New,
    /// A list literal.
    List,
    /// A call of a builtin constructor.
    Call(ConstFn),
    /// A class path.
    Prefab,
    String(std::string::String),
    Resource(std::string::String),
    Int(i32),
    /// A single-precision number, held as its IEEE 754 bit pattern.
    Float(u32),
}

/// What distinguishes one kind of constant from another: its variant and,
/// for a constructor call, the constructor.
pub enum ConstantKind {
    Null,
    New,
    List,
    Call(ConstFn),
    Prefab,
    String,
    Resource,
    Int,
    Float,
}

impl Constant {
    /// The kind of this constant.
    pub open spec fn kind(self) -> ConstantKind {
        match self {
            Constant::Null => ConstantKind::Null,
            Constant::New => ConstantKind::New,
            Constant::List => ConstantKind::List,
            Constant::Call(func) => ConstantKind::Call(func),
            Constant::Prefab => ConstantKind::Prefab,
            Constant::String(_) => ConstantKind::String,
            Constant::Resource(_) => ConstantKind::Resource,
            Constant::Int(_) => ConstantKind::Int,
            Constant::Float(_) => ConstantKind::Float,
        }
    }
}

impl Clone for Constant {
    fn clone(&self) -> (copy: Self)
        ensures
            copy == *self,
    {
        match self {
            Constant::Null => Constant::Null,
            Constant::New => Constant::New,
            Constant::List => Constant::List,
            Constant::Call(func) => Constant::Call(*func),
            Constant::Prefab => Constant::Prefab,
            Constant::String(text) => Constant::String(text.clone()),
            Constant::Resource(text) => Constant::Resource(text.clone()),
            Constant::Int(number) => Constant::Int(*number),
            Constant::Float(bits) => Constant::Float(*bits),
        }
    }
}

/// The shape of a constant of the given kind.
pub open spec fn shape_of_kind(classes: WellKnown, kind: ConstantKind) -> Type {
    match kind {
        ConstantKind::Null => Type::Null,
        ConstantKind::String => Type::String,
        ConstantKind::Resource => Type::Resource,
        ConstantKind::Int => Type::Number,
        ConstantKind::Float => Type::Number,
        ConstantKind::List => Type::List(None),
        ConstantKind::Call(ConstFn::Icon) => Type::Instance(classes.icon),
        ConstantKind::Call(ConstFn::Matrix) => Type::Instance(classes.matrix),
        ConstantKind::Call(ConstFn::Newlist) => Type::List(None),
        ConstantKind::Call(ConstFn::Sound) => Type::Instance(classes.sound),
        ConstantKind::New => Type::Any,
        ConstantKind::Prefab => Type::Any,
    }
}

/// The shape of a constant: that of its kind.
pub open spec fn shape_of(classes: WellKnown, constant: Constant) -> Type {
    shape_of_kind(classes, constant.kind())
}

impl Type {
    /// Classifies a constant.
    pub fn from_constant(classes: &WellKnown, constant: &Constant) -> (ty: Type)
        ensures
            ty == shape_of(*classes, *constant),
    {
        match constant {
            Constant::Null => Type::Null,
            Constant::String(_) => Type::String,
            Constant::Resource(_) => Type::Resource,
            Constant::Int(_) => Type::Number,
            Constant::Float(_) => Type::Number,
            Constant::List => Type::List(None),
            Constant::Call(func) => match func {
                ConstFn::Icon => Type::Instance(classes.icon),
                ConstFn::Matrix => Type::Instance(classes.matrix),
                ConstFn::Newlist => Type::List(None),
                ConstFn::Sound => Type::Instance(classes.sound),
            },
            _ => Type::Any,
        }
    }
}

} // verus!
