//! Type descriptors and the store that interns them.

use crate::bindings::{binding_entries, clone_bindings, Binding};
use crate::functions::{FunctionType, FunctionTypeView};
use source_map::SpanWithSource;
use vstd::prelude::*;

verus! {

/// A handle for a type descriptor in the type store.
#[derive(Clone, Copy, PartialEq, Eq, Debug, Structural)]
pub struct TypeId(pub usize);

/// A handle for a function descriptor in the type store.
#[derive(Clone, Copy, PartialEq, Eq, Debug, Structural)]
pub struct FunctionId(pub usize);

/// A handle for a variable.
#[derive(Clone, Copy, PartialEq, Eq, Debug, Structural)]
pub struct VariableId(pub usize);

/// A handle for one instantiation of a closure.
#[derive(Clone, Copy, PartialEq, Eq, Debug, Structural)]
pub struct ClosureId(pub usize);

/// The recovery type: it is absorbed by every call without a diagnostic.
pub const ERROR_TYPE: usize = 0;

pub const UNDEFINED_TYPE: usize = 1;

pub const NULL_TYPE: usize = 2;

/// The top type: every type is a subtype of it.
pub const ANY_TYPE: usize = 3;

pub const BOOLEAN_TYPE: usize = 4;

pub const NUMBER_TYPE: usize = 5;

pub const STRING_TYPE: usize = 6;

pub const ARRAY_TYPE: usize = 7;

/// The element parameter of `ARRAY_TYPE`.
pub const T_TYPE: usize = 8;

/// The parameter that stands for `new.target` inside a function.
pub const NEW_TARGET_ARG: usize = 9;

/// The number of descriptors that a fresh store holds.
pub const RESERVED_TYPES: usize = 10;

/// A literal value.
#[derive(Debug)]
pub enum Constant {
    Number(i64),
    String(String),
    Boolean(bool),
}

pub enum ConstantView {
    Number(i64),
    String(Seq<char>),
    Boolean(bool),
}

impl View for Constant {
    type V = ConstantView;

    open spec fn view(&self) -> ConstantView {
        match self {
            Constant::Number(n) => ConstantView::Number(*n),
            Constant::String(s) => ConstantView::String(s@),
            Constant::Boolean(b) => ConstantView::Boolean(*b),
        }
    }
}

#[derive(Clone, Copy, PartialEq, Eq, Debug, Structural)]
pub enum ObjectNature {
    /// An object made by running code.
    RealDeal,
    /// An object type written as an annotation.
    AnonymousTypeAnnotation,
}

/// What kind of placeholder a polymorphic root is, with its constraint.
#[derive(Clone, Copy, PartialEq, Eq, Debug, Structural)]
pub enum PolyNature {
    Generic { eager_fixed: TypeId },
    Parameter { fixed_to: TypeId },
    FreeThis,
}

/// The receiver that a callable was bound with.
#[derive(Clone, Copy, PartialEq, Eq, Debug, Structural)]
pub enum ThisValue {
    Passed(TypeId),
    UseParent,
}

/// Objects that the host provides.
#[derive(Clone, Copy, PartialEq, Eq, Debug, Structural)]
pub enum SpecialObjects {
    Proxy { over: TypeId, handler: TypeId },
    Import,
}

/// One argument of a call, already synthesised to a type.
#[derive(Clone, Copy, PartialEq, Eq, Debug)]
pub enum SynthesisedArgument {
    NonSpread { ty: TypeId, position: SpanWithSource },
}

impl SynthesisedArgument {
    pub open spec fn spec_ty(self) -> TypeId {
        match self {
            SynthesisedArgument::NonSpread { ty, .. } => ty,
        }
    }

    pub open spec fn spec_position(self) -> SpanWithSource {
        match self {
            SynthesisedArgument::NonSpread { position, .. } => position,
        }
    }

    /// The type of the argument.
    pub fn to_type(&self) -> (ty: TypeId)
        ensures
            ty == self.spec_ty(),
    {
        match self {
            SynthesisedArgument::NonSpread { ty, .. } => *ty,
        }
    }

    /// Where the argument stands in the source.
    pub fn get_position(&self) -> (position: SpanWithSource)
        ensures
            position == self.spec_position(),
    {
        match self {
            SynthesisedArgument::NonSpread { position, .. } => *position,
        }
    }
}

/// The type arguments that a generic structure was applied to.
pub struct StructureGenericArguments {
    pub type_arguments: map_vec::Map<usize, Binding>,
}

impl View for StructureGenericArguments {
    type V = Seq<(usize, Binding)>;

    open spec fn view(&self) -> Seq<(usize, Binding)> {
        binding_entries(self.type_arguments)
    }
}

impl StructureGenericArguments {
    /// A copy with the same pairs in the same order.
    pub fn duplicate(&self) -> (copy: StructureGenericArguments)
        ensures
            copy@ == self@,
    {
        StructureGenericArguments { type_arguments: clone_bindings(&self.type_arguments) }
    }
}

/// A generic type applied to arguments.
pub struct StructureGenerics {
    pub on: TypeId,
    pub arguments: StructureGenericArguments,
}

/// A value that depends on something not yet known.
pub enum Constructor {
    StructureGenerics(StructureGenerics),
    /// The result of a call that could not be resolved where it was made.
    FunctionResult { on: TypeId, with: Vec<SynthesisedArgument>, result: TypeId },
}

pub enum ConstructorView {
    StructureGenerics { on: TypeId, arguments: Seq<(usize, Binding)> },
    FunctionResult { on: TypeId, with: Seq<SynthesisedArgument>, result: TypeId },
}

impl View for Constructor {
    type V = ConstructorView;

    open spec fn view(&self) -> ConstructorView {
        match self {
            Constructor::StructureGenerics(generics) => ConstructorView::StructureGenerics {
                on: generics.on,
                arguments: generics.arguments@,
            },
            Constructor::FunctionResult { on, with, result } => ConstructorView::FunctionResult {
                on: *on,
                with: with@,
                result: *result,
            },
        }
    }
}

/// A type descriptor.
pub enum Type {
    Constant(Constant),
    Object(ObjectNature),
    /// A declared nominal type.
    NamedRooted { name: String },
    AliasTo { to: TypeId, parameters: Option<Vec<TypeId>> },
    Function(FunctionId, ThisValue),
    FunctionReference(FunctionId, ThisValue),
    And(TypeId, TypeId),
    Or(TypeId, TypeId),
    RootPolyType(PolyNature),
    Constructor(Constructor),
    SpecialObject(SpecialObjects),
}

pub enum TypeView {
    Constant(ConstantView),
    Object(ObjectNature),
    NamedRooted { name: Seq<char> },
    AliasTo { to: TypeId, parameters: Option<Seq<TypeId>> },
    Function(FunctionId, ThisValue),
    FunctionReference(FunctionId, ThisValue),
    And(TypeId, TypeId),
    Or(TypeId, TypeId),
    RootPolyType(PolyNature),
    Constructor(ConstructorView),
    SpecialObject(SpecialObjects),
}

impl View for Type {
    type V = TypeView;

    open spec fn view(&self) -> TypeView {
        match self {
            Type::Constant(constant) => TypeView::Constant(constant@),
            Type::Object(nature) => TypeView::Object(*nature),
            Type::NamedRooted { name } => TypeView::NamedRooted { name: name@ },
            Type::AliasTo { to, parameters } => TypeView::AliasTo {
                to: *to,
                parameters: match parameters {
                    Some(parameters) => Some(parameters@),
                    None => None,
                },
            },
            Type::Function(function, this_value) => TypeView::Function(*function, *this_value),
            Type::FunctionReference(function, this_value) => TypeView::FunctionReference(
                *function,
                *this_value,
            ),
            Type::And(left, right) => TypeView::And(*left, *right),
            Type::Or(left, right) => TypeView::Or(*left, *right),
            Type::RootPolyType(nature) => TypeView::RootPolyType(*nature),
            Type::Constructor(constructor) => TypeView::Constructor(constructor@),
            Type::SpecialObject(special) => TypeView::SpecialObject(*special),
        }
    }
}

/// The descriptor that `id` names in `types`, if the sequence holds one.
pub open spec fn type_at(types: Seq<TypeView>, id: TypeId) -> Option<TypeView> {
    if id.0 < types.len() {
        Some(types[id.0 as int])
    } else {
        None
    }
}

/// Whether the identity of the type that `id` names is a symbolic expression
/// over inputs: a constructor or a polymorphic root.
pub open spec fn is_dependent(types: Seq<TypeView>, id: TypeId) -> bool {
    match type_at(types, id) {
        Some(TypeView::Constructor(_)) => true,
        Some(TypeView::RootPolyType(_)) => true,
        _ => false,
    }
}

/// A nominal type without parameters.
pub open spec fn named(name: Seq<char>) -> TypeView {
    TypeView::NamedRooted { name }
}

/// The descriptors that every store starts with, by their reserved handles.
pub open spec fn reserved_types() -> Seq<TypeView> {
    seq![
        named("error"@),
        named("undefined"@),
        named("null"@),
        named("any"@),
        named("boolean"@),
        named("number"@),
        named("string"@),
        named("Array"@),
        TypeView::RootPolyType(PolyNature::Generic { eager_fixed: TypeId(ANY_TYPE) }),
        TypeView::RootPolyType(PolyNature::Parameter { fixed_to: TypeId(ANY_TYPE) }),
    ]
}

/// The store of type descriptors and function descriptors. Descriptors are
/// appended and never changed.
pub struct TypeStore {
    pub types: Vec<Type>,
    pub functions: Vec<FunctionType>,
    /// The function that each closure instantiation was made from.
    pub closures: Vec<FunctionId>,
}

/// The views of a list of descriptors.
pub open spec fn type_views(types: Seq<Type>) -> Seq<TypeView> {
    Seq::new(types.len(), |i: int| types[i]@)
}

/// The views of a list of function descriptors.
pub open spec fn function_views(functions: Seq<FunctionType>) -> Seq<FunctionTypeView> {
    Seq::new(functions.len(), |i: int| functions[i]@)
}

fn named_type(name: &str) -> (ty: Type)
    ensures
        ty@ == named(name@),
{
    Type::NamedRooted { name: String::from_str(name) }
}

impl TypeStore {
    /// The views of the type descriptors, by handle.
    pub open spec fn types_view(&self) -> Seq<TypeView> {
        type_views(self.types@)
    }

    /// The views of the function descriptors, by handle.
    pub open spec fn functions_view(&self) -> Seq<FunctionTypeView> {
        function_views(self.functions@)
    }

    /// A store that holds the reserved descriptors and nothing else.
    pub fn new() -> (store: TypeStore)
        ensures
            store.types_view() == reserved_types(),
            store.functions_view().len() == 0,
            store.closures@.len() == 0,
    {
        let mut types: Vec<Type> = Vec::new();
        types.push(named_type("error"));
        types.push(named_type("undefined"));
        types.push(named_type("null"));
        types.push(named_type("any"));
        types.push(named_type("boolean"));
        types.push(named_type("number"));
        types.push(named_type("string"));
        types.push(named_type("Array"));
        types.push(Type::RootPolyType(PolyNature::Generic { eager_fixed: TypeId(ANY_TYPE) }));
        types.push(Type::RootPolyType(PolyNature::Parameter { fixed_to: TypeId(ANY_TYPE) }));
        let store = TypeStore { types, functions: Vec::new(), closures: Vec::new() };
        store
    }

    /// Appends a descriptor and returns its handle. No other descriptor changes.
    pub fn register_type(&mut self, ty: Type) -> (id: TypeId)
        ensures
            id.0 == old(self).types_view().len(),
            final(self).types_view() == old(self).types_view().push(ty@),
            final(self).functions == old(self).functions,
            final(self).closures == old(self).closures,
    {
        let id = TypeId(self.types.len());
        self.types.push(ty);
        id
    }

    /// The descriptor that `id` names, if the store holds one.
    pub fn get_type_by_id(&self, id: TypeId) -> (found: Option<&Type>)
        ensures
            match found {
                Some(ty) => type_at(self.types_view(), id) == Some(ty@),
                None => type_at(self.types_view(), id) is None,
            },
    {
        if id.0 < self.types.len() {
            Some(&self.types[id.0])
        } else {
            None
        }
    }

    /// Appends a function descriptor under the next free handle, which also
    /// becomes the descriptor's `id`, and returns the handle.
    pub fn register_function(&mut self, function: FunctionType) -> (id: FunctionId)
        ensures
            id.0 == old(self).functions_view().len(),
            final(self).functions_view() == old(self).functions_view().push(
                FunctionTypeView { id, ..function@ },
            ),
            final(self).types == old(self).types,
            final(self).closures == old(self).closures,
    {
        let id = FunctionId(self.functions.len());
        let mut function = function;
        function.id = id;
        self.functions.push(function);
        id
    }

    /// The descriptor of `function`, if the store holds one.
    pub fn get_function(&self, function: FunctionId) -> (found: Option<&FunctionType>)
        ensures
            match found {
                Some(descriptor) => function.0 < self.functions_view().len()
                    && self.functions_view()[function.0 as int] == descriptor@,
                None => function.0 >= self.functions_view().len(),
            },
    {
        if function.0 < self.functions.len() {
            Some(&self.functions[function.0])
        } else {
            None
        }
    }

    /// A handle for a new instantiation of the closure of `function`.
    pub fn new_closure_id(&mut self, function: FunctionId) -> (id: ClosureId)
        ensures
            id.0 == old(self).closures@.len(),
            final(self).closures@ == old(self).closures@.push(function),
            final(self).types == old(self).types,
            final(self).functions == old(self).functions,
    {
        let id = ClosureId(self.closures.len());
        self.closures.push(function);
        id
    }
}

} // verus!
