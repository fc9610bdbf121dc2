//! From a type to what can be called through it: the constraint of a
//! polymorphic value, or the tree of functions that a type stands for.

use crate::bindings::Binding;
use crate::context::Environment;
use crate::subtyping::constraint_of;
use crate::types::{
    type_at, Constructor, ConstructorView, FunctionId, PolyNature, StructureGenericArguments,
    ThisValue, Type, TypeId, TypeStore, TypeView,
};
use vstd::prelude::*;

verus! {

/// A tree over what a type resolves to. `Implies` keeps, by value, the type
/// arguments under which its subtree holds.
pub enum Logical<T> {
    Pure(T),
    Or { left: Box<Logical<T>>, right: Box<Logical<T>> },
    Implies { on: Box<Logical<T>>, antecedent: StructureGenericArguments },
}

pub enum LogicalView {
    Pure(FunctionId, ThisValue),
    Or { left: Box<LogicalView>, right: Box<LogicalView> },
    Implies { on: Box<LogicalView>, antecedent: Seq<(usize, Binding)> },
}

/// The view of a tree of callables.
pub open spec fn logical_view(logical: Logical<(FunctionId, ThisValue)>) -> LogicalView
    decreases logical,
{
    match logical {
        Logical::Pure((function, this_value)) => LogicalView::Pure(function, this_value),
        Logical::Or { left, right } => LogicalView::Or {
            left: Box::new(logical_view(*left)),
            right: Box::new(logical_view(*right)),
        },
        Logical::Implies { on, antecedent } => LogicalView::Implies {
            on: Box::new(logical_view(*on)),
            antecedent: antecedent@,
        },
    }
}

/// The view of an optional tree of callables.
pub open spec fn optional_logical_view(
    logical: Option<Logical<(FunctionId, ThisValue)>>,
) -> Option<LogicalView> {
    match logical {
        Some(logical) => Some(logical_view(logical)),
        None => None,
    }
}

/// The constraint through which a polymorphic value is called: the constraint
/// of a generic or of a parameter, or the result that a call result stands
/// for. It is always registered before the value itself.
pub open spec fn poly_base(types: Seq<TypeView>, on: TypeId) -> Option<TypeId> {
    match type_at(types, on) {
        Some(TypeView::RootPolyType(nature)) => match constraint_of(nature) {
            Some(constraint) => if constraint.0 < on.0 {
                Some(constraint)
            } else {
                None
            },
            None => None,
        },
        Some(TypeView::Constructor(ConstructorView::FunctionResult { result, .. })) => if result.0
            < on.0 {
            Some(result)
        } else {
            None
        },
        _ => None,
    }
}

/// What can be called through the type `on`.
///
/// A function is itself. A union is the union of both sides if both can be
/// called, and nothing otherwise. An applied generic is what the generic is,
/// under the arguments it was applied to. An alias without parameters is what
/// its target is. Nothing else can be called this way. A part is followed only
/// where it was registered before the whole.
pub open spec fn logical_model(types: Seq<TypeView>, on: TypeId) -> Option<LogicalView>
    decreases on.0,
{
    match type_at(types, on) {
        Some(TypeView::Function(function, this_value)) => Some(
            LogicalView::Pure(function, this_value),
        ),
        Some(TypeView::FunctionReference(function, this_value)) => Some(
            LogicalView::Pure(function, this_value),
        ),
        Some(TypeView::Or(left, right)) => if left.0 < on.0 && right.0 < on.0 {
            match (logical_model(types, left), logical_model(types, right)) {
                (Some(left), Some(right)) => Some(
                    LogicalView::Or { left: Box::new(left), right: Box::new(right) },
                ),
                _ => None,
            }
        } else {
            None
        },
        Some(
            TypeView::Constructor(ConstructorView::StructureGenerics { on: generic, arguments }),
        ) => if generic.0 < on.0 {
            match logical_model(types, generic) {
                Some(inner) => Some(
                    LogicalView::Implies { on: Box::new(inner), antecedent: arguments },
                ),
                None => None,
            }
        } else {
            None
        },
        Some(TypeView::AliasTo { to, parameters }) => if parameters is None && to.0 < on.0 {
            logical_model(types, to)
        } else {
            None
        },
        _ => None,
    }
}

impl Environment {
    /// The constraint through which the polymorphic value `on` is called, if
    /// `on` is one.
    pub fn get_poly_base(&self, on: TypeId, types: &TypeStore) -> (base: Option<TypeId>)
        ensures
            base == poly_base(types.types_view(), on),
            base matches Some(constraint) ==> constraint.0 < on.0,
    {
        let found = match types.get_type_by_id(on) {
            Some(Type::RootPolyType(PolyNature::Generic { eager_fixed })) => Some(*eager_fixed),
            Some(Type::RootPolyType(PolyNature::Parameter { fixed_to })) => Some(*fixed_to),
            Some(Type::Constructor(Constructor::FunctionResult { result, .. })) => Some(*result),
            _ => None,
        };
        match found {
            Some(constraint) => if constraint.0 < on.0 {
                Some(constraint)
            } else {
                None
            },
            None => None,
        }
    }
}

/// What can be called through the type `on`.
pub fn get_logical_callable_from_type(on: TypeId, types: &TypeStore) -> (logical: Option<
    Logical<(FunctionId, ThisValue)>,
>)
    ensures
        optional_logical_view(logical) == logical_model(types.types_view(), on),
    decreases on.0,
{
    match types.get_type_by_id(on) {
        Some(Type::Function(function, this_value)) => Some(
            Logical::Pure((*function, *this_value)),
        ),
        Some(Type::FunctionReference(function, this_value)) => Some(
            Logical::Pure((*function, *this_value)),
        ),
        Some(Type::Or(left, right)) => {
            if left.0 < on.0 && right.0 < on.0 {
                let left = get_logical_callable_from_type(*left, types);
                let right = get_logical_callable_from_type(*right, types);
                match (left, right) {
                    (Some(left), Some(right)) => Some(
                        Logical::Or { left: Box::new(left), right: Box::new(right) },
                    ),
                    _ => None,
                }
            } else {
                None
            }
        },
        Some(Type::Constructor(Constructor::StructureGenerics(generic))) => {
            if generic.on.0 < on.0 {
                match get_logical_callable_from_type(generic.on, types) {
                    Some(inner) => Some(
                        Logical::Implies {
                            on: Box::new(inner),
                            antecedent: generic.arguments.duplicate(),
                        },
                    ),
                    None => None,
                }
            } else {
                None
            }
        },
        Some(Type::AliasTo { to, parameters }) => {
            if parameters.is_none() && to.0 < on.0 {
                get_logical_callable_from_type(*to, types)
            } else {
                None
            }
        },
        _ => None,
    }
}

} // verus!
