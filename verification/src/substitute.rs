//! Substitution of type arguments into types.

use crate::bindings::{
    binding_entries, binding_pairs, get_binding, insert_binding, lookup, new_bindings, put,
    Binding,
};
use crate::events::copy_arguments;
use crate::types::{
    type_at, ClosureId, Constructor, ConstructorView, StructureGenericArguments,
    StructureGenerics, SynthesisedArgument, Type, TypeId, TypeStore, TypeView,
};
use vstd::prelude::*;

verus! {

/// The type arguments of a call: those of the structure that the function
/// belongs to and those of the call itself.
pub struct FunctionTypeArguments {
    pub structure_arguments: Option<StructureGenericArguments>,
    pub local_arguments: map_vec::Map<usize, Binding>,
    pub closure_id: Option<ClosureId>,
}

pub struct TypeArgumentsView {
    pub structure_arguments: Option<Seq<(usize, Binding)>>,
    pub local_arguments: Seq<(usize, Binding)>,
    pub closure_id: Option<ClosureId>,
}

impl View for FunctionTypeArguments {
    type V = TypeArgumentsView;

    open spec fn view(&self) -> TypeArgumentsView {
        TypeArgumentsView {
            structure_arguments: match self.structure_arguments {
                Some(arguments) => Some(arguments@),
                None => None,
            },
            local_arguments: binding_entries(self.local_arguments),
            closure_id: self.closure_id,
        }
    }
}

/// What `id` is bound to. A binding of the call wins over a binding of the
/// structure.
pub open spec fn bound_value(arguments: TypeArgumentsView, id: TypeId) -> Option<TypeId> {
    match lookup(arguments.local_arguments, id.0) {
        Some(binding) => Some(binding.value),
        None => match arguments.structure_arguments {
            Some(structure) => match lookup(structure, id.0) {
                Some(binding) => Some(binding.value),
                None => None,
            },
            None => None,
        },
    }
}

/// The bound below which handles are followed: `Some(b)` follows handles
/// under `b`, `None` follows every handle.
pub open spec fn bound_of(bound: Option<usize>) -> int {
    match bound {
        Some(bound) => bound as int,
        None => usize::MAX + 1,
    }
}

/// An argument with another type at the same position.
pub open spec fn retyped(argument: SynthesisedArgument, ty: TypeId) -> SynthesisedArgument {
    SynthesisedArgument::NonSpread { ty, position: argument.spec_position() }
}

/// `types` with `ty` appended, and the handle of `ty`.
pub open spec fn interned(types: Seq<TypeView>, ty: TypeView) -> (Seq<TypeView>, TypeId) {
    (types.push(ty), TypeId(types.len() as usize))
}

/// The type that `id` becomes under `arguments`, with the store that holds it.
///
/// A bound handle becomes what it is bound to. A union, an intersection, a
/// call result and an applied generic are rebuilt from their substituted
/// parts and interned as a new descriptor if a part changed; otherwise the
/// handle stays. Every other type stays. A part is followed only where it was
/// registered before the whole.
pub open spec fn substitute_model(
    types: Seq<TypeView>,
    arguments: TypeArgumentsView,
    id: TypeId,
) -> (Seq<TypeView>, TypeId)
    decreases id.0, 1int, 0nat,
{
    match bound_value(arguments, id) {
        Some(value) => (types, value),
        None => match type_at(types, id) {
            Some(TypeView::And(left, right)) => if left.0 < id.0 && right.0 < id.0 {
                let (first, new_left) = substitute_model(types, arguments, left);
                let (second, new_right) = substitute_model(first, arguments, right);
                if new_left == left && new_right == right {
                    (second, id)
                } else {
                    interned(second, TypeView::And(new_left, new_right))
                }
            } else {
                (types, id)
            },
            Some(TypeView::Or(left, right)) => if left.0 < id.0 && right.0 < id.0 {
                let (first, new_left) = substitute_model(types, arguments, left);
                let (second, new_right) = substitute_model(first, arguments, right);
                if new_left == left && new_right == right {
                    (second, id)
                } else {
                    interned(second, TypeView::Or(new_left, new_right))
                }
            } else {
                (types, id)
            },
            Some(TypeView::Constructor(ConstructorView::FunctionResult { on, with, result })) => if on.0
                < id.0 && result.0 < id.0 {
                let (first, new_on) = substitute_model(types, arguments, on);
                let (second, new_with) = substitute_arguments_model(
                    first,
                    arguments,
                    with,
                    Some(id.0),
                    0,
                    Seq::empty(),
                );
                let (third, new_result) = substitute_model(second, arguments, result);
                if new_on == on && new_with == with && new_result == result {
                    (third, id)
                } else {
                    interned(
                        third,
                        TypeView::Constructor(
                            ConstructorView::FunctionResult {
                                on: new_on,
                                with: new_with,
                                result: new_result,
                            },
                        ),
                    )
                }
            } else {
                (types, id)
            },
            Some(
                TypeView::Constructor(
                    ConstructorView::StructureGenerics { on, arguments: applied },
                ),
            ) => if on.0 < id.0 {
                let (first, new_on) = substitute_model(types, arguments, on);
                let (second, new_applied, changed) = substitute_pairs_model(
                    first,
                    arguments,
                    applied,
                    id.0,
                    0,
                    Seq::empty(),
                    false,
                );
                if new_on == on && !changed {
                    (second, id)
                } else {
                    interned(
                        second,
                        TypeView::Constructor(
                            ConstructorView::StructureGenerics {
                                on: new_on,
                                arguments: new_applied,
                            },
                        ),
                    )
                }
            } else {
                (types, id)
            },
            _ => (types, id),
        },
    }
}

/// The arguments from index `at` on, each with its type substituted where its
/// handle is under the bound, appended to `done`.
pub open spec fn substitute_arguments_model(
    types: Seq<TypeView>,
    arguments: TypeArgumentsView,
    list: Seq<SynthesisedArgument>,
    bound: Option<usize>,
    at: int,
    done: Seq<SynthesisedArgument>,
) -> (Seq<TypeView>, Seq<SynthesisedArgument>)
    decreases bound_of(bound), 0int, (list.len() - at) as nat,
{
    if at < 0 || at >= list.len() {
        (types, done)
    } else {
        let argument = list[at];
        let (next, ty) = if argument.spec_ty().0 < bound_of(bound) {
            substitute_model(types, arguments, argument.spec_ty())
        } else {
            (types, argument.spec_ty())
        };
        substitute_arguments_model(
            next,
            arguments,
            list,
            bound,
            at + 1,
            done.push(retyped(argument, ty)),
        )
    }
}

/// The pairs from index `at` on, each with its value substituted where its
/// handle is under the bound, put into `done` in order; and whether a value
/// changed, here or before (`changed`).
pub open spec fn substitute_pairs_model(
    types: Seq<TypeView>,
    arguments: TypeArgumentsView,
    pairs: Seq<(usize, Binding)>,
    bound: usize,
    at: int,
    done: Seq<(usize, Binding)>,
    changed: bool,
) -> (Seq<TypeView>, Seq<(usize, Binding)>, bool)
    decreases bound, 0int, (pairs.len() - at) as nat,
{
    if at < 0 || at >= pairs.len() {
        (types, done, changed)
    } else {
        let (key, binding) = pairs[at];
        let (next, value) = if binding.value.0 < bound {
            substitute_model(types, arguments, binding.value)
        } else {
            (types, binding.value)
        };
        substitute_pairs_model(
            next,
            arguments,
            pairs,
            bound,
            at + 1,
            put(done, key, Binding { value, ..binding }),
            changed || value != binding.value,
        )
    }
}

impl FunctionTypeArguments {
    /// What `id` is bound to.
    pub fn get_argument(&self, id: TypeId) -> (found: Option<TypeId>)
        ensures
            found == bound_value(self@, id),
    {
        match get_binding(&self.local_arguments, id.0) {
            Some(binding) => Some(binding.value),
            None => match &self.structure_arguments {
                Some(structure) => match get_binding(&structure.type_arguments, id.0) {
                    Some(binding) => Some(binding.value),
                    None => None,
                },
                None => None,
            },
        }
    }
}

/// What `id` names, with the parts that substitution follows copied out.
enum Shape {
    And(TypeId, TypeId),
    Or(TypeId, TypeId),
    FunctionResult(TypeId, Vec<SynthesisedArgument>, TypeId),
    StructureGenerics(TypeId, Vec<(usize, Binding)>),
    Other,
}

impl Shape {
    spec fn matches_type(self, ty: Option<TypeView>) -> bool {
        match self {
            Shape::And(left, right) => ty == Some(TypeView::And(left, right)),
            Shape::Or(left, right) => ty == Some(TypeView::Or(left, right)),
            Shape::FunctionResult(on, with, result) => ty == Some(
                TypeView::Constructor(
                    ConstructorView::FunctionResult { on, with: with@, result },
                ),
            ),
            Shape::StructureGenerics(on, pairs) => ty == Some(
                TypeView::Constructor(
                    ConstructorView::StructureGenerics { on, arguments: pairs@ },
                ),
            ),
            Shape::Other => match ty {
                Some(TypeView::And(..)) => false,
                Some(TypeView::Or(..)) => false,
                Some(TypeView::Constructor(_)) => false,
                _ => true,
            },
        }
    }
}

fn shape_of(id: TypeId, types: &TypeStore) -> (shape: Shape)
    ensures
        shape.matches_type(type_at(types.types_view(), id)),
{
    match types.get_type_by_id(id) {
        Some(Type::And(left, right)) => Shape::And(*left, *right),
        Some(Type::Or(left, right)) => Shape::Or(*left, *right),
        Some(Type::Constructor(Constructor::FunctionResult { on, with, result })) => {
            Shape::FunctionResult(*on, copy_arguments(with), *result)
        },
        Some(Type::Constructor(Constructor::StructureGenerics(generics))) => {
            Shape::StructureGenerics(generics.on, binding_pairs(&generics.arguments.type_arguments))
        },
        _ => Shape::Other,
    }
}

/// Whether two lists of arguments hold the same arguments.
fn same_arguments(left: &Vec<SynthesisedArgument>, right: &Vec<SynthesisedArgument>) -> (same: bool)
    requires
        left@.len() == right@.len(),
        forall|i: int|
            0 <= i < left@.len() ==> (#[trigger] left@[i]).spec_position() == right@[i].spec_position(),
    ensures
        same == (left@ == right@),
{
    let mut at: usize = 0;
    while at < left.len()
        invariant
            at <= left.len(),
            left@.len() == right@.len(),
            forall|i: int|
                0 <= i < left@.len() ==> (#[trigger] left@[i]).spec_position()
                    == right@[i].spec_position(),
            forall|i: int| 0 <= i < at ==> left@[i] == right@[i],
        decreases left.len() - at,
    {
        if left[at].to_type() != right[at].to_type() {
            return false;
        }
        at += 1;
    }
    assert(left@ =~= right@);
    true
}

/// Substitutes `arguments` into the type that `id` names and returns the
/// handle of the outcome.
pub fn substitute(id: TypeId, arguments: &FunctionTypeArguments, types: &mut TypeStore) -> (out:
    TypeId)
    ensures
        (final(types).types_view(), out) == substitute_model(
            old(types).types_view(),
            arguments@,
            id,
        ),
        final(types).functions == old(types).functions,
        final(types).closures == old(types).closures,
    decreases id.0, 1int, 0nat,
{
    if let Some(value) = arguments.get_argument(id) {
        return value;
    }
    match shape_of(id, types) {
        Shape::And(left, right) => {
            if left.0 < id.0 && right.0 < id.0 {
                let new_left = substitute(left, arguments, types);
                let new_right = substitute(right, arguments, types);
                if new_left == left && new_right == right {
                    id
                } else {
                    types.register_type(Type::And(new_left, new_right))
                }
            } else {
                id
            }
        },
        Shape::Or(left, right) => {
            if left.0 < id.0 && right.0 < id.0 {
                let new_left = substitute(left, arguments, types);
                let new_right = substitute(right, arguments, types);
                if new_left == left && new_right == right {
                    id
                } else {
                    types.register_type(Type::Or(new_left, new_right))
                }
            } else {
                id
            }
        },
        Shape::FunctionResult(on, with, result) => {
            if on.0 < id.0 && result.0 < id.0 {
                let new_on = substitute(on, arguments, types);
                let new_with = substitute_arguments(&with, arguments, types, Some(id.0));
                let new_result = substitute(result, arguments, types);
                if new_on == on && new_result == result && same_arguments(&new_with, &with) {
                    id
                } else {
                    types.register_type(
                        Type::Constructor(
                            Constructor::FunctionResult {
                                on: new_on,
                                with: new_with,
                                result: new_result,
                            },
                        ),
                    )
                }
            } else {
                id
            }
        },
        Shape::StructureGenerics(on, pairs) => {
            if on.0 < id.0 {
                let new_on = substitute(on, arguments, types);
                let (new_applied, changed) = substitute_pairs(&pairs, arguments, types, id.0);
                if new_on == on && !changed {
                    id
                } else {
                    types.register_type(
                        Type::Constructor(
                            Constructor::StructureGenerics(
                                StructureGenerics {
                                    on: new_on,
                                    arguments: StructureGenericArguments {
                                        type_arguments: new_applied,
                                    },
                                },
                            ),
                        ),
                    )
                }
            } else {
                id
            }
        },
        Shape::Other => id,
    }
}

/// Substitutes `arguments` into the type of each argument of `list` whose
/// handle is under the bound.
pub fn substitute_arguments(
    list: &Vec<SynthesisedArgument>,
    arguments: &FunctionTypeArguments,
    types: &mut TypeStore,
    bound: Option<usize>,
) -> (out: Vec<SynthesisedArgument>)
    ensures
        (final(types).types_view(), out@) == substitute_arguments_model(
            old(types).types_view(),
            arguments@,
            list@,
            bound,
            0,
            Seq::empty(),
        ),
        out@.len() == list@.len(),
        forall|i: int|
            0 <= i < out@.len() ==> (#[trigger] out@[i]).spec_position() == list@[i].spec_position(),
        final(types).functions == old(types).functions,
        final(types).closures == old(types).closures,
    decreases bound_of(bound), 0int, list@.len(),
{
    let mut out: Vec<SynthesisedArgument> = Vec::new();
    let mut at: usize = 0;
    while at < list.len()
        invariant
            at <= list.len(),
            out@.len() == at,
            forall|i: int|
                0 <= i < out@.len() ==> (#[trigger] out@[i]).spec_position()
                    == list@[i].spec_position(),
            substitute_arguments_model(types.types_view(), arguments@, list@, bound, at as int, out@)
                == substitute_arguments_model(
                old(types).types_view(),
                arguments@,
                list@,
                bound,
                0,
                Seq::empty(),
            ),
            types.functions == old(types).functions,
            types.closures == old(types).closures,
        decreases list.len() - at,
    {
        let argument = list[at];
        let follow = match bound {
            Some(bound) => argument.to_type().0 < bound,
            None => true,
        };
        let ty = if follow {
            substitute(argument.to_type(), arguments, types)
        } else {
            argument.to_type()
        };
        out.push(SynthesisedArgument::NonSpread { ty, position: argument.get_position() });
        at += 1;
    }
    out
}

/// Substitutes `arguments` into the value of each pair whose handle is under
/// the bound, and says whether the outcome differs from `pairs`.
fn substitute_pairs(
    pairs: &Vec<(usize, Binding)>,
    arguments: &FunctionTypeArguments,
    types: &mut TypeStore,
    bound: usize,
) -> (out: (map_vec::Map<usize, Binding>, bool))
    ensures
        (final(types).types_view(), binding_entries(out.0), out.1) == substitute_pairs_model(
            old(types).types_view(),
            arguments@,
            pairs@,
            bound,
            0,
            Seq::empty(),
            false,
        ),
        final(types).functions == old(types).functions,
        final(types).closures == old(types).closures,
    decreases bound, 0int, pairs@.len(),
{
    let mut done = new_bindings();
    let mut changed = false;
    let mut at: usize = 0;
    while at < pairs.len()
        invariant
            at <= pairs.len(),
            substitute_pairs_model(
                types.types_view(),
                arguments@,
                pairs@,
                bound,
                at as int,
                binding_entries(done),
                changed,
            ) == substitute_pairs_model(
                old(types).types_view(),
                arguments@,
                pairs@,
                bound,
                0,
                Seq::empty(),
                false,
            ),
            types.functions == old(types).functions,
            types.closures == old(types).closures,
        decreases pairs.len() - at,
    {
        let (key, binding) = pairs[at];
        let value = if binding.value.0 < bound {
            substitute(binding.value, arguments, types)
        } else {
            binding.value
        };
        if value != binding.value {
            changed = true;
        }
        insert_binding(
            &mut done,
            key,
            Binding { value, position: binding.position, parameter: binding.parameter },
        );
        at += 1;
    }
    (done, changed)
}

} // verus!
