//! A call only adds. Every descriptor, closure, event and fact that was there
//! before a call is there after it, at the same place.

use crate::bindings::Binding;
use crate::constant_functions::constant_function_model;
use crate::context::{BehaviorView, FactsView};
use crate::events::{EventView, RootReference};
use crate::functions::FunctionTypeView;
use crate::model::{
    absorbs, apply_event_model, call_event, call_function_model, call_logical_model,
    call_type_model, capture_model, defers, enter_call_model, generic_call_model, logical_height,
    nested, plain_call_model, prepare_call_model, replay_model, replays_call, resolve_model,
    returned_model, room, room_decreases, with_event, with_types,
    CheckState,
};
use crate::resolver::{logical_model, poly_base, LogicalView};
use crate::results::{with_this, without_this, CallingInputView, CallingInputWithoutThisView};
use crate::substitute::{
    bound_of, bound_value, interned, retyped, substitute_arguments_model, substitute_model,
    substitute_pairs_model, TypeArgumentsView,
};
use crate::types::{
    type_at, ClosureId, ConstructorView, FunctionId, SynthesisedArgument, ThisValue, TypeId,
    TypeView,
};
use vstd::prelude::*;

verus! {

/// Whether `after` starts with `before`.
pub open spec fn is_prefix<T>(before: Seq<T>, after: Seq<T>) -> bool {
    before.len() <= after.len() && forall|i: int|
        0 <= i < before.len() ==> #[trigger] before[i] == after[i]
}

/// Whether `after` holds everything that `before` holds, at the same place:
/// the descriptors, the closures, the events and the facts.
pub open spec fn extends(before: CheckState, after: CheckState) -> bool {
    &&& is_prefix(before.types, after.types)
    &&& is_prefix(before.closures, after.closures)
    &&& is_prefix(before.facts.events, after.facts.events)
    &&& is_prefix(before.facts.variable_current_value, after.facts.variable_current_value)
    &&& is_prefix(before.facts.current_properties, after.facts.current_properties)
    &&& is_prefix(before.facts.closure_current_values, after.facts.closure_current_values)
    &&& before.value_of_this == after.value_of_this
}

/// What starts with something that starts with a third starts with the third.
pub proof fn prefix_of_prefix<T>(first: Seq<T>, second: Seq<T>, third: Seq<T>)
    requires
        is_prefix(first, second),
        is_prefix(second, third),
    ensures
        is_prefix(first, third),
{
    assert forall|i: int| 0 <= i < first.len() implies #[trigger] first[i] == third[i] by {
    }
}

/// A state that extends one that extends a third extends the third.
pub proof fn extends_twice(first: CheckState, second: CheckState, third: CheckState)
    requires
        extends(first, second),
        extends(second, third),
    ensures
        extends(first, third),
{
    prefix_of_prefix(first.types, second.types, third.types);
    prefix_of_prefix(first.closures, second.closures, third.closures);
    prefix_of_prefix(first.facts.events, second.facts.events, third.facts.events);
    prefix_of_prefix(
        first.facts.variable_current_value,
        second.facts.variable_current_value,
        third.facts.variable_current_value,
    );
    prefix_of_prefix(
        first.facts.current_properties,
        second.facts.current_properties,
        third.facts.current_properties,
    );
    prefix_of_prefix(
        first.facts.closure_current_values,
        second.facts.closure_current_values,
        third.facts.closure_current_values,
    );
}

/// Substitution only adds descriptors.
pub proof fn substitute_grows(types: Seq<TypeView>, arguments: TypeArgumentsView, id: TypeId)
    ensures
        is_prefix(types, substitute_model(types, arguments, id).0),
    decreases id.0, 1int, 0nat,
{
    if bound_value(arguments, id) is None {
        match type_at(types, id) {
            Some(TypeView::And(left, right)) => {
                if left.0 < id.0 && right.0 < id.0 {
                    substitute_grows(types, arguments, left);
                    let first = substitute_model(types, arguments, left).0;
                    substitute_grows(first, arguments, right);
                    let second = substitute_model(first, arguments, right).0;
                    prefix_of_prefix(types, first, second);
                    prefix_of_prefix(types, second, substitute_model(types, arguments, id).0);
                }
            },
            Some(TypeView::Or(left, right)) => {
                if left.0 < id.0 && right.0 < id.0 {
                    substitute_grows(types, arguments, left);
                    let first = substitute_model(types, arguments, left).0;
                    substitute_grows(first, arguments, right);
                    let second = substitute_model(first, arguments, right).0;
                    prefix_of_prefix(types, first, second);
                    prefix_of_prefix(types, second, substitute_model(types, arguments, id).0);
                }
            },
            Some(TypeView::Constructor(ConstructorView::FunctionResult { on, with, result })) => {
                if on.0 < id.0 && result.0 < id.0 {
                    substitute_grows(types, arguments, on);
                    let first = substitute_model(types, arguments, on).0;
                    substitute_arguments_grow(first, arguments, with, Some(id.0), 0, Seq::empty());
                    let second = substitute_arguments_model(
                        first,
                        arguments,
                        with,
                        Some(id.0),
                        0,
                        Seq::empty(),
                    ).0;
                    substitute_grows(second, arguments, result);
                    let third = substitute_model(second, arguments, result).0;
                    prefix_of_prefix(types, first, second);
                    prefix_of_prefix(types, second, third);
                    prefix_of_prefix(types, third, substitute_model(types, arguments, id).0);
                }
            },
            Some(
                TypeView::Constructor(
                    ConstructorView::StructureGenerics { on, arguments: applied },
                ),
            ) => {
                if on.0 < id.0 {
                    substitute_grows(types, arguments, on);
                    let first = substitute_model(types, arguments, on).0;
                    substitute_pairs_grow(first, arguments, applied, id.0, 0, Seq::empty(), false);
                    let second = substitute_pairs_model(
                        first,
                        arguments,
                        applied,
                        id.0,
                        0,
                        Seq::empty(),
                        false,
                    ).0;
                    prefix_of_prefix(types, first, second);
                    prefix_of_prefix(types, second, substitute_model(types, arguments, id).0);
                }
            },
            _ => {},
        }
    }
}

/// Substitution into a list of arguments only adds descriptors.
pub proof fn substitute_arguments_grow(
    types: Seq<TypeView>,
    arguments: TypeArgumentsView,
    list: Seq<SynthesisedArgument>,
    bound: Option<usize>,
    at: int,
    done: Seq<SynthesisedArgument>,
)
    ensures
        is_prefix(types, substitute_arguments_model(types, arguments, list, bound, at, done).0),
    decreases bound_of(bound), 0int, (list.len() - at) as nat,
{
    if 0 <= at < list.len() {
        let argument = list[at];
        let (next, ty) = if argument.spec_ty().0 < bound_of(bound) {
            substitute_grows(types, arguments, argument.spec_ty());
            substitute_model(types, arguments, argument.spec_ty())
        } else {
            (types, argument.spec_ty())
        };
        substitute_arguments_grow(
            next,
            arguments,
            list,
            bound,
            at + 1,
            done.push(retyped(argument, ty)),
        );
        prefix_of_prefix(
            types,
            next,
            substitute_arguments_model(types, arguments, list, bound, at, done).0,
        );
    }
}

/// Substitution into the arguments of an applied generic only adds
/// descriptors.
pub proof fn substitute_pairs_grow(
    types: Seq<TypeView>,
    arguments: TypeArgumentsView,
    pairs: Seq<(usize, Binding)>,
    bound: usize,
    at: int,
    done: Seq<(usize, Binding)>,
    changed: bool,
)
    ensures
        is_prefix(
            types,
            substitute_pairs_model(types, arguments, pairs, bound, at, done, changed).0,
        ),
    decreases bound, 0int, (pairs.len() - at) as nat,
{
    if 0 <= at < pairs.len() {
        let (key, binding) = pairs[at];
        let (next, value) = if binding.value.0 < bound {
            substitute_grows(types, arguments, binding.value);
            substitute_model(types, arguments, binding.value)
        } else {
            (types, binding.value)
        };
        substitute_pairs_grow(
            next,
            arguments,
            pairs,
            bound,
            at + 1,
            crate::bindings::put(done, key, Binding { value, ..binding }),
            changed || value != binding.value,
        );
        prefix_of_prefix(
            types,
            next,
            substitute_pairs_model(types, arguments, pairs, bound, at, done, changed).0,
        );
    }
}

/// Giving the captured references their values only adds.
pub proof fn capture_grows(
    state: CheckState,
    arguments: TypeArgumentsView,
    closure: ClosureId,
    captured: Seq<(RootReference, TypeId)>,
    at: int,
)
    ensures
        extends(state, capture_model(state, arguments, closure, captured, at)),
    decreases captured.len() - at,
{
    if 0 <= at < captured.len() {
        let (reference, value) = captured[at];
        substitute_grows(state.types, arguments, value);
        let (types, current) = substitute_model(state.types, arguments, value);
        let next = CheckState {
            types,
            facts: FactsView {
                closure_current_values: state.facts.closure_current_values.push(
                    (closure, reference, current),
                ),
                ..state.facts
            },
            ..state
        };
        capture_grows(next, arguments, closure, captured, at + 1);
        extends_twice(state, next, capture_model(state, arguments, closure, captured, at));
    }
}

/// One more event only adds.
pub proof fn event_grows(state: CheckState, event: EventView)
    ensures
        extends(state, with_event(state, event)),
{
}

/// The replay of one effect only adds.
pub proof fn apply_event_grows(
    functions: Seq<FunctionTypeView>,
    state: CheckState,
    this_value: ThisValue,
    arguments: TypeArgumentsView,
    event: EventView,
    behavior: BehaviorView,
)
    ensures
        extends(
            state,
            apply_event_model(functions, state, this_value, arguments, event, behavior).0,
        ),
    decreases room(functions.len(), behavior.stack), 8int, 0int, 0int,
{
    match event {
        EventView::CallsType {
            on,
            with,
            timing,
            called_with_new,
            reflects_dependency,
            position,
        } => {
            if replays_call(state.types, on, timing, reflects_dependency) {
                substitute_grows(state.types, arguments, on);
                let (first, callee) = substitute_model(state.types, arguments, on);
                substitute_arguments_grow(first, arguments, with, None, 0, Seq::empty());
                let (second, given) = substitute_arguments_model(
                    first,
                    arguments,
                    with,
                    None,
                    0,
                    Seq::empty(),
                );
                prefix_of_prefix(state.types, first, second);
                let input = CallingInputView {
                    called_with_new,
                    this_value,
                    call_site_type_arguments: None,
                    call_site: position,
                };
                call_only_adds(functions, with_types(state, second), callee, input, given, behavior);
                extends_twice(
                    state,
                    with_types(state, second),
                    call_type_model(
                        functions,
                        with_types(state, second),
                        callee,
                        input,
                        given,
                        behavior,
                    ).0,
                );
            }
        },
        EventView::SetsVariable(variable, value, position) => {
            substitute_grows(state.types, arguments, value);
        },
        EventView::Setter { on, under, new, position } => {
            substitute_grows(state.types, arguments, on);
            let first = substitute_model(state.types, arguments, on).0;
            substitute_grows(first, arguments, under);
            let second = substitute_model(first, arguments, under).0;
            substitute_grows(second, arguments, new);
            let third = substitute_model(second, arguments, new).0;
            prefix_of_prefix(state.types, first, second);
            prefix_of_prefix(state.types, second, third);
        },
        EventView::Return { returned, .. } => {
            substitute_grows(state.types, arguments, returned);
        },
    }
}

/// The replay of effects only adds.
pub proof fn replay_grows(
    functions: Seq<FunctionTypeView>,
    state: CheckState,
    this_value: ThisValue,
    arguments: TypeArgumentsView,
    effects: Seq<EventView>,
    at: int,
    behavior: BehaviorView,
)
    ensures
        extends(
            state,
            replay_model(functions, state, this_value, arguments, effects, at, behavior).0,
        ),
    decreases room(functions.len(), behavior.stack), 9int, effects.len() - at, 0int,
{
    if 0 <= at < effects.len() {
        apply_event_grows(functions, state, this_value, arguments, effects[at], behavior);
        let (after, next, returned) = apply_event_model(
            functions,
            state,
            this_value,
            arguments,
            effects[at],
            behavior,
        );
        if returned is None {
            replay_grows(functions, after, this_value, next, effects, at + 1, behavior);
            extends_twice(
                state,
                after,
                replay_model(functions, after, this_value, next, effects, at + 1, behavior).0,
            );
        }
    }
}

/// An ordinary call only adds.
pub proof fn plain_call_grows(
    functions: Seq<FunctionTypeView>,
    state: CheckState,
    function: FunctionId,
    on: TypeId,
    input: CallingInputView,
    structure_generics: Option<Seq<(usize, Binding)>>,
    arguments: Seq<SynthesisedArgument>,
    behavior: BehaviorView,
)
    ensures
        extends(
            state,
            plain_call_model(
                functions,
                state,
                function,
                on,
                input,
                structure_generics,
                arguments,
                behavior,
            ).0,
        ),
    decreases room(functions.len(), behavior.stack), 2int, 0int, 0int,
{
    if function.0 < functions.len() && !behavior.stack.contains(function) {
        let descriptor = functions[function.0 as int];
        let (prepared, local, errors) = prepare_call_model(
            state,
            descriptor,
            input,
            arguments,
            behavior.check_parameters,
        );
        if errors.len() == 0 {
            let (entered, closure) = enter_call_model(prepared, descriptor, function);
            extends_twice(state, prepared, entered);
            let type_arguments = TypeArgumentsView {
                structure_arguments: structure_generics,
                local_arguments: local,
                closure_id: closure,
            };
            room_decreases(functions.len(), behavior.stack, function);
            replay_grows(
                functions,
                entered,
                input.this_value,
                type_arguments,
                descriptor.effects,
                0,
                nested(behavior, function),
            );
            let (replayed, final_arguments, early) = replay_model(
                functions,
                entered,
                input.this_value,
                type_arguments,
                descriptor.effects,
                0,
                nested(behavior, function),
            );
            extends_twice(state, entered, replayed);
            let captured = match closure {
                Some(closure) => {
                    capture_grows(
                        replayed,
                        final_arguments,
                        closure,
                        descriptor.closed_over_variables,
                        0,
                    );
                    capture_model(
                        replayed,
                        final_arguments,
                        closure,
                        descriptor.closed_over_variables,
                        0,
                    )
                },
                None => replayed,
            };
            extends_twice(state, replayed, captured);
            substitute_grows(captured.types, final_arguments, descriptor.return_type);
            let types = returned_model(
                captured.types,
                final_arguments,
                descriptor,
                input.called_with_new,
                early,
            ).0;
            extends_twice(state, captured, with_types(captured, types));
        }
    }
}

/// A call of a function only adds.
pub proof fn function_call_grows(
    functions: Seq<FunctionTypeView>,
    state: CheckState,
    function: FunctionId,
    on: TypeId,
    input: CallingInputView,
    structure_generics: Option<Seq<(usize, Binding)>>,
    arguments: Seq<SynthesisedArgument>,
    behavior: BehaviorView,
    call_constant: bool,
)
    ensures
        extends(
            state,
            call_function_model(
                functions,
                state,
                function,
                on,
                input,
                structure_generics,
                arguments,
                behavior,
                call_constant,
            ).0,
        ),
    decreases room(functions.len(), behavior.stack), 3int, if call_constant {
        1int
    } else {
        0int
    }, 0int,
{
    if function.0 < functions.len() && !behavior.stack.contains(function) && call_constant
        && functions[function.0 as int].constant_function is Some {
        let name = functions[function.0 as int].constant_function->0;
        if !defers(state.types, functions[function.0 as int], arguments) {
            let types = constant_function_model(
                name,
                input.this_value,
                input.call_site_type_arguments,
                arguments,
                state.types,
                state.facts,
            ).0;
            let after = with_types(state, types);
            plain_call_grows(
                functions,
                after,
                function,
                on,
                input,
                structure_generics,
                arguments,
                behavior,
            );
            extends_twice(
                state,
                after,
                plain_call_model(
                    functions,
                    after,
                    function,
                    on,
                    input,
                    structure_generics,
                    arguments,
                    behavior,
                ).0,
            );
        } else {
            function_call_grows(
                functions,
                state,
                function,
                on,
                input,
                structure_generics,
                arguments,
                behavior,
                false,
            );
            let (after, outcome) = call_function_model(
                functions,
                state,
                function,
                on,
                input,
                structure_generics,
                arguments,
                behavior,
                false,
            );
            if let Ok(inner) = outcome {
                let (first, callee) = interned(
                    after.types,
                    TypeView::Function(function, input.this_value),
                );
                let (second, wrapped) = interned(
                    first,
                    TypeView::Constructor(
                        ConstructorView::FunctionResult {
                            on: callee,
                            with: arguments,
                            result: inner.result.returned_type,
                        },
                    ),
                );
                let last = with_event(
                    with_types(after, second),
                    call_event(callee, arguments, input, Some(wrapped)),
                );
                extends_twice(state, after, last);
            }
        }
    } else {
        plain_call_grows(
            functions,
            state,
            function,
            on,
            input,
            structure_generics,
            arguments,
            behavior,
        );
    }
}

/// A call through a tree of functions only adds.
pub proof fn logical_call_grows(
    functions: Seq<FunctionTypeView>,
    state: CheckState,
    logical: LogicalView,
    on: TypeId,
    input: CallingInputWithoutThisView,
    structure_generics: Option<Seq<(usize, Binding)>>,
    arguments: Seq<SynthesisedArgument>,
    behavior: BehaviorView,
)
    ensures
        extends(
            state,
            call_logical_model(
                functions,
                state,
                logical,
                on,
                input,
                structure_generics,
                arguments,
                behavior,
            ).0,
        ),
    decreases room(functions.len(), behavior.stack), 4int, logical_height(logical), 0int,
{
    match logical {
        LogicalView::Pure(function, this_value) => {
            function_call_grows(
                functions,
                state,
                function,
                on,
                with_this(input, this_value),
                structure_generics,
                arguments,
                behavior,
                true,
            );
        },
        LogicalView::Or { .. } => {},
        LogicalView::Implies { on: inner, antecedent } => {
            logical_call_grows(
                functions,
                state,
                *inner,
                on,
                input,
                Some(antecedent),
                arguments,
                behavior,
            );
        },
    }
}

/// A call through the constraint of a polymorphic callee only adds.
pub proof fn generic_call_grows(
    functions: Seq<FunctionTypeView>,
    state: CheckState,
    constraint: TypeId,
    input: CallingInputView,
    arguments: Seq<SynthesisedArgument>,
    on: TypeId,
    behavior: BehaviorView,
)
    ensures
        extends(
            state,
            generic_call_model(functions, state, constraint, input, arguments, on, behavior).0,
        ),
    decreases room(functions.len(), behavior.stack), 5int, on.0, 0int,
{
    if constraint.0 < on.0 {
        resolve_grows(functions, state, constraint, input, arguments, behavior);
        let (after, outcome) = resolve_model(
            functions,
            state,
            constraint,
            input,
            arguments,
            behavior,
        );
        if let Ok(inner) = outcome {
            let last = generic_call_model(
                functions,
                state,
                constraint,
                input,
                arguments,
                on,
                behavior,
            ).0;
            extends_twice(state, after, last);
        }
    }
}

/// Resolving a call only adds.
pub proof fn resolve_grows(
    functions: Seq<FunctionTypeView>,
    state: CheckState,
    on: TypeId,
    input: CallingInputView,
    arguments: Seq<SynthesisedArgument>,
    behavior: BehaviorView,
)
    ensures
        extends(state, resolve_model(functions, state, on, input, arguments, behavior).0),
    decreases room(functions.len(), behavior.stack), 5int, on.0, 1int,
{
    if !absorbs(on, arguments) {
        match poly_base(state.types, on) {
            Some(constraint) => {
                generic_call_grows(functions, state, constraint, input, arguments, on, behavior);
            },
            None => match logical_model(state.types, on) {
                Some(logical) => {
                    logical_call_grows(
                        functions,
                        state,
                        logical,
                        on,
                        without_this(input),
                        None,
                        arguments,
                        behavior,
                    );
                },
                None => {},
            },
        }
    }
}

/// A call only adds: every descriptor, closure, event and fact that was there
/// before the call is there after it, at the same place, whatever the call
/// returns. So a handle means after a call what it meant before.
pub proof fn call_only_adds(
    functions: Seq<FunctionTypeView>,
    state: CheckState,
    on: TypeId,
    input: CallingInputView,
    arguments: Seq<SynthesisedArgument>,
    behavior: BehaviorView,
)
    ensures
        extends(state, call_type_model(functions, state, on, input, arguments, behavior).0),
    decreases room(functions.len(), behavior.stack), 6int, 0int, 0int,
{
    resolve_grows(functions, state, on, input, arguments, behavior);
    let after = resolve_model(functions, state, on, input, arguments, behavior).0;
    event_grows(after, call_event(on, arguments, input, None));
    extends_twice(
        state,
        after,
        call_type_model(functions, state, on, input, arguments, behavior).0,
    );
}

} // verus!
