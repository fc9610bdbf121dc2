//! What holds of every call, proved from the model of [`crate::model`].

use crate::bindings::Binding;
use crate::calling::{error_diagnostics, handled, info_diagnostics};
use crate::constant_functions::constant_function_model;
use crate::context::BehaviorView;
use crate::diagnostics::{is_error, DiagnosticView};
use crate::events::{EventView, RootReference};
use crate::functions::FunctionTypeView;
use crate::model::{
    absorbed_result, absorbs, apply_event_model, call_event, call_function_model,
    call_logical_model, call_type_model, capture_model, defers, guarded_result, logical_height,
    nested, plain_call_model, replay_model, resolve_model, skips_wrapping, CheckState,
};
use crate::resolver::{logical_model, poly_base, LogicalView};
use crate::results::{
    with_this, without_this, CallErrorView, CallResultView, CallingInputView,
    CallingInputWithoutThisView, ResolutionView,
};
use crate::substitute::TypeArgumentsView;
use crate::types::{
    type_at, ClosureId, ConstructorView, FunctionId, SynthesisedArgument, ThisValue, TypeId,
    TypeView, ERROR_TYPE,
};
use vstd::prelude::*;

verus! {

/// A call whose callee or whose argument is the recovery type returns the
/// recovery type, without an error and without a warning, names no function
/// and changes nothing. Handed to the data of a run it adds no message.
pub proof fn error_is_absorbed(
    functions: Seq<FunctionTypeView>,
    state: CheckState,
    on: TypeId,
    input: CallingInputView,
    arguments: Seq<SynthesisedArgument>,
    behavior: BehaviorView,
    diagnostics: Seq<DiagnosticView>,
    called: Seq<FunctionId>,
)
    requires
        absorbs(on, arguments),
    ensures
        call_type_model(functions, state, on, input, arguments, behavior) == (
            state,
            Ok::<CallResultView, Seq<CallErrorView>>(absorbed_result()),
        ),
        handled(
            call_type_model(functions, state, on, input, arguments, behavior).1,
            input.call_site,
            diagnostics,
            called,
        ) == ((TypeId(ERROR_TYPE), None::<crate::results::SpecialExpressions>), diagnostics, called),
{
}

/// An ordinary call that fails returns at least one error.
pub proof fn plain_call_errors(
    functions: Seq<FunctionTypeView>,
    state: CheckState,
    function: FunctionId,
    on: TypeId,
    input: CallingInputView,
    structure_generics: Option<Seq<(usize, Binding)>>,
    arguments: Seq<SynthesisedArgument>,
    behavior: BehaviorView,
)
    ensures
        plain_call_model(
            functions,
            state,
            function,
            on,
            input,
            structure_generics,
            arguments,
            behavior,
        ).1 matches Err(errors) ==> errors.len() > 0,
{
}

/// A call of a function that fails returns at least one error.
pub proof fn function_call_errors(
    functions: Seq<FunctionTypeView>,
    state: CheckState,
    function: FunctionId,
    on: TypeId,
    input: CallingInputView,
    structure_generics: Option<Seq<(usize, Binding)>>,
    arguments: Seq<SynthesisedArgument>,
    behavior: BehaviorView,
    call_constant: bool,
)
    ensures
        call_function_model(
            functions,
            state,
            function,
            on,
            input,
            structure_generics,
            arguments,
            behavior,
            call_constant,
        ).1 matches Err(errors) ==> errors.len() > 0,
    decreases if call_constant {
        1int
    } else {
        0int
    },
{
    if function.0 < functions.len() && !behavior.stack.contains(function) && call_constant
        && functions[function.0 as int].constant_function is Some {
        let name = functions[function.0 as int].constant_function->0;
        if !defers(state.types, functions[function.0 as int], arguments) {
            let types = constant_function_model(
                name,
                input.this_value,
                input.call_site_type_arguments,
                arguments,
                state.types,
                state.facts,
            ).0;
            plain_call_errors(
                functions,
                crate::model::with_types(state, types),
                function,
                on,
                input,
                structure_generics,
                arguments,
                behavior,
            );
        } else {
            function_call_errors(
                functions,
                state,
                function,
                on,
                input,
                structure_generics,
                arguments,
                behavior,
                false,
            );
        }
    } else {
        plain_call_errors(
            functions,
            state,
            function,
            on,
            input,
            structure_generics,
            arguments,
            behavior,
        );
    }
}

/// A call through a tree of functions that fails returns at least one error.
pub proof fn logical_call_errors(
    functions: Seq<FunctionTypeView>,
    state: CheckState,
    logical: LogicalView,
    on: TypeId,
    input: CallingInputWithoutThisView,
    structure_generics: Option<Seq<(usize, Binding)>>,
    arguments: Seq<SynthesisedArgument>,
    behavior: BehaviorView,
)
    ensures
        call_logical_model(
            functions,
            state,
            logical,
            on,
            input,
            structure_generics,
            arguments,
            behavior,
        ).1 matches Err(errors) ==> errors.len() > 0,
    decreases logical_height(logical),
{
    match logical {
        LogicalView::Pure(function, this_value) => {
            function_call_errors(
                functions,
                state,
                function,
                on,
                with_this(input, this_value),
                structure_generics,
                arguments,
                behavior,
                true,
            );
        },
        LogicalView::Or { .. } => {},
        LogicalView::Implies { on: inner, antecedent } => {
            logical_call_errors(
                functions,
                state,
                *inner,
                on,
                input,
                Some(antecedent),
                arguments,
                behavior,
            );
        },
    }
}

/// A call that fails to resolve returns at least one error.
pub proof fn resolve_errors(
    functions: Seq<FunctionTypeView>,
    state: CheckState,
    on: TypeId,
    input: CallingInputView,
    arguments: Seq<SynthesisedArgument>,
    behavior: BehaviorView,
)
    ensures
        resolve_model(functions, state, on, input, arguments, behavior).1 matches Err(errors)
            ==> errors.len() > 0,
    decreases on.0,
{
    if !absorbs(on, arguments) {
        match poly_base(state.types, on) {
            Some(constraint) => {
                if constraint.0 < on.0 {
                    resolve_errors(functions, state, constraint, input, arguments, behavior);
                }
            },
            None => match logical_model(state.types, on) {
                Some(logical) => {
                    logical_call_errors(
                        functions,
                        state,
                        logical,
                        on,
                        without_this(input),
                        None,
                        arguments,
                        behavior,
                    );
                },
                None => {},
            },
        }
    }
}

/// A call returns errors only if it produced at least one. Handed to the data
/// of a run, a call with errors returns the recovery type without a special
/// expression, notes no function and adds its errors as messages; a call
/// without errors adds no error.
pub proof fn errors_give_the_recovery_type(
    functions: Seq<FunctionTypeView>,
    state: CheckState,
    on: TypeId,
    input: CallingInputView,
    arguments: Seq<SynthesisedArgument>,
    behavior: BehaviorView,
    diagnostics: Seq<DiagnosticView>,
    called: Seq<FunctionId>,
)
    ensures
        ({
            let outcome = call_type_model(functions, state, on, input, arguments, behavior).1;
            let (returned, messages, noted) = handled(
                outcome,
                input.call_site,
                diagnostics,
                called,
            );
            match outcome {
                Err(errors) => {
                    &&& errors.len() > 0
                    &&& returned == (
                        TypeId(ERROR_TYPE),
                        None::<crate::results::SpecialExpressions>,
                    )
                    &&& noted == called
                    &&& messages == diagnostics + error_diagnostics(errors)
                    &&& is_error(messages.last())
                },
                Ok(result) => {
                    &&& messages.len() == diagnostics.len() + result.warnings.len()
                    &&& forall|i: int|
                        diagnostics.len() <= i < messages.len() ==> !is_error(
                            #[trigger] messages[i],
                        )
                },
            }
        }),
{
    resolve_errors(functions, state, on, input, arguments, behavior);
}

/// A call of a function that is being replayed already does not enter the
/// function: it returns the recovery type, names the function and changes
/// nothing. So replay never nests deeper than there are functions.
pub proof fn replayed_function_is_not_entered(
    functions: Seq<FunctionTypeView>,
    state: CheckState,
    function: FunctionId,
    on: TypeId,
    input: CallingInputView,
    structure_generics: Option<Seq<(usize, Binding)>>,
    arguments: Seq<SynthesisedArgument>,
    behavior: BehaviorView,
    call_constant: bool,
)
    requires
        function.0 < functions.len(),
        behavior.stack.contains(function),
    ensures
        call_function_model(
            functions,
            state,
            function,
            on,
            input,
            structure_generics,
            arguments,
            behavior,
            call_constant,
        ) == (state, Ok::<ResolutionView, Seq<CallErrorView>>(guarded_result(function))),
{
    assert(plain_call_model(
        functions,
        state,
        function,
        on,
        input,
        structure_generics,
        arguments,
        behavior,
    ) == (state, Ok::<ResolutionView, Seq<CallErrorView>>(guarded_result(function))));
}

/// A successful call of a polymorphic callee whose result needs wrapping
/// returns a new call result of the callee that holds the arguments and, as
/// its result, the type that the call through the constraint returned. The
/// last event is the call of the callee and reflects the new type.
pub proof fn dependent_result_wraps_inner(
    functions: Seq<FunctionTypeView>,
    state: CheckState,
    on: TypeId,
    input: CallingInputView,
    arguments: Seq<SynthesisedArgument>,
    behavior: BehaviorView,
)
    requires
        !absorbs(on, arguments),
        poly_base(state.types, on) is Some,
        resolve_model(
            functions,
            state,
            poly_base(state.types, on)->0,
            input,
            arguments,
            behavior,
        ).1 is Ok,
        !skips_wrapping(
            resolve_model(
                functions,
                state,
                poly_base(state.types, on)->0,
                input,
                arguments,
                behavior,
            ).0.types,
            resolve_model(
                functions,
                state,
                poly_base(state.types, on)->0,
                input,
                arguments,
                behavior,
            ).1->Ok_0.result.returned_type,
        ),
        resolve_model(
            functions,
            state,
            poly_base(state.types, on)->0,
            input,
            arguments,
            behavior,
        ).0.types.len() <= usize::MAX,
    ensures
        ({
            let inner = resolve_model(
                functions,
                state,
                poly_base(state.types, on)->0,
                input,
                arguments,
                behavior,
            );
            let (after, outcome) = call_type_model(
                functions,
                state,
                on,
                input,
                arguments,
                behavior,
            );
            &&& outcome is Ok
            &&& type_at(after.types, outcome->Ok_0.returned_type) == Some(
                TypeView::Constructor(
                    ConstructorView::FunctionResult {
                        on,
                        with: arguments,
                        result: inner.1->Ok_0.result.returned_type,
                    },
                ),
            )
            &&& after.facts.events == inner.0.facts.events.push(
                call_event(on, arguments, input, Some(outcome->Ok_0.returned_type)),
            )
        }),
{
}

/// A successful call of an intrinsic that is put off returns a new call
/// result that holds the arguments and, as its result, the type that the
/// function returned when it was called as an ordinary function. The callee
/// of the call result is a new type for the function with the receiver of the
/// call, and the last event is the call of that type and reflects the call
/// result.
pub proof fn deferred_result_wraps_inner(
    functions: Seq<FunctionTypeView>,
    state: CheckState,
    function: FunctionId,
    on: TypeId,
    input: CallingInputView,
    structure_generics: Option<Seq<(usize, Binding)>>,
    arguments: Seq<SynthesisedArgument>,
    behavior: BehaviorView,
)
    requires
        function.0 < functions.len(),
        !behavior.stack.contains(function),
        defers(state.types, functions[function.0 as int], arguments),
        plain_call_model(
            functions,
            state,
            function,
            on,
            input,
            structure_generics,
            arguments,
            behavior,
        ).1 is Ok,
        plain_call_model(
            functions,
            state,
            function,
            on,
            input,
            structure_generics,
            arguments,
            behavior,
        ).0.types.len() < usize::MAX,
    ensures
        ({
            let (ran, inner) = plain_call_model(
                functions,
                state,
                function,
                on,
                input,
                structure_generics,
                arguments,
                behavior,
            );
            let (after, outcome) = call_function_model(
                functions,
                state,
                function,
                on,
                input,
                structure_generics,
                arguments,
                behavior,
                true,
            );
            let callee = TypeId(ran.types.len() as usize);
            &&& outcome matches Ok(resolution)
            &&& resolution.kind is Dependent
            &&& resolution.result.called is None
            &&& type_at(after.types, callee) == Some(
                TypeView::Function(function, input.this_value),
            )
            &&& type_at(after.types, resolution.result.returned_type) == Some(
                TypeView::Constructor(
                    ConstructorView::FunctionResult {
                        on: callee,
                        with: arguments,
                        result: inner->Ok_0.result.returned_type,
                    },
                ),
            )
            &&& after.facts.events == ran.facts.events.push(
                call_event(callee, arguments, input, Some(resolution.result.returned_type)),
            )
        }),
{
    assert(call_function_model(
        functions,
        state,
        function,
        on,
        input,
        structure_generics,
        arguments,
        behavior,
        false,
    ) == plain_call_model(
        functions,
        state,
        function,
        on,
        input,
        structure_generics,
        arguments,
        behavior,
    ));
}

/// How many of the events are calls.
pub open spec fn count_calls(events: Seq<EventView>) -> nat
    decreases events.len(),
{
    if events.len() == 0 {
        0
    } else {
        count_calls(events.drop_last()) + if events.last() is CallsType {
            1nat
        } else {
            0nat
        }
    }
}

/// Whether none of the effects is a call.
pub open spec fn has_no_calls(effects: Seq<EventView>) -> bool {
    forall|i: int| 0 <= i < effects.len() ==> !(#[trigger] effects[i] is CallsType)
}

/// Whether the function that a result names, if it names one, has no call
/// among its effects.
pub open spec fn ran_without_calls(functions: Seq<FunctionTypeView>, result: CallResultView) -> bool {
    match result.called {
        Some(function) => function.0 < functions.len() && has_no_calls(
            functions[function.0 as int].effects,
        ),
        None => true,
    }
}

/// One more event is one more call exactly if the event is a call.
pub proof fn count_calls_push(events: Seq<EventView>, event: EventView)
    ensures
        count_calls(events.push(event)) == count_calls(events) + if event is CallsType {
            1nat
        } else {
            0nat
        },
{
    assert(events.push(event).drop_last() =~= events);
}

/// The replay of effects that hold no call appends no call.
pub proof fn replay_keeps_calls(
    functions: Seq<FunctionTypeView>,
    state: CheckState,
    this_value: ThisValue,
    arguments: TypeArgumentsView,
    effects: Seq<EventView>,
    at: int,
    behavior: BehaviorView,
)
    requires
        has_no_calls(effects),
        0 <= at,
    ensures
        count_calls(
            replay_model(functions, state, this_value, arguments, effects, at, behavior).0.facts.events,
        ) == count_calls(state.facts.events),
    decreases effects.len() - at,
{
    if at < effects.len() {
        let (after, next, returned) = apply_event_model(
            functions,
            state,
            this_value,
            arguments,
            effects[at],
            behavior,
        );
        match effects[at] {
            EventView::SetsVariable(..) => {
                count_calls_push(state.facts.events, after.facts.events.last());
            },
            EventView::Setter { .. } => {
                count_calls_push(state.facts.events, after.facts.events.last());
            },
            _ => {},
        }
        if returned is None {
            replay_keeps_calls(functions, after, this_value, next, effects, at + 1, behavior);
        }
    }
}

/// Giving the captured references their values appends no event.
pub proof fn capture_keeps_events(
    state: CheckState,
    arguments: TypeArgumentsView,
    closure: ClosureId,
    captured: Seq<(RootReference, TypeId)>,
    at: int,
)
    ensures
        capture_model(state, arguments, closure, captured, at).facts.events == state.facts.events,
    decreases captured.len() - at,
{
    if 0 <= at < captured.len() {
        let (reference, value) = captured[at];
        let (types, current) = crate::substitute::substitute_model(state.types, arguments, value);
        capture_keeps_events(
            CheckState {
                types,
                facts: crate::context::FactsView {
                    closure_current_values: state.facts.closure_current_values.push(
                        (closure, reference, current),
                    ),
                    ..state.facts
                },
                ..state
            },
            arguments,
            closure,
            captured,
            at + 1,
        );
    }
}

/// What a result and the states around it have to do with each other where
/// a function ran or an intrinsic computed the result: a function that ran is
/// one of the store, and where it has no call among its effects, no call was
/// appended.
pub open spec fn keeps_calls(
    functions: Seq<FunctionTypeView>,
    before: CheckState,
    model: (CheckState, Result<ResolutionView, Seq<CallErrorView>>),
) -> bool {
    match model.1 {
        Ok(resolution) => resolution.kind is Resolved && ran_without_calls(
            functions,
            resolution.result,
        ) ==> count_calls(model.0.facts.events) == count_calls(before.facts.events),
        Err(_) => true,
    }
}

/// An ordinary call of a function without calls among its effects appends no
/// call.
pub proof fn plain_call_keeps_calls(
    functions: Seq<FunctionTypeView>,
    state: CheckState,
    function: FunctionId,
    on: TypeId,
    input: CallingInputView,
    structure_generics: Option<Seq<(usize, Binding)>>,
    arguments: Seq<SynthesisedArgument>,
    behavior: BehaviorView,
)
    ensures
        keeps_calls(
            functions,
            state,
            plain_call_model(
                functions,
                state,
                function,
                on,
                input,
                structure_generics,
                arguments,
                behavior,
            ),
        ),
{
    if function.0 < functions.len() && !behavior.stack.contains(function) {
        let descriptor = functions[function.0 as int];
        if has_no_calls(descriptor.effects) {
            let (prepared, local, errors) = crate::model::prepare_call_model(
                state,
                descriptor,
                input,
                arguments,
                behavior.check_parameters,
            );
            if errors.len() == 0 {
                let (entered, closure) = crate::model::enter_call_model(
                    prepared,
                    descriptor,
                    function,
                );
                let type_arguments = TypeArgumentsView {
                    structure_arguments: structure_generics,
                    local_arguments: local,
                    closure_id: closure,
                };
                replay_keeps_calls(
                    functions,
                    entered,
                    input.this_value,
                    type_arguments,
                    descriptor.effects,
                    0,
                    nested(behavior, function),
                );
                let (replayed, final_arguments, _) = replay_model(
                    functions,
                    entered,
                    input.this_value,
                    type_arguments,
                    descriptor.effects,
                    0,
                    nested(behavior, function),
                );
                match closure {
                    Some(closure) => {
                        capture_keeps_events(
                            replayed,
                            final_arguments,
                            closure,
                            descriptor.closed_over_variables,
                            0,
                        );
                    },
                    None => {},
                }
            }
        }
    }
}

/// A call of a function without calls among its effects, or of an intrinsic
/// that is computed at once, appends no call.
pub proof fn function_call_keeps_calls(
    functions: Seq<FunctionTypeView>,
    state: CheckState,
    function: FunctionId,
    on: TypeId,
    input: CallingInputView,
    structure_generics: Option<Seq<(usize, Binding)>>,
    arguments: Seq<SynthesisedArgument>,
    behavior: BehaviorView,
    call_constant: bool,
)
    ensures
        keeps_calls(
            functions,
            state,
            call_function_model(
                functions,
                state,
                function,
                on,
                input,
                structure_generics,
                arguments,
                behavior,
                call_constant,
            ),
        ),
{
    if function.0 < functions.len() && !behavior.stack.contains(function) && call_constant
        && functions[function.0 as int].constant_function is Some {
        let name = functions[function.0 as int].constant_function->0;
        if !defers(state.types, functions[function.0 as int], arguments) {
            let types = constant_function_model(
                name,
                input.this_value,
                input.call_site_type_arguments,
                arguments,
                state.types,
                state.facts,
            ).0;
            plain_call_keeps_calls(
                functions,
                crate::model::with_types(state, types),
                function,
                on,
                input,
                structure_generics,
                arguments,
                behavior,
            );
        }
    } else {
        plain_call_keeps_calls(
            functions,
            state,
            function,
            on,
            input,
            structure_generics,
            arguments,
            behavior,
        );
    }
}

/// A call through a tree of functions appends no call where the function
/// that ran has none among its effects.
pub proof fn logical_call_keeps_calls(
    functions: Seq<FunctionTypeView>,
    state: CheckState,
    logical: LogicalView,
    on: TypeId,
    input: CallingInputWithoutThisView,
    structure_generics: Option<Seq<(usize, Binding)>>,
    arguments: Seq<SynthesisedArgument>,
    behavior: BehaviorView,
)
    ensures
        keeps_calls(
            functions,
            state,
            call_logical_model(
                functions,
                state,
                logical,
                on,
                input,
                structure_generics,
                arguments,
                behavior,
            ),
        ),
    decreases logical_height(logical),
{
    match logical {
        LogicalView::Pure(function, this_value) => {
            function_call_keeps_calls(
                functions,
                state,
                function,
                on,
                with_this(input, this_value),
                structure_generics,
                arguments,
                behavior,
                true,
            );
        },
        LogicalView::Or { .. } => {},
        LogicalView::Implies { on: inner, antecedent } => {
            logical_call_keeps_calls(
                functions,
                state,
                *inner,
                on,
                input,
                Some(antecedent),
                arguments,
                behavior,
            );
        },
    }
}

/// A successful call that a function or an intrinsic resolved appends exactly
/// one event on top of what the call itself appended while it ran: the record
/// of the call, which is the last event and reflects no dependency.
pub proof fn resolved_call_records_itself(
    functions: Seq<FunctionTypeView>,
    state: CheckState,
    on: TypeId,
    input: CallingInputView,
    arguments: Seq<SynthesisedArgument>,
    behavior: BehaviorView,
)
    requires
        resolve_model(functions, state, on, input, arguments, behavior).1 matches Ok(resolution)
            && resolution.kind is Resolved,
    ensures
        ({
            let (ran, resolution) = resolve_model(
                functions,
                state,
                on,
                input,
                arguments,
                behavior,
            );
            let (after, outcome) = call_type_model(
                functions,
                state,
                on,
                input,
                arguments,
                behavior,
            );
            &&& outcome == Ok::<CallResultView, Seq<CallErrorView>>(resolution->Ok_0.result)
            &&& after.facts.events == ran.facts.events.push(
                call_event(on, arguments, input, None),
            )
            &&& after.types == ran.types
        }),
{
}

/// A successful call that is not dependent appends exactly one call event,
/// the record of the call itself, where the function that ran has no call
/// among its own effects. (The replay of a function whose effects hold calls
/// can append further call events.)
pub proof fn resolved_call_appends_one_call(
    functions: Seq<FunctionTypeView>,
    state: CheckState,
    on: TypeId,
    input: CallingInputView,
    arguments: Seq<SynthesisedArgument>,
    behavior: BehaviorView,
)
    requires
        resolve_model(functions, state, on, input, arguments, behavior).1 matches Ok(resolution)
            && resolution.kind is Resolved && ran_without_calls(functions, resolution.result),
    ensures
        ({
            let (after, outcome) = call_type_model(
                functions,
                state,
                on,
                input,
                arguments,
                behavior,
            );
            &&& outcome is Ok
            &&& count_calls(after.facts.events) == count_calls(state.facts.events) + 1
            &&& after.facts.events.len() > 0
            &&& after.facts.events.last() == call_event(on, arguments, input, None)
        }),
{
    let ran = resolve_model(functions, state, on, input, arguments, behavior).0;
    // A call through a constraint is dependent, so the callee was resolved to functions.
    if poly_base(state.types, on) is None {
        if let Some(logical) = logical_model(state.types, on) {
            logical_call_keeps_calls(
                functions,
                state,
                logical,
                on,
                without_this(input),
                None,
                arguments,
                behavior,
            );
        }
    }
    count_calls_push(ran.facts.events, call_event(on, arguments, input, None));
}

} // verus!
