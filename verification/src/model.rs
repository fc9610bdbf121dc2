//! The mathematical model of a call: what a call does to the type store and
//! to the facts of the environment, and what it returns. The executable
//! functions of [`crate::calling`] are proved to compute exactly this.

use crate::bindings::{lookup, put, put_first, Binding};
use crate::constant_functions::{
    always_run, constant_function_model, has_dependent_argument, ConstantErrorView,
    ConstantOutputView,
};
use crate::context::{BehaviorView, Environment, FactsView};
use crate::events::{CalledWithNew, CallingTiming, EventView, RootReference};
use crate::functions::{
    FunctionBehavior, FunctionTypeView, SynthesisedParameter, SynthesisedRestParameter,
};
use crate::resolver::{logical_model, poly_base, LogicalView};
use crate::results::{
    with_this, without_this, CallErrorView, CallResultView, CallingInputView,
    CallingInputWithoutThisView, ResolutionKind, ResolutionView, SpecialExpressions,
};
use crate::span::{null_span_value, spec_cover};
use crate::substitute::{
    interned, substitute_arguments_model, substitute_model, TypeArgumentsView,
};
use crate::subtyping::{basic_subtype, subtype_model};
use crate::text::type_text;
use crate::types::{
    type_at, ClosureId, ConstructorView, FunctionId, ObjectNature, SynthesisedArgument, ThisValue,
    TypeId, TypeStore, TypeView, ANY_TYPE, ARRAY_TYPE, ERROR_TYPE, NEW_TARGET_ARG, NULL_TYPE,
    T_TYPE, UNDEFINED_TYPE,
};
use source_map::SpanWithSource;
use vstd::prelude::*;

verus! {

/// What a call can change, and the value of `this` around it.
pub struct CheckState {
    pub types: Seq<TypeView>,
    pub closures: Seq<FunctionId>,
    pub facts: FactsView,
    pub value_of_this: Option<TypeId>,
}

/// The state that an environment and a store stand for.
pub open spec fn state_of(environment: Environment, types: TypeStore) -> CheckState {
    CheckState {
        types: types.types_view(),
        closures: types.closures@,
        facts: environment.facts@,
        value_of_this: environment.value_of_this,
    }
}

/// `state` with another store.
pub open spec fn with_types(state: CheckState, types: Seq<TypeView>) -> CheckState {
    CheckState { types, ..state }
}

/// `state` with one more event.
pub open spec fn with_event(state: CheckState, event: EventView) -> CheckState {
    CheckState {
        facts: FactsView { events: state.facts.events.push(event), ..state.facts },
        ..state
    }
}

/// The functions of the store that are not being replayed: how much deeper
/// replay can nest.
pub open spec fn room(functions: nat, stack: Seq<FunctionId>) -> nat {
    Set::new(
        |i: int| 0 <= i < functions && i <= usize::MAX && !stack.contains(FunctionId(i as usize)),
    ).len()
}

/// Entering a function that is not being replayed leaves less room.
pub proof fn room_decreases(functions: nat, stack: Seq<FunctionId>, function: FunctionId)
    requires
        function.0 < functions,
        !stack.contains(function),
    ensures
        room(functions, stack.push(function)) < room(functions, stack),
{
    let before = Set::new(
        |i: int| 0 <= i < functions && i <= usize::MAX && !stack.contains(FunctionId(i as usize)),
    );
    let after = Set::new(
        |i: int|
            0 <= i < functions && i <= usize::MAX && !stack.push(function).contains(
                FunctionId(i as usize),
            ),
    );
    let all = Set::new(|i: int| 0 <= i < functions);
    vstd::set_lib::lemma_int_range(0, functions as int);
    assert(all =~= vstd::set_lib::set_int_range(0, functions as int));
    vstd::set_lib::lemma_len_subset(before, all);
    assert(stack.push(function)[stack.len() as int] == function);
    // What is left after entering `function` is what was left before, without
    // `function`.
    assert forall|i: int| after.contains(i) <==> before.remove(function.0 as int).contains(
        i,
    ) by {
        let id = FunctionId(i as usize);
        if 0 <= i < functions && i <= usize::MAX && stack.contains(id) {
            let at = choose|at: int| 0 <= at < stack.len() && stack[at] == id;
            assert(stack.push(function)[at] == id);
        }
    }
    assert(after =~= before.remove(function.0 as int));
}

/// How replay is checked inside `function`: arguments are trusted and
/// `function` is on the stack.
pub open spec fn nested(behavior: BehaviorView, function: FunctionId) -> BehaviorView {
    BehaviorView { check_parameters: false, stack: behavior.stack.push(function) }
}

/// Whether a call is absorbed: the callee or an argument is the recovery type.
pub open spec fn absorbs(on: TypeId, arguments: Seq<SynthesisedArgument>) -> bool {
    on.0 == ERROR_TYPE || exists|i: int|
        0 <= i < arguments.len() && (#[trigger] arguments[i]).spec_ty().0 == ERROR_TYPE
}

/// What an absorbed call returns.
pub open spec fn absorbed_result() -> CallResultView {
    CallResultView {
        called: None,
        returned_type: TypeId(ERROR_TYPE),
        warnings: Seq::empty(),
        special: None,
    }
}

/// The event that records a call made now.
pub open spec fn call_event(
    on: TypeId,
    arguments: Seq<SynthesisedArgument>,
    input: CallingInputView,
    reflects_dependency: Option<TypeId>,
) -> EventView {
    EventView::CallsType {
        on,
        with: arguments,
        timing: CallingTiming::Synchronous,
        called_with_new: input.called_with_new,
        reflects_dependency,
        position: input.call_site,
    }
}

/// The error of a call on something that cannot be called.
pub open spec fn not_callable(types: Seq<TypeView>, on: TypeId, call_site: SpanWithSource) -> Seq<
    CallErrorView,
> {
    seq![CallErrorView::NotCallable { calling: type_text(types, on), call_site }]
}

/// Whether a result needs no dependent type to stand for it: it is a literal,
/// undefined, null, an object made by running code or a host object.
pub open spec fn skips_wrapping(types: Seq<TypeView>, returned: TypeId) -> bool {
    returned.0 == UNDEFINED_TYPE || returned.0 == NULL_TYPE || match type_at(types, returned) {
        Some(TypeView::Constant(_)) => true,
        Some(TypeView::Object(ObjectNature::RealDeal)) => true,
        Some(TypeView::SpecialObject(_)) => true,
        _ => false,
    }
}

/// The value that a receiver resolves to where `this` has the value
/// `value_of_this`: the receiver that was passed, or else the value of `this`
/// around the call, or else undefined.
pub open spec fn this_of(value_of_this: Option<TypeId>, this_value: ThisValue) -> TypeId {
    match this_value {
        ThisValue::Passed(value) => value,
        ThisValue::UseParent => match value_of_this {
            Some(value) => value,
            None => TypeId(UNDEFINED_TYPE),
        },
    }
}

/// A binding that no argument gave: it has the null position.
pub open spec fn seeded(value: TypeId) -> Binding {
    Binding { value, position: null_span_value(), parameter: 0 }
}

/// The bindings that a call starts with, the state after making them and the
/// errors found on the way.
///
/// A method's `this` is its receiver. A function's `this` is a new object
/// under `new`, the type under construction in a super call and its receiver
/// otherwise. A constructor's `this` is bound by a super call; under `new` it
/// is left to the arguments, and a plain call of a constructor is an error.
/// `new.target` is what `new` was applied to, and undefined without `new`.
pub open spec fn seed_call_model(
    state: CheckState,
    behavior: FunctionBehavior,
    input: CallingInputView,
) -> (CheckState, Seq<(usize, Binding)>, Seq<CallErrorView>) {
    let nothing = Seq::<(usize, Binding)>::empty();
    let receiver = seeded(this_of(state.value_of_this, input.this_value));
    let (after, seeds, errors) = match behavior {
        FunctionBehavior::ArrowFunction { .. } => (state, nothing, Seq::empty()),
        FunctionBehavior::Method { free_this_id, .. } => (
            state,
            put(nothing, free_this_id.0, receiver),
            Seq::empty(),
        ),
        FunctionBehavior::Function { free_this_id, .. } => match input.called_with_new {
            CalledWithNew::New { .. } => {
                let (types, instance) = interned(
                    state.types,
                    TypeView::Object(ObjectNature::RealDeal),
                );
                (
                    with_types(state, types),
                    put(nothing, free_this_id.0, seeded(instance)),
                    Seq::empty(),
                )
            },
            CalledWithNew::SpecialSuperCall { this_type } => (
                state,
                put(nothing, free_this_id.0, seeded(this_type)),
                Seq::empty(),
            ),
            CalledWithNew::Plain => (state, put(nothing, free_this_id.0, receiver), Seq::empty()),
        },
        FunctionBehavior::Constructor { this_object_type, .. } => match input.called_with_new {
            CalledWithNew::New { .. } => (state, nothing, Seq::empty()),
            CalledWithNew::SpecialSuperCall { this_type } => (
                state,
                put(nothing, this_object_type.0, seeded(this_type)),
                Seq::empty(),
            ),
            CalledWithNew::Plain => (
                state,
                nothing,
                seq![CallErrorView::NeedsToBeCalledWithNewKeyword(input.call_site)],
            ),
        },
    };
    let new_target = match input.called_with_new {
        CalledWithNew::New { on } => on,
        _ => TypeId(UNDEFINED_TYPE),
    };
    (after, put(seeds, NEW_TARGET_ARG, seeded(new_target)), errors)
}

/// The restrictions of the type parameters from index `at` on, put into
/// `done`: the parameter at an index is restricted to the call-site type
/// argument at that index.
pub open spec fn zip_restrictions(
    parameters: Seq<TypeId>,
    given: Seq<(TypeId, SpanWithSource)>,
    at: int,
    done: Seq<(usize, Binding)>,
) -> Seq<(usize, Binding)>
    decreases parameters.len() - at,
{
    if at < 0 || at >= parameters.len() || at >= given.len() {
        done
    } else {
        zip_restrictions(
            parameters,
            given,
            at + 1,
            put(
                done,
                parameters[at].0,
                Binding { value: given[at].0, position: given[at].1, parameter: at as usize },
            ),
        )
    }
}

/// What the call site demands of the type parameters. Nothing is demanded
/// where arguments are trusted, where the call site names no type arguments
/// and where the function has no type parameters.
pub open spec fn restrictions_model(
    type_parameters: Option<Seq<TypeId>>,
    given: Option<Seq<(TypeId, SpanWithSource)>>,
    check: bool,
) -> Seq<(usize, Binding)> {
    match (given, type_parameters) {
        (Some(given), Some(parameters)) => if check {
            zip_restrictions(parameters, given, 0, Seq::empty())
        } else {
            Seq::empty()
        },
        _ => Seq::empty(),
    }
}

/// The error of an argument whose type the parameter does not accept.
pub open spec fn invalid_argument(
    types: Seq<TypeView>,
    parameter: TypeId,
    parameter_position: SpanWithSource,
    argument: SynthesisedArgument,
) -> CallErrorView {
    CallErrorView::InvalidArgumentType {
        parameter_type: type_text(types, parameter),
        argument_type: type_text(types, argument.spec_ty()),
        argument_position: argument.spec_position(),
        parameter_position,
        restriction: None,
    }
}

/// The bindings and errors after one argument was held against the type
/// `against` (of the parameter with index `index`; `shown` is what an error
/// shows as the parameter's type). With `check` the argument is checked and
/// the check binds; otherwise `against` is bound to the argument's type.
pub open spec fn argument_model(
    types: Seq<TypeView>,
    against: TypeId,
    shown: TypeId,
    parameter_position: SpanWithSource,
    index: usize,
    argument: SynthesisedArgument,
    seeds: Seq<(usize, Binding)>,
    errors: Seq<CallErrorView>,
    check: bool,
) -> (Seq<(usize, Binding)>, Seq<CallErrorView>) {
    if check {
        let (verdict, after) = subtype_model(
            types,
            against,
            argument.spec_ty(),
            seeds,
            (argument.spec_position(), index),
            true,
        );
        if verdict is IsSubType {
            (after, errors)
        } else {
            (after, errors.push(invalid_argument(types, shown, parameter_position, argument)))
        }
    } else {
        (
            put_first(
                seeds,
                against.0,
                Binding {
                    value: argument.spec_ty(),
                    position: argument.spec_position(),
                    parameter: index,
                },
            ),
            errors,
        )
    }
}

/// The bindings and errors after the positional parameters from index `at`
/// on. A parameter with an argument is held against it; one without takes its
/// default; one without either is a missing argument.
pub open spec fn positional_model(
    types: Seq<TypeView>,
    parameters: Seq<SynthesisedParameter>,
    arguments: Seq<SynthesisedArgument>,
    at: int,
    seeds: Seq<(usize, Binding)>,
    errors: Seq<CallErrorView>,
    call_site: SpanWithSource,
    check: bool,
) -> (Seq<(usize, Binding)>, Seq<CallErrorView>)
    decreases parameters.len() - at,
{
    if at < 0 || at >= parameters.len() {
        (seeds, errors)
    } else {
        let parameter = parameters[at];
        let (next_seeds, next_errors) = if at < arguments.len() {
            argument_model(
                types,
                parameter.ty,
                parameter.ty,
                parameter.position,
                at as usize,
                arguments[at],
                seeds,
                errors,
                check,
            )
        } else {
            match parameter.missing_value {
                Some(value) => (
                    put_first(
                        seeds,
                        parameter.ty.0,
                        Binding { value, position: null_span_value(), parameter: at as usize },
                    ),
                    errors,
                ),
                None => (
                    seeds,
                    errors.push(
                        CallErrorView::MissingArgument {
                            parameter_position: parameter.position,
                            call_site,
                        },
                    ),
                ),
            }
        };
        positional_model(
            types,
            parameters,
            arguments,
            at + 1,
            next_seeds,
            next_errors,
            call_site,
            check,
        )
    }
}

/// The element type of a rest parameter: what the array type was applied to.
/// A rest parameter that is no applied array accepts everything.
pub open spec fn rest_element(types: Seq<TypeView>, rest: SynthesisedRestParameter) -> TypeId {
    match type_at(types, rest.item_type) {
        Some(TypeView::Constructor(ConstructorView::StructureGenerics { on, arguments })) => if on.0
            == ARRAY_TYPE {
            match lookup(arguments, T_TYPE) {
                Some(binding) => binding.value,
                None => TypeId(ANY_TYPE),
            }
        } else {
            TypeId(ANY_TYPE)
        },
        _ => TypeId(ANY_TYPE),
    }
}

/// The bindings and errors after the arguments from index `at` on were
/// checked against the element type of the rest parameter. Trusted arguments
/// are passed over.
pub open spec fn rest_model(
    types: Seq<TypeView>,
    rest: SynthesisedRestParameter,
    element: TypeId,
    arguments: Seq<SynthesisedArgument>,
    at: int,
    seeds: Seq<(usize, Binding)>,
    errors: Seq<CallErrorView>,
    check: bool,
) -> (Seq<(usize, Binding)>, Seq<CallErrorView>)
    decreases arguments.len() - at,
{
    if at < 0 || at >= arguments.len() {
        (seeds, errors)
    } else {
        let (next_seeds, next_errors) = if check {
            argument_model(
                types,
                element,
                rest.item_type,
                rest.position,
                at as usize,
                arguments[at],
                seeds,
                errors,
                true,
            )
        } else {
            (seeds, errors)
        };
        rest_model(types, rest, element, arguments, at + 1, next_seeds, next_errors, check)
    }
}

/// The one error for the arguments beyond the parameters: how many there are
/// and the position from the first of them to the last.
pub open spec fn excess_arguments(parameters: nat, arguments: Seq<SynthesisedArgument>) -> CallErrorView
    recommends
        parameters < arguments.len(),
{
    let first = arguments[parameters as int].spec_position();
    let last = arguments[arguments.len() - 1].spec_position();
    CallErrorView::ExcessArguments {
        count: (arguments.len() - parameters) as usize,
        position: if arguments.len() - parameters > 1 {
            spec_cover(first, last)
        } else {
            first
        },
    }
}

/// The bindings and errors after all arguments were held against the
/// parameters: the positional ones first, then the arguments beyond them
/// against the rest parameter, or one error for them where there is none.
pub open spec fn synthesise_arguments_model(
    types: Seq<TypeView>,
    function: FunctionTypeView,
    arguments: Seq<SynthesisedArgument>,
    seeds: Seq<(usize, Binding)>,
    errors: Seq<CallErrorView>,
    call_site: SpanWithSource,
    check: bool,
) -> (Seq<(usize, Binding)>, Seq<CallErrorView>) {
    let (after, found) = positional_model(
        types,
        function.parameters,
        arguments,
        0,
        seeds,
        errors,
        call_site,
        check,
    );
    if function.parameters.len() < arguments.len() {
        match function.rest_parameter {
            Some(rest) => rest_model(
                types,
                rest,
                rest_element(types, rest),
                arguments,
                function.parameters.len() as int,
                after,
                found,
                check,
            ),
            None => (after, found.push(excess_arguments(function.parameters.len(), arguments))),
        }
    } else {
        (after, found)
    }
}

/// The position and the parameter index that a seeding context holds once the
/// first `upto` parameters were dealt with: those of the last argument that
/// was held against one of them, or `initial` if none was.
pub open spec fn held_up_to(
    arguments: Seq<SynthesisedArgument>,
    upto: int,
    initial: (SpanWithSource, usize),
) -> (SpanWithSource, usize) {
    let held = if upto <= arguments.len() {
        upto
    } else {
        arguments.len() as int
    };
    if held > 0 {
        (arguments[held - 1].spec_position(), (held - 1) as usize)
    } else {
        initial
    }
}

/// The position and the parameter index that a seeding context holds once
/// all arguments were held against the parameters: those of the last argument
/// that was held against a parameter or against the rest parameter, or
/// `initial` if none was.
pub open spec fn last_held(
    function: FunctionTypeView,
    arguments: Seq<SynthesisedArgument>,
    initial: (SpanWithSource, usize),
    check: bool,
) -> (SpanWithSource, usize) {
    if check && function.rest_parameter is Some && function.parameters.len() < arguments.len() {
        (
            arguments[arguments.len() - 1].spec_position(),
            (arguments.len() - 1) as usize,
        )
    } else {
        held_up_to(arguments, function.parameters.len() as int, initial)
    }
}

/// The error of a binding that the call site's restriction does not accept.
pub open spec fn restricted_argument(
    types: Seq<TypeView>,
    parameters: Seq<SynthesisedParameter>,
    key: usize,
    binding: Binding,
    restriction: Binding,
) -> CallErrorView {
    let (parameter, parameter_position) = if binding.parameter < parameters.len() {
        (parameters[binding.parameter as int].ty, parameters[binding.parameter as int].position)
    } else {
        (TypeId(key), binding.position)
    };
    CallErrorView::InvalidArgumentType {
        parameter_type: type_text(types, parameter),
        argument_type: type_text(types, binding.value),
        argument_position: binding.position,
        parameter_position,
        restriction: Some((restriction.position, type_text(types, restriction.value))),
    }
}

/// The local type arguments and the errors after the bindings from index `at`
/// on were held against the restrictions of the call site. Every binding
/// becomes a local type argument; one that its restriction does not accept
/// also adds an error.
pub open spec fn enforce_restrictions_model(
    types: Seq<TypeView>,
    parameters: Seq<SynthesisedParameter>,
    found: Seq<(usize, Binding)>,
    restrictions: Seq<(usize, Binding)>,
    at: int,
    local: Seq<(usize, Binding)>,
    errors: Seq<CallErrorView>,
) -> (Seq<(usize, Binding)>, Seq<CallErrorView>)
    decreases found.len() - at,
{
    if at < 0 || at >= found.len() {
        (local, errors)
    } else {
        let (key, binding) = found[at];
        let next_errors = match lookup(restrictions, key) {
            Some(restriction) => if basic_subtype(types, restriction.value, binding.value)
                is IsSubType {
                errors
            } else {
                errors.push(restricted_argument(types, parameters, key, binding, restriction))
            },
            None => errors,
        };
        enforce_restrictions_model(
            types,
            parameters,
            found,
            restrictions,
            at + 1,
            put(local, key, binding),
            next_errors,
        )
    }
}

/// The state after the captured references from index `at` on were given
/// their values in the closure instantiation `closure`.
pub open spec fn capture_model(
    state: CheckState,
    arguments: TypeArgumentsView,
    closure: ClosureId,
    captured: Seq<(RootReference, TypeId)>,
    at: int,
) -> CheckState
    decreases captured.len() - at,
{
    if at < 0 || at >= captured.len() {
        state
    } else {
        let (reference, value) = captured[at];
        let (types, current) = substitute_model(state.types, arguments, value);
        capture_model(
            CheckState {
                types,
                facts: FactsView {
                    closure_current_values: state.facts.closure_current_values.push(
                        (closure, reference, current),
                    ),
                    ..state.facts
                },
                ..state
            },
            arguments,
            closure,
            captured,
            at + 1,
        )
    }
}

/// What a parameter that stands for the instance is bound to, or the
/// parameter itself where nothing bound it.
pub open spec fn instance_of(local: Seq<(usize, Binding)>, id: TypeId) -> TypeId {
    match lookup(local, id.0) {
        Some(binding) => binding.value,
        None => id,
    }
}

/// What a function returns once its effects were replayed, with the store
/// after working that out: under `new` the instance, otherwise the value of
/// the early return or else the return type under the type arguments.
pub open spec fn returned_model(
    types: Seq<TypeView>,
    arguments: TypeArgumentsView,
    function: FunctionTypeView,
    called_with_new: CalledWithNew,
    early: Option<TypeId>,
) -> (Seq<TypeView>, TypeId) {
    let instance = match (called_with_new, function.behavior) {
        (CalledWithNew::New { .. }, FunctionBehavior::Function { free_this_id, .. }) => Some(
            instance_of(arguments.local_arguments, free_this_id),
        ),
        (CalledWithNew::New { .. }, FunctionBehavior::Constructor { this_object_type, .. }) => Some(
            instance_of(arguments.local_arguments, this_object_type),
        ),
        _ => None,
    };
    match instance {
        Some(instance) => (types, instance),
        None => match early {
            Some(returned) => (types, returned),
            None => substitute_model(types, arguments, function.return_type),
        },
    }
}

/// What an ordinary call finds before it runs the function: the state after
/// binding `this` and `new.target`, the local type arguments that the
/// arguments and the restrictions of the call site give, and all errors.
pub open spec fn prepare_call_model(
    state: CheckState,
    descriptor: FunctionTypeView,
    input: CallingInputView,
    arguments: Seq<SynthesisedArgument>,
    check: bool,
) -> (CheckState, Seq<(usize, Binding)>, Seq<CallErrorView>) {
    let (seeded_state, seeds, seed_errors) = seed_call_model(state, descriptor.behavior, input);
    let restrictions = restrictions_model(
        descriptor.type_parameters,
        input.call_site_type_arguments,
        check,
    );
    let (found, argument_errors) = synthesise_arguments_model(
        seeded_state.types,
        descriptor,
        arguments,
        seeds,
        seed_errors,
        input.call_site,
        check,
    );
    let (local, errors) = enforce_restrictions_model(
        seeded_state.types,
        descriptor.parameters,
        found,
        restrictions,
        0,
        Seq::empty(),
        argument_errors,
    );
    (seeded_state, local, errors)
}

/// The state in which a function runs and the closure instantiation that is
/// made for the run: a new one if the function captures anything.
pub open spec fn enter_call_model(
    state: CheckState,
    descriptor: FunctionTypeView,
    function: FunctionId,
) -> (CheckState, Option<ClosureId>) {
    if descriptor.closed_over_variables.len() == 0 {
        (state, None)
    } else {
        (
            CheckState { closures: state.closures.push(function), ..state },
            Some(ClosureId(state.closures.len() as usize)),
        )
    }
}

/// The height of a tree of callables.
pub open spec fn logical_height(logical: LogicalView) -> nat
    decreases logical,
{
    match logical {
        LogicalView::Pure(..) => 0,
        LogicalView::Or { left, right } => 1 + logical_height(*left) + logical_height(*right),
        LogicalView::Implies { on, .. } => 1 + logical_height(*on),
    }
}

/// A call of the type `on`: what it returns and the state it leaves.
///
/// The call is resolved by [`resolve_model`]. Where a function ran or an
/// intrinsic computed the result, one event that records the call is appended
/// after everything the call itself appended; it reflects no dependency.
pub open spec fn call_type_model(
    functions: Seq<FunctionTypeView>,
    state: CheckState,
    on: TypeId,
    input: CallingInputView,
    arguments: Seq<SynthesisedArgument>,
    behavior: BehaviorView,
) -> (CheckState, Result<CallResultView, Seq<CallErrorView>>)
    decreases room(functions.len(), behavior.stack), 6int, 0int, 0int,
{
    let (after, outcome) = resolve_model(functions, state, on, input, arguments, behavior);
    match outcome {
        Ok(resolution) => if resolution.kind is Resolved {
            (with_event(after, call_event(on, arguments, input, None)), Ok(resolution.result))
        } else {
            (after, Ok(resolution.result))
        },
        Err(errors) => (after, Err(errors)),
    }
}

/// How a call of the type `on` is resolved.
///
/// 1. A call whose callee or argument is the recovery type returns the
///    recovery type and changes nothing.
/// 2. A polymorphic callee is called through its constraint and the result is
///    made dependent ([`generic_call_model`]).
/// 3. Otherwise the callee is resolved to a tree of functions and called
///    through it ([`call_logical_model`]); a callee that resolves to nothing
///    is not callable.
pub open spec fn resolve_model(
    functions: Seq<FunctionTypeView>,
    state: CheckState,
    on: TypeId,
    input: CallingInputView,
    arguments: Seq<SynthesisedArgument>,
    behavior: BehaviorView,
) -> (CheckState, Result<ResolutionView, Seq<CallErrorView>>)
    decreases room(functions.len(), behavior.stack), 5int, on.0, 1int,
{
    if absorbs(on, arguments) {
        (state, Ok(ResolutionView { result: absorbed_result(), kind: ResolutionKind::Absorbed }))
    } else {
        match poly_base(state.types, on) {
            Some(constraint) => generic_call_model(
                functions,
                state,
                constraint,
                input,
                arguments,
                on,
                behavior,
            ),
            None => match logical_model(state.types, on) {
                Some(logical) => call_logical_model(
                    functions,
                    state,
                    logical,
                    on,
                    without_this(input),
                    None,
                    arguments,
                    behavior,
                ),
                None => (state, Err(not_callable(state.types, on, input.call_site))),
            },
        }
    }
}

/// A call of the polymorphic type `on` through its constraint.
///
/// The constraint is called with the same arguments. Errors of that call are
/// the errors of this one. Otherwise one event for the call of `on` is
/// appended. A result that needs no wrapping is returned as it is and the
/// event reflects no dependency; any other result is wrapped in a new call
/// result of `on`, which is returned and which the event reflects.
pub open spec fn generic_call_model(
    functions: Seq<FunctionTypeView>,
    state: CheckState,
    constraint: TypeId,
    input: CallingInputView,
    arguments: Seq<SynthesisedArgument>,
    on: TypeId,
    behavior: BehaviorView,
) -> (CheckState, Result<ResolutionView, Seq<CallErrorView>>)
    decreases room(functions.len(), behavior.stack), 5int, on.0, 0int,
{
    if constraint.0 >= on.0 {
        (state, Err(not_callable(state.types, on, input.call_site)))
    } else {
        let (after, outcome) = resolve_model(
            functions,
            state,
            constraint,
            input,
            arguments,
            behavior,
        );
        match outcome {
            Err(errors) => (after, Err(errors)),
            Ok(inner) => if skips_wrapping(after.types, inner.result.returned_type) {
                (
                    with_event(after, call_event(on, arguments, input, None)),
                    Ok(ResolutionView { result: inner.result, kind: ResolutionKind::Dependent }),
                )
            } else {
                let (types, wrapped) = interned(
                    after.types,
                    TypeView::Constructor(
                        ConstructorView::FunctionResult {
                            on,
                            with: arguments,
                            result: inner.result.returned_type,
                        },
                    ),
                );
                (
                    with_event(
                        with_types(after, types),
                        call_event(on, arguments, input, Some(wrapped)),
                    ),
                    Ok(
                        ResolutionView {
                            result: CallResultView {
                                called: inner.result.called,
                                returned_type: wrapped,
                                warnings: inner.result.warnings,
                                special: None,
                            },
                            kind: ResolutionKind::Dependent,
                        },
                    ),
                )
            },
        }
    }
}

/// A call through a tree of functions. A single function is called with the
/// receiver it was bound with; an implication calls its subtree under its
/// type arguments; a union is not supported and gives an error.
pub open spec fn call_logical_model(
    functions: Seq<FunctionTypeView>,
    state: CheckState,
    logical: LogicalView,
    on: TypeId,
    input: CallingInputWithoutThisView,
    structure_generics: Option<Seq<(usize, Binding)>>,
    arguments: Seq<SynthesisedArgument>,
    behavior: BehaviorView,
) -> (CheckState, Result<ResolutionView, Seq<CallErrorView>>)
    decreases room(functions.len(), behavior.stack), 4int, logical_height(logical), 0int,
{
    match logical {
        LogicalView::Pure(function, this_value) => call_function_model(
            functions,
            state,
            function,
            on,
            with_this(input, this_value),
            structure_generics,
            arguments,
            behavior,
            true,
        ),
        LogicalView::Or { .. } => (
            state,
            Err(
                seq![
                    CallErrorView::NotCallable {
                        calling: "unsupported union callable"@,
                        call_site: input.call_site,
                    },
                ],
            ),
        ),
        LogicalView::Implies { on: inner, antecedent } => call_logical_model(
            functions,
            state,
            *inner,
            on,
            input,
            Some(antecedent),
            arguments,
            behavior,
        ),
    }
}

/// The result of an intrinsic that computed a value.
pub open spec fn constant_value_result(name: Seq<char>, value: TypeId) -> CallResultView {
    CallResultView {
        called: None,
        returned_type: value,
        warnings: Seq::empty(),
        special: if name == "compile_type_to_object"@ {
            Some(SpecialExpressions::CompileOut)
        } else {
            None
        },
    }
}

/// The result of an intrinsic that computed a message.
pub open spec fn constant_diagnostic_result(text: Seq<char>) -> CallResultView {
    CallResultView {
        called: None,
        returned_type: TypeId(UNDEFINED_TYPE),
        warnings: seq![text],
        special: Some(SpecialExpressions::Marker),
    }
}

/// Whether a call of `function` is put off: the function is an intrinsic that
/// does not always run and an argument is dependent.
pub open spec fn defers(
    types: Seq<TypeView>,
    function: FunctionTypeView,
    arguments: Seq<SynthesisedArgument>,
) -> bool {
    match function.constant_function {
        Some(name) => !always_run(name) && has_dependent_argument(types, arguments),
        None => false,
    }
}

/// A call of the function `function`, which the type `on` resolved to.
///
/// A function that is being replayed already is not entered: the call returns
/// the recovery type and names the function. An intrinsic is computed where
/// `call_constant` allows it, and at once unless the call is put off
/// ([`defers`]); an intrinsic that reports a bad call is called as an ordinary
/// function. A call that is put off is made as an ordinary call; its result is
/// wrapped in a new call result of a new type for the function, one event for
/// that call is appended, which reflects the wrapper, and the wrapper is
/// returned. Every other call is an ordinary call ([`plain_call_model`]).
pub open spec fn call_function_model(
    functions: Seq<FunctionTypeView>,
    state: CheckState,
    function: FunctionId,
    on: TypeId,
    input: CallingInputView,
    structure_generics: Option<Seq<(usize, Binding)>>,
    arguments: Seq<SynthesisedArgument>,
    behavior: BehaviorView,
    call_constant: bool,
) -> (CheckState, Result<ResolutionView, Seq<CallErrorView>>)
    decreases room(functions.len(), behavior.stack), 3int, if call_constant {
        1int
    } else {
        0int
    }, 0int,
{
    if function.0 < functions.len() && !behavior.stack.contains(function) && call_constant
        && functions[function.0 as int].constant_function is Some {
        let name = functions[function.0 as int].constant_function->0;
        if !defers(state.types, functions[function.0 as int], arguments) {
            let (types, computed) = constant_function_model(
                name,
                input.this_value,
                input.call_site_type_arguments,
                arguments,
                state.types,
                state.facts,
            );
            let after = with_types(state, types);
            match computed {
                Ok(ConstantOutputView::Value(value)) => (
                    after,
                    Ok(
                        ResolutionView {
                            result: constant_value_result(name, value),
                            kind: ResolutionKind::Resolved,
                        },
                    ),
                ),
                Ok(ConstantOutputView::Diagnostic(text)) => (
                    after,
                    Ok(
                        ResolutionView {
                            result: constant_diagnostic_result(text),
                            kind: ResolutionKind::Resolved,
                        },
                    ),
                ),
                Err(ConstantErrorView::NoLogicForIdentifier(missing)) => (
                    after,
                    Err(seq![CallErrorView::NoLogicForIdentifier(missing, input.call_site)]),
                ),
                Err(ConstantErrorView::BadCall) => plain_call_model(
                    functions,
                    after,
                    function,
                    on,
                    input,
                    structure_generics,
                    arguments,
                    behavior,
                ),
            }
        } else {
            let (after, outcome) = call_function_model(
                functions,
                state,
                function,
                on,
                input,
                structure_generics,
                arguments,
                behavior,
                false,
            );
            match outcome {
                Err(errors) => (after, Err(errors)),
                Ok(inner) => {
                    let (first, callee) = interned(
                        after.types,
                        TypeView::Function(function, input.this_value),
                    );
                    let (second, wrapped) = interned(
                        first,
                        TypeView::Constructor(
                            ConstructorView::FunctionResult {
                                on: callee,
                                with: arguments,
                                result: inner.result.returned_type,
                            },
                        ),
                    );
                    (
                        with_event(
                            with_types(after, second),
                            call_event(callee, arguments, input, Some(wrapped)),
                        ),
                        Ok(
                            ResolutionView {
                                result: CallResultView {
                                    called: None,
                                    returned_type: wrapped,
                                    warnings: Seq::empty(),
                                    special: None,
                                },
                                kind: ResolutionKind::Dependent,
                            },
                        ),
                    )
                },
            }
        }
    } else {
        plain_call_model(
            functions,
            state,
            function,
            on,
            input,
            structure_generics,
            arguments,
            behavior,
        )
    }
}

/// What a call returns that does not enter a function which is being
/// replayed already.
pub open spec fn guarded_result(function: FunctionId) -> ResolutionView {
    ResolutionView {
        result: CallResultView {
            called: Some(function),
            returned_type: TypeId(ERROR_TYPE),
            warnings: Seq::empty(),
            special: None,
        },
        kind: ResolutionKind::Guarded,
    }
}

/// An ordinary call of the function `function`.
///
/// A handle that names no function is not callable. A function that is being
/// replayed already is not entered. Otherwise the call is prepared
/// ([`prepare_call_model`]): `this` and `new.target` are bound, the arguments
/// are held against the parameters and the bindings against the restrictions
/// of the call site. With any error the call ends there and returns all
/// errors. Without, a closure instantiation is made if the function captures
/// anything ([`enter_call_model`]), the effects are replayed in order until
/// one returns ([`replay_model`]), the captured references are given their
/// values ([`capture_model`]) and the result is put together
/// ([`returned_model`]): it names the function and has neither warnings nor
/// a special expression.
pub open spec fn plain_call_model(
    functions: Seq<FunctionTypeView>,
    state: CheckState,
    function: FunctionId,
    on: TypeId,
    input: CallingInputView,
    structure_generics: Option<Seq<(usize, Binding)>>,
    arguments: Seq<SynthesisedArgument>,
    behavior: BehaviorView,
) -> (CheckState, Result<ResolutionView, Seq<CallErrorView>>)
    decreases room(functions.len(), behavior.stack), 2int, 0int, 0int,
{
    if function.0 >= functions.len() {
        (state, Err(not_callable(state.types, on, input.call_site)))
    } else if behavior.stack.contains(function) {
        (state, Ok(guarded_result(function)))
    } else {
        let descriptor = functions[function.0 as int];
        let (prepared, local, errors) = prepare_call_model(
            state,
            descriptor,
            input,
            arguments,
            behavior.check_parameters,
        );
        if errors.len() > 0 {
            (prepared, Err(errors))
        } else {
            let (entered, closure) = enter_call_model(prepared, descriptor, function);
            let type_arguments = TypeArgumentsView {
                structure_arguments: structure_generics,
                local_arguments: local,
                closure_id: closure,
            };
            proof {
                room_decreases(functions.len(), behavior.stack, function);
            }
            let (replayed, final_arguments, early) = replay_model(
                functions,
                entered,
                input.this_value,
                type_arguments,
                descriptor.effects,
                0,
                nested(behavior, function),
            );
            let captured = match closure {
                Some(closure) => capture_model(
                    replayed,
                    final_arguments,
                    closure,
                    descriptor.closed_over_variables,
                    0,
                ),
                None => replayed,
            };
            let (types, returned) = returned_model(
                captured.types,
                final_arguments,
                descriptor,
                input.called_with_new,
                early,
            );
            (
                with_types(captured, types),
                Ok(
                    ResolutionView {
                        result: CallResultView {
                            called: Some(function),
                            returned_type: returned,
                            warnings: Seq::empty(),
                            special: None,
                        },
                        kind: ResolutionKind::Resolved,
                    },
                ),
            )
        }
    }
}

/// The replay of the effects from index `at` on, in order: the state and the
/// type arguments it leaves, and the value of the first effect that returns.
/// The effects after that one are not replayed.
pub open spec fn replay_model(
    functions: Seq<FunctionTypeView>,
    state: CheckState,
    this_value: ThisValue,
    arguments: TypeArgumentsView,
    effects: Seq<EventView>,
    at: int,
    behavior: BehaviorView,
) -> (CheckState, TypeArgumentsView, Option<TypeId>)
    decreases room(functions.len(), behavior.stack), 9int, effects.len() - at, 0int,
{
    if at < 0 || at >= effects.len() {
        (state, arguments, None)
    } else {
        let (after, next, returned) = apply_event_model(
            functions,
            state,
            this_value,
            arguments,
            effects[at],
            behavior,
        );
        if returned is Some {
            (after, next, returned)
        } else {
            replay_model(functions, after, this_value, next, effects, at + 1, behavior)
        }
    }
}

/// Whether a recorded call is made again when it is replayed: it reflects a
/// dependency or its callee is polymorphic, and it runs synchronously. An
/// event that only records a call that was resolved where it was made is
/// passed over, since the effects of that call were recorded with it.
pub open spec fn replays_call(
    types: Seq<TypeView>,
    on: TypeId,
    timing: CallingTiming,
    reflects_dependency: Option<TypeId>,
) -> bool {
    timing == CallingTiming::Synchronous && (reflects_dependency is Some || poly_base(types, on)
        is Some)
}

/// The replay of one effect under the type arguments of a call.
///
/// - A call that is replayed ([`replays_call`]) is made with its callee and
///   its arguments substituted; on success the type that the event reflects is
///   bound to the result. Its errors are dropped.
/// - An assignment to a variable or to a property is made with its types
///   substituted and recorded as an event of its own.
/// - A return ends the replay with its substituted type.
pub open spec fn apply_event_model(
    functions: Seq<FunctionTypeView>,
    state: CheckState,
    this_value: ThisValue,
    arguments: TypeArgumentsView,
    event: EventView,
    behavior: BehaviorView,
) -> (CheckState, TypeArgumentsView, Option<TypeId>)
    decreases room(functions.len(), behavior.stack), 8int, 0int, 0int,
{
    match event {
        EventView::CallsType {
            on,
            with,
            timing,
            called_with_new,
            reflects_dependency,
            position,
        } => if replays_call(state.types, on, timing, reflects_dependency) {
            let (first, callee) = substitute_model(state.types, arguments, on);
            let (second, given) = substitute_arguments_model(
                first,
                arguments,
                with,
                None,
                0,
                Seq::empty(),
            );
            let (after, outcome) = call_type_model(
                functions,
                with_types(state, second),
                callee,
                CallingInputView {
                    called_with_new,
                    this_value,
                    call_site_type_arguments: None,
                    call_site: position,
                },
                given,
                behavior,
            );
            match (outcome, reflects_dependency) {
                (Ok(result), Some(dependency)) => (
                    after,
                    TypeArgumentsView {
                        local_arguments: put(
                            arguments.local_arguments,
                            dependency.0,
                            Binding { value: result.returned_type, position, parameter: 0 },
                        ),
                        ..arguments
                    },
                    None,
                ),
                _ => (after, arguments, None),
            }
        } else {
            (state, arguments, None)
        },
        EventView::SetsVariable(variable, value, position) => {
            let (types, current) = substitute_model(state.types, arguments, value);
            (
                with_event(
                    CheckState {
                        types,
                        facts: FactsView {
                            variable_current_value: state.facts.variable_current_value.push(
                                (variable, current),
                            ),
                            ..state.facts
                        },
                        ..state
                    },
                    EventView::SetsVariable(variable, current, position),
                ),
                arguments,
                None,
            )
        },
        EventView::Setter { on, under, new, position } => {
            let (first, object) = substitute_model(state.types, arguments, on);
            let (second, key) = substitute_model(first, arguments, under);
            let (third, value) = substitute_model(second, arguments, new);
            (
                with_event(
                    CheckState {
                        types: third,
                        facts: FactsView {
                            current_properties: state.facts.current_properties.push(
                                (object, key, value),
                            ),
                            ..state.facts
                        },
                        ..state
                    },
                    EventView::Setter { on: object, under: key, new: value, position },
                ),
                arguments,
                None,
            )
        },
        EventView::Return { returned, .. } => {
            let (types, value) = substitute_model(state.types, arguments, returned);
            (with_types(state, types), arguments, Some(value))
        },
    }
}

} // verus!
