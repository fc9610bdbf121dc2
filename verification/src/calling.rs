//! Calls: from a callee, its arguments and the call site to the returned
//! type, the inferred type arguments, the diagnostics and the events.

use crate::bindings::{
    binding_entries, binding_pairs, get_binding, insert_binding, new_bindings, Binding,
};
use crate::constant_functions::{
    any_dependent_argument, call_constant_function, runs_always, same_text,
    ConstantFunctionError, ConstantOutput,
};
use crate::context::{BehaviorView, CallCheckingBehavior, Environment};
use crate::diagnostics::{
    with_function, CheckingData, Diagnostic, DiagnosticKind, DiagnosticView,
};
use crate::events::{copy_arguments, event_views, CalledWithNew, CallingTiming, Event, RootReference};
use crate::functions::{
    FunctionBehavior, FunctionType, SynthesisedParameter, SynthesisedRestParameter,
};
use crate::model::{
    apply_event_model, argument_model, call_event, call_function_model,
    call_logical_model, call_type_model, capture_model, enforce_restrictions_model,
    excess_arguments, generic_call_model, held_up_to, last_held, logical_height,
    plain_call_model, positional_model,
    replay_model, resolve_model, rest_element, rest_model, returned_model, room, room_decreases,
    seed_call_model, skips_wrapping, state_of, synthesise_arguments_model, this_of, with_event,
    zip_restrictions,
};
use crate::resolver::{get_logical_callable_from_type, logical_view, Logical};
use crate::results::{
    CallErrorView, error_views, outcome_view, push_error, resolution_view, warning_views, CallResultView,
    CallingInput, CallingInputWithoutThis, FunctionCallResult, FunctionCallingError,
    InfoDiagnostic, Resolution, ResolutionKind, SpecialExpressions,
};
use crate::span::{cover, null_position};
use crate::substitute::{substitute, substitute_arguments, FunctionTypeArguments};
use crate::subtyping::{
    type_is_subtype, type_is_subtype_basic, BasicEquality, SeedingContext, SubTypeResult,
};
use crate::text::TypeStringRepresentation;
use crate::types::{
    ClosureId, Constructor, FunctionId, ObjectNature, StructureGenericArguments,
    SynthesisedArgument, ThisValue, Type, TypeId, TypeStore, ANY_TYPE, ARRAY_TYPE, ERROR_TYPE,
    NEW_TARGET_ARG, NULL_TYPE, T_TYPE, UNDEFINED_TYPE,
};
use source_map::SpanWithSource;
use vstd::prelude::*;
use vstd::string::StringExecFns;

verus! {

impl ThisValue {
    /// The value that the receiver resolves to in `environment`.
    pub fn get(&self, environment: &Environment) -> (value: TypeId)
        ensures
            value == this_of(environment.value_of_this, *self),
    {
        match self {
            ThisValue::Passed(value) => *value,
            ThisValue::UseParent => match environment.value_of_this {
                Some(value) => value,
                None => TypeId(UNDEFINED_TYPE),
            },
        }
    }
}

fn seed(value: TypeId) -> (binding: Binding)
    ensures
        binding == crate::model::seeded(value),
{
    Binding { value, position: null_position(), parameter: 0 }
}

/// Binds `this` and `new.target` for a call of a function with the behavior
/// `behavior`.
fn seed_call(
    behavior: FunctionBehavior,
    input: &CallingInput,
    environment: &Environment,
    types: &mut TypeStore,
    errors: &mut Vec<FunctionCallingError>,
) -> (seeds: map_vec::Map<usize, Binding>)
    requires
        old(errors)@.len() == 0,
    ensures
        (state_of(*environment, *final(types)), binding_entries(seeds), error_views(final(errors)@))
            == seed_call_model(state_of(*environment, *old(types)), behavior, input@),
        final(types).functions == old(types).functions,
{
    let mut seeds = new_bindings();
    match behavior {
        FunctionBehavior::ArrowFunction { .. } => {},
        FunctionBehavior::Method { free_this_id, .. } => {
            let receiver = input.this_value.get(environment);
            insert_binding(&mut seeds, free_this_id.0, seed(receiver));
        },
        FunctionBehavior::Function { free_this_id, .. } => match input.called_with_new {
            CalledWithNew::New { .. } => {
                let instance = types.register_type(Type::Object(ObjectNature::RealDeal));
                insert_binding(&mut seeds, free_this_id.0, seed(instance));
            },
            CalledWithNew::SpecialSuperCall { this_type } => {
                insert_binding(&mut seeds, free_this_id.0, seed(this_type));
            },
            CalledWithNew::Plain => {
                let receiver = input.this_value.get(environment);
                insert_binding(&mut seeds, free_this_id.0, seed(receiver));
            },
        },
        FunctionBehavior::Constructor { this_object_type, .. } => match input.called_with_new {
            CalledWithNew::New { .. } => {},
            CalledWithNew::SpecialSuperCall { this_type } => {
                insert_binding(&mut seeds, this_object_type.0, seed(this_type));
            },
            CalledWithNew::Plain => {
                push_error(
                    errors,
                    FunctionCallingError::NeedsToBeCalledWithNewKeyword(input.call_site),
                );
            },
        },
    }
    let new_target = match input.called_with_new {
        CalledWithNew::New { on } => on,
        _ => TypeId(UNDEFINED_TYPE),
    };
    insert_binding(&mut seeds, NEW_TARGET_ARG, seed(new_target));
    seeds
}

/// Holds one argument against the type `against` of the parameter with index
/// `index`.
fn check_argument(
    against: TypeId,
    shown: TypeId,
    parameter_position: SpanWithSource,
    index: usize,
    argument: SynthesisedArgument,
    context: &mut SeedingContext,
    errors: &mut Vec<FunctionCallingError>,
    check: bool,
    types: &TypeStore,
)
    ensures
        (final(context)@.type_arguments, error_views(final(errors)@)) == argument_model(
            types.types_view(),
            against,
            shown,
            parameter_position,
            index,
            argument,
            old(context)@.type_arguments,
            error_views(old(errors)@),
            check,
        ),
        final(context)@.type_restrictions == old(context)@.type_restrictions,
        final(context)@.argument_position_and_parameter_idx == (argument.spec_position(), index),
{
    context.argument_position_and_parameter_idx = (argument.get_position(), index);
    if check {
        let verdict = type_is_subtype(against, argument.to_type(), context, types);
        if let SubTypeResult::IsNotSubType(_) = verdict {
            push_error(
                errors,
                FunctionCallingError::InvalidArgumentType {
                    parameter_type: TypeStringRepresentation::from_type_id(shown, types),
                    argument_type: TypeStringRepresentation::from_type_id(
                        argument.to_type(),
                        types,
                    ),
                    argument_position: argument.get_position(),
                    parameter_position,
                    restriction: None,
                },
            );
        }
    } else {
        context.set_id(
            against,
            Binding {
                value: argument.to_type(),
                position: argument.get_position(),
                parameter: index,
            },
        );
    }
}

/// The element type of a rest parameter.
fn element_of_rest(rest: &SynthesisedRestParameter, types: &TypeStore) -> (element: TypeId)
    ensures
        element == rest_element(types.types_view(), *rest),
{
    match types.get_type_by_id(rest.item_type) {
        Some(Type::Constructor(Constructor::StructureGenerics(generics))) => {
            if generics.on.0 == ARRAY_TYPE {
                match get_binding(&generics.arguments.type_arguments, T_TYPE) {
                    Some(binding) => binding.value,
                    None => TypeId(ANY_TYPE),
                }
            } else {
                TypeId(ANY_TYPE)
            }
        },
        _ => TypeId(ANY_TYPE),
    }
}

/// The one error for the arguments beyond `parameters` parameters.
fn excess_error(parameters: usize, arguments: &Vec<SynthesisedArgument>) -> (error:
    FunctionCallingError)
    requires
        parameters < arguments@.len(),
    ensures
        error@ == excess_arguments(parameters as nat, arguments@),
{
    let first = arguments[parameters].get_position();
    let count = arguments.len() - parameters;
    let position = if count > 1 {
        cover(first, arguments[arguments.len() - 1].get_position())
    } else {
        first
    };
    FunctionCallingError::ExcessArguments { count, position }
}

impl FunctionType {
    /// Holds the arguments of a call against the parameters: the positional
    /// ones first, then the arguments beyond them against the rest parameter,
    /// or one error for them where there is none. Returns the context with the
    /// bindings found and appends the errors found to `errors`.
    pub fn synthesise_arguments(
        &self,
        arguments: &Vec<SynthesisedArgument>,
        seeding_context: SeedingContext,
        types: &TypeStore,
        errors: &mut Vec<FunctionCallingError>,
        call_site: &SpanWithSource,
        check: bool,
    ) -> (found: SeedingContext)
        ensures
            (found@.type_arguments, error_views(final(errors)@)) == synthesise_arguments_model(
                types.types_view(),
                self@,
                arguments@,
                seeding_context@.type_arguments,
                error_views(old(errors)@),
                *call_site,
                check,
            ),
            found@.type_restrictions == seeding_context@.type_restrictions,
            found@.argument_position_and_parameter_idx == last_held(
                self@,
                arguments@,
                seeding_context@.argument_position_and_parameter_idx,
                check,
            ),
    {
        let mut context = seeding_context;
        let parameters = &self.parameters.parameters;
        let mut at: usize = 0;
        while at < parameters.len()
            invariant
                at <= parameters.len(),
                parameters@ == self@.parameters,
                context@.type_restrictions == seeding_context@.type_restrictions,
                context@.argument_position_and_parameter_idx == held_up_to(
                    arguments@,
                    at as int,
                    seeding_context@.argument_position_and_parameter_idx,
                ),
                positional_model(
                    types.types_view(),
                    parameters@,
                    arguments@,
                    at as int,
                    context@.type_arguments,
                    error_views(errors@),
                    *call_site,
                    check,
                ) == positional_model(
                    types.types_view(),
                    parameters@,
                    arguments@,
                    0,
                    seeding_context@.type_arguments,
                    error_views(old(errors)@),
                    *call_site,
                    check,
                ),
            decreases parameters.len() - at,
        {
            let parameter = parameters[at];
            if at < arguments.len() {
                check_argument(
                    parameter.ty,
                    parameter.ty,
                    parameter.position,
                    at,
                    arguments[at],
                    &mut context,
                    errors,
                    check,
                    types,
                );
            } else if let Some(value) = parameter.missing_value {
                context.set_id(
                    parameter.ty,
                    Binding { value, position: null_position(), parameter: at },
                );
            } else {
                push_error(
                    errors,
                    FunctionCallingError::MissingArgument {
                        parameter_position: parameter.position,
                        call_site: *call_site,
                    },
                );
            }
            at += 1;
        }
        if parameters.len() < arguments.len() {
            match &self.parameters.rest_parameter {
                Some(rest) => {
                    let element = element_of_rest(rest, types);
                    let ghost start_seeds = context@.type_arguments;
                    let ghost start_errors = error_views(errors@);
                    let mut at: usize = parameters.len();
                    while at < arguments.len()
                        invariant
                            parameters.len() <= at <= arguments.len(),
                            context@.type_restrictions == seeding_context@.type_restrictions,
                            context@.argument_position_and_parameter_idx == if check && at
                                > parameters.len() {
                                (arguments@[at - 1].spec_position(), (at - 1) as usize)
                            } else {
                                held_up_to(
                                    arguments@,
                                    parameters.len() as int,
                                    seeding_context@.argument_position_and_parameter_idx,
                                )
                            },
                            rest_model(
                                types.types_view(),
                                *rest,
                                element,
                                arguments@,
                                at as int,
                                context@.type_arguments,
                                error_views(errors@),
                                check,
                            ) == rest_model(
                                types.types_view(),
                                *rest,
                                element,
                                arguments@,
                                parameters.len() as int,
                                start_seeds,
                                start_errors,
                                check,
                            ),
                        decreases arguments.len() - at,
                    {
                        if check {
                            check_argument(
                                element,
                                rest.item_type,
                                rest.position,
                                at,
                                arguments[at],
                                &mut context,
                                errors,
                                true,
                                types,
                            );
                        }
                        at += 1;
                    }
                },
                None => {
                    push_error(errors, excess_error(parameters.len(), arguments));
                },
            }
        }
        context
    }

    /// What the type arguments that the call site names demand of the type
    /// parameters: the parameter at an index is restricted to the type
    /// argument at that index.
    pub fn synthesise_call_site_type_arguments(
        &self,
        call_site_type_arguments: &Vec<(TypeId, SpanWithSource)>,
    ) -> (restrictions: map_vec::Map<usize, Binding>)
        ensures
            binding_entries(restrictions) == match self@.type_parameters {
                Some(parameters) => zip_restrictions(
                    parameters,
                    call_site_type_arguments@,
                    0,
                    Seq::empty(),
                ),
                None => Seq::empty(),
            },
    {
        let mut restrictions = new_bindings();
        if let Some(parameters) = &self.type_parameters {
            let mut at: usize = 0;
            while at < parameters.len() && at < call_site_type_arguments.len()
                invariant
                    zip_restrictions(
                        parameters@,
                        call_site_type_arguments@,
                        at as int,
                        binding_entries(restrictions),
                    ) == zip_restrictions(
                        parameters@,
                        call_site_type_arguments@,
                        0,
                        Seq::empty(),
                    ),
                decreases parameters.len() - at,
            {
                let (value, position) = call_site_type_arguments[at];
                insert_binding(
                    &mut restrictions,
                    parameters[at].0,
                    Binding { value, position, parameter: at },
                );
                at += 1;
            }
        }
        restrictions
    }
}

/// Holds the bindings that the arguments gave against the restrictions of the
/// call site and returns them as the local type arguments of the call.
fn enforce_restrictions(
    found: &map_vec::Map<usize, Binding>,
    restrictions: &map_vec::Map<usize, Binding>,
    parameters: &Vec<SynthesisedParameter>,
    errors: &mut Vec<FunctionCallingError>,
    types: &TypeStore,
) -> (local: map_vec::Map<usize, Binding>)
    ensures
        (binding_entries(local), error_views(final(errors)@)) == enforce_restrictions_model(
            types.types_view(),
            parameters@,
            binding_entries(*found),
            binding_entries(*restrictions),
            0,
            Seq::empty(),
            error_views(old(errors)@),
        ),
{
    let pairs = binding_pairs(found);
    let mut local = new_bindings();
    let mut at: usize = 0;
    while at < pairs.len()
        invariant
            at <= pairs.len(),
            pairs@ == binding_entries(*found),
            enforce_restrictions_model(
                types.types_view(),
                parameters@,
                pairs@,
                binding_entries(*restrictions),
                at as int,
                binding_entries(local),
                error_views(errors@),
            ) == enforce_restrictions_model(
                types.types_view(),
                parameters@,
                pairs@,
                binding_entries(*restrictions),
                0,
                Seq::empty(),
                error_views(old(errors)@),
            ),
        decreases pairs.len() - at,
    {
        let (key, binding) = pairs[at];
        if let Some(restriction) = get_binding(restrictions, key) {
            let behavior = BasicEquality {
                add_property_restrictions: false,
                position: restriction.position,
            };
            let verdict = type_is_subtype_basic(restriction.value, binding.value, &behavior, types);
            if let SubTypeResult::IsNotSubType(_) = verdict {
                let (parameter, parameter_position) = if binding.parameter < parameters.len() {
                    (parameters[binding.parameter].ty, parameters[binding.parameter].position)
                } else {
                    (TypeId(key), binding.position)
                };
                push_error(
                    errors,
                    FunctionCallingError::InvalidArgumentType {
                        parameter_type: TypeStringRepresentation::from_type_id(parameter, types),
                        argument_type: TypeStringRepresentation::from_type_id(
                            binding.value,
                            types,
                        ),
                        argument_position: binding.position,
                        parameter_position,
                        restriction: Some(
                            (
                                restriction.position,
                                TypeStringRepresentation::from_type_id(restriction.value, types),
                            ),
                        ),
                    },
                );
            }
        }
        insert_binding(&mut local, key, binding);
        at += 1;
    }
    local
}

/// Gives the captured references their values in the closure instantiation
/// `closure`.
fn capture_closed_over(
    closure: ClosureId,
    captured: &Vec<(RootReference, TypeId)>,
    arguments: &FunctionTypeArguments,
    environment: &mut Environment,
    types: &mut TypeStore,
)
    ensures
        state_of(*final(environment), *final(types)) == capture_model(
            state_of(*old(environment), *old(types)),
            arguments@,
            closure,
            captured@,
            0,
        ),
        final(types).functions == old(types).functions,
{
    let mut at: usize = 0;
    while at < captured.len()
        invariant
            at <= captured.len(),
            types.functions == old(types).functions,
            capture_model(
                state_of(*environment, *types),
                arguments@,
                closure,
                captured@,
                at as int,
            ) == capture_model(
                state_of(*old(environment), *old(types)),
                arguments@,
                closure,
                captured@,
                0,
            ),
        decreases captured.len() - at,
    {
        let (reference, value) = captured[at];
        let current = substitute(value, arguments, types);
        environment.facts.closure_current_values.push((closure, reference, current));
        at += 1;
    }
}

/// What a function returns once its effects were replayed.
fn returned_type(
    function: &FunctionType,
    called_with_new: CalledWithNew,
    early: Option<TypeId>,
    arguments: &FunctionTypeArguments,
    types: &mut TypeStore,
) -> (returned: TypeId)
    ensures
        (final(types).types_view(), returned) == returned_model(
            old(types).types_view(),
            arguments@,
            function@,
            called_with_new,
            early,
        ),
        final(types).functions == old(types).functions,
        final(types).closures == old(types).closures,
{
    let instance = match (called_with_new, function.behavior) {
        (CalledWithNew::New { .. }, FunctionBehavior::Function { free_this_id, .. }) => Some(
            free_this_id,
        ),
        (CalledWithNew::New { .. }, FunctionBehavior::Constructor { this_object_type, .. }) => Some(
            this_object_type,
        ),
        _ => None,
    };
    match instance {
        Some(id) => match get_binding(&arguments.local_arguments, id.0) {
            Some(binding) => binding.value,
            None => id,
        },
        None => match early {
            Some(returned) => returned,
            None => substitute(function.return_type, arguments, types),
        },
    }
}

/// The view of the type arguments of a structure, where there is one.
pub open spec fn structure_view(structure: Option<StructureGenericArguments>) -> Option<
    Seq<(usize, Binding)>,
> {
    match structure {
        Some(arguments) => Some(arguments@),
        None => None,
    }
}

/// A list that holds one error.
fn single_error(error: FunctionCallingError) -> (errors: Vec<FunctionCallingError>)
    ensures
        error_views(errors@) == seq![error@],
{
    let mut errors: Vec<FunctionCallingError> = Vec::new();
    errors.push(error);
    errors
}

/// A result without warnings.
fn result_of(
    called: Option<FunctionId>,
    returned_type: TypeId,
    special: Option<SpecialExpressions>,
) -> (result: FunctionCallResult)
    ensures
        result@ == (CallResultView { called, returned_type, warnings: Seq::empty(), special }),
{
    let result = FunctionCallResult { called, returned_type, warnings: Vec::new(), special };
    assert(warning_views(result.warnings@) =~= Seq::empty());
    result
}

/// The error of a call on something that cannot be called.
fn not_callable_error(on: TypeId, call_site: SpanWithSource, types: &TypeStore) -> (errors: Vec<
    FunctionCallingError,
>)
    ensures
        error_views(errors@) == crate::model::not_callable(types.types_view(), on, call_site),
{
    single_error(
        FunctionCallingError::NotCallable {
            calling: TypeStringRepresentation::from_type_id(on, types),
            call_site,
        },
    )
}

/// Whether the type of some argument is the recovery type.
fn any_error_argument(arguments: &Vec<SynthesisedArgument>) -> (found: bool)
    ensures
        found == exists|i: int|
            0 <= i < arguments@.len() && (#[trigger] arguments@[i]).spec_ty().0 == ERROR_TYPE,
{
    let mut at: usize = 0;
    while at < arguments.len()
        invariant
            at <= arguments.len(),
            forall|i: int| 0 <= i < at ==> (#[trigger] arguments@[i]).spec_ty().0 != ERROR_TYPE,
        decreases arguments.len() - at,
    {
        if arguments[at].to_type().0 == ERROR_TYPE {
            return true;
        }
        at += 1;
    }
    false
}

/// Whether a result needs no dependent type to stand for it.
fn needs_no_wrapping(returned: TypeId, types: &TypeStore) -> (skips: bool)
    ensures
        skips == skips_wrapping(types.types_view(), returned),
{
    if returned.0 == UNDEFINED_TYPE || returned.0 == NULL_TYPE {
        return true;
    }
    match types.get_type_by_id(returned) {
        Some(Type::Constant(_)) => true,
        Some(Type::Object(ObjectNature::RealDeal)) => true,
        Some(Type::SpecialObject(_)) => true,
        _ => false,
    }
}

/// Appends the event of a call made now.
fn push_call_event(
    environment: &mut Environment,
    on: TypeId,
    arguments: &Vec<SynthesisedArgument>,
    input: &CallingInput,
    reflects_dependency: Option<TypeId>,
    types: &TypeStore,
)
    ensures
        state_of(*final(environment), *types) == with_event(
            state_of(*old(environment), *types),
            call_event(on, arguments@, input@, reflects_dependency),
        ),
{
    environment.facts.push_event(
        Event::CallsType {
            on,
            with: copy_arguments(arguments),
            timing: CallingTiming::Synchronous,
            called_with_new: input.called_with_new,
            reflects_dependency,
            position: input.call_site,
        },
    );
}

/// Calls the type `on` with `arguments`.
///
/// Returns the result of the call, or the errors if the call produced any.
/// Everything that the call registers, records and returns is what
/// [`call_type_model`] says.
pub fn call_type(
    on: TypeId,
    input: CallingInput,
    arguments: Vec<SynthesisedArgument>,
    environment: &mut Environment,
    behavior: &CallCheckingBehavior,
    types: &mut TypeStore,
) -> (outcome: Result<FunctionCallResult, Vec<FunctionCallingError>>)
    ensures
        (state_of(*final(environment), *final(types)), outcome_view(outcome)) == call_type_model(
            old(types).functions_view(),
            state_of(*old(environment), *old(types)),
            on,
            input@,
            arguments@,
            behavior@,
        ),
        final(types).functions == old(types).functions,
    decreases room(old(types).functions_view().len(), behavior@.stack), 6int, 0int, 0int,
{
    match resolve_call(on, &input, &arguments, environment, behavior, types) {
        Ok(resolution) => {
            if resolution.kind == ResolutionKind::Resolved {
                push_call_event(environment, on, &arguments, &input, None, types);
            }
            Ok(resolution.result)
        },
        Err(errors) => Err(errors),
    }
}

/// Resolves a call of the type `on`: by absorption, through the constraint
/// of a polymorphic callee, or through the functions that `on` stands for.
pub fn resolve_call(
    on: TypeId,
    input: &CallingInput,
    arguments: &Vec<SynthesisedArgument>,
    environment: &mut Environment,
    behavior: &CallCheckingBehavior,
    types: &mut TypeStore,
) -> (outcome: Result<Resolution, Vec<FunctionCallingError>>)
    ensures
        (state_of(*final(environment), *final(types)), resolution_view(outcome)) == resolve_model(
            old(types).functions_view(),
            state_of(*old(environment), *old(types)),
            on,
            input@,
            arguments@,
            behavior@,
        ),
        final(types).functions == old(types).functions,
    decreases room(old(types).functions_view().len(), behavior@.stack), 5int, on.0, 1int,
{
    if on.0 == ERROR_TYPE || any_error_argument(arguments) {
        return Ok(
            Resolution {
                result: result_of(None, TypeId(ERROR_TYPE), None),
                kind: ResolutionKind::Absorbed,
            },
        );
    }
    if let Some(constraint) = environment.get_poly_base(on, types) {
        create_generic_function_call(
            constraint,
            input,
            arguments,
            on,
            environment,
            behavior,
            types,
        )
    } else {
        match get_logical_callable_from_type(on, types) {
            Some(logical) => {
                let without_this = CallingInputWithoutThis {
                    called_with_new: input.called_with_new,
                    call_site_type_arguments: crate::results::copy_type_arguments(
                        &input.call_site_type_arguments,
                    ),
                    call_site: input.call_site,
                };
                call_logical(
                    logical,
                    types,
                    on,
                    &without_this,
                    None,
                    arguments,
                    environment,
                    behavior,
                )
            },
            None => Err(not_callable_error(on, input.call_site, types)),
        }
    }
}

/// Calls through a tree of functions.
pub fn call_logical(
    logical: Logical<(FunctionId, ThisValue)>,
    types: &mut TypeStore,
    on: TypeId,
    input: &CallingInputWithoutThis,
    structure_generics: Option<StructureGenericArguments>,
    arguments: &Vec<SynthesisedArgument>,
    environment: &mut Environment,
    behavior: &CallCheckingBehavior,
) -> (outcome: Result<Resolution, Vec<FunctionCallingError>>)
    ensures
        (state_of(*final(environment), *final(types)), resolution_view(outcome))
            == call_logical_model(
            old(types).functions_view(),
            state_of(*old(environment), *old(types)),
            logical_view(logical),
            on,
            input@,
            structure_view(structure_generics),
            arguments@,
            behavior@,
        ),
        final(types).functions == old(types).functions,
    decreases
            room(old(types).functions_view().len(), behavior@.stack),
            4int,
            logical_height(logical_view(logical)),
            0int,
{
    match logical {
        Logical::Pure((function, this_value)) => {
            let with_this = CallingInput {
                called_with_new: input.called_with_new,
                this_value,
                call_site_type_arguments: crate::results::copy_type_arguments(
                    &input.call_site_type_arguments,
                ),
                call_site: input.call_site,
            };
            let descriptor = match types.get_function(function) {
                Some(descriptor) => Some(descriptor.duplicate()),
                None => None,
            };
            match descriptor {
                Some(descriptor) => descriptor.call(
                    function,
                    on,
                    with_this,
                    structure_generics,
                    arguments,
                    environment,
                    behavior,
                    types,
                    true,
                ),
                None => {
                    // A handle without a descriptor is handled by the ordinary call.
                    assert(call_function_model(
                        old(types).functions_view(),
                        state_of(*old(environment), *old(types)),
                        function,
                        on,
                        with_this@,
                        structure_view(structure_generics),
                        arguments@,
                        behavior@,
                        true,
                    ) == plain_call_model(
                        old(types).functions_view(),
                        state_of(*old(environment), *old(types)),
                        function,
                        on,
                        with_this@,
                        structure_view(structure_generics),
                        arguments@,
                        behavior@,
                    ));
                    Err(not_callable_error(on, input.call_site, types))
                },
            }
        },
        Logical::Or { .. } => Err(
            single_error(
                FunctionCallingError::NotCallable {
                    calling: TypeStringRepresentation(
                        String::from_str("unsupported union callable"),
                    ),
                    call_site: input.call_site,
                },
            ),
        ),
        Logical::Implies { on: inner, antecedent } => call_logical(
            *inner,
            types,
            on,
            input,
            Some(antecedent),
            arguments,
            environment,
            behavior,
        ),
    }
}

/// Calls the polymorphic type `on` through its constraint and makes the
/// result dependent.
pub fn create_generic_function_call(
    constraint: TypeId,
    input: &CallingInput,
    arguments: &Vec<SynthesisedArgument>,
    on: TypeId,
    environment: &mut Environment,
    behavior: &CallCheckingBehavior,
    types: &mut TypeStore,
) -> (outcome: Result<Resolution, Vec<FunctionCallingError>>)
    ensures
        (state_of(*final(environment), *final(types)), resolution_view(outcome))
            == generic_call_model(
            old(types).functions_view(),
            state_of(*old(environment), *old(types)),
            constraint,
            input@,
            arguments@,
            on,
            behavior@,
        ),
        final(types).functions == old(types).functions,
    decreases room(old(types).functions_view().len(), behavior@.stack), 5int, on.0, 0int,
{
    if constraint.0 >= on.0 {
        return Err(not_callable_error(on, input.call_site, types));
    }
    match resolve_call(constraint, input, arguments, environment, behavior, types) {
        Err(errors) => Err(errors),
        Ok(inner) => {
            if needs_no_wrapping(inner.result.returned_type, types) {
                push_call_event(environment, on, arguments, input, None, types);
                Ok(Resolution { result: inner.result, kind: ResolutionKind::Dependent })
            } else {
                let wrapped = types.register_type(
                    Type::Constructor(
                        Constructor::FunctionResult {
                            on,
                            with: copy_arguments(arguments),
                            result: inner.result.returned_type,
                        },
                    ),
                );
                push_call_event(environment, on, arguments, input, Some(wrapped), types);
                Ok(
                    Resolution {
                        result: FunctionCallResult {
                            called: inner.result.called,
                            returned_type: wrapped,
                            warnings: inner.result.warnings,
                            special: None,
                        },
                        kind: ResolutionKind::Dependent,
                    },
                )
            }
        },
    }
}

impl FunctionType {
    /// Calls the function. `self` is the descriptor that `function` names in
    /// `types`, and `on` is the type through which the function was reached.
    pub(crate) fn call(
        &self,
        function: FunctionId,
        on: TypeId,
        input: CallingInput,
        parent_type_arguments: Option<StructureGenericArguments>,
        arguments: &Vec<SynthesisedArgument>,
        environment: &mut Environment,
        behavior: &CallCheckingBehavior,
        types: &mut TypeStore,
        call_constant: bool,
    ) -> (outcome: Result<Resolution, Vec<FunctionCallingError>>)
        requires
            function.0 < old(types).functions_view().len(),
            old(types).functions_view()[function.0 as int] == self@,
        ensures
            (state_of(*final(environment), *final(types)), resolution_view(outcome))
                == call_function_model(
                old(types).functions_view(),
                state_of(*old(environment), *old(types)),
                function,
                on,
                input@,
                structure_view(parent_type_arguments),
                arguments@,
                behavior@,
                call_constant,
            ),
            final(types).functions == old(types).functions,
        decreases
                room(old(types).functions_view().len(), behavior@.stack),
                3int,
                if call_constant {
                    1int
                } else {
                    0int
                },
                0int,
    {
        if behavior.in_recursive_cycle(function) {
            // A function on the stack is turned away by the ordinary call.
            assert(plain_call_model(
                old(types).functions_view(),
                state_of(*old(environment), *old(types)),
                function,
                on,
                input@,
                structure_view(parent_type_arguments),
                arguments@,
                behavior@,
            ).1 is Ok);
            return Ok(
                Resolution {
                    result: result_of(Some(function), TypeId(ERROR_TYPE), None),
                    kind: ResolutionKind::Guarded,
                },
            );
        }
        if call_constant {
            if let Some(name) = &self.constant_function {
                if runs_always(name.as_str()) || !any_dependent_argument(arguments, types) {
                    let computed = call_constant_function(
                        name.as_str(),
                        input.this_value,
                        &input.call_site_type_arguments,
                        arguments,
                        types,
                        environment,
                    );
                    match computed {
                        Ok(ConstantOutput::Value(value)) => {
                            let special = if same_text(name.as_str(), "compile_type_to_object") {
                                Some(SpecialExpressions::CompileOut)
                            } else {
                                None
                            };
                            return Ok(
                                Resolution {
                                    result: result_of(None, value, special),
                                    kind: ResolutionKind::Resolved,
                                },
                            );
                        },
                        Ok(ConstantOutput::Diagnostic(text)) => {
                            let mut warnings: Vec<InfoDiagnostic> = Vec::new();
                            let ghost shown = text@;
                            warnings.push(InfoDiagnostic(text));
                            assert(warning_views(warnings@) =~= seq![shown]);
                            return Ok(
                                Resolution {
                                    result: FunctionCallResult {
                                        called: None,
                                        returned_type: TypeId(UNDEFINED_TYPE),
                                        warnings,
                                        special: Some(SpecialExpressions::Marker),
                                    },
                                    kind: ResolutionKind::Resolved,
                                },
                            );
                        },
                        Err(ConstantFunctionError::NoLogicForIdentifier(missing)) => {
                            return Err(
                                single_error(
                                    FunctionCallingError::NoLogicForIdentifier(
                                        missing,
                                        input.call_site,
                                    ),
                                ),
                            );
                        },
                        Err(ConstantFunctionError::BadCall) => {},
                    }
                } else {
                    let again = input.duplicate();
                    let inner = self.call(
                        function,
                        on,
                        again,
                        parent_type_arguments,
                        arguments,
                        environment,
                        behavior,
                        types,
                        false,
                    );
                    return match inner {
                        Err(errors) => Err(errors),
                        Ok(inner) => {
                            let callee = types.register_type(
                                Type::Function(function, input.this_value),
                            );
                            let wrapped = types.register_type(
                                Type::Constructor(
                                    Constructor::FunctionResult {
                                        on: callee,
                                        with: copy_arguments(arguments),
                                        result: inner.result.returned_type,
                                    },
                                ),
                            );
                            push_call_event(
                                environment,
                                callee,
                                arguments,
                                &input,
                                Some(wrapped),
                                types,
                            );
                            Ok(
                                Resolution {
                                    result: result_of(None, wrapped, None),
                                    kind: ResolutionKind::Dependent,
                                },
                            )
                        },
                    };
                }
            }
        }
        self.plain_call(
            function,
            on,
            input,
            parent_type_arguments,
            arguments,
            environment,
            behavior,
            types,
        )
    }

    /// Calls the function as an ordinary function: binds `this` and
    /// `new.target`, holds the arguments against the parameters, enforces the
    /// restrictions of the call site, replays the effects and puts the result
    /// together.
    pub(crate) fn plain_call(
        &self,
        function: FunctionId,
        on: TypeId,
        input: CallingInput,
        parent_type_arguments: Option<StructureGenericArguments>,
        arguments: &Vec<SynthesisedArgument>,
        environment: &mut Environment,
        behavior: &CallCheckingBehavior,
        types: &mut TypeStore,
    ) -> (outcome: Result<Resolution, Vec<FunctionCallingError>>)
        requires
            function.0 < old(types).functions_view().len(),
            old(types).functions_view()[function.0 as int] == self@,
            !behavior@.stack.contains(function),
        ensures
            (state_of(*final(environment), *final(types)), resolution_view(outcome))
                == plain_call_model(
                old(types).functions_view(),
                state_of(*old(environment), *old(types)),
                function,
                on,
                input@,
                structure_view(parent_type_arguments),
                arguments@,
                behavior@,
            ),
            final(types).functions == old(types).functions,
        decreases room(old(types).functions_view().len(), behavior@.stack), 2int, 0int, 0int,
    {
        let mut errors: Vec<FunctionCallingError> = Vec::new();
        let seeds = seed_call(self.behavior, &input, environment, types, &mut errors);
        let restrictions = match &input.call_site_type_arguments {
            Some(given) => if behavior.check_parameters {
                self.synthesise_call_site_type_arguments(given)
            } else {
                new_bindings()
            },
            None => new_bindings(),
        };
        let context = SeedingContext {
            type_arguments: seeds,
            type_restrictions: restrictions,
            argument_position_and_parameter_idx: (null_position(), 0),
        };
        let found = self.synthesise_arguments(
            arguments,
            context,
            types,
            &mut errors,
            &input.call_site,
            behavior.check_parameters,
        );
        let local = enforce_restrictions(
            &found.type_arguments,
            &found.type_restrictions,
            &self.parameters.parameters,
            &mut errors,
            types,
        );
        if errors.len() > 0 {
            return Err(errors);
        }
        let closure = if self.closed_over_variables.len() == 0 {
            None
        } else {
            Some(types.new_closure_id(function))
        };
        let mut type_arguments = FunctionTypeArguments {
            structure_arguments: parent_type_arguments,
            local_arguments: local,
            closure_id: closure,
        };
        let inner = behavior.enter(function);
        proof {
            room_decreases(old(types).functions_view().len(), behavior@.stack, function);
        }
        let early = replay_effects(
            &self.effects,
            input.this_value,
            &mut type_arguments,
            environment,
            &inner,
            types,
        );
        if let Some(closure) = closure {
            capture_closed_over(
                closure,
                &self.closed_over_variables,
                &type_arguments,
                environment,
                types,
            );
        }
        let returned = returned_type(self, input.called_with_new, early, &type_arguments, types);
        Ok(
            Resolution {
                result: result_of(Some(function), returned, None),
                kind: ResolutionKind::Resolved,
            },
        )
    }
}

/// Replays `effects` in order, until one of them returns.
pub fn replay_effects(
    effects: &Vec<Event>,
    this_value: ThisValue,
    type_arguments: &mut FunctionTypeArguments,
    environment: &mut Environment,
    behavior: &CallCheckingBehavior,
    types: &mut TypeStore,
) -> (early: Option<TypeId>)
    ensures
        (state_of(*final(environment), *final(types)), final(type_arguments)@, early)
            == replay_model(
            old(types).functions_view(),
            state_of(*old(environment), *old(types)),
            this_value,
            old(type_arguments)@,
            event_views(effects@),
            0,
            behavior@,
        ),
        final(types).functions == old(types).functions,
    decreases room(old(types).functions_view().len(), behavior@.stack), 9int, effects@.len(), 0int,
{
    let mut at: usize = 0;
    while at < effects.len()
        invariant
            at <= effects.len(),
            types.functions == old(types).functions,
            replay_model(
                old(types).functions_view(),
                state_of(*environment, *types),
                this_value,
                type_arguments@,
                event_views(effects@),
                at as int,
                behavior@,
            ) == replay_model(
                old(types).functions_view(),
                state_of(*old(environment), *old(types)),
                this_value,
                old(type_arguments)@,
                event_views(effects@),
                0,
                behavior@,
            ),
        decreases effects.len() - at,
    {
        let returned = apply_event(
            &effects[at],
            this_value,
            type_arguments,
            environment,
            behavior,
            types,
        );
        if returned.is_some() {
            return returned;
        }
        at += 1;
    }
    None
}

/// Replays one effect under the type arguments of a call. Returns the value
/// of the effect if it is a return.
pub fn apply_event(
    event: &Event,
    this_value: ThisValue,
    type_arguments: &mut FunctionTypeArguments,
    environment: &mut Environment,
    behavior: &CallCheckingBehavior,
    types: &mut TypeStore,
) -> (returned: Option<TypeId>)
    ensures
        (state_of(*final(environment), *final(types)), final(type_arguments)@, returned)
            == apply_event_model(
            old(types).functions_view(),
            state_of(*old(environment), *old(types)),
            this_value,
            old(type_arguments)@,
            event@,
            behavior@,
        ),
        final(types).functions == old(types).functions,
    decreases room(old(types).functions_view().len(), behavior@.stack), 8int, 0int, 0int,
{
    match event {
        Event::CallsType { on, with, timing, called_with_new, reflects_dependency, position } => {
            let replays = *timing == CallingTiming::Synchronous && (reflects_dependency.is_some()
                || environment.get_poly_base(*on, types).is_some());
            if replays {
                let callee = substitute(*on, type_arguments, types);
                let given = substitute_arguments(with, type_arguments, types, None);
                let outcome = call_type(
                    callee,
                    CallingInput {
                        called_with_new: *called_with_new,
                        this_value,
                        call_site_type_arguments: None,
                        call_site: *position,
                    },
                    given,
                    environment,
                    behavior,
                    types,
                );
                match (outcome, reflects_dependency) {
                    (Ok(result), Some(dependency)) => {
                        insert_binding(
                            &mut type_arguments.local_arguments,
                            dependency.0,
                            Binding {
                                value: result.returned_type,
                                position: *position,
                                parameter: 0,
                            },
                        );
                    },
                    _ => {},
                }
            }
            None
        },
        Event::SetsVariable(variable, value, position) => {
            let current = substitute(*value, type_arguments, types);
            environment.facts.variable_current_value.push((*variable, current));
            environment.facts.push_event(Event::SetsVariable(*variable, current, *position));
            None
        },
        Event::Setter { on, under, new, position } => {
            let object = substitute(*on, type_arguments, types);
            let key = substitute(*under, type_arguments, types);
            let value = substitute(*new, type_arguments, types);
            environment.facts.current_properties.push((object, key, value));
            environment.facts.push_event(
                Event::Setter { on: object, under: key, new: value, position: *position },
            );
            None
        },
        Event::Return { returned, .. } => Some(substitute(*returned, type_arguments, types)),
    }
}

/// The messages for the warnings of a call, all at the position `position`.
pub open spec fn info_diagnostics(warnings: Seq<Seq<char>>, position: SpanWithSource) -> Seq<
    DiagnosticView,
> {
    Seq::new(
        warnings.len(),
        |i: int|
            DiagnosticView::Position {
                reason: warnings[i],
                position,
                kind: DiagnosticKind::Info,
            },
    )
}

/// The messages for the errors of a call.
pub open spec fn error_diagnostics(errors: Seq<CallErrorView>) -> Seq<DiagnosticView> {
    Seq::new(errors.len(), |i: int| DiagnosticView::FunctionCallingError(errors[i]))
}

/// How calls are checked at a call site: arguments are checked and nothing
/// is being replayed.
pub open spec fn checking_behavior() -> BehaviorView {
    BehaviorView { check_parameters: true, stack: Seq::empty() }
}

/// What a call at a call site leaves beside the state: the returned type with
/// the special expression, the messages and the functions that ran. With
/// errors the returned type is the recovery type, no function is noted and
/// every error becomes a message. Without, every warning becomes a message
/// at the call site and the function that ran is noted.
pub open spec fn handled(
    outcome: Result<CallResultView, Seq<CallErrorView>>,
    call_site: SpanWithSource,
    diagnostics: Seq<DiagnosticView>,
    called: Seq<FunctionId>,
) -> ((TypeId, Option<SpecialExpressions>), Seq<DiagnosticView>, Seq<FunctionId>) {
    match outcome {
        Ok(result) => (
            (result.returned_type, result.special),
            diagnostics + info_diagnostics(result.warnings, call_site),
            match result.called {
                Some(function) => with_function(called, function),
                None => called,
            },
        ),
        Err(errors) => (
            (TypeId(ERROR_TYPE), None),
            diagnostics + error_diagnostics(errors),
            called,
        ),
    }
}

/// Calls the type `ty` at a call site and hands what the call found to the
/// data of the run: warnings and errors become messages, the function that
/// ran is noted. Returns the returned type and the special expression, or the
/// recovery type if the call produced errors.
pub fn call_type_handle_errors(
    ty: TypeId,
    input: CallingInput,
    environment: &mut Environment,
    arguments: Vec<SynthesisedArgument>,
    checking_data: &mut CheckingData,
) -> (returned: (TypeId, Option<SpecialExpressions>))
    ensures
        ({
            let (state, outcome) = call_type_model(
                old(checking_data).types.functions_view(),
                state_of(*old(environment), old(checking_data).types),
                ty,
                input@,
                arguments@,
                checking_behavior(),
            );
            &&& state_of(*final(environment), final(checking_data).types) == state
            &&& (
                returned,
                final(checking_data).diagnostics_container@,
                final(checking_data).type_mappings.called_functions@,
            ) == handled(
                outcome,
                input.call_site,
                old(checking_data).diagnostics_container@,
                old(checking_data).type_mappings.called_functions@,
            )
        }),
        final(checking_data).types.functions == old(checking_data).types.functions,
{
    let call_site = input.call_site;
    let behavior = CallCheckingBehavior::check_things();
    let result = call_type(ty, input, arguments, environment, &behavior, &mut checking_data.types);
    match result {
        Ok(result) => {
            let FunctionCallResult { returned_type, warnings, called, special } = result;
            let ghost texts = warning_views(warnings@);
            let ghost before = checking_data.diagnostics_container@;
            let ghost store = checking_data.types;
            let ghost mappings = checking_data.type_mappings;
            let mut at: usize = 0;
            while at < warnings.len()
                invariant
                    at <= warnings.len(),
                    texts == warning_views(warnings@),
                    checking_data.types == store,
                    checking_data.type_mappings == mappings,
                    checking_data.diagnostics_container@ == before + info_diagnostics(
                        texts,
                        call_site,
                    ).subrange(0, at as int),
                decreases warnings.len() - at,
            {
                checking_data.diagnostics_container.add_info(
                    Diagnostic::Position {
                        reason: warnings[at].0.clone(),
                        position: call_site,
                        kind: DiagnosticKind::Info,
                    },
                );
                at += 1;
            }
            if let Some(called) = called {
                checking_data.type_mappings.note_called(called);
            }
            (returned_type, special)
        },
        Err(errors) => {
            let mut errors = errors;
            let ghost all = error_views(errors@);
            let ghost before = checking_data.diagnostics_container@;
            let ghost store = checking_data.types;
            let ghost mappings = checking_data.type_mappings;
            let ghost mut done: int = 0;
            while errors.len() > 0
                invariant
                    0 <= done <= all.len(),
                    checking_data.types == store,
                    checking_data.type_mappings == mappings,
                    error_views(errors@) == all.subrange(done, all.len() as int),
                    checking_data.diagnostics_container@ == before + error_diagnostics(
                        all,
                    ).subrange(0, done),
                decreases errors.len(),
            {
                let ghost rest = error_views(errors@);
                assert(rest.len() == all.len() - done);
                let error = errors.remove(0);
                assert(rest[0] == all[done]);
                assert forall|i: int| 0 <= i < errors@.len() implies error_views(errors@)[i]
                    == all[done + 1 + i] by {
                    assert(rest[i + 1] == all[done + i + 1]);
                }
                checking_data.diagnostics_container.add_error(error);
                proof {
                    done = done + 1;
                }
            }
            (TypeId(ERROR_TYPE), None)
        },
    }
}

} // verus!
