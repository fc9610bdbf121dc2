use call_checker::calling::{call_type, call_type_handle_errors};
use call_checker::context::{CallCheckingBehavior, Environment, Facts};
use call_checker::diagnostics::{CheckingData, Diagnostic, DiagnosticKind};
use call_checker::events::{CalledWithNew, CallingTiming, Event, RootReference};
use call_checker::functions::{
    FunctionBehavior, FunctionType, SynthesisedParameter, SynthesisedParameters,
    SynthesisedRestParameter,
};
use call_checker::results::{
    CallingInput, FunctionCallResult, FunctionCallingError, SpecialExpressions,
};
use call_checker::types::{
    Constant, Constructor, FunctionId, ObjectNature, PolyNature, StructureGenericArguments,
    StructureGenerics, SynthesisedArgument, ThisValue, Type, TypeId, TypeStore, VariableId,
    ANY_TYPE, ARRAY_TYPE, ERROR_TYPE, NUMBER_TYPE, STRING_TYPE, T_TYPE, UNDEFINED_TYPE,
};
use call_checker::bindings::Binding;
use source_map::{BaseSpan, Nullable, SourceId, SpanWithSource};

fn at(start: u32, end: u32) -> SpanWithSource {
    BaseSpan { start, end, source: SourceId::NULL }
}

fn environment() -> Environment {
    Environment { facts: Facts::new(), value_of_this: None }
}

fn input(call_site: SpanWithSource) -> CallingInput {
    CallingInput {
        called_with_new: CalledWithNew::Plain,
        this_value: ThisValue::UseParent,
        call_site_type_arguments: None,
        call_site,
    }
}

fn parameter(ty: TypeId, position: SpanWithSource) -> SynthesisedParameter {
    SynthesisedParameter { ty, position, missing_value: None }
}

fn argument(ty: TypeId, position: SpanWithSource) -> SynthesisedArgument {
    SynthesisedArgument::NonSpread { ty, position }
}

fn arrow(parameters: Vec<SynthesisedParameter>, return_type: TypeId) -> FunctionType {
    FunctionType {
        id: FunctionId(0),
        behavior: FunctionBehavior::ArrowFunction { is_async: false },
        type_parameters: None,
        parameters: SynthesisedParameters { parameters, rest_parameter: None },
        return_type,
        effects: Vec::new(),
        closed_over_variables: Vec::new(),
        constant_function: None,
    }
}

fn register(types: &mut TypeStore, function: FunctionType) -> TypeId {
    let id = types.register_function(function);
    types.register_type(Type::Function(id, ThisValue::UseParent))
}

fn number(types: &mut TypeStore, value: i64) -> TypeId {
    types.register_type(Type::Constant(Constant::Number(value)))
}

fn text(types: &mut TypeStore, value: &str) -> TypeId {
    types.register_type(Type::Constant(Constant::String(value.to_string())))
}

fn ok(outcome: Result<FunctionCallResult, Vec<FunctionCallingError>>) -> FunctionCallResult {
    match outcome {
        Ok(result) => result,
        Err(errors) => panic!("the call gave {} errors", errors.len()),
    }
}

fn errors(
    outcome: Result<FunctionCallResult, Vec<FunctionCallingError>>,
) -> Vec<FunctionCallingError> {
    match outcome {
        Ok(_) => panic!("the call gave no errors"),
        Err(errors) => errors,
    }
}

fn is_record(event: &Event, callee: TypeId, arguments: usize) -> bool {
    match event {
        Event::CallsType { on, with, timing, reflects_dependency, .. } => {
            *on == callee
                && with.len() == arguments
                && *timing == CallingTiming::Synchronous
                && reflects_dependency.is_none()
        }
        _ => false,
    }
}

#[test]
fn identity_returns_the_type_of_its_argument() {
    let mut types = TypeStore::new();
    let generic =
        types.register_type(Type::RootPolyType(PolyNature::Generic { eager_fixed: TypeId(ANY_TYPE) }));
    let mut identity = arrow(vec![parameter(generic, at(12, 16))], generic);
    identity.type_parameters = Some(vec![generic]);
    let callee = register(&mut types, identity);
    let forty_two = number(&mut types, 42);
    let mut environment = environment();
    let behavior = CallCheckingBehavior::check_things();
    let result = ok(call_type(
        callee,
        input(at(30, 36)),
        vec![argument(forty_two, at(33, 35))],
        &mut environment,
        &behavior,
        &mut types,
    ));
    assert_eq!(result.returned_type, forty_two);
    assert_eq!(result.called, Some(FunctionId(0)));
    assert!(result.warnings.is_empty());
    assert_eq!(result.special, None);
    assert_eq!(environment.facts.events.len(), 1);
    assert!(is_record(&environment.facts.events[0], callee, 1));
}

#[test]
fn wrong_argument_type_is_one_error_and_the_recovery_type() {
    let mut data = CheckingData::new();
    let callee = register(
        &mut data.types,
        arrow(vec![parameter(TypeId(STRING_TYPE), at(11, 20))], TypeId(NUMBER_TYPE)),
    );
    let one = number(&mut data.types, 1);
    let mut environment = environment();
    let returned = call_type_handle_errors(
        callee,
        input(at(40, 44)),
        &mut environment,
        vec![argument(one, at(42, 43))],
        &mut data,
    );
    assert_eq!(returned, (TypeId(ERROR_TYPE), None));
    assert!(data.type_mappings.called_functions.is_empty());
    assert!(environment.facts.events.is_empty());
    assert_eq!(data.diagnostics_container.diagnostics.len(), 1);
    assert!(data.diagnostics_container.has_error());
    match &data.diagnostics_container.diagnostics[0] {
        Diagnostic::FunctionCallingError(FunctionCallingError::InvalidArgumentType {
            parameter_type,
            argument_type,
            argument_position,
            parameter_position,
            restriction,
        }) => {
            assert_eq!(parameter_type.0, "string");
            assert_eq!(argument_type.0, "1");
            assert_eq!(*argument_position, at(42, 43));
            assert_eq!(*parameter_position, at(11, 20));
            assert!(restriction.is_none());
        }
        other => panic!("unexpected diagnostic {:?}", other),
    }
}

#[test]
fn missing_argument_points_at_the_parameter() {
    let mut types = TypeStore::new();
    let callee = register(
        &mut types,
        arrow(
            vec![
                parameter(TypeId(STRING_TYPE), at(11, 20)),
                parameter(TypeId(NUMBER_TYPE), at(22, 31)),
            ],
            TypeId(UNDEFINED_TYPE),
        ),
    );
    let x = text(&mut types, "x");
    let mut environment = environment();
    let found = errors(call_type(
        callee,
        input(at(50, 56)),
        vec![argument(x, at(52, 55))],
        &mut environment,
        &CallCheckingBehavior::check_things(),
        &mut types,
    ));
    assert_eq!(found.len(), 1);
    match &found[0] {
        FunctionCallingError::MissingArgument { parameter_position, call_site } => {
            assert_eq!(*parameter_position, at(22, 31));
            assert_eq!(*call_site, at(50, 56));
        }
        other => panic!("unexpected error {:?}", other),
    }
    assert!(environment.facts.events.is_empty());
}

#[test]
fn excess_arguments_are_one_error_over_all_of_them() {
    let mut types = TypeStore::new();
    let callee = register(
        &mut types,
        arrow(vec![parameter(TypeId(STRING_TYPE), at(11, 20))], TypeId(UNDEFINED_TYPE)),
    );
    let x = text(&mut types, "x");
    let y = text(&mut types, "y");
    let z = text(&mut types, "z");
    let mut environment = environment();
    let found = errors(call_type(
        callee,
        input(at(50, 66)),
        vec![argument(x, at(52, 55)), argument(y, at(56, 59)), argument(z, at(60, 63))],
        &mut environment,
        &CallCheckingBehavior::check_things(),
        &mut types,
    ));
    assert_eq!(found.len(), 1);
    match &found[0] {
        FunctionCallingError::ExcessArguments { count, position } => {
            assert_eq!(*count, 2);
            assert_eq!(*position, at(56, 63));
        }
        other => panic!("unexpected error {:?}", other),
    }
}

#[test]
fn one_excess_argument_has_its_own_position() {
    let mut types = TypeStore::new();
    let callee = register(&mut types, arrow(Vec::new(), TypeId(UNDEFINED_TYPE)));
    let x = text(&mut types, "x");
    let mut environment = environment();
    let found = errors(call_type(
        callee,
        input(at(50, 66)),
        vec![argument(x, at(52, 55))],
        &mut environment,
        &CallCheckingBehavior::check_things(),
        &mut types,
    ));
    match &found[0] {
        FunctionCallingError::ExcessArguments { count, position } => {
            assert_eq!(*count, 1);
            assert_eq!(*position, at(52, 55));
        }
        other => panic!("unexpected error {:?}", other),
    }
}

fn constructor(types: &mut TypeStore) -> (TypeId, TypeId) {
    let this_object_type = types.register_type(Type::RootPolyType(PolyNature::FreeThis));
    let mut function = arrow(vec![parameter(TypeId(NUMBER_TYPE), at(20, 28))], this_object_type);
    function.behavior =
        FunctionBehavior::Constructor { non_super_prototype: None, this_object_type };
    (register(types, function), this_object_type)
}

#[test]
fn constructor_needs_the_new_keyword() {
    let mut types = TypeStore::new();
    let (callee, _) = constructor(&mut types);
    let one = number(&mut types, 1);
    let mut environment = environment();
    let found = errors(call_type(
        callee,
        input(at(40, 44)),
        vec![argument(one, at(42, 43))],
        &mut environment,
        &CallCheckingBehavior::check_things(),
        &mut types,
    ));
    assert_eq!(found.len(), 1);
    match &found[0] {
        FunctionCallingError::NeedsToBeCalledWithNewKeyword(position) => {
            assert_eq!(*position, at(40, 44));
        }
        other => panic!("unexpected error {:?}", other),
    }
}

#[test]
fn constructor_under_new_returns_what_this_is_bound_to() {
    let mut types = TypeStore::new();
    let (callee, this_object_type) = constructor(&mut types);
    let one = number(&mut types, 1);
    let mut environment = environment();
    let mut with_new = input(at(40, 48));
    with_new.called_with_new = CalledWithNew::New { on: callee };
    let result = ok(call_type(
        callee,
        with_new,
        vec![argument(one, at(46, 47))],
        &mut environment,
        &CallCheckingBehavior::check_things(),
        &mut types,
    ));
    assert_eq!(result.returned_type, this_object_type);
    assert_eq!(result.called, Some(FunctionId(0)));

    let mut super_call = input(at(50, 58));
    let instance = types.register_type(Type::Object(ObjectNature::RealDeal));
    super_call.called_with_new = CalledWithNew::SpecialSuperCall { this_type: instance };
    let result = ok(call_type(
        callee,
        super_call,
        vec![argument(one, at(56, 57))],
        &mut environment,
        &CallCheckingBehavior::check_things(),
        &mut types,
    ));
    assert_eq!(result.returned_type, instance);
}

#[test]
fn function_under_new_returns_a_new_object() {
    let mut types = TypeStore::new();
    let free_this_id = types.register_type(Type::RootPolyType(PolyNature::FreeThis));
    let mut function = arrow(Vec::new(), TypeId(UNDEFINED_TYPE));
    function.behavior =
        FunctionBehavior::Function { is_async: false, is_generator: false, free_this_id };
    let callee = register(&mut types, function);
    let before = types.types.len();
    let mut environment = environment();
    let mut with_new = input(at(0, 9));
    with_new.called_with_new = CalledWithNew::New { on: callee };
    let result = ok(call_type(
        callee,
        with_new,
        Vec::new(),
        &mut environment,
        &CallCheckingBehavior::check_things(),
        &mut types,
    ));
    assert_eq!(result.returned_type, TypeId(before));
    assert!(matches!(types.types[before], Type::Object(ObjectNature::RealDeal)));
}

#[test]
fn function_returns_its_receiver_when_asked_for_this() {
    let mut types = TypeStore::new();
    let free_this_id = types.register_type(Type::RootPolyType(PolyNature::FreeThis));
    let mut function = arrow(Vec::new(), free_this_id);
    function.behavior =
        FunctionBehavior::Function { is_async: false, is_generator: false, free_this_id };
    let id = types.register_function(function);
    let receiver = types.register_type(Type::Object(ObjectNature::RealDeal));
    let bound = types.register_type(Type::Function(id, ThisValue::Passed(receiver)));
    let unbound = types.register_type(Type::Function(id, ThisValue::UseParent));
    let mut environment = environment();
    let behavior = CallCheckingBehavior::check_things();
    let result =
        ok(call_type(bound, input(at(0, 3)), Vec::new(), &mut environment, &behavior, &mut types));
    assert_eq!(result.returned_type, receiver);
    let result =
        ok(call_type(unbound, input(at(0, 3)), Vec::new(), &mut environment, &behavior, &mut types));
    assert_eq!(result.returned_type, TypeId(UNDEFINED_TYPE));
    environment.value_of_this = Some(TypeId(NUMBER_TYPE));
    let result =
        ok(call_type(unbound, input(at(0, 3)), Vec::new(), &mut environment, &behavior, &mut types));
    assert_eq!(result.returned_type, TypeId(NUMBER_TYPE));
}

#[test]
fn method_binds_this_to_its_receiver() {
    let mut types = TypeStore::new();
    let free_this_id = types.register_type(Type::RootPolyType(PolyNature::FreeThis));
    let mut function = arrow(Vec::new(), free_this_id);
    function.behavior =
        FunctionBehavior::Method { is_async: false, is_generator: false, free_this_id };
    let id = types.register_function(function);
    let receiver = types.register_type(Type::Object(ObjectNature::RealDeal));
    let callee = types.register_type(Type::FunctionReference(id, ThisValue::Passed(receiver)));
    let mut environment = environment();
    let result = ok(call_type(
        callee,
        input(at(0, 3)),
        Vec::new(),
        &mut environment,
        &CallCheckingBehavior::check_things(),
        &mut types,
    ));
    assert_eq!(result.returned_type, receiver);
}

#[test]
fn polymorphic_callee_gives_a_dependent_result() {
    let mut types = TypeStore::new();
    let base = register(&mut types, arrow(Vec::new(), TypeId(NUMBER_TYPE)));
    let callee = types.register_type(Type::RootPolyType(PolyNature::Parameter { fixed_to: base }));
    let before = types.types.len();
    let mut environment = environment();
    let result = ok(call_type(
        callee,
        input(at(70, 73)),
        Vec::new(),
        &mut environment,
        &CallCheckingBehavior::check_things(),
        &mut types,
    ));
    assert_eq!(result.returned_type, TypeId(before));
    assert_eq!(types.types.len(), before + 1);
    match &types.types[before] {
        Type::Constructor(Constructor::FunctionResult { on, with, result }) => {
            assert_eq!(*on, callee);
            assert!(with.is_empty());
            assert_eq!(*result, TypeId(NUMBER_TYPE));
        }
        _ => panic!("the returned type is no call result"),
    }
    assert_eq!(environment.facts.events.len(), 1);
    match &environment.facts.events[0] {
        Event::CallsType { on, reflects_dependency, position, .. } => {
            assert_eq!(*on, callee);
            assert_eq!(*reflects_dependency, Some(TypeId(before)));
            assert_eq!(*position, at(70, 73));
        }
        _ => panic!("the event is no call"),
    }
}

#[test]
fn polymorphic_callee_with_a_literal_result_is_not_wrapped() {
    let mut types = TypeStore::new();
    let seven = number(&mut types, 7);
    let base = register(&mut types, arrow(Vec::new(), seven));
    let callee = types.register_type(Type::RootPolyType(PolyNature::Generic { eager_fixed: base }));
    let before = types.types.len();
    let mut environment = environment();
    let result = ok(call_type(
        callee,
        input(at(70, 73)),
        Vec::new(),
        &mut environment,
        &CallCheckingBehavior::check_things(),
        &mut types,
    ));
    assert_eq!(result.returned_type, seven);
    assert_eq!(types.types.len(), before);
    assert_eq!(environment.facts.events.len(), 1);
    assert!(is_record(&environment.facts.events[0], callee, 0));
}

fn intrinsic(name: &str, parameters: Vec<SynthesisedParameter>) -> FunctionType {
    let mut function = arrow(parameters, TypeId(UNDEFINED_TYPE));
    function.constant_function = Some(name.to_string());
    function
}

#[test]
fn debug_type_runs_on_a_dependent_argument() {
    let mut data = CheckingData::new();
    let callee = register(
        &mut data.types,
        intrinsic("debug_type", vec![parameter(TypeId(ANY_TYPE), at(0, 1))]),
    );
    let dependent = data.types.register_type(Type::RootPolyType(PolyNature::Parameter {
        fixed_to: TypeId(NUMBER_TYPE),
    }));
    let mut environment = environment();
    let returned = call_type_handle_errors(
        callee,
        input(at(80, 93)),
        &mut environment,
        vec![argument(dependent, at(91, 92))],
        &mut data,
    );
    assert_eq!(returned, (TypeId(UNDEFINED_TYPE), Some(SpecialExpressions::Marker)));
    assert_eq!(data.diagnostics_container.diagnostics.len(), 1);
    assert!(!data.diagnostics_container.has_error());
    match &data.diagnostics_container.diagnostics[0] {
        Diagnostic::Position { reason, position, kind } => {
            assert_eq!(reason, "parameter");
            assert_eq!(*position, at(80, 93));
            assert_eq!(*kind, DiagnosticKind::Info);
        }
        other => panic!("unexpected diagnostic {:?}", other),
    }
    assert!(data.type_mappings.called_functions.is_empty());
}

#[test]
fn other_intrinsics_wait_for_dependent_arguments() {
    let mut types = TypeStore::new();
    let callee = register(
        &mut types,
        intrinsic("compile_type_to_object", vec![parameter(TypeId(ANY_TYPE), at(0, 1))]),
    );
    let dependent = types.register_type(Type::RootPolyType(PolyNature::Parameter {
        fixed_to: TypeId(NUMBER_TYPE),
    }));
    let before = types.types.len();
    let mut environment = environment();
    let result = ok(call_type(
        callee,
        input(at(80, 93)),
        vec![argument(dependent, at(91, 92))],
        &mut environment,
        &CallCheckingBehavior::check_things(),
        &mut types,
    ));
    assert_eq!(result.called, None);
    assert_eq!(result.returned_type, TypeId(before + 1));
    assert!(matches!(types.types[before], Type::Function(FunctionId(0), ThisValue::UseParent)));
    match &types.types[before + 1] {
        Type::Constructor(Constructor::FunctionResult { on, with, result }) => {
            assert_eq!(*on, TypeId(before));
            assert_eq!(with.len(), 1);
            assert_eq!(*result, TypeId(UNDEFINED_TYPE));
        }
        _ => panic!("the returned type is no call result"),
    }
    assert_eq!(environment.facts.events.len(), 1);
    match &environment.facts.events[0] {
        Event::CallsType { on, reflects_dependency, .. } => {
            assert_eq!(*on, TypeId(before));
            assert_eq!(*reflects_dependency, Some(TypeId(before + 1)));
        }
        _ => panic!("the event is no call"),
    }
}

#[test]
fn compile_type_to_object_is_marked_for_the_host() {
    let mut types = TypeStore::new();
    let callee = register(&mut types, intrinsic("compile_type_to_object", Vec::new()));
    let mut environment = environment();
    let mut with_type = input(at(0, 30));
    with_type.call_site_type_arguments = Some(vec![(TypeId(NUMBER_TYPE), at(23, 29))]);
    let before = types.types.len();
    let result = ok(call_type(
        callee,
        with_type,
        Vec::new(),
        &mut environment,
        &CallCheckingBehavior::check_things(),
        &mut types,
    ));
    assert_eq!(result.special, Some(SpecialExpressions::CompileOut));
    assert_eq!(result.returned_type, TypeId(before));
    assert!(matches!(types.types[before], Type::Object(ObjectNature::AnonymousTypeAnnotation)));
}

#[test]
fn unknown_intrinsic_has_no_logic() {
    let mut types = TypeStore::new();
    let callee = register(&mut types, intrinsic("launch_rockets", Vec::new()));
    let mut environment = environment();
    let found = errors(call_type(
        callee,
        input(at(3, 9)),
        Vec::new(),
        &mut environment,
        &CallCheckingBehavior::check_things(),
        &mut types,
    ));
    assert_eq!(found.len(), 1);
    match &found[0] {
        FunctionCallingError::NoLogicForIdentifier(name, position) => {
            assert_eq!(name, "launch_rockets");
            assert_eq!(*position, at(3, 9));
        }
        other => panic!("unexpected error {:?}", other),
    }
}

#[test]
fn bad_call_of_an_intrinsic_falls_back_to_the_function() {
    let mut types = TypeStore::new();
    let mut function = intrinsic("print_type", Vec::new());
    function.return_type = TypeId(NUMBER_TYPE);
    let callee = register(&mut types, function);
    let mut environment = environment();
    let result = ok(call_type(
        callee,
        input(at(3, 9)),
        Vec::new(),
        &mut environment,
        &CallCheckingBehavior::check_things(),
        &mut types,
    ));
    assert_eq!(result.returned_type, TypeId(NUMBER_TYPE));
    assert_eq!(result.called, Some(FunctionId(0)));
}

#[test]
fn error_callee_and_error_argument_are_absorbed() {
    let mut data = CheckingData::new();
    let callee = register(
        &mut data.types,
        arrow(vec![parameter(TypeId(STRING_TYPE), at(0, 1))], TypeId(NUMBER_TYPE)),
    );
    let before = data.types.types.len();
    let mut environment = environment();
    let returned = call_type_handle_errors(
        callee,
        input(at(0, 5)),
        &mut environment,
        vec![argument(TypeId(NUMBER_TYPE), at(1, 2)), argument(TypeId(ERROR_TYPE), at(3, 4))],
        &mut data,
    );
    assert_eq!(returned, (TypeId(ERROR_TYPE), None));
    let returned = call_type_handle_errors(
        TypeId(ERROR_TYPE),
        input(at(0, 5)),
        &mut environment,
        Vec::new(),
        &mut data,
    );
    assert_eq!(returned, (TypeId(ERROR_TYPE), None));
    assert!(data.diagnostics_container.diagnostics.is_empty());
    assert!(data.type_mappings.called_functions.is_empty());
    assert!(environment.facts.events.is_empty());
    assert_eq!(data.types.types.len(), before);
}

#[test]
fn what_cannot_be_called_is_not_callable() {
    let mut types = TypeStore::new();
    let seven = number(&mut types, 7);
    let mut environment = environment();
    let behavior = CallCheckingBehavior::check_things();
    for callee in [seven, TypeId(NUMBER_TYPE), TypeId(10_000)] {
        let found = errors(call_type(
            callee,
            input(at(3, 9)),
            Vec::new(),
            &mut environment,
            &behavior,
            &mut types,
        ));
        assert_eq!(found.len(), 1);
        assert!(matches!(found[0], FunctionCallingError::NotCallable { .. }));
    }
    let found =
        errors(call_type(seven, input(at(3, 9)), Vec::new(), &mut environment, &behavior, &mut types));
    match &found[0] {
        FunctionCallingError::NotCallable { calling, call_site } => {
            assert_eq!(calling.0, "7");
            assert_eq!(*call_site, at(3, 9));
        }
        other => panic!("unexpected error {:?}", other),
    }
}

#[test]
fn union_of_functions_is_reported_as_unsupported() {
    let mut types = TypeStore::new();
    let left = register(&mut types, arrow(Vec::new(), TypeId(NUMBER_TYPE)));
    let right = register(&mut types, arrow(Vec::new(), TypeId(STRING_TYPE)));
    let union = types.register_type(Type::Or(left, right));
    let mut environment = environment();
    let found = errors(call_type(
        union,
        input(at(3, 9)),
        Vec::new(),
        &mut environment,
        &CallCheckingBehavior::check_things(),
        &mut types,
    ));
    match &found[0] {
        FunctionCallingError::NotCallable { calling, .. } => {
            assert_eq!(calling.0, "unsupported union callable");
        }
        other => panic!("unexpected error {:?}", other),
    }
}

#[test]
fn alias_and_applied_generic_are_called_through() {
    let mut types = TypeStore::new();
    let element = TypeId(T_TYPE);
    let function = arrow(Vec::new(), element);
    let base = register(&mut types, function);
    let alias = types.register_type(Type::AliasTo { to: base, parameters: None });
    let generic_alias =
        types.register_type(Type::AliasTo { to: base, parameters: Some(vec![element]) });
    let mut type_arguments = map_vec::Map::new();
    type_arguments
        .insert(T_TYPE, Binding { value: TypeId(STRING_TYPE), position: at(0, 0), parameter: 0 });
    let applied = types.register_type(Type::Constructor(Constructor::StructureGenerics(
        StructureGenerics {
            on: alias,
            arguments: StructureGenericArguments { type_arguments },
        },
    )));
    let mut environment = environment();
    let behavior = CallCheckingBehavior::check_things();
    let result =
        ok(call_type(alias, input(at(0, 3)), Vec::new(), &mut environment, &behavior, &mut types));
    assert_eq!(result.returned_type, element);
    let result =
        ok(call_type(applied, input(at(0, 3)), Vec::new(), &mut environment, &behavior, &mut types));
    assert_eq!(result.returned_type, TypeId(STRING_TYPE));
    let found = errors(call_type(
        generic_alias,
        input(at(0, 3)),
        Vec::new(),
        &mut environment,
        &behavior,
        &mut types,
    ));
    assert!(matches!(found[0], FunctionCallingError::NotCallable { .. }));
}

#[test]
fn rest_parameter_checks_the_arguments_beyond_the_parameters() {
    let mut types = TypeStore::new();
    let mut type_arguments = map_vec::Map::new();
    type_arguments
        .insert(T_TYPE, Binding { value: TypeId(NUMBER_TYPE), position: at(0, 0), parameter: 0 });
    let numbers = types.register_type(Type::Constructor(Constructor::StructureGenerics(
        StructureGenerics {
            on: TypeId(ARRAY_TYPE),
            arguments: StructureGenericArguments { type_arguments },
        },
    )));
    let mut function =
        arrow(vec![parameter(TypeId(STRING_TYPE), at(10, 11))], TypeId(UNDEFINED_TYPE));
    function.parameters.rest_parameter =
        Some(SynthesisedRestParameter { item_type: numbers, position: at(13, 20) });
    let callee = register(&mut types, function);
    let x = text(&mut types, "x");
    let one = number(&mut types, 1);
    let mut environment = environment();
    let behavior = CallCheckingBehavior::check_things();
    ok(call_type(
        callee,
        input(at(0, 3)),
        vec![argument(x, at(1, 2)), argument(one, at(3, 4)), argument(one, at(5, 6))],
        &mut environment,
        &behavior,
        &mut types,
    ));
    let found = errors(call_type(
        callee,
        input(at(0, 3)),
        vec![argument(x, at(1, 2)), argument(one, at(3, 4)), argument(x, at(5, 6))],
        &mut environment,
        &behavior,
        &mut types,
    ));
    assert_eq!(found.len(), 1);
    match &found[0] {
        FunctionCallingError::InvalidArgumentType {
            parameter_type,
            argument_type,
            argument_position,
            parameter_position,
            ..
        } => {
            assert_eq!(parameter_type.0, "Array");
            assert_eq!(argument_type.0, "\"x\"");
            assert_eq!(*argument_position, at(5, 6));
            assert_eq!(*parameter_position, at(13, 20));
        }
        other => panic!("unexpected error {:?}", other),
    }
}

#[test]
fn missing_value_stands_in_for_a_missing_argument() {
    let mut types = TypeStore::new();
    let generic =
        types.register_type(Type::RootPolyType(PolyNature::Generic { eager_fixed: TypeId(ANY_TYPE) }));
    let five = number(&mut types, 5);
    let mut function = arrow(
        vec![SynthesisedParameter { ty: generic, position: at(0, 1), missing_value: Some(five) }],
        generic,
    );
    function.type_parameters = Some(vec![generic]);
    let callee = register(&mut types, function);
    let mut environment = environment();
    let result = ok(call_type(
        callee,
        input(at(0, 3)),
        Vec::new(),
        &mut environment,
        &CallCheckingBehavior::check_things(),
        &mut types,
    ));
    assert_eq!(result.returned_type, five);
}

#[test]
fn all_argument_errors_are_reported_together() {
    let mut types = TypeStore::new();
    let callee = register(
        &mut types,
        arrow(
            vec![
                parameter(TypeId(STRING_TYPE), at(0, 1)),
                parameter(TypeId(NUMBER_TYPE), at(2, 3)),
                parameter(TypeId(NUMBER_TYPE), at(4, 5)),
            ],
            TypeId(UNDEFINED_TYPE),
        ),
    );
    let one = number(&mut types, 1);
    let x = text(&mut types, "x");
    let mut environment = environment();
    let found = errors(call_type(
        callee,
        input(at(0, 3)),
        vec![argument(one, at(10, 11)), argument(x, at(12, 13))],
        &mut environment,
        &CallCheckingBehavior::check_things(),
        &mut types,
    ));
    assert_eq!(found.len(), 3);
    assert!(matches!(found[0], FunctionCallingError::InvalidArgumentType { .. }));
    assert!(matches!(found[1], FunctionCallingError::InvalidArgumentType { .. }));
    assert!(matches!(found[2], FunctionCallingError::MissingArgument { .. }));
}

#[test]
fn call_site_type_argument_restricts_the_inferred_type() {
    let mut types = TypeStore::new();
    let generic =
        types.register_type(Type::RootPolyType(PolyNature::Generic { eager_fixed: TypeId(ANY_TYPE) }));
    let mut identity = arrow(vec![parameter(generic, at(12, 16))], generic);
    identity.type_parameters = Some(vec![generic]);
    let callee = register(&mut types, identity);
    let forty_two = number(&mut types, 42);
    let mut environment = environment();
    let behavior = CallCheckingBehavior::check_things();
    let mut as_number = input(at(30, 44));
    as_number.call_site_type_arguments = Some(vec![(TypeId(NUMBER_TYPE), at(33, 39))]);
    let result = ok(call_type(
        callee,
        as_number,
        vec![argument(forty_two, at(41, 43))],
        &mut environment,
        &behavior,
        &mut types,
    ));
    assert_eq!(result.returned_type, forty_two);

    let mut as_string = input(at(30, 44));
    as_string.call_site_type_arguments = Some(vec![(TypeId(STRING_TYPE), at(33, 39))]);
    let found = errors(call_type(
        callee,
        as_string,
        vec![argument(forty_two, at(41, 43))],
        &mut environment,
        &behavior,
        &mut types,
    ));
    assert_eq!(found.len(), 1);
    match &found[0] {
        FunctionCallingError::InvalidArgumentType {
            parameter_type,
            argument_type,
            argument_position,
            parameter_position,
            restriction,
        } => {
            assert_eq!(parameter_type.0, "generic");
            assert_eq!(argument_type.0, "42");
            assert_eq!(*argument_position, at(41, 43));
            assert_eq!(*parameter_position, at(12, 16));
            match restriction {
                Some((position, shown)) => {
                    assert_eq!(*position, at(33, 39));
                    assert_eq!(shown.0, "string");
                }
                None => panic!("the error names no restriction"),
            }
        }
        other => panic!("unexpected error {:?}", other),
    }
}

#[test]
fn effects_are_replayed_in_order_until_one_returns() {
    let mut types = TypeStore::new();
    let generic =
        types.register_type(Type::RootPolyType(PolyNature::Generic { eager_fixed: TypeId(ANY_TYPE) }));
    let object = types.register_type(Type::Object(ObjectNature::RealDeal));
    let key = text(&mut types, "key");
    let mut function = arrow(vec![parameter(generic, at(0, 1))], TypeId(NUMBER_TYPE));
    function.effects = vec![
        Event::SetsVariable(VariableId(3), generic, at(5, 6)),
        Event::Setter { on: object, under: key, new: generic, position: at(7, 8) },
        Event::Return { returned: generic, position: at(9, 10) },
        Event::SetsVariable(VariableId(4), generic, at(11, 12)),
    ];
    function.closed_over_variables =
        vec![(RootReference::Variable(VariableId(9)), generic), (RootReference::This, object)];
    let callee = register(&mut types, function);
    let seven = number(&mut types, 7);
    let mut environment = environment();
    let result = ok(call_type(
        callee,
        input(at(20, 24)),
        vec![argument(seven, at(22, 23))],
        &mut environment,
        &CallCheckingBehavior::check_things(),
        &mut types,
    ));
    assert_eq!(result.returned_type, seven);
    assert_eq!(environment.facts.variable_current_value, vec![(VariableId(3), seven)]);
    assert_eq!(environment.facts.current_properties, vec![(object, key, seven)]);
    assert_eq!(environment.facts.events.len(), 3);
    assert!(matches!(
        environment.facts.events[0],
        Event::SetsVariable(VariableId(3), value, _) if value == seven
    ));
    assert!(matches!(
        environment.facts.events[1],
        Event::Setter { on, under, new, .. } if on == object && under == key && new == seven
    ));
    assert!(is_record(&environment.facts.events[2], callee, 1));
    assert_eq!(types.closures, vec![FunctionId(0)]);
    assert_eq!(environment.facts.closure_current_values.len(), 2);
    assert_eq!(environment.facts.closure_current_values[0].2, seven);
    assert_eq!(environment.facts.closure_current_values[1].2, object);
}

#[test]
fn deferred_call_is_made_when_the_callee_is_known() {
    // function apply(callback) { return callback() }
    let mut types = TypeStore::new();
    let callback = types
        .register_type(Type::RootPolyType(PolyNature::Parameter { fixed_to: TypeId(ANY_TYPE) }));
    let outcome = types.register_type(Type::Constructor(Constructor::FunctionResult {
        on: callback,
        with: Vec::new(),
        result: TypeId(ANY_TYPE),
    }));
    let mut apply = arrow(vec![parameter(callback, at(0, 1))], outcome);
    apply.effects = vec![Event::CallsType {
        on: callback,
        with: Vec::new(),
        timing: CallingTiming::Synchronous,
        called_with_new: CalledWithNew::Plain,
        reflects_dependency: Some(outcome),
        position: at(5, 15),
    }];
    let callee = register(&mut types, apply);
    let three = number(&mut types, 3);
    let gives_three = register(&mut types, arrow(Vec::new(), three));
    let mut environment = environment();
    let result = ok(call_type(
        callee,
        input(at(20, 24)),
        vec![argument(gives_three, at(22, 23))],
        &mut environment,
        &CallCheckingBehavior::check_things(),
        &mut types,
    ));
    assert_eq!(result.returned_type, three);
    assert_eq!(environment.facts.events.len(), 2);
    assert!(is_record(&environment.facts.events[0], gives_three, 0));
    assert!(is_record(&environment.facts.events[1], callee, 1));
}

#[test]
fn recorded_calls_are_not_made_again() {
    let mut types = TypeStore::new();
    let inner = register(&mut types, arrow(Vec::new(), TypeId(NUMBER_TYPE)));
    let mut outer = arrow(Vec::new(), TypeId(NUMBER_TYPE));
    outer.effects = vec![
        Event::CallsType {
            on: inner,
            with: Vec::new(),
            timing: CallingTiming::Synchronous,
            called_with_new: CalledWithNew::Plain,
            reflects_dependency: None,
            position: at(5, 15),
        },
        Event::CallsType {
            on: inner,
            with: Vec::new(),
            timing: CallingTiming::QueueTask,
            called_with_new: CalledWithNew::Plain,
            reflects_dependency: Some(TypeId(NUMBER_TYPE)),
            position: at(5, 15),
        },
    ];
    let callee = register(&mut types, outer);
    let mut environment = environment();
    ok(call_type(
        callee,
        input(at(20, 24)),
        Vec::new(),
        &mut environment,
        &CallCheckingBehavior::check_things(),
        &mut types,
    ));
    assert_eq!(environment.facts.events.len(), 1);
    assert!(is_record(&environment.facts.events[0], callee, 0));
}

#[test]
fn function_that_calls_itself_is_entered_once() {
    // function again() { return again() }
    let first_type = TypeStore::new().types.len();
    let callee = TypeId(first_type);
    let outcome = TypeId(first_type + 1);
    let mut again = arrow(Vec::new(), outcome);
    again.effects = vec![Event::CallsType {
        on: callee,
        with: Vec::new(),
        timing: CallingTiming::Synchronous,
        called_with_new: CalledWithNew::Plain,
        reflects_dependency: Some(outcome),
        position: at(5, 15),
    }];
    let mut types = TypeStore::new();
    assert_eq!(register(&mut types, again), callee);
    let registered = types.register_type(Type::Constructor(Constructor::FunctionResult {
        on: callee,
        with: Vec::new(),
        result: TypeId(ANY_TYPE),
    }));
    assert_eq!(registered, outcome);
    match &types.functions[0].effects[0] {
        Event::CallsType { on, reflects_dependency: Some(dependency), .. } => {
            assert!(matches!(types.types[on.0], Type::Function(FunctionId(0), _)));
            assert!(matches!(
                types.types[dependency.0],
                Type::Constructor(Constructor::FunctionResult { on: of, .. }) if of == callee
            ));
        }
        _ => panic!("the effect is no dependent call"),
    }
    let mut environment = environment();
    let result = ok(call_type(
        callee,
        input(at(20, 27)),
        Vec::new(),
        &mut environment,
        &CallCheckingBehavior::check_things(),
        &mut types,
    ));
    assert_eq!(result.called, Some(FunctionId(0)));
    assert_eq!(result.returned_type, TypeId(ERROR_TYPE));
    assert_eq!(environment.facts.events.len(), 1);
    assert!(is_record(&environment.facts.events[0], callee, 0));
}

#[test]
fn function_on_the_stack_is_not_entered() {
    let mut types = TypeStore::new();
    let mut function = arrow(Vec::new(), TypeId(NUMBER_TYPE));
    function.effects = vec![Event::SetsVariable(VariableId(1), TypeId(NUMBER_TYPE), at(0, 1))];
    let callee = register(&mut types, function);
    let mut environment = environment();
    let replaying = CallCheckingBehavior::check_things().enter(FunctionId(0));
    assert!(replaying.in_recursive_cycle(FunctionId(0)));
    assert!(!replaying.in_recursive_cycle(FunctionId(1)));
    let result = ok(call_type(
        callee,
        input(at(20, 27)),
        Vec::new(),
        &mut environment,
        &replaying,
        &mut types,
    ));
    assert_eq!(result.called, Some(FunctionId(0)));
    assert_eq!(result.returned_type, TypeId(ERROR_TYPE));
    assert!(environment.facts.events.is_empty());
    assert!(environment.facts.variable_current_value.is_empty());
}

#[test]
fn trusted_arguments_are_bound_without_a_check() {
    let mut types = TypeStore::new();
    let callee = register(
        &mut types,
        arrow(vec![parameter(TypeId(STRING_TYPE), at(0, 1))], TypeId(STRING_TYPE)),
    );
    let one = number(&mut types, 1);
    let mut environment = environment();
    let trusting = CallCheckingBehavior { check_parameters: false, stack: Vec::new() };
    let result = ok(call_type(
        callee,
        input(at(20, 27)),
        vec![argument(one, at(22, 23))],
        &mut environment,
        &trusting,
        &mut types,
    ));
    assert_eq!(result.returned_type, one);
}

#[test]
fn called_functions_are_noted_once() {
    let mut data = CheckingData::new();
    let callee = register(&mut data.types, arrow(Vec::new(), TypeId(NUMBER_TYPE)));
    let mut environment = environment();
    for _ in 0..2 {
        let returned = call_type_handle_errors(
            callee,
            input(at(20, 27)),
            &mut environment,
            Vec::new(),
            &mut data,
        );
        assert_eq!(returned, (TypeId(NUMBER_TYPE), None));
    }
    assert_eq!(data.type_mappings.called_functions, vec![FunctionId(0)]);
    assert_eq!(environment.facts.events.len(), 2);
}

#[test]
fn a_call_only_adds_to_the_store_and_to_the_events() {
    let mut types = TypeStore::new();
    let generic =
        types.register_type(Type::RootPolyType(PolyNature::Generic { eager_fixed: TypeId(ANY_TYPE) }));
    let either = types.register_type(Type::Or(generic, TypeId(NUMBER_TYPE)));
    let mut function = arrow(vec![parameter(generic, at(0, 1))], either);
    function.effects = vec![Event::SetsVariable(VariableId(0), either, at(2, 3))];
    let callee = register(&mut types, function);
    let x = text(&mut types, "x");
    let mut environment = environment();
    environment.facts.push_event(Event::Return { returned: x, position: at(0, 0) });
    let shown_before: Vec<String> = (0..types.types.len())
        .map(|id| call_checker::text::print_type(TypeId(id), &types))
        .collect();
    let result = ok(call_type(
        callee,
        input(at(20, 24)),
        vec![argument(x, at(22, 23))],
        &mut environment,
        &CallCheckingBehavior::check_things(),
        &mut types,
    ));
    assert!(types.types.len() > shown_before.len());
    for (id, shown) in shown_before.iter().enumerate() {
        assert_eq!(&call_checker::text::print_type(TypeId(id), &types), shown);
    }
    assert_eq!(call_checker::text::print_type(result.returned_type, &types), "\"x\" | number");
    assert!(matches!(environment.facts.events[0], Event::Return { returned, .. } if returned == x));
    assert_eq!(environment.facts.events.len(), 3);
    assert_eq!(types.functions.len(), 1);
}
