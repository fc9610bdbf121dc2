use call_checker::bindings::{insert_first, Binding};
use call_checker::span::{cover, null_position};
use call_checker::text::{print_constant, print_decimal, print_integer, print_type, TypeStringRepresentation};
use call_checker::types::{
    Constant, Constructor, FunctionId, ObjectNature, PolyNature, SpecialObjects,
    StructureGenericArguments, StructureGenerics, SynthesisedArgument, ThisValue, Type, TypeId,
    TypeStore, ANY_TYPE, ARRAY_TYPE, BOOLEAN_TYPE, ERROR_TYPE, NEW_TARGET_ARG, NULL_TYPE,
    NUMBER_TYPE, RESERVED_TYPES, STRING_TYPE, T_TYPE, UNDEFINED_TYPE,
};
use source_map::{BaseSpan, Nullable, SourceId, SpanWithSource};

fn at(start: u32, end: u32) -> SpanWithSource {
    BaseSpan { start, end, source: SourceId::NULL }
}

#[test]
fn cover_runs_from_the_first_start_to_the_last_end() {
    assert_eq!(cover(at(5, 8), at(10, 13)), at(5, 13));
    assert_eq!(cover(at(10, 13), at(5, 8)), at(10, 8));
    assert_eq!(cover(at(2, 3), at(2, 3)), at(2, 3));
}

#[test]
fn null_position_is_empty_and_has_the_null_source() {
    let null = null_position();
    assert_eq!(null, at(0, 0));
    assert!(null.is_null());
    assert!(null.source.is_null());
}

#[test]
fn first_binding_of_a_key_stays() {
    let mut map = map_vec::Map::new();
    let first = Binding { value: TypeId(NUMBER_TYPE), position: at(1, 2), parameter: 0 };
    let second = Binding { value: TypeId(STRING_TYPE), position: at(3, 4), parameter: 1 };
    insert_first(&mut map, 40, first);
    insert_first(&mut map, 41, second);
    insert_first(&mut map, 40, second);
    let pairs: Vec<(usize, TypeId)> = map.iter().map(|(key, value)| (*key, value.value)).collect();
    assert_eq!(pairs, vec![(40, TypeId(NUMBER_TYPE)), (41, TypeId(STRING_TYPE))]);
    assert_eq!(map.get(&40).map(|binding| binding.parameter), Some(0));
}

#[test]
fn new_store_holds_the_reserved_types() {
    let store = TypeStore::new();
    assert_eq!(store.types.len(), RESERVED_TYPES);
    assert!(store.functions.is_empty());
    assert!(store.closures.is_empty());
    let names = [
        (ERROR_TYPE, "error"),
        (UNDEFINED_TYPE, "undefined"),
        (NULL_TYPE, "null"),
        (ANY_TYPE, "any"),
        (BOOLEAN_TYPE, "boolean"),
        (NUMBER_TYPE, "number"),
        (STRING_TYPE, "string"),
        (ARRAY_TYPE, "Array"),
    ];
    for (id, name) in names {
        assert!(matches!(&store.types[id], Type::NamedRooted { name: found } if found == name));
        assert_eq!(print_type(TypeId(id), &store), name);
    }
    assert!(matches!(
        store.types[T_TYPE],
        Type::RootPolyType(PolyNature::Generic { eager_fixed: TypeId(ANY_TYPE) })
    ));
    assert!(matches!(
        store.types[NEW_TARGET_ARG],
        Type::RootPolyType(PolyNature::Parameter { fixed_to: TypeId(ANY_TYPE) })
    ));
}

#[test]
fn registering_appends_and_hands_out_the_next_handle() {
    let mut store = TypeStore::new();
    let first = store.register_type(Type::Object(ObjectNature::RealDeal));
    let second = store.register_type(Type::And(first, TypeId(NUMBER_TYPE)));
    assert_eq!(first, TypeId(RESERVED_TYPES));
    assert_eq!(second, TypeId(RESERVED_TYPES + 1));
    assert!(matches!(store.get_type_by_id(first), Some(Type::Object(ObjectNature::RealDeal))));
    assert!(matches!(store.get_type_by_id(second), Some(Type::And(left, _)) if *left == first));
    assert!(store.get_type_by_id(TypeId(RESERVED_TYPES + 2)).is_none());
    assert!(store.get_function(FunctionId(0)).is_none());
    assert_eq!(store.new_closure_id(FunctionId(3)).0, 0);
    assert_eq!(store.new_closure_id(FunctionId(4)).0, 1);
    assert_eq!(store.closures, vec![FunctionId(3), FunctionId(4)]);
}

#[test]
fn arguments_give_their_type_and_position() {
    let argument = SynthesisedArgument::NonSpread { ty: TypeId(NUMBER_TYPE), position: at(4, 9) };
    assert_eq!(argument.to_type(), TypeId(NUMBER_TYPE));
    assert_eq!(argument.get_position(), at(4, 9));
}

#[test]
fn numbers_print_in_decimal() {
    assert_eq!(print_decimal(0), "0");
    assert_eq!(print_decimal(7), "7");
    assert_eq!(print_decimal(1234567890), "1234567890");
    assert_eq!(print_decimal(u64::MAX), "18446744073709551615");
    assert_eq!(print_integer(0), "0");
    assert_eq!(print_integer(42), "42");
    assert_eq!(print_integer(-1), "-1");
    assert_eq!(print_integer(-305), "-305");
    assert_eq!(print_integer(i64::MAX), "9223372036854775807");
    assert_eq!(print_integer(i64::MIN), "-9223372036854775808");
}

#[test]
fn literals_print_as_they_are_written() {
    assert_eq!(print_constant(&Constant::Number(-12)), "-12");
    assert_eq!(print_constant(&Constant::String("hi there".to_string())), "\"hi there\"");
    assert_eq!(print_constant(&Constant::String(String::new())), "\"\"");
    assert_eq!(print_constant(&Constant::Boolean(true)), "true");
    assert_eq!(print_constant(&Constant::Boolean(false)), "false");
}

#[test]
fn types_print_by_what_they_stand_for() {
    let mut store = TypeStore::new();
    let one = store.register_type(Type::Constant(Constant::Number(1)));
    let union = store.register_type(Type::Or(TypeId(STRING_TYPE), one));
    let both = store.register_type(Type::And(union, TypeId(BOOLEAN_TYPE)));
    let alias = store.register_type(Type::AliasTo { to: both, parameters: None });
    let function = store.register_type(Type::Function(FunctionId(0), ThisValue::UseParent));
    let reference =
        store.register_type(Type::FunctionReference(FunctionId(0), ThisValue::UseParent));
    let object = store.register_type(Type::Object(ObjectNature::AnonymousTypeAnnotation));
    let this = store.register_type(Type::RootPolyType(PolyNature::FreeThis));
    let special = store.register_type(Type::SpecialObject(SpecialObjects::Import));
    let result = store.register_type(Type::Constructor(Constructor::FunctionResult {
        on: function,
        with: Vec::new(),
        result: TypeId(NUMBER_TYPE),
    }));
    let applied = store.register_type(Type::Constructor(Constructor::StructureGenerics(
        StructureGenerics {
            on: TypeId(ARRAY_TYPE),
            arguments: StructureGenericArguments { type_arguments: map_vec::Map::new() },
        },
    )));
    let forward = store.register_type(Type::Or(TypeId(1000), one));
    assert_eq!(print_type(one, &store), "1");
    assert_eq!(print_type(union, &store), "string | 1");
    assert_eq!(print_type(both, &store), "string | 1 & boolean");
    assert_eq!(print_type(alias, &store), "string | 1 & boolean");
    assert_eq!(print_type(function, &store), "function");
    assert_eq!(print_type(reference, &store), "function");
    assert_eq!(print_type(object, &store), "object");
    assert_eq!(print_type(this, &store), "this");
    assert_eq!(print_type(special, &store), "special object");
    assert_eq!(print_type(result, &store), "number");
    assert_eq!(print_type(applied, &store), "Array");
    assert_eq!(print_type(forward, &store), "union");
    assert_eq!(print_type(TypeId(T_TYPE), &store), "generic");
    assert_eq!(print_type(TypeId(NEW_TARGET_ARG), &store), "parameter");
    assert_eq!(print_type(TypeId(5000), &store), "error");
    assert_eq!(TypeStringRepresentation::from_type_id(union, &store).0, "string | 1");
}
