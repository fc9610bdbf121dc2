use call_checker::bindings::Binding;
use call_checker::subtyping::{
    check_subtype, is_fixed_subtype, same_constant, type_is_subtype, type_is_subtype_basic,
    BasicEquality, NonEqualityReason, SeedingContext, SubTypeResult,
};
use call_checker::types::{
    Constant, Constructor, ObjectNature, PolyNature, Type, TypeId, TypeStore, ANY_TYPE,
    BOOLEAN_TYPE, NUMBER_TYPE, STRING_TYPE,
};
use source_map::{BaseSpan, Nullable, SourceId, SpanWithSource};

const YES: SubTypeResult = SubTypeResult::IsSubType;
const NO: SubTypeResult = SubTypeResult::IsNotSubType(NonEqualityReason::Mismatch);

fn at(start: u32, end: u32) -> SpanWithSource {
    BaseSpan { start, end, source: SourceId::NULL }
}

fn basic(base: TypeId, ty: TypeId, types: &TypeStore) -> SubTypeResult {
    let behavior = BasicEquality { add_property_restrictions: false, position: at(0, 0) };
    type_is_subtype_basic(base, ty, &behavior, types)
}

fn context(position: SpanWithSource, index: usize) -> SeedingContext {
    SeedingContext {
        type_arguments: map_vec::Map::new(),
        type_restrictions: map_vec::Map::new(),
        argument_position_and_parameter_idx: (position, index),
    }
}

#[test]
fn every_type_is_a_subtype_of_itself_and_of_any() {
    let mut types = TypeStore::new();
    let object = types.register_type(Type::Object(ObjectNature::RealDeal));
    for ty in [TypeId(NUMBER_TYPE), object, TypeId(ANY_TYPE), TypeId(700)] {
        assert_eq!(basic(ty, ty, &types), YES);
        assert_eq!(basic(TypeId(ANY_TYPE), ty, &types), YES);
    }
    assert_eq!(basic(object, TypeId(ANY_TYPE), &types), NO);
}

#[test]
fn literals_belong_to_their_primitive_and_to_themselves() {
    let mut types = TypeStore::new();
    let one = types.register_type(Type::Constant(Constant::Number(1)));
    let one_again = types.register_type(Type::Constant(Constant::Number(1)));
    let two = types.register_type(Type::Constant(Constant::Number(2)));
    let x = types.register_type(Type::Constant(Constant::String("x".to_string())));
    let yes = types.register_type(Type::Constant(Constant::Boolean(true)));
    assert_eq!(basic(TypeId(NUMBER_TYPE), one, &types), YES);
    assert_eq!(basic(TypeId(STRING_TYPE), x, &types), YES);
    assert_eq!(basic(TypeId(BOOLEAN_TYPE), yes, &types), YES);
    assert_eq!(basic(TypeId(NUMBER_TYPE), x, &types), NO);
    assert_eq!(basic(TypeId(STRING_TYPE), one, &types), NO);
    assert_eq!(basic(one, one_again, &types), YES);
    assert_eq!(basic(one, two, &types), NO);
    assert_eq!(basic(one, TypeId(NUMBER_TYPE), &types), NO);
    assert!(is_fixed_subtype(TypeId(NUMBER_TYPE), two, &types));
    assert!(!is_fixed_subtype(TypeId(BOOLEAN_TYPE), two, &types));
}

#[test]
fn constants_are_the_same_by_kind_and_value() {
    assert!(same_constant(&Constant::Number(3), &Constant::Number(3)));
    assert!(!same_constant(&Constant::Number(3), &Constant::Number(4)));
    assert!(same_constant(&Constant::String("a".into()), &Constant::String("a".into())));
    assert!(!same_constant(&Constant::String("a".into()), &Constant::String("b".into())));
    assert!(same_constant(&Constant::Boolean(false), &Constant::Boolean(false)));
    assert!(!same_constant(&Constant::Boolean(false), &Constant::Boolean(true)));
    assert!(!same_constant(&Constant::Boolean(false), &Constant::Number(0)));
}

#[test]
fn unions_and_intersections_as_bases() {
    let mut types = TypeStore::new();
    let one = types.register_type(Type::Constant(Constant::Number(1)));
    let yes = types.register_type(Type::Constant(Constant::Boolean(true)));
    let either = types.register_type(Type::Or(TypeId(STRING_TYPE), TypeId(NUMBER_TYPE)));
    let both = types.register_type(Type::And(TypeId(NUMBER_TYPE), one));
    let alias = types.register_type(Type::AliasTo { to: either, parameters: None });
    let ahead = types.register_type(Type::Or(TypeId(NUMBER_TYPE), TypeId(9000)));
    let one_again = types.register_type(Type::Constant(Constant::Number(1)));
    let two = types.register_type(Type::Constant(Constant::Number(2)));
    assert_eq!(basic(either, one, &types), YES);
    assert_eq!(basic(either, yes, &types), NO);
    assert_eq!(basic(alias, one, &types), YES);
    assert_eq!(basic(alias, yes, &types), NO);
    assert_eq!(basic(both, one_again, &types), YES);
    assert_eq!(basic(both, two, &types), NO);
    assert_eq!(basic(ahead, one, &types), NO);
}

#[test]
fn unions_and_other_stand_ins_as_subtypes() {
    let mut types = TypeStore::new();
    let one = types.register_type(Type::Constant(Constant::Number(1)));
    let two = types.register_type(Type::Constant(Constant::Number(2)));
    let x = types.register_type(Type::Constant(Constant::String("x".to_string())));
    let numbers = types.register_type(Type::Or(one, two));
    let mixed = types.register_type(Type::Or(one, x));
    let narrowed = types.register_type(Type::And(x, one));
    let alias = types.register_type(Type::AliasTo { to: numbers, parameters: None });
    let limited =
        types.register_type(Type::RootPolyType(PolyNature::Parameter { fixed_to: numbers }));
    let free = types.register_type(Type::RootPolyType(PolyNature::FreeThis));
    let result = types.register_type(Type::Constructor(Constructor::FunctionResult {
        on: limited,
        with: Vec::new(),
        result: one,
    }));
    let number = TypeId(NUMBER_TYPE);
    assert_eq!(basic(number, numbers, &types), YES);
    assert_eq!(basic(number, mixed, &types), NO);
    assert_eq!(basic(number, narrowed, &types), YES);
    assert_eq!(basic(TypeId(BOOLEAN_TYPE), narrowed, &types), NO);
    assert_eq!(basic(number, alias, &types), YES);
    assert_eq!(basic(number, limited, &types), YES);
    assert_eq!(basic(TypeId(STRING_TYPE), limited, &types), NO);
    assert_eq!(basic(number, free, &types), NO);
    assert_eq!(basic(number, result, &types), YES);
}

#[test]
fn placeholders_are_bound_to_what_they_accept() {
    let mut types = TypeStore::new();
    let generic =
        types.register_type(Type::RootPolyType(PolyNature::Generic { eager_fixed: TypeId(ANY_TYPE) }));
    let one = types.register_type(Type::Constant(Constant::Number(1)));
    let x = types.register_type(Type::Constant(Constant::String("x".to_string())));
    let mut context = context(at(4, 5), 2);
    assert_eq!(type_is_subtype(generic, one, &mut context, &types), YES);
    assert_eq!(context.type_arguments.len(), 1);
    let bound = context.type_arguments.get(&generic.0).copied().unwrap();
    assert_eq!(bound.value, one);
    assert_eq!(bound.position, at(4, 5));
    assert_eq!(bound.parameter, 2);

    context.argument_position_and_parameter_idx = (at(6, 7), 3);
    assert_eq!(type_is_subtype(generic, x, &mut context, &types), YES);
    let bound = context.type_arguments.get(&generic.0).copied().unwrap();
    assert_eq!(bound.value, one);
    assert_eq!(bound.parameter, 2);

    let mut scratch = map_vec::Map::new();
    assert_eq!(check_subtype(generic, one, &mut scratch, (at(0, 0), 0), false, &types), YES);
    assert!(scratch.is_empty());
    assert_eq!(basic(generic, one, &types), YES);
}

#[test]
fn placeholders_check_their_constraints() {
    let mut types = TypeStore::new();
    let limited = types
        .register_type(Type::RootPolyType(PolyNature::Generic { eager_fixed: TypeId(NUMBER_TYPE) }));
    let free = types.register_type(Type::RootPolyType(PolyNature::FreeThis));
    let one = types.register_type(Type::Constant(Constant::Number(1)));
    let x = types.register_type(Type::Constant(Constant::String("x".to_string())));
    let mut context = context(at(4, 5), 0);
    assert_eq!(
        type_is_subtype(limited, x, &mut context, &types),
        SubTypeResult::IsNotSubType(NonEqualityReason::GenericParameterMismatch)
    );
    assert!(context.type_arguments.is_empty());
    assert_eq!(type_is_subtype(limited, one, &mut context, &types), YES);
    assert_eq!(context.type_arguments.get(&limited.0).map(|binding| binding.value), Some(one));
    assert_eq!(type_is_subtype(free, x, &mut context, &types), YES);
    assert_eq!(context.type_arguments.len(), 1);
}

#[test]
fn union_of_placeholders_binds_the_first_that_accepts() {
    let mut types = TypeStore::new();
    let texts = types
        .register_type(Type::RootPolyType(PolyNature::Generic { eager_fixed: TypeId(STRING_TYPE) }));
    let numbers = types
        .register_type(Type::RootPolyType(PolyNature::Generic { eager_fixed: TypeId(NUMBER_TYPE) }));
    let either = types.register_type(Type::Or(texts, numbers));
    let one = types.register_type(Type::Constant(Constant::Number(1)));
    let mut context = context(at(4, 5), 0);
    assert_eq!(type_is_subtype(either, one, &mut context, &types), YES);
    assert!(context.type_arguments.get(&texts.0).is_none());
    assert_eq!(
        context.type_arguments.get(&numbers.0).copied(),
        Some(Binding { value: one, position: at(4, 5), parameter: 0 })
    );
}

#[test]
fn set_id_keeps_the_first_binding() {
    let mut context = context(at(0, 0), 0);
    let first = Binding { value: TypeId(NUMBER_TYPE), position: at(1, 2), parameter: 0 };
    let second = Binding { value: TypeId(STRING_TYPE), position: at(3, 4), parameter: 1 };
    context.set_id(TypeId(50), first);
    context.set_id(TypeId(50), second);
    context.set_id(TypeId(51), second);
    assert_eq!(context.type_arguments.len(), 2);
    assert_eq!(context.type_arguments.get(&50).map(|binding| binding.value), Some(TypeId(NUMBER_TYPE)));
    assert_eq!(context.type_arguments.get(&51).map(|binding| binding.value), Some(TypeId(STRING_TYPE)));
}
