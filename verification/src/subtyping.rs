//! Subtyping. The check walks the base type; where it meets a generic or a
//! parameter it checks the constraint and, when asked to, binds the
//! placeholder to the type that was given for it.

use crate::bindings::{binding_entries, insert_first, new_bindings, put_first, Binding};
use crate::span::null_position;
use crate::types::{
    type_at, Constant, ConstantView, Constructor, ConstructorView, PolyNature, Type, TypeId,
    TypeStore, TypeView, ANY_TYPE, BOOLEAN_TYPE, NUMBER_TYPE, STRING_TYPE,
};
use source_map::SpanWithSource;
use vstd::prelude::*;

verus! {

/// Why a type is not a subtype of another.
#[derive(Clone, Copy, PartialEq, Eq, Debug, Structural)]
pub enum NonEqualityReason {
    Mismatch,
    /// The type does not meet the constraint of a generic or a parameter.
    GenericParameterMismatch,
}

#[derive(Clone, Copy, PartialEq, Eq, Debug, Structural)]
pub enum SubTypeResult {
    IsSubType,
    IsNotSubType(NonEqualityReason),
}

/// The bindings found while the arguments of a call are walked.
pub struct SeedingContext {
    /// What each type parameter is bound to. The first binding of a parameter
    /// is the one that stays.
    pub type_arguments: map_vec::Map<usize, Binding>,
    /// What the call site demands of each type parameter.
    pub type_restrictions: map_vec::Map<usize, Binding>,
    /// The position of the argument that is being checked and the index of
    /// its parameter.
    pub argument_position_and_parameter_idx: (SpanWithSource, usize),
}

pub struct SeedingContextView {
    pub type_arguments: Seq<(usize, Binding)>,
    pub type_restrictions: Seq<(usize, Binding)>,
    pub argument_position_and_parameter_idx: (SpanWithSource, usize),
}

impl View for SeedingContext {
    type V = SeedingContextView;

    open spec fn view(&self) -> SeedingContextView {
        SeedingContextView {
            type_arguments: binding_entries(self.type_arguments),
            type_restrictions: binding_entries(self.type_restrictions),
            argument_position_and_parameter_idx: self.argument_position_and_parameter_idx,
        }
    }
}

impl SeedingContext {
    /// Binds `on` to `value` unless `on` is bound already.
    pub fn set_id(&mut self, on: TypeId, value: Binding)
        ensures
            final(self)@ == (SeedingContextView {
                type_arguments: put_first(old(self)@.type_arguments, on.0, value),
                ..old(self)@
            }),
    {
        insert_first(&mut self.type_arguments, on.0, value);
    }
}

/// The constraint of a polymorphic root, where it has one.
pub open spec fn constraint_of(nature: PolyNature) -> Option<TypeId> {
    match nature {
        PolyNature::Generic { eager_fixed } => Some(eager_fixed),
        PolyNature::Parameter { fixed_to } => Some(fixed_to),
        PolyNature::FreeThis => None,
    }
}

/// The reserved type that a literal belongs to.
pub open spec fn primitive_of(constant: ConstantView) -> usize {
    match constant {
        ConstantView::Number(_) => NUMBER_TYPE,
        ConstantView::String(_) => STRING_TYPE,
        ConstantView::Boolean(_) => BOOLEAN_TYPE,
    }
}

/// Whether `ty` is a subtype of `base`, for a base that is neither a
/// placeholder nor a combination of other types. The two are the same type,
/// or `ty` is a literal of the primitive `base` or the same literal as `base`,
/// or what `ty` stands for is a subtype of `base`: the target of an alias,
/// both sides of a union, one side of an intersection, the constraint of a
/// placeholder, the result of a call, the generic that was applied.
pub open spec fn fixed_subtype(types: Seq<TypeView>, base: TypeId, ty: TypeId) -> bool
    decreases ty.0,
{
    if base == ty {
        true
    } else {
        match type_at(types, ty) {
            Some(TypeView::Constant(constant)) => primitive_of(constant) == base.0 || type_at(
                types,
                base,
            ) == Some(TypeView::Constant(constant)),
            Some(TypeView::AliasTo { to, .. }) => to.0 < ty.0 && fixed_subtype(types, base, to),
            Some(TypeView::Or(left, right)) => left.0 < ty.0 && right.0 < ty.0 && fixed_subtype(
                types,
                base,
                left,
            ) && fixed_subtype(types, base, right),
            Some(TypeView::And(left, right)) => left.0 < ty.0 && right.0 < ty.0 && (fixed_subtype(
                types,
                base,
                left,
            ) || fixed_subtype(types, base, right)),
            Some(TypeView::RootPolyType(nature)) => match constraint_of(nature) {
                Some(constraint) => constraint.0 < ty.0 && fixed_subtype(types, base, constraint),
                None => false,
            },
            Some(TypeView::Constructor(ConstructorView::FunctionResult { result, .. })) => result.0
                < ty.0 && fixed_subtype(types, base, result),
            Some(TypeView::Constructor(ConstructorView::StructureGenerics { on, .. })) => on.0
                < ty.0 && fixed_subtype(types, base, on),
            _ => false,
        }
    }
}

/// A verdict from a yes or a no.
pub open spec fn verdict(holds: bool) -> SubTypeResult {
    if holds {
        SubTypeResult::IsSubType
    } else {
        SubTypeResult::IsNotSubType(NonEqualityReason::Mismatch)
    }
}

/// The subtype check of `ty` against `base`, with the bindings it leaves.
///
/// Every type is a subtype of itself and of `ANY_TYPE`. A generic or a
/// parameter accepts what its constraint accepts and, with `bind`, is then
/// bound to `ty` (the first binding stays). A union accepts what either side
/// accepts, the left side first; an intersection what both accept; an alias
/// what its target accepts. Any other base is checked by [`fixed_subtype`].
/// A part is followed only where it was registered before the whole.
pub open spec fn subtype_model(
    types: Seq<TypeView>,
    base: TypeId,
    ty: TypeId,
    seeds: Seq<(usize, Binding)>,
    at: (SpanWithSource, usize),
    bind: bool,
) -> (SubTypeResult, Seq<(usize, Binding)>)
    decreases base.0,
{
    if base == ty || base.0 == ANY_TYPE {
        (SubTypeResult::IsSubType, seeds)
    } else {
        match type_at(types, base) {
            Some(TypeView::RootPolyType(nature)) => match constraint_of(nature) {
                Some(constraint) => if constraint.0 < base.0 {
                    let (inner, after) = subtype_model(types, constraint, ty, seeds, at, bind);
                    if inner is IsSubType {
                        (
                            inner,
                            if bind {
                                put_first(
                                    after,
                                    base.0,
                                    Binding { value: ty, position: at.0, parameter: at.1 },
                                )
                            } else {
                                after
                            },
                        )
                    } else {
                        (
                            SubTypeResult::IsNotSubType(
                                NonEqualityReason::GenericParameterMismatch,
                            ),
                            after,
                        )
                    }
                } else {
                    (verdict(false), seeds)
                },
                None => (SubTypeResult::IsSubType, seeds),
            },
            Some(TypeView::Or(left, right)) => if left.0 < base.0 && right.0 < base.0 {
                let (first, after) = subtype_model(types, left, ty, seeds, at, bind);
                if first is IsSubType {
                    (first, after)
                } else {
                    subtype_model(types, right, ty, after, at, bind)
                }
            } else {
                (verdict(false), seeds)
            },
            Some(TypeView::And(left, right)) => if left.0 < base.0 && right.0 < base.0 {
                let (first, after) = subtype_model(types, left, ty, seeds, at, bind);
                if first is IsSubType {
                    subtype_model(types, right, ty, after, at, bind)
                } else {
                    (first, after)
                }
            } else {
                (verdict(false), seeds)
            },
            Some(TypeView::AliasTo { to, .. }) => if to.0 < base.0 {
                subtype_model(types, to, ty, seeds, at, bind)
            } else {
                (verdict(false), seeds)
            },
            _ => (verdict(fixed_subtype(types, base, ty)), seeds),
        }
    }
}

/// Whether two literals are the same.
pub fn same_constant(left: &Constant, right: &Constant) -> (same: bool)
    ensures
        same == (left@ == right@),
{
    match (left, right) {
        (Constant::Number(a), Constant::Number(b)) => *a == *b,
        (Constant::String(a), Constant::String(b)) => {
            let same = *a == *b;
            same
        },
        (Constant::Boolean(a), Constant::Boolean(b)) => *a == *b,
        _ => false,
    }
}

fn primitive_index(constant: &Constant) -> (index: usize)
    ensures
        index == primitive_of(constant@),
{
    match constant {
        Constant::Number(_) => NUMBER_TYPE,
        Constant::String(_) => STRING_TYPE,
        Constant::Boolean(_) => BOOLEAN_TYPE,
    }
}

/// Whether `ty` is a subtype of the fixed type `base`.
pub fn is_fixed_subtype(base: TypeId, ty: TypeId, types: &TypeStore) -> (holds: bool)
    ensures
        holds == fixed_subtype(types.types_view(), base, ty),
    decreases ty.0,
{
    if base == ty {
        return true;
    }
    match types.get_type_by_id(ty) {
        Some(Type::Constant(constant)) => {
            if primitive_index(constant) == base.0 {
                true
            } else {
                match types.get_type_by_id(base) {
                    Some(Type::Constant(other)) => same_constant(other, constant),
                    _ => false,
                }
            }
        },
        Some(Type::AliasTo { to, .. }) => to.0 < ty.0 && is_fixed_subtype(base, *to, types),
        Some(Type::Or(left, right)) => left.0 < ty.0 && right.0 < ty.0 && is_fixed_subtype(
            base,
            *left,
            types,
        ) && is_fixed_subtype(base, *right, types),
        Some(Type::And(left, right)) => left.0 < ty.0 && right.0 < ty.0 && (is_fixed_subtype(
            base,
            *left,
            types,
        ) || is_fixed_subtype(base, *right, types)),
        Some(Type::RootPolyType(PolyNature::Generic { eager_fixed })) => eager_fixed.0 < ty.0
            && is_fixed_subtype(base, *eager_fixed, types),
        Some(Type::RootPolyType(PolyNature::Parameter { fixed_to })) => fixed_to.0 < ty.0
            && is_fixed_subtype(base, *fixed_to, types),
        Some(Type::Constructor(Constructor::FunctionResult { result, .. })) => result.0 < ty.0
            && is_fixed_subtype(base, *result, types),
        Some(Type::Constructor(Constructor::StructureGenerics(generics))) => generics.on.0 < ty.0
            && is_fixed_subtype(base, generics.on, types),
        _ => false,
    }
}

fn to_verdict(holds: bool) -> (result: SubTypeResult)
    ensures
        result == verdict(holds),
{
    if holds {
        SubTypeResult::IsSubType
    } else {
        SubTypeResult::IsNotSubType(NonEqualityReason::Mismatch)
    }
}

fn constraint(nature: &PolyNature) -> (found: Option<TypeId>)
    ensures
        found == constraint_of(*nature),
{
    match nature {
        PolyNature::Generic { eager_fixed } => Some(*eager_fixed),
        PolyNature::Parameter { fixed_to } => Some(*fixed_to),
        PolyNature::FreeThis => None,
    }
}

/// Checks `ty` against `base` and leaves in `seeds` the bindings that the
/// check made.
pub fn check_subtype(
    base: TypeId,
    ty: TypeId,
    seeds: &mut map_vec::Map<usize, Binding>,
    at: (SpanWithSource, usize),
    bind: bool,
    types: &TypeStore,
) -> (result: SubTypeResult)
    ensures
        (result, binding_entries(*final(seeds))) == subtype_model(
            types.types_view(),
            base,
            ty,
            binding_entries(*old(seeds)),
            at,
            bind,
        ),
    decreases base.0,
{
    if base == ty || base.0 == ANY_TYPE {
        return SubTypeResult::IsSubType;
    }
    match types.get_type_by_id(base) {
        Some(Type::RootPolyType(nature)) => match constraint(nature) {
            Some(constraint) => {
                if constraint.0 < base.0 {
                    let inner = check_subtype(constraint, ty, seeds, at, bind, types);
                    match inner {
                        SubTypeResult::IsSubType => {
                            if bind {
                                insert_first(
                                    seeds,
                                    base.0,
                                    Binding { value: ty, position: at.0, parameter: at.1 },
                                );
                            }
                            inner
                        },
                        SubTypeResult::IsNotSubType(_) => SubTypeResult::IsNotSubType(
                            NonEqualityReason::GenericParameterMismatch,
                        ),
                    }
                } else {
                    to_verdict(false)
                }
            },
            None => SubTypeResult::IsSubType,
        },
        Some(Type::Or(left, right)) => {
            if left.0 < base.0 && right.0 < base.0 {
                let first = check_subtype(*left, ty, seeds, at, bind, types);
                match first {
                    SubTypeResult::IsSubType => first,
                    SubTypeResult::IsNotSubType(_) => check_subtype(
                        *right,
                        ty,
                        seeds,
                        at,
                        bind,
                        types,
                    ),
                }
            } else {
                to_verdict(false)
            }
        },
        Some(Type::And(left, right)) => {
            if left.0 < base.0 && right.0 < base.0 {
                let first = check_subtype(*left, ty, seeds, at, bind, types);
                match first {
                    SubTypeResult::IsSubType => check_subtype(*right, ty, seeds, at, bind, types),
                    SubTypeResult::IsNotSubType(_) => first,
                }
            } else {
                to_verdict(false)
            }
        },
        Some(Type::AliasTo { to, .. }) => {
            if to.0 < base.0 {
                check_subtype(*to, ty, seeds, at, bind, types)
            } else {
                to_verdict(false)
            }
        },
        _ => to_verdict(is_fixed_subtype(base, ty, types)),
    }
}

/// The verdict of the check that binds nothing.
pub open spec fn basic_subtype(types: Seq<TypeView>, base: TypeId, ty: TypeId) -> SubTypeResult {
    subtype_model(
        types,
        base,
        ty,
        Seq::<(usize, Binding)>::empty(),
        (crate::span::null_span_value(), 0usize),
        false,
    ).0
}

/// A subtype check that binds nothing: placeholders are checked by their
/// constraints alone.
pub struct BasicEquality {
    pub add_property_restrictions: bool,
    pub position: SpanWithSource,
}

/// Checks `ty` against `base` and binds in `context` the placeholders that
/// the check meets, at the position that the context holds.
pub fn type_is_subtype(
    base: TypeId,
    ty: TypeId,
    context: &mut SeedingContext,
    types: &TypeStore,
) -> (result: SubTypeResult)
    ensures
        (result, final(context)@.type_arguments) == subtype_model(
            types.types_view(),
            base,
            ty,
            old(context)@.type_arguments,
            old(context)@.argument_position_and_parameter_idx,
            true,
        ),
        final(context)@.type_restrictions == old(context)@.type_restrictions,
        final(context)@.argument_position_and_parameter_idx == old(
            context,
        )@.argument_position_and_parameter_idx,
{
    let at = context.argument_position_and_parameter_idx;
    check_subtype(base, ty, &mut context.type_arguments, at, true, types)
}

/// Checks `ty` against `base` without binding anything.
pub fn type_is_subtype_basic(
    base: TypeId,
    ty: TypeId,
    behavior: &BasicEquality,
    types: &TypeStore,
) -> (result: SubTypeResult)
    ensures
        result == basic_subtype(types.types_view(), base, ty),
{
    let mut scratch = new_bindings();
    check_subtype(base, ty, &mut scratch, (null_position(), 0), false, types)
}

} // verus!
