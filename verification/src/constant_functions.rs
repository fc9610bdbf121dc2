//! Intrinsics: functions whose calls are computed while the types are
//! checked.

use crate::context::{Environment, FactsView};
use crate::subtyping::{basic_subtype, type_is_subtype_basic, BasicEquality, SubTypeResult};
use crate::substitute::interned;
use crate::text::{decimal_text, print_decimal, print_type, type_text};
use crate::types::{
    is_dependent, type_at, ObjectNature, SpecialObjects, SynthesisedArgument, ThisValue, Type,
    TypeId, TypeStore, TypeView,
};
use source_map::SpanWithSource;
use vstd::prelude::*;
use vstd::string::StringExecFns;

verus! {

/// What an intrinsic computed.
#[derive(Debug)]
pub enum ConstantOutput {
    Value(TypeId),
    Diagnostic(String),
}

pub enum ConstantOutputView {
    Value(TypeId),
    Diagnostic(Seq<char>),
}

/// Why an intrinsic computed nothing.
#[derive(Debug)]
pub enum ConstantFunctionError {
    NoLogicForIdentifier(String),
    /// The intrinsic cannot be computed on what it was called with.
    BadCall,
}

pub enum ConstantErrorView {
    NoLogicForIdentifier(Seq<char>),
    BadCall,
}

/// The view of what an intrinsic returns.
pub open spec fn constant_view(outcome: Result<ConstantOutput, ConstantFunctionError>) -> Result<
    ConstantOutputView,
    ConstantErrorView,
> {
    match outcome {
        Ok(ConstantOutput::Value(value)) => Ok(ConstantOutputView::Value(value)),
        Ok(ConstantOutput::Diagnostic(text)) => Ok(ConstantOutputView::Diagnostic(text@)),
        Err(ConstantFunctionError::NoLogicForIdentifier(name)) => Err(
            ConstantErrorView::NoLogicForIdentifier(name@),
        ),
        Err(ConstantFunctionError::BadCall) => Err(ConstantErrorView::BadCall),
    }
}

/// The intrinsics that run even where an argument is dependent.
pub open spec fn always_run(name: Seq<char>) -> bool {
    name == "debug_type"@ || name == "print_type"@ || name == "debug_effects"@ || name
        == "satisfies"@ || name == "is_dependent"@ || name == "bind"@ || name == "create_proxy"@
}

/// Whether the type of some argument is dependent.
pub open spec fn has_dependent_argument(
    types: Seq<TypeView>,
    arguments: Seq<SynthesisedArgument>,
) -> bool {
    exists|i: int|
        0 <= i < arguments.len() && is_dependent(types, (#[trigger] arguments[i]).spec_ty())
}

/// What the intrinsic `name` computes, with the store it leaves.
///
/// - `debug_type`, `print_type`: the text of the first argument's type.
/// - `debug_effects`: the number of events observed so far.
/// - `is_dependent`: whether the first argument's type is dependent.
/// - `satisfies`: the first argument if its type is a subtype of the first
///   call-site type argument, and a message otherwise.
/// - `bind`: the receiver's function, bound to the first argument as `this`.
/// - `create_proxy`: a proxy over the first argument with the second as handler.
/// - `compile_type_to_object`: an object for the first call-site type argument.
///
/// An intrinsic that lacks what it needs is a bad call. Any other name has no
/// logic.
pub open spec fn constant_function_model(
    name: Seq<char>,
    this_value: ThisValue,
    call_site_type_arguments: Option<Seq<(TypeId, SpanWithSource)>>,
    arguments: Seq<SynthesisedArgument>,
    types: Seq<TypeView>,
    facts: FactsView,
) -> (Seq<TypeView>, Result<ConstantOutputView, ConstantErrorView>) {
    let restriction = match call_site_type_arguments {
        Some(given) => if given.len() >= 1 {
            Some(given[0].0)
        } else {
            None
        },
        None => None,
    };
    if name == "debug_type"@ || name == "print_type"@ {
        if arguments.len() >= 1 {
            (types, Ok(ConstantOutputView::Diagnostic(type_text(types, arguments[0].spec_ty()))))
        } else {
            (types, Err(ConstantErrorView::BadCall))
        }
    } else if name == "debug_effects"@ {
        (
            types,
            Ok(
                ConstantOutputView::Diagnostic(
                    "events: "@ + decimal_text((facts.events.len() as u64) as nat),
                ),
            ),
        )
    } else if name == "is_dependent"@ {
        if arguments.len() >= 1 {
            (
                types,
                Ok(
                    ConstantOutputView::Diagnostic(
                        if is_dependent(types, arguments[0].spec_ty()) {
                            "is dependent"@
                        } else {
                            "is not dependent"@
                        },
                    ),
                ),
            )
        } else {
            (types, Err(ConstantErrorView::BadCall))
        }
    } else if name == "satisfies"@ {
        match restriction {
            Some(restriction) => if arguments.len() >= 1 {
                if basic_subtype(types, restriction, arguments[0].spec_ty()) is IsSubType {
                    (types, Ok(ConstantOutputView::Value(arguments[0].spec_ty())))
                } else {
                    (types, Ok(ConstantOutputView::Diagnostic("does not satisfy"@)))
                }
            } else {
                (types, Err(ConstantErrorView::BadCall))
            },
            None => (types, Err(ConstantErrorView::BadCall)),
        }
    } else if name == "bind"@ {
        match this_value {
            ThisValue::Passed(receiver) => match type_at(types, receiver) {
                Some(TypeView::Function(function, _)) => if arguments.len() >= 1 {
                    let (after, bound) = interned(
                        types,
                        TypeView::Function(function, ThisValue::Passed(arguments[0].spec_ty())),
                    );
                    (after, Ok(ConstantOutputView::Value(bound)))
                } else {
                    (types, Err(ConstantErrorView::BadCall))
                },
                _ => (types, Err(ConstantErrorView::BadCall)),
            },
            ThisValue::UseParent => (types, Err(ConstantErrorView::BadCall)),
        }
    } else if name == "create_proxy"@ {
        if arguments.len() >= 2 {
            let (after, proxy) = interned(
                types,
                TypeView::SpecialObject(
                    SpecialObjects::Proxy {
                        over: arguments[0].spec_ty(),
                        handler: arguments[1].spec_ty(),
                    },
                ),
            );
            (after, Ok(ConstantOutputView::Value(proxy)))
        } else {
            (types, Err(ConstantErrorView::BadCall))
        }
    } else if name == "compile_type_to_object"@ {
        match restriction {
            Some(_) => {
                let (after, object) = interned(
                    types,
                    TypeView::Object(ObjectNature::AnonymousTypeAnnotation),
                );
                (after, Ok(ConstantOutputView::Value(object)))
            },
            None => (types, Err(ConstantErrorView::BadCall)),
        }
    } else {
        (types, Err(ConstantErrorView::NoLogicForIdentifier(name)))
    }
}

/// Whether two texts are the same.
pub fn same_text(left: &str, right: &str) -> (same: bool)
    ensures
        same == (left@ == right@),
{
    let left = String::from_str(left);
    let right = String::from_str(right);
    left == right
}

/// Whether the intrinsic `name` runs even where an argument is dependent.
pub fn runs_always(name: &str) -> (always: bool)
    ensures
        always == always_run(name@),
{
    same_text(name, "debug_type") || same_text(name, "print_type") || same_text(
        name,
        "debug_effects",
    ) || same_text(name, "satisfies") || same_text(name, "is_dependent") || same_text(name, "bind")
        || same_text(name, "create_proxy")
}

/// Whether the type that `id` names is dependent.
pub fn type_is_dependent(id: TypeId, types: &TypeStore) -> (dependent: bool)
    ensures
        dependent == is_dependent(types.types_view(), id),
{
    match types.get_type_by_id(id) {
        Some(Type::Constructor(_)) => true,
        Some(Type::RootPolyType(_)) => true,
        _ => false,
    }
}

/// Whether the type of some argument is dependent.
pub fn any_dependent_argument(arguments: &Vec<SynthesisedArgument>, types: &TypeStore) -> (found:
    bool)
    ensures
        found == has_dependent_argument(types.types_view(), arguments@),
{
    let mut at: usize = 0;
    while at < arguments.len()
        invariant
            at <= arguments.len(),
            forall|i: int|
                0 <= i < at ==> !is_dependent(
                    types.types_view(),
                    (#[trigger] arguments@[i]).spec_ty(),
                ),
        decreases arguments.len() - at,
    {
        if type_is_dependent(arguments[at].to_type(), types) {
            return true;
        }
        at += 1;
    }
    false
}

/// Computes the intrinsic `name`.
pub fn call_constant_function(
    name: &str,
    this_value: ThisValue,
    call_site_type_arguments: &Option<Vec<(TypeId, SpanWithSource)>>,
    arguments: &Vec<SynthesisedArgument>,
    types: &mut TypeStore,
    environment: &Environment,
) -> (outcome: Result<ConstantOutput, ConstantFunctionError>)
    ensures
        (final(types).types_view(), constant_view(outcome)) == constant_function_model(
            name@,
            this_value,
            match call_site_type_arguments {
                Some(given) => Some(given@),
                None => None,
            },
            arguments@,
            old(types).types_view(),
            environment.facts@,
        ),
        final(types).functions == old(types).functions,
        final(types).closures == old(types).closures,
{
    let restriction = match call_site_type_arguments {
        Some(given) => if given.len() >= 1 {
            Some(given[0].0)
        } else {
            None
        },
        None => None,
    };
    if same_text(name, "debug_type") || same_text(name, "print_type") {
        if arguments.len() >= 1 {
            Ok(ConstantOutput::Diagnostic(print_type(arguments[0].to_type(), types)))
        } else {
            Err(ConstantFunctionError::BadCall)
        }
    } else if same_text(name, "debug_effects") {
        let mut text = String::from_str("events: ");
        let count = print_decimal(environment.facts.events.len() as u64);
        text.append(count.as_str());
        Ok(ConstantOutput::Diagnostic(text))
    } else if same_text(name, "is_dependent") {
        if arguments.len() >= 1 {
            if type_is_dependent(arguments[0].to_type(), types) {
                Ok(ConstantOutput::Diagnostic(String::from_str("is dependent")))
            } else {
                Ok(ConstantOutput::Diagnostic(String::from_str("is not dependent")))
            }
        } else {
            Err(ConstantFunctionError::BadCall)
        }
    } else if same_text(name, "satisfies") {
        match restriction {
            Some(restriction) => {
                if arguments.len() >= 1 {
                    let behavior = BasicEquality {
                        add_property_restrictions: false,
                        position: arguments[0].get_position(),
                    };
                    let verdict = type_is_subtype_basic(
                        restriction,
                        arguments[0].to_type(),
                        &behavior,
                        types,
                    );
                    match verdict {
                        SubTypeResult::IsSubType => Ok(
                            ConstantOutput::Value(arguments[0].to_type()),
                        ),
                        SubTypeResult::IsNotSubType(_) => Ok(
                            ConstantOutput::Diagnostic(String::from_str("does not satisfy")),
                        ),
                    }
                } else {
                    Err(ConstantFunctionError::BadCall)
                }
            },
            None => Err(ConstantFunctionError::BadCall),
        }
    } else if same_text(name, "bind") {
        let function = match this_value {
            ThisValue::Passed(receiver) => match types.get_type_by_id(receiver) {
                Some(Type::Function(function, _)) => Some(*function),
                _ => None,
            },
            ThisValue::UseParent => None,
        };
        match function {
            Some(function) => {
                if arguments.len() >= 1 {
                    let bound = types.register_type(
                        Type::Function(function, ThisValue::Passed(arguments[0].to_type())),
                    );
                    Ok(ConstantOutput::Value(bound))
                } else {
                    Err(ConstantFunctionError::BadCall)
                }
            },
            None => Err(ConstantFunctionError::BadCall),
        }
    } else if same_text(name, "create_proxy") {
        if arguments.len() >= 2 {
            let proxy = types.register_type(
                Type::SpecialObject(
                    SpecialObjects::Proxy {
                        over: arguments[0].to_type(),
                        handler: arguments[1].to_type(),
                    },
                ),
            );
            Ok(ConstantOutput::Value(proxy))
        } else {
            Err(ConstantFunctionError::BadCall)
        }
    } else if same_text(name, "compile_type_to_object") {
        match restriction {
            Some(_) => {
                let object = types.register_type(
                    Type::Object(ObjectNature::AnonymousTypeAnnotation),
                );
                Ok(ConstantOutput::Value(object))
            },
            None => Err(ConstantFunctionError::BadCall),
        }
    } else {
        Err(ConstantFunctionError::NoLogicForIdentifier(String::from_str(name)))
    }
}

} // verus!
