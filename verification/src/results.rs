//! What a call is made with and what it gives back: inputs, results and
//! diagnostics.

use crate::events::{CalledWithNew, RootReference};
use crate::text::TypeStringRepresentation;
use crate::types::{FunctionId, ThisValue, TypeId};
use source_map::SpanWithSource;
use vstd::prelude::*;

verus! {

/// What a call site hands to a call beside the callee and the arguments.
pub struct CallingInput {
    pub called_with_new: CalledWithNew,
    pub this_value: ThisValue,
    pub call_site_type_arguments: Option<Vec<(TypeId, SpanWithSource)>>,
    pub call_site: SpanWithSource,
}

/// [`CallingInput`] before the receiver is known.
pub struct CallingInputWithoutThis {
    pub called_with_new: CalledWithNew,
    pub call_site_type_arguments: Option<Vec<(TypeId, SpanWithSource)>>,
    pub call_site: SpanWithSource,
}

pub struct CallingInputView {
    pub called_with_new: CalledWithNew,
    pub this_value: ThisValue,
    pub call_site_type_arguments: Option<Seq<(TypeId, SpanWithSource)>>,
    pub call_site: SpanWithSource,
}

impl View for CallingInput {
    type V = CallingInputView;

    open spec fn view(&self) -> CallingInputView {
        CallingInputView {
            called_with_new: self.called_with_new,
            this_value: self.this_value,
            call_site_type_arguments: match self.call_site_type_arguments {
                Some(arguments) => Some(arguments@),
                None => None,
            },
            call_site: self.call_site,
        }
    }
}

pub struct CallingInputWithoutThisView {
    pub called_with_new: CalledWithNew,
    pub call_site_type_arguments: Option<Seq<(TypeId, SpanWithSource)>>,
    pub call_site: SpanWithSource,
}

impl View for CallingInputWithoutThis {
    type V = CallingInputWithoutThisView;

    open spec fn view(&self) -> CallingInputWithoutThisView {
        CallingInputWithoutThisView {
            called_with_new: self.called_with_new,
            call_site_type_arguments: match self.call_site_type_arguments {
                Some(arguments) => Some(arguments@),
                None => None,
            },
            call_site: self.call_site,
        }
    }
}

/// An input with `this_value` as its receiver.
pub open spec fn with_this(input: CallingInputWithoutThisView, this_value: ThisValue) -> CallingInputView {
    CallingInputView {
        called_with_new: input.called_with_new,
        this_value,
        call_site_type_arguments: input.call_site_type_arguments,
        call_site: input.call_site,
    }
}

/// An input without its receiver.
pub open spec fn without_this(input: CallingInputView) -> CallingInputWithoutThisView {
    CallingInputWithoutThisView {
        called_with_new: input.called_with_new,
        call_site_type_arguments: input.call_site_type_arguments,
        call_site: input.call_site,
    }
}

/// A copy of the type arguments that a call site names.
pub fn copy_type_arguments(given: &Option<Vec<(TypeId, SpanWithSource)>>) -> (copy: Option<
    Vec<(TypeId, SpanWithSource)>,
>)
    ensures
        match (given, copy) {
            (Some(given), Some(copy)) => copy@ == given@,
            (None, None) => true,
            _ => false,
        },
{
    match given {
        Some(given) => {
            let mut copy: Vec<(TypeId, SpanWithSource)> = Vec::new();
            let mut at: usize = 0;
            while at < given.len()
                invariant
                    at <= given.len(),
                    copy@ == given@.subrange(0, at as int),
                decreases given.len() - at,
            {
                copy.push(given[at]);
                at += 1;
            }
            Some(copy)
        },
        None => None,
    }
}

impl CallingInput {
    /// A copy of the input.
    pub fn duplicate(&self) -> (copy: CallingInput)
        ensures
            copy@ == self@,
    {
        CallingInput {
            called_with_new: self.called_with_new,
            this_value: self.this_value,
            call_site_type_arguments: copy_type_arguments(&self.call_site_type_arguments),
            call_site: self.call_site,
        }
    }
}

/// Expressions that are handed back to the host for special treatment.
#[derive(Clone, Copy, PartialEq, Eq, Debug, Structural)]
pub enum SpecialExpressions {
    CompileOut,
    Marker,
}

/// A message for the user that is no error.
#[derive(Debug)]
pub struct InfoDiagnostic(pub String);

/// What a call gives back.
pub struct FunctionCallResult {
    /// The function that ran, where one ran.
    pub called: Option<FunctionId>,
    pub returned_type: TypeId,
    pub warnings: Vec<InfoDiagnostic>,
    pub special: Option<SpecialExpressions>,
}

pub struct CallResultView {
    pub called: Option<FunctionId>,
    pub returned_type: TypeId,
    pub warnings: Seq<Seq<char>>,
    pub special: Option<SpecialExpressions>,
}

/// The texts of a list of messages.
pub open spec fn warning_views(warnings: Seq<InfoDiagnostic>) -> Seq<Seq<char>> {
    Seq::new(warnings.len(), |i: int| warnings[i].0@)
}

impl View for FunctionCallResult {
    type V = CallResultView;

    open spec fn view(&self) -> CallResultView {
        CallResultView {
            called: self.called,
            returned_type: self.returned_type,
            warnings: warning_views(self.warnings@),
            special: self.special,
        }
    }
}

/// Errors from trying to call a function.
#[derive(Debug)]
pub enum FunctionCallingError {
    InvalidArgumentType {
        parameter_type: TypeStringRepresentation,
        argument_type: TypeStringRepresentation,
        argument_position: SpanWithSource,
        parameter_position: SpanWithSource,
        restriction: Option<(SpanWithSource, TypeStringRepresentation)>,
    },
    MissingArgument { parameter_position: SpanWithSource, call_site: SpanWithSource },
    ExcessArguments { count: usize, position: SpanWithSource },
    NotCallable { calling: TypeStringRepresentation, call_site: SpanWithSource },
    ReferenceRestrictionDoesNotMatch {
        reference: RootReference,
        requirement: TypeStringRepresentation,
        found: TypeStringRepresentation,
    },
    CyclicRecursion(FunctionId, SpanWithSource),
    NoLogicForIdentifier(String, SpanWithSource),
    NeedsToBeCalledWithNewKeyword(SpanWithSource),
}

pub enum CallErrorView {
    InvalidArgumentType {
        parameter_type: Seq<char>,
        argument_type: Seq<char>,
        argument_position: SpanWithSource,
        parameter_position: SpanWithSource,
        restriction: Option<(SpanWithSource, Seq<char>)>,
    },
    MissingArgument { parameter_position: SpanWithSource, call_site: SpanWithSource },
    ExcessArguments { count: usize, position: SpanWithSource },
    NotCallable { calling: Seq<char>, call_site: SpanWithSource },
    ReferenceRestrictionDoesNotMatch {
        reference: RootReference,
        requirement: Seq<char>,
        found: Seq<char>,
    },
    CyclicRecursion(FunctionId, SpanWithSource),
    NoLogicForIdentifier(Seq<char>, SpanWithSource),
    NeedsToBeCalledWithNewKeyword(SpanWithSource),
}

impl View for FunctionCallingError {
    type V = CallErrorView;

    open spec fn view(&self) -> CallErrorView {
        match self {
            FunctionCallingError::InvalidArgumentType {
                parameter_type,
                argument_type,
                argument_position,
                parameter_position,
                restriction,
            } => CallErrorView::InvalidArgumentType {
                parameter_type: parameter_type@,
                argument_type: argument_type@,
                argument_position: *argument_position,
                parameter_position: *parameter_position,
                restriction: match restriction {
                    Some((position, shown)) => Some((*position, shown@)),
                    None => None,
                },
            },
            FunctionCallingError::MissingArgument {
                parameter_position,
                call_site,
            } => CallErrorView::MissingArgument {
                parameter_position: *parameter_position,
                call_site: *call_site,
            },
            FunctionCallingError::ExcessArguments { count, position } => CallErrorView::ExcessArguments {
                count: *count,
                position: *position,
            },
            FunctionCallingError::NotCallable { calling, call_site } => CallErrorView::NotCallable {
                calling: calling@,
                call_site: *call_site,
            },
            FunctionCallingError::ReferenceRestrictionDoesNotMatch {
                reference,
                requirement,
                found,
            } => CallErrorView::ReferenceRestrictionDoesNotMatch {
                reference: *reference,
                requirement: requirement@,
                found: found@,
            },
            FunctionCallingError::CyclicRecursion(function, position) => CallErrorView::CyclicRecursion(
                *function,
                *position,
            ),
            FunctionCallingError::NoLogicForIdentifier(
                name,
                position,
            ) => CallErrorView::NoLogicForIdentifier(name@, *position),
            FunctionCallingError::NeedsToBeCalledWithNewKeyword(
                position,
            ) => CallErrorView::NeedsToBeCalledWithNewKeyword(*position),
        }
    }
}

/// The views of a list of errors.
pub open spec fn error_views(errors: Seq<FunctionCallingError>) -> Seq<CallErrorView> {
    Seq::new(errors.len(), |i: int| errors[i]@)
}

/// The view of what a call returns: the result or the errors.
pub open spec fn outcome_view(
    outcome: Result<FunctionCallResult, Vec<FunctionCallingError>>,
) -> Result<CallResultView, Seq<CallErrorView>> {
    match outcome {
        Ok(result) => Ok(result@),
        Err(errors) => Err(error_views(errors@)),
    }
}

/// Appends an error to a list of errors.
pub fn push_error(errors: &mut Vec<FunctionCallingError>, error: FunctionCallingError)
    ensures
        error_views(final(errors)@) == error_views(old(errors)@).push(error@),
{
    errors.push(error);
}

/// How a call came to its result.
#[derive(Clone, Copy, PartialEq, Eq, Debug, Structural)]
pub enum ResolutionKind {
    /// The callee or an argument was the recovery type.
    Absorbed,
    /// The result stands for a call that is resolved later.
    Dependent,
    /// The function is being replayed already and was not entered again.
    Guarded,
    /// A function ran or an intrinsic computed the result.
    Resolved,
}

/// A result with the way it came about.
pub struct Resolution {
    pub result: FunctionCallResult,
    pub kind: ResolutionKind,
}

pub struct ResolutionView {
    pub result: CallResultView,
    pub kind: ResolutionKind,
}

impl View for Resolution {
    type V = ResolutionView;

    open spec fn view(&self) -> ResolutionView {
        ResolutionView { result: self.result@, kind: self.kind }
    }
}

/// The view of what resolving a call returns.
pub open spec fn resolution_view(
    outcome: Result<Resolution, Vec<FunctionCallingError>>,
) -> Result<ResolutionView, Seq<CallErrorView>> {
    match outcome {
        Ok(resolution) => Ok(resolution@),
        Err(errors) => Err(error_views(errors@)),
    }
}

} // verus!
