//! Function descriptors.

use crate::events::{event_views, Event, EventView, RootReference};
use crate::types::{FunctionId, TypeId};
use source_map::SpanWithSource;
use vstd::prelude::*;

verus! {

/// What kind of callable a function is, with the parameters that stand for
/// its `this`.
#[derive(Clone, Copy, Debug)]
pub enum FunctionBehavior {
    ArrowFunction { is_async: bool },
    Method { is_async: bool, is_generator: bool, free_this_id: TypeId },
    Function { is_async: bool, is_generator: bool, free_this_id: TypeId },
    Constructor { non_super_prototype: Option<TypeId>, this_object_type: TypeId },
}

/// A positional parameter. `missing_value` is what the parameter is when no
/// argument is given for it.
#[derive(Clone, Copy, Debug)]
pub struct SynthesisedParameter {
    pub ty: TypeId,
    pub position: SpanWithSource,
    pub missing_value: Option<TypeId>,
}

/// The parameter that takes the arguments beyond the positional ones.
/// `item_type` is the array type applied to the element type.
#[derive(Clone, Copy, Debug)]
pub struct SynthesisedRestParameter {
    pub item_type: TypeId,
    pub position: SpanWithSource,
}

pub struct SynthesisedParameters {
    pub parameters: Vec<SynthesisedParameter>,
    pub rest_parameter: Option<SynthesisedRestParameter>,
}

/// A function descriptor.
pub struct FunctionType {
    pub id: FunctionId,
    pub behavior: FunctionBehavior,
    /// The generic parameters, in the order in which a call site names them.
    pub type_parameters: Option<Vec<TypeId>>,
    pub parameters: SynthesisedParameters,
    pub return_type: TypeId,
    /// What checking the body recorded, in the order in which it happened.
    pub effects: Vec<Event>,
    /// The references that the body reads from around it, with their values
    /// where the function was made.
    pub closed_over_variables: Vec<(RootReference, TypeId)>,
    /// The name of the intrinsic that computes the function's calls, if any.
    pub constant_function: Option<String>,
}

pub struct FunctionTypeView {
    pub id: FunctionId,
    pub behavior: FunctionBehavior,
    pub type_parameters: Option<Seq<TypeId>>,
    pub parameters: Seq<SynthesisedParameter>,
    pub rest_parameter: Option<SynthesisedRestParameter>,
    pub return_type: TypeId,
    pub effects: Seq<EventView>,
    pub closed_over_variables: Seq<(RootReference, TypeId)>,
    pub constant_function: Option<Seq<char>>,
}

impl View for FunctionType {
    type V = FunctionTypeView;

    open spec fn view(&self) -> FunctionTypeView {
        FunctionTypeView {
            id: self.id,
            behavior: self.behavior,
            type_parameters: match self.type_parameters {
                Some(parameters) => Some(parameters@),
                None => None,
            },
            parameters: self.parameters.parameters@,
            rest_parameter: self.parameters.rest_parameter,
            return_type: self.return_type,
            effects: event_views(self.effects@),
            closed_over_variables: self.closed_over_variables@,
            constant_function: match self.constant_function {
                Some(name) => Some(name@),
                None => None,
            },
        }
    }
}

/// A copy of a list of plain values.
pub fn copy_list<T: Copy>(list: &Vec<T>) -> (copy: Vec<T>)
    ensures
        copy@ == list@,
{
    let mut copy: Vec<T> = Vec::new();
    let mut at: usize = 0;
    while at < list.len()
        invariant
            at <= list.len(),
            copy@ == list@.subrange(0, at as int),
        decreases list.len() - at,
    {
        copy.push(list[at]);
        at += 1;
    }
    copy
}

/// A copy of a list of events.
pub fn copy_events(events: &Vec<Event>) -> (copy: Vec<Event>)
    ensures
        event_views(copy@) == event_views(events@),
{
    let mut copy: Vec<Event> = Vec::new();
    let mut at: usize = 0;
    while at < events.len()
        invariant
            at <= events.len(),
            copy@.len() == at,
            forall|i: int| 0 <= i < at ==> (#[trigger] copy@[i])@ == events@[i]@,
        decreases events.len() - at,
    {
        copy.push(events[at].duplicate());
        at += 1;
    }
    copy
}

impl FunctionType {
    /// A copy of the descriptor.
    pub fn duplicate(&self) -> (copy: FunctionType)
        ensures
            copy@ == self@,
    {
        FunctionType {
            id: self.id,
            behavior: self.behavior,
            type_parameters: match &self.type_parameters {
                Some(parameters) => Some(copy_list(parameters)),
                None => None,
            },
            parameters: SynthesisedParameters {
                parameters: copy_list(&self.parameters.parameters),
                rest_parameter: self.parameters.rest_parameter,
            },
            return_type: self.return_type,
            effects: copy_events(&self.effects),
            closed_over_variables: copy_list(&self.closed_over_variables),
            constant_function: match &self.constant_function {
                Some(name) => Some(name.clone()),
                None => None,
            },
        }
    }
}

} // verus!
