//! Events: the record of what checking a piece of code did, kept so that it
//! can be replayed where the code is called.

use crate::types::{SynthesisedArgument, TypeId, VariableId};
use source_map::SpanWithSource;
use vstd::prelude::*;

verus! {

/// What a call was made with beside its arguments: `new`, `super` or neither.
#[derive(Clone, Copy, PartialEq, Eq, Debug)]
pub enum CalledWithNew {
    /// `on` is what `new.target` refers to; it is not the instance.
    New { on: TypeId },
    SpecialSuperCall { this_type: TypeId },
    /// An ordinary call.
    Plain,
}

impl Default for CalledWithNew {
    fn default() -> (value: CalledWithNew)
        ensures
            value == CalledWithNew::Plain,
    {
        CalledWithNew::Plain
    }
}

/// When a recorded call runs.
#[derive(Clone, Copy, PartialEq, Eq, Debug, Structural)]
pub enum CallingTiming {
    Synchronous,
    QueueTask,
    AtSomePointManyTimes,
}

/// What a closure can capture.
#[derive(Clone, Copy, PartialEq, Eq, Debug, Structural)]
pub enum RootReference {
    Variable(VariableId),
    This,
}

/// One recorded effect.
pub enum Event {
    /// A call of `on` with `with`. `reflects_dependency` is the dependent type
    /// that stands for the result where the call could not be resolved.
    CallsType {
        on: TypeId,
        with: Vec<SynthesisedArgument>,
        timing: CallingTiming,
        called_with_new: CalledWithNew,
        reflects_dependency: Option<TypeId>,
        position: SpanWithSource,
    },
    /// An assignment of a value to a variable.
    SetsVariable(VariableId, TypeId, SpanWithSource),
    /// An assignment of `new` to the property `under` of `on`.
    Setter { on: TypeId, under: TypeId, new: TypeId, position: SpanWithSource },
    /// A return from the function that the effect list belongs to.
    Return { returned: TypeId, position: SpanWithSource },
}

pub enum EventView {
    CallsType {
        on: TypeId,
        with: Seq<SynthesisedArgument>,
        timing: CallingTiming,
        called_with_new: CalledWithNew,
        reflects_dependency: Option<TypeId>,
        position: SpanWithSource,
    },
    SetsVariable(VariableId, TypeId, SpanWithSource),
    Setter { on: TypeId, under: TypeId, new: TypeId, position: SpanWithSource },
    Return { returned: TypeId, position: SpanWithSource },
}

impl View for Event {
    type V = EventView;

    open spec fn view(&self) -> EventView {
        match self {
            Event::CallsType {
                on,
                with,
                timing,
                called_with_new,
                reflects_dependency,
                position,
            } => EventView::CallsType {
                on: *on,
                with: with@,
                timing: *timing,
                called_with_new: *called_with_new,
                reflects_dependency: *reflects_dependency,
                position: *position,
            },
            Event::SetsVariable(variable, value, position) => EventView::SetsVariable(
                *variable,
                *value,
                *position,
            ),
            Event::Setter { on, under, new, position } => EventView::Setter {
                on: *on,
                under: *under,
                new: *new,
                position: *position,
            },
            Event::Return { returned, position } => EventView::Return {
                returned: *returned,
                position: *position,
            },
        }
    }
}

/// The views of a list of events.
pub open spec fn event_views(events: Seq<Event>) -> Seq<EventView> {
    Seq::new(events.len(), |i: int| events[i]@)
}

/// A copy of a list of arguments.
pub fn copy_arguments(arguments: &Vec<SynthesisedArgument>) -> (copy: Vec<SynthesisedArgument>)
    ensures
        copy@ == arguments@,
{
    let mut copy: Vec<SynthesisedArgument> = Vec::new();
    let mut at: usize = 0;
    while at < arguments.len()
        invariant
            at <= arguments.len(),
            copy@ == arguments@.subrange(0, at as int),
        decreases arguments.len() - at,
    {
        copy.push(arguments[at]);
        at += 1;
    }
    copy
}

impl Event {
    /// A copy of the event.
    pub fn duplicate(&self) -> (copy: Event)
        ensures
            copy@ == self@,
    {
        match self {
            Event::CallsType {
                on,
                with,
                timing,
                called_with_new,
                reflects_dependency,
                position,
            } => Event::CallsType {
                on: *on,
                with: copy_arguments(with),
                timing: *timing,
                called_with_new: *called_with_new,
                reflects_dependency: *reflects_dependency,
                position: *position,
            },
            Event::SetsVariable(variable, value, position) => Event::SetsVariable(
                *variable,
                *value,
                *position,
            ),
            Event::Setter { on, under, new, position } => Event::Setter {
                on: *on,
                under: *under,
                new: *new,
                position: *position,
            },
            Event::Return { returned, position } => Event::Return {
                returned: *returned,
                position: *position,
            },
        }
    }
}

} // verus!
