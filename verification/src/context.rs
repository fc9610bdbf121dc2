//! The environment of a call: the facts observed so far and the way calls are
//! checked.

use crate::events::{event_views, Event, EventView, RootReference};
use crate::types::{ClosureId, FunctionId, TypeId, VariableId};
use vstd::prelude::*;

verus! {

/// What has been observed in a scope. Each list is in the order of the
/// observations; of two entries for the same thing the later one holds.
pub struct Facts {
    pub events: Vec<Event>,
    pub variable_current_value: Vec<(VariableId, TypeId)>,
    /// `(object, key, value)` of each property assignment.
    pub current_properties: Vec<(TypeId, TypeId, TypeId)>,
    /// The value of each captured reference in each closure instantiation.
    pub closure_current_values: Vec<(ClosureId, RootReference, TypeId)>,
}

pub struct FactsView {
    pub events: Seq<EventView>,
    pub variable_current_value: Seq<(VariableId, TypeId)>,
    pub current_properties: Seq<(TypeId, TypeId, TypeId)>,
    pub closure_current_values: Seq<(ClosureId, RootReference, TypeId)>,
}

impl View for Facts {
    type V = FactsView;

    open spec fn view(&self) -> FactsView {
        FactsView {
            events: event_views(self.events@),
            variable_current_value: self.variable_current_value@,
            current_properties: self.current_properties@,
            closure_current_values: self.closure_current_values@,
        }
    }
}

impl Facts {
    /// Facts without observations.
    pub fn new() -> (facts: Facts)
        ensures
            facts@.events.len() == 0,
            facts@.variable_current_value.len() == 0,
            facts@.current_properties.len() == 0,
            facts@.closure_current_values.len() == 0,
    {
        Facts {
            events: Vec::new(),
            variable_current_value: Vec::new(),
            current_properties: Vec::new(),
            closure_current_values: Vec::new(),
        }
    }

    /// Appends an event.
    pub fn push_event(&mut self, event: Event)
        ensures
            final(self)@ == (FactsView { events: old(self)@.events.push(event@), ..old(self)@ }),
    {
        let ghost before = event_views(self.events@);
        self.events.push(event);
        assert(event_views(self.events@) =~= before.push(event@));
    }
}

/// A scope: its facts and the value that `this` has in it.
pub struct Environment {
    pub facts: Facts,
    pub value_of_this: Option<TypeId>,
}

/// How calls are checked. With `check_parameters` the arguments are checked
/// against the parameters; without it they are trusted and only seeded.
/// `stack` holds the functions whose effects are being replayed, outermost
/// first.
pub struct CallCheckingBehavior {
    pub check_parameters: bool,
    pub stack: Vec<FunctionId>,
}

pub struct BehaviorView {
    pub check_parameters: bool,
    pub stack: Seq<FunctionId>,
}

impl View for CallCheckingBehavior {
    type V = BehaviorView;

    open spec fn view(&self) -> BehaviorView {
        BehaviorView { check_parameters: self.check_parameters, stack: self.stack@ }
    }
}

impl CallCheckingBehavior {
    /// The behavior at a call site: arguments are checked and no function is
    /// being replayed.
    pub fn check_things() -> (behavior: CallCheckingBehavior)
        ensures
            behavior@ == (BehaviorView { check_parameters: true, stack: Seq::empty() }),
    {
        let behavior = CallCheckingBehavior { check_parameters: true, stack: Vec::new() };
        behavior
    }

    /// The behavior inside the replay of `function`: arguments are trusted and
    /// `function` is on the stack.
    pub fn enter(&self, function: FunctionId) -> (inner: CallCheckingBehavior)
        ensures
            inner@ == (BehaviorView {
                check_parameters: false,
                stack: self@.stack.push(function),
            }),
    {
        let mut stack: Vec<FunctionId> = Vec::new();
        let mut at: usize = 0;
        while at < self.stack.len()
            invariant
                at <= self.stack.len(),
                stack@ == self.stack@.subrange(0, at as int),
            decreases self.stack.len() - at,
        {
            stack.push(self.stack[at]);
            at += 1;
        }
        stack.push(function);
        assert(stack@ =~= self.stack@.push(function));
        CallCheckingBehavior { check_parameters: false, stack }
    }

    /// Whether the effects of `function` are being replayed already.
    pub fn in_recursive_cycle(&self, function: FunctionId) -> (found: bool)
        ensures
            found == self@.stack.contains(function),
    {
        let mut at: usize = 0;
        while at < self.stack.len()
            invariant
                at <= self.stack.len(),
                forall|i: int| 0 <= i < at ==> self.stack@[i] != function,
            decreases self.stack.len() - at,
        {
            if self.stack[at] == function {
                return true;
            }
            at += 1;
        }
        false
    }
}

} // verus!
