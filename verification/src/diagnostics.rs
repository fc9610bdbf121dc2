//! The messages for the user, and what is kept about a whole run.

use crate::results::{CallErrorView, FunctionCallingError};
use crate::types::{FunctionId, TypeStore};
use source_map::SpanWithSource;
use vstd::prelude::*;

verus! {

#[derive(Clone, Copy, PartialEq, Eq, Debug, Structural)]
pub enum DiagnosticKind {
    Error,
    Warning,
    Info,
}

/// One message for the user.
#[derive(Debug)]
pub enum Diagnostic {
    /// A text at a position.
    Position { reason: String, position: SpanWithSource, kind: DiagnosticKind },
    /// The error of a call.
    FunctionCallingError(FunctionCallingError),
}

pub enum DiagnosticView {
    Position { reason: Seq<char>, position: SpanWithSource, kind: DiagnosticKind },
    FunctionCallingError(CallErrorView),
}

impl View for Diagnostic {
    type V = DiagnosticView;

    open spec fn view(&self) -> DiagnosticView {
        match self {
            Diagnostic::Position { reason, position, kind } => DiagnosticView::Position {
                reason: reason@,
                position: *position,
                kind: *kind,
            },
            Diagnostic::FunctionCallingError(error) => DiagnosticView::FunctionCallingError(
                error@,
            ),
        }
    }
}

/// The messages of a run, in the order in which they were added.
pub struct DiagnosticsContainer {
    pub diagnostics: Vec<Diagnostic>,
}

impl View for DiagnosticsContainer {
    type V = Seq<DiagnosticView>;

    open spec fn view(&self) -> Seq<DiagnosticView> {
        Seq::new(self.diagnostics@.len(), |i: int| self.diagnostics@[i]@)
    }
}

impl DiagnosticsContainer {
    /// A container without messages.
    pub fn new() -> (container: DiagnosticsContainer)
        ensures
            container@ == Seq::<DiagnosticView>::empty(),
    {
        let container = DiagnosticsContainer { diagnostics: Vec::new() };
        container
    }

    /// Appends a message that is no error.
    pub fn add_info(&mut self, diagnostic: Diagnostic)
        ensures
            final(self)@ == old(self)@.push(diagnostic@),
    {
        self.diagnostics.push(diagnostic);
    }

    /// Appends the error of a call.
    pub fn add_error(&mut self, error: FunctionCallingError)
        ensures
            final(self)@ == old(self)@.push(DiagnosticView::FunctionCallingError(error@)),
    {
        self.diagnostics.push(Diagnostic::FunctionCallingError(error));
    }

    /// Whether an error was added.
    pub fn has_error(&self) -> (found: bool)
        ensures
            found == exists|i: int|
                0 <= i < self@.len() && is_error(#[trigger] self@[i]),
    {
        let mut at: usize = 0;
        while at < self.diagnostics.len()
            invariant
                at <= self.diagnostics.len(),
                forall|i: int| 0 <= i < at ==> !is_error(#[trigger] self@[i]),
            decreases self.diagnostics.len() - at,
        {
            let error = match &self.diagnostics[at] {
                Diagnostic::FunctionCallingError(_) => true,
                Diagnostic::Position { kind, .. } => *kind == DiagnosticKind::Error,
            };
            if error {
                assert(is_error(self@[at as int]));
                return true;
            }
            at += 1;
        }
        false
    }
}

/// Whether a message is an error.
pub open spec fn is_error(diagnostic: DiagnosticView) -> bool {
    match diagnostic {
        DiagnosticView::FunctionCallingError(_) => true,
        DiagnosticView::Position { kind, .. } => kind == DiagnosticKind::Error,
    }
}

/// `functions` with `function` in it once: a set kept as a list.
pub open spec fn with_function(functions: Seq<FunctionId>, function: FunctionId) -> Seq<
    FunctionId,
> {
    if functions.contains(function) {
        functions
    } else {
        functions.push(function)
    }
}

/// What a run found out about the program beside its types.
pub struct TypeMappings {
    /// The functions that some call ran. No function occurs twice.
    pub called_functions: Vec<FunctionId>,
}

impl TypeMappings {
    /// Notes that a call ran `function`.
    pub fn note_called(&mut self, function: FunctionId)
        ensures
            final(self).called_functions@ == with_function(
                old(self).called_functions@,
                function,
            ),
            old(self).called_functions@.no_duplicates() ==> final(self).called_functions@.no_duplicates(),
    {
        let mut at: usize = 0;
        while at < self.called_functions.len()
            invariant
                at <= self.called_functions.len(),
                *self == *old(self),
                forall|i: int| 0 <= i < at ==> self.called_functions@[i] != function,
            decreases self.called_functions.len() - at,
        {
            if self.called_functions[at] == function {
                return ;
            }
            at += 1;
        }
        self.called_functions.push(function);
    }
}

/// The data of a run over a program.
pub struct CheckingData {
    pub types: TypeStore,
    pub diagnostics_container: DiagnosticsContainer,
    pub type_mappings: TypeMappings,
}

impl CheckingData {
    /// The data of a run that has checked nothing yet.
    pub fn new() -> (data: CheckingData)
        ensures
            data.types.types_view() == crate::types::reserved_types(),
            data.types.functions_view().len() == 0,
            data.types.closures@.len() == 0,
            data.diagnostics_container@.len() == 0,
            data.type_mappings.called_functions@.len() == 0,
    {
        CheckingData {
            types: TypeStore::new(),
            diagnostics_container: DiagnosticsContainer::new(),
            type_mappings: TypeMappings { called_functions: Vec::new() },
        }
    }
}

} // verus!
