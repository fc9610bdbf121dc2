//! Function-call resolution and type-argument inference for a TypeScript-like
//! language, together with the configuration and the function syntax that
//! feed it.
//!
//! Given a callee, its arguments and a call site, [`calling::call_type`]
//! finds the returned type, the type arguments, the diagnostics and the
//! events of the call. What it does is stated by a mathematical model
//! ([`model`]) over the views of the type store and of the environment's
//! facts; [`laws`] and [`growth`] prove what holds of every call.

pub mod bindings;
pub mod calling;
pub mod constant_functions;
pub mod context;
pub mod diagnostics;
pub mod events;
pub mod functions;
pub mod growth;
pub mod laws;
pub mod model;
pub mod resolver;
pub mod results;
pub mod span;
pub mod substitute;
pub mod subtyping;
pub mod syntax;
pub mod text;
pub mod tsconfig;
pub mod types;
