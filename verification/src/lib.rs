//! A compile-time instrumentation engine: given an annotation on a function,
//! a method, an implementation block or a module, it rewrites the annotated
//! code so that every call prints an entry trace line with its arguments,
//! runs the original body, prints an exit trace line with the result, and
//! optionally pauses for one line of input at each boundary. Output is
//! indented by call depth, tracked by a scope-local counter.

pub mod args;
pub mod ast;
pub mod diag;
pub mod expand;
pub mod filter;
pub mod options;
pub mod runtime;
pub mod synth;
