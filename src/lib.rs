//! Rewrites statement sequences written in monadic notation into explicit
//! chains of `bind` calls.
//!
//! - [`syntax`]: the statement and expression tree.
//! - [`report`]: finding bind markers, and diagnostics for misplaced ones.
//! - [`rewrite`]: the rewrite itself, stated as spec functions and carried
//!   out by the executable functions that match them.
//! - [`laws`]: what holds of the rewrite as a whole.
//! - [`monad`]: the `pure` / `map` / `ap` / `bind` interface that rewritten
//!   code calls, for `Option` and `Result`.

pub mod laws;
pub mod monad;
pub mod report;
pub mod rewrite;
pub mod syntax;
