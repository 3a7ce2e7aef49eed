//! Lazy, once-only indirect dispatch.
//!
//! A transformation engine rewrites a function declaration so that, on first
//! call, the rewritten function resolves its implementation through a
//! user-supplied resolver expression, caches the resolved function pointer in
//! a process-wide once-initialized slot, and thereafter dispatches directly
//! through that cached pointer. The engine works on a plain model of the
//! declaration (attribute arguments, parameter list, return type) and emits
//! the replacement declaration as text. A runtime module models the behaviour
//! of the emitted code: a single-assignment slot that runs the resolver at
//! most once and forwards every call to the frozen result.

pub mod config;
pub mod engine;
pub mod model;
pub mod runtime;
pub mod sig;
pub mod synth;
