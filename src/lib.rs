//! Generation of C wrapper functions for trace providers.
//!
//! A schema of providers, event classes, instances and typed fields becomes
//! a header of wrapper declarations, an implementation whose wrappers forward
//! to the `tracepoint` macro, and an allowlist of the same wrapper names on a
//! bindgen builder. All three are built from one naming rule and one field
//! rendering, and their contracts pin every generated byte.
pub mod allowlist;
pub mod args;
pub mod ctf;
pub mod interface;
pub mod naming;
pub mod schema;
