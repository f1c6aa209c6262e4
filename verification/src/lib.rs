//! Typed call surface over a dynamically loaded native function table.
//!
//! A host supplies a symbol resolver (name to address) and a dispatcher for
//! the raw call boundary; this crate resolves each operation of an extension
//! into a function table, binds the table to the handle it was resolved
//! against, and exposes typed methods with a uniform success / degraded /
//! error convention and a count-then-fill retrieval protocol for
//! variable-length outputs.

pub mod adapter;
pub mod dispatch;
pub mod extensions;
pub mod fetch;
pub mod loader;
pub mod vk;
