//! Compiles a declarative list of block entries into the rule syntax of a
//! content blocker.
//!
//! An entry names a domain or a URL path. A compile request names a target
//! dialect, a set of rule sets to emit, and key/value pairs for a header of
//! comment lines. The result is one text: header, general rules, Google
//! search-result rules, in that order.
//!
//! - [`entry`]: entries and entry lists.
//! - [`target`]: the dialects and the rule sets.
//! - [`header`]: header attributes and their comment lines.
//! - [`rules`]: the rule templates and the blocks built from them.
//! - [`compile`]: flag validation and assembly.
//! - [`laws`]: properties of the above, proved for all inputs.

pub mod compile;
pub mod entry;
pub mod header;
pub mod laws;
pub mod rules;
pub mod target;
