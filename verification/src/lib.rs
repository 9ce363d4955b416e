//! Validation and schema derivation for Substrait-style relational plans.
//!
//! A plan arrives as a tree of plain data records with optional fields, the
//! shape a wire decoder produces. This crate checks the invariants the wire
//! format cannot express (a version must be present, extension anchors must be
//! unique, a plan needs at least one relation) and derives the output schema
//! of every relational operator in the tree.

pub mod proto;
pub mod relation;
pub mod validate;
pub mod version;
