//! The unvalidated plan tree.
//!
//! These records mirror the shape a wire decoder hands over: every field that
//! the wire format treats as optional is an `Option`, strings default to
//! empty, and nothing here is checked. The `validate` module turns these
//! records into types whose invariants hold by construction.

use vstd::prelude::*;

verus! {

/// An unvalidated version record.
#[derive(Clone, Debug, PartialEq, Default)]
pub struct Version {
    /// Major version number; zero when unset.
    pub major_number: u32,
    /// Minor version number; zero when unset.
    pub minor_number: u32,
    /// Patch version number; zero when unset.
    pub patch_number: u32,
    /// Git commit hash of the producer; empty when unset.
    pub git_hash: String,
    /// Name of the producer; empty when unset.
    pub producer: String,
}

/// An unvalidated simple-extension declaration: a URI with its plan-scoped
/// anchor.
#[derive(Clone, Debug, PartialEq, Default)]
pub struct SimpleExtensionUri {
    /// The anchor other parts of the plan use to refer to this extension.
    pub extension_uri_anchor: u32,
    /// The location of the extension definition.
    pub uri: String,
}

/// An unvalidated plan.
#[derive(Debug, PartialEq, Default)]
pub struct Plan {
    /// The version of the producer, required by validation.
    pub version: Option<Version>,
    /// The declared extension sources, in declaration order.
    pub extension_uris: Vec<SimpleExtensionUri>,
    /// The top-level relations, in order.
    pub relations: Vec<PlanRel>,
}

/// An unvalidated top-level plan entry.
#[derive(Debug, PartialEq)]
pub struct PlanRel {
    /// Either a bare relation or a named root relation; absence is invalid.
    pub rel_type: Option<PlanRelType>,
}

/// The two kinds of top-level plan entries.
#[derive(Debug, PartialEq)]
pub enum PlanRelType {
    /// A bare relation.
    Rel(Rel),
    /// A relation bound to externally visible output field names.
    Root(RelRoot),
}

/// An unvalidated root relation: a relation plus the names of its output
/// fields, depth-first over the derived schema.
#[derive(Debug, PartialEq)]
pub struct RelRoot {
    /// The relation producing the output rows.
    pub input: Option<Rel>,
    /// Names for the output fields, depth-first.
    pub names: Vec<String>,
}

/// An unvalidated relational-operator node.
#[derive(Debug, PartialEq)]
pub struct Rel {
    /// The concrete operator; absence is invalid.
    pub rel_type: Option<RelType>,
}

/// The closed set of relational operators.
#[derive(Debug, PartialEq)]
pub enum RelType {
    /// Produces rows of a declared base schema.
    Read(Box<ReadRel>),
    /// Keeps the rows of its input that satisfy a predicate.
    Filter(Box<FilterRel>),
    /// Limits its input to a row range.
    Fetch(Box<FetchRel>),
    /// Groups its input and computes measures.
    Aggregate(Box<AggregateRel>),
    /// Reorders the rows of its input.
    Sort(Box<SortRel>),
    /// Combines the rows of two inputs.
    Join(Box<JoinRel>),
    /// Computes expressions over its input.
    Project(Box<ProjectRel>),
}

/// Metadata common to every relational operator.
#[derive(Clone, Debug, PartialEq)]
pub struct RelCommon {
    /// How the operator's internal field list maps to its visible output.
    pub emit_kind: Option<EmitKind>,
}

/// The emit specification of an operator.
#[derive(Clone, Debug, PartialEq)]
pub enum EmitKind {
    /// The internal field list passes through unchanged.
    Direct,
    /// The visible output selects, reorders or duplicates internal fields
    /// by position. Positions index the operator's internal field list at
    /// its top level, zero-based; a nested field travels with its parent
    /// field and is not separately addressable.
    Emit(Vec<i32>),
}

/// A read operator.
#[derive(Debug, PartialEq)]
pub struct ReadRel {
    /// Common metadata, required.
    pub common: Option<RelCommon>,
    /// The schema of the rows this read produces, required.
    pub base_schema: Option<NamedStruct>,
}

/// A filter operator.
#[derive(Debug, PartialEq)]
pub struct FilterRel {
    /// Common metadata, required.
    pub common: Option<RelCommon>,
    /// The single input, required.
    pub input: Option<Rel>,
}

/// A fetch operator.
#[derive(Debug, PartialEq)]
pub struct FetchRel {
    /// Common metadata, required.
    pub common: Option<RelCommon>,
    /// The single input, required.
    pub input: Option<Rel>,
}

/// A sort operator.
#[derive(Debug, PartialEq)]
pub struct SortRel {
    /// Common metadata, required.
    pub common: Option<RelCommon>,
    /// The single input, required.
    pub input: Option<Rel>,
}

/// An aggregate operator. Its output is the grouping-key fields followed by
/// the measure-result fields.
#[derive(Debug, PartialEq)]
pub struct AggregateRel {
    /// Common metadata, required.
    pub common: Option<RelCommon>,
    /// The single input, required.
    pub input: Option<Rel>,
    /// Positions of the grouping-key fields in the input schema.
    pub grouping_fields: Vec<i32>,
    /// The computed measures, in order.
    pub measures: Vec<Measure>,
}

/// One measure of an aggregate operator.
#[derive(Debug, PartialEq)]
pub struct Measure {
    /// The type of the measure result, required.
    pub output_type: Option<Type>,
}

/// A join operator.
#[derive(Debug, PartialEq)]
pub struct JoinRel {
    /// Common metadata, required.
    pub common: Option<RelCommon>,
    /// The left input, required.
    pub left: Option<Rel>,
    /// The right input, required.
    pub right: Option<Rel>,
}

/// A project operator: its internal field list is the input schema followed
/// by one field per expression.
#[derive(Debug, PartialEq)]
pub struct ProjectRel {
    /// Common metadata, required.
    pub common: Option<RelCommon>,
    /// The single input, required.
    pub input: Option<Rel>,
    /// The projected expressions, in order.
    pub expressions: Vec<Expression>,
}

/// A projected expression, as far as schema derivation needs it.
#[derive(Debug, PartialEq)]
pub enum Expression {
    /// A reference to a field of the input schema, by position.
    FieldRef(i32),
    /// A literal value.
    Literal(Literal),
}

/// A literal value.
#[derive(Debug, PartialEq)]
pub enum Literal {
    /// A boolean literal.
    Bool(bool),
    /// An integer literal.
    Int(i64),
    /// A text literal.
    Text(String),
    /// A date literal, as days since the epoch.
    Date(i32),
}

/// A schema: an ordered list of named, typed fields.
#[derive(Debug, PartialEq)]
pub struct NamedStruct {
    /// The fields, in positional order.
    pub fields: Vec<Field>,
}

/// One field of a schema.
#[derive(Debug, PartialEq)]
pub struct Field {
    /// The field name.
    pub name: String,
    /// The field type.
    pub ty: Type,
}

/// A field type.
#[derive(Debug, PartialEq)]
pub enum Type {
    /// A boolean.
    Bool,
    /// An integer.
    Int,
    /// A text string.
    Text,
    /// A fixed-point decimal.
    Decimal,
    /// A calendar date.
    Date,
    /// A nested structure with its own named fields.
    Nested(NamedStruct),
}

} // verus!
