//! Validation of [`proto::Rel`].

use crate::proto;
use crate::relation::{
    measures_wf, rel_schema_v, rel_wf, schema_v, FieldV, Relation as RelationSchema, SchemaErrV,
    SchemaError,
};
use crate::validate::{Context, Validate};
use vstd::prelude::*;

verus! {

/// A validated [`proto::Rel`]: a well-formed operator tree retained
/// together with the schema it derives.
#[derive(Debug, PartialEq)]
pub struct Relation {
    rel: proto::Rel,
    schema: proto::NamedStruct,
}

impl Relation {
    /// The retained operator tree.
    pub closed spec fn rel_spec(&self) -> proto::Rel {
        self.rel
    }

    /// The derived schema, as a mathematical value.
    pub closed spec fn schema_spec(&self) -> Seq<FieldV> {
        schema_v(self.schema)
    }

    /// Whether this validated relation is internally consistent: the tree
    /// is well-formed and derives exactly the retained schema.
    pub closed spec fn wf(&self) -> bool {
        rel_wf(self.rel) && rel_schema_v(self.rel) == Ok::<Seq<FieldV>, SchemaErrV>(
            schema_v(self.schema),
        )
    }

    /// The retained operator tree.
    pub fn rel(&self) -> (r: &proto::Rel)
        ensures
            *r == self.rel_spec(),
    {
        &self.rel
    }

    /// The schema the tree derives.
    pub fn schema(&self) -> (s: &proto::NamedStruct)
        ensures
            s@ == self.schema_spec(),
    {
        &self.schema
    }

    /// The raw relation this validated relation converts back to: the
    /// retained tree, unchanged.
    pub fn into_raw(self) -> (r: proto::Rel)
        ensures
            r == self.rel_spec(),
    {
        self.rel
    }
}

/// Validation errors for [`proto::Rel`].
#[derive(Debug, PartialEq)]
pub enum RelationError {
    /// A required field of the operator tree is absent.
    Incomplete,
    /// The tree is complete but schema derivation found an inconsistency.
    Schema(SchemaError),
}

/// The mathematical value of a [`RelationError`].
pub enum RelationErrV {
    /// A required field of the operator tree is absent.
    Incomplete,
    /// Schema derivation found an inconsistency.
    Schema(SchemaErrV),
}

impl View for RelationError {
    type V = RelationErrV;

    open spec fn view(&self) -> RelationErrV {
        match self {
            RelationError::Incomplete => RelationErrV::Incomplete,
            RelationError::Schema(e) => RelationErrV::Schema(e@),
        }
    }
}

/// Whether every measure of a list declares its result type.
fn check_measures(measures: &Vec<proto::Measure>) -> (b: bool)
    ensures
        b == measures_wf(measures@),
{
    let n = measures.len();
    for i in 0..n
        invariant
            n == measures.len(),
            forall|j: int| 0 <= j < i ==> (#[trigger] measures@[j]).output_type is Some,
    {
        if measures[i].output_type.is_none() {
            return false;
        }
    }
    true
}

/// Whether a relation tree holds every required field.
#[verifier::loop_isolation(false)]
pub fn check_rel_wf(r: &proto::Rel) -> (b: bool)
    ensures
        b == rel_wf(*r),
    decreases *r,
{
    match &r.rel_type {
        None => false,
        Some(rt) => match rt {
            proto::RelType::Read(rr) => rr.common.is_some() && rr.base_schema.is_some(),
            proto::RelType::Filter(fr) => match (&fr.common, &fr.input) {
                (Some(c), Some(input)) => c.emit_kind.is_some() && check_rel_wf(input),
                _ => false,
            },
            proto::RelType::Fetch(fr) => match (&fr.common, &fr.input) {
                (Some(c), Some(input)) => c.emit_kind.is_some() && check_rel_wf(input),
                _ => false,
            },
            proto::RelType::Aggregate(ar) => match (&ar.common, &ar.input) {
                (Some(_), Some(input)) => check_rel_wf(input) && check_measures(&ar.measures),
                _ => false,
            },
            proto::RelType::Sort(sr) => match (&sr.common, &sr.input) {
                (Some(c), Some(input)) => c.emit_kind.is_some() && check_rel_wf(input),
                _ => false,
            },
            proto::RelType::Join(jr) => match (&jr.common, &jr.left, &jr.right) {
                (Some(_), Some(left), Some(right)) => check_rel_wf(left) && check_rel_wf(right),
                _ => false,
            },
            proto::RelType::Project(pr) => match (&pr.common, &pr.input) {
                (Some(c), Some(input)) => c.emit_kind.is_some() && check_rel_wf(input),
                _ => false,
            },
        },
    }
}

impl<C: Context> Validate<C> for proto::Rel {
    type Validated = Relation;

    type Error = RelationError;

    /// Validates an operator tree: every required field must be present and
    /// schema derivation must succeed; the derived schema is retained with
    /// the tree. The context is not consulted and is left unchanged.
    fn validate(self, ctx: &mut C) -> (r: Result<Self::Validated, Self::Error>)
        ensures
            *final(ctx) == *old(ctx),
            r is Ok <==> rel_wf(self) && rel_schema_v(self) is Ok,
            r matches Ok(v) ==> {
                &&& v.wf()
                &&& v.rel_spec() == self
                &&& Ok::<Seq<FieldV>, SchemaErrV>(v.schema_spec()) == rel_schema_v(self)
            },
            !rel_wf(self) ==> r == Err::<Relation, RelationError>(RelationError::Incomplete),
            rel_wf(self) ==> (rel_schema_v(self) matches Err(e) ==> (r matches Err(
                RelationError::Schema(se),
            ) && se@ == e)),
    {
        if !check_rel_wf(&self) {
            return Err(RelationError::Incomplete);
        }
        match RelationSchema::schema(&self) {
            Ok(schema) => Ok(Relation { rel: self, schema }),
            Err(e) => Err(RelationError::Schema(e)),
        }
    }
}

} // verus!
