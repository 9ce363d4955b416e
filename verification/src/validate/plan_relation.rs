//! Validation of [`proto::PlanRel`].

use crate::proto;
use crate::relation::{rel_schema_v, rel_wf};
use crate::validate::relation::{Relation, RelationError};
use crate::validate::root_relation::{name_count_fields, root_valid, RootRelation, RootRelationError};
use crate::validate::{Context, Validate};
use vstd::prelude::*;

verus! {

/// A validated [`proto::PlanRel`].
#[derive(Debug, PartialEq)]
pub enum PlanRelation {
    /// A relation.
    Relation(Relation),
    /// A root relation with names for the output fields.
    RootRelation(RootRelation),
}

/// Whether a validated plan relation is the validated form of a raw plan
/// entry: the matching variant, internally consistent, retaining exactly
/// the entry's tree and, for a root relation, its names.
pub open spec fn validated_matches(rt: proto::PlanRelType, v: PlanRelation) -> bool {
    match rt {
        proto::PlanRelType::Rel(rel) => v matches PlanRelation::Relation(vr) && vr.wf()
            && vr.rel_spec() == rel,
        proto::PlanRelType::Root(root) => v matches PlanRelation::RootRelation(vr) && vr.wf()
            && vr.relation_spec().rel_spec() == root.input->Some_0 && vr.names_spec()
            == root.names,
    }
}

/// Whether a raw plan entry is the conversion back of a validated plan
/// relation: the matching entry kind holding the retained tree and, for a
/// root relation, its names.
pub open spec fn raw_of_plan_relation(v: PlanRelation, r: proto::PlanRel) -> bool {
    &&& r.rel_type is Some
    &&& match v {
        PlanRelation::Relation(vr) => r.rel_type->Some_0 matches proto::PlanRelType::Rel(rel)
            && rel == vr.rel_spec(),
        PlanRelation::RootRelation(vr) => r.rel_type->Some_0 matches proto::PlanRelType::Root(
            root,
        ) && root.input == Some(vr.relation_spec().rel_spec()) && root.names == vr.names_spec(),
    }
}

impl PlanRelation {
    /// Whether this validated plan relation is internally consistent.
    pub open spec fn wf(&self) -> bool {
        match self {
            PlanRelation::Relation(v) => v.wf(),
            PlanRelation::RootRelation(v) => v.wf(),
        }
    }

    /// The raw plan entry this converts back to: the retained tree and, for
    /// a root relation, its names, unchanged.
    pub fn into_raw(self) -> (r: proto::PlanRel)
        ensures
            raw_of_plan_relation(self, r),
    {
        match self {
            PlanRelation::Relation(v) => proto::PlanRel {
                rel_type: Some(proto::PlanRelType::Rel(v.into_raw())),
            },
            PlanRelation::RootRelation(v) => proto::PlanRel {
                rel_type: Some(proto::PlanRelType::Root(v.into_raw())),
            },
        }
    }
}

/// Validation errors for [`proto::PlanRel`].
#[derive(Debug, PartialEq)]
pub enum PlanRelationError {
    /// A plan relation must either be a relation or a root relation.
    Empty,
    /// An error with the relation.
    Relation(RelationError),
    /// The root relation is invalid.
    RootRelation(RootRelationError),
}

/// Whether a raw plan entry validates: it holds one of the two entry kinds,
/// and that entry validates.
pub open spec fn plan_rel_type_valid(rt: proto::PlanRelType) -> bool {
    match rt {
        proto::PlanRelType::Rel(rel) => rel_wf(rel) && rel_schema_v(rel) is Ok,
        proto::PlanRelType::Root(root) => root_valid(root),
    }
}

/// Whether a raw plan entry validates.
pub open spec fn plan_rel_valid(pr: proto::PlanRel) -> bool {
    pr.rel_type is Some && plan_rel_type_valid(pr.rel_type->Some_0)
}

impl<C: Context> Validate<C> for proto::PlanRelType {
    type Validated = PlanRelation;

    type Error = PlanRelationError;

    /// Validates one plan entry of known kind: on success the result is the
    /// validated form of exactly this entry; on failure the inner
    /// validator's error is carried through wrapped in the variant naming
    /// the entry kind. The context is not consulted and is left unchanged.
    fn validate(self, ctx: &mut C) -> (r: Result<Self::Validated, Self::Error>)
        ensures
            *final(ctx) == *old(ctx),
            r is Ok <==> plan_rel_type_valid(self),
            r matches Ok(v) ==> validated_matches(self, v),
            self matches proto::PlanRelType::Rel(rel) ==> {
                &&& (r matches Err(e) ==> e is Relation)
                &&& !rel_wf(rel) ==> r == Err::<PlanRelation, PlanRelationError>(
                    PlanRelationError::Relation(RelationError::Incomplete),
                )
                &&& rel_wf(rel) ==> (rel_schema_v(rel) matches Err(e) ==> (r matches Err(
                    PlanRelationError::Relation(RelationError::Schema(se)),
                ) && se@ == e))
            },
            self matches proto::PlanRelType::Root(root) ==> {
                &&& (r matches Err(e) ==> e is RootRelation)
                &&& root.input is None ==> r == Err::<PlanRelation, PlanRelationError>(
                    PlanRelationError::RootRelation(RootRelationError::MissingInput),
                )
                &&& root.input matches Some(rel) ==> {
                    &&& !rel_wf(rel) ==> r == Err::<PlanRelation, PlanRelationError>(
                        PlanRelationError::RootRelation(
                            RootRelationError::Relation(RelationError::Incomplete),
                        ),
                    )
                    &&& rel_wf(rel) ==> (rel_schema_v(rel) matches Err(e) ==> (r matches Err(
                        PlanRelationError::RootRelation(
                            RootRelationError::Relation(RelationError::Schema(se)),
                        ),
                    ) && se@ == e))
                    &&& rel_wf(rel) && rel_schema_v(rel) is Ok && name_count_fields(
                        rel_schema_v(rel)->Ok_0,
                    ) != root.names@.len() ==> r == Err::<PlanRelation, PlanRelationError>(
                        PlanRelationError::RootRelation(
                            RootRelationError::Names { provided: root.names@.len() as usize },
                        ),
                    )
                }
            },
    {
        match self {
            proto::PlanRelType::Rel(relation) => match relation.validate(ctx) {
                Ok(v) => Ok(PlanRelation::Relation(v)),
                Err(e) => Err(PlanRelationError::Relation(e)),
            },
            proto::PlanRelType::Root(root_relation) => match root_relation.validate(ctx) {
                Ok(v) => Ok(PlanRelation::RootRelation(v)),
                Err(e) => Err(PlanRelationError::RootRelation(e)),
            },
        }
    }
}

impl<C: Context> Validate<C> for proto::PlanRel {
    type Validated = PlanRelation;

    type Error = PlanRelationError;

    /// Validates one top-level plan entry: it must hold either a bare
    /// relation or a root relation, and that entry must validate. On
    /// success the result is the validated form of exactly this entry's
    /// content. The context is not consulted and is left unchanged.
    fn validate(self, ctx: &mut C) -> (r: Result<Self::Validated, Self::Error>)
        ensures
            *final(ctx) == *old(ctx),
            r is Ok <==> plan_rel_valid(self),
            self.rel_type is None ==> r == Err::<PlanRelation, PlanRelationError>(
                PlanRelationError::Empty,
            ),
            self.rel_type is Some ==> (r matches Err(e) ==> !(e is Empty)),
            r matches Ok(v) ==> validated_matches(self.rel_type->Some_0, v),
    {
        match self.rel_type {
            Some(rel_type) => rel_type.validate(ctx),
            None => Err(PlanRelationError::Empty),
        }
    }
}

} // verus!
