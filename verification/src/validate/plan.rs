//! Validation of [`proto::Plan`].

use crate::proto;
use crate::validate::plan_relation::{
    plan_rel_valid, raw_of_plan_relation, validated_matches, PlanRelation, PlanRelationError,
};
use crate::validate::simple_extension_uri::{
    parse_url_spec, SimpleExtensionURI, SimpleExtensionURIError,
};
use crate::validate::version::{validate_version_v, Version, VersionError};
use crate::validate::{Context, Validate};
use crate::version::{caret_matches, supported, supported_version, SemVer};
use vstd::prelude::*;

verus! {

/// A validated [`proto::Plan`]: a supported version, the declared extension
/// sources with plan-wide unique anchors, and at least one validated
/// relation.
#[derive(Debug, PartialEq)]
pub struct Plan {
    version: Version,
    simple_extension_uris: Vec<SimpleExtensionURI>,
    plan_relations: Vec<PlanRelation>,
}

impl Plan {
    /// The validated version.
    pub closed spec fn version_spec(&self) -> Version {
        self.version
    }

    /// The validated extension sources, in declaration order.
    pub closed spec fn uris_spec(&self) -> Vec<SimpleExtensionURI> {
        self.simple_extension_uris
    }

    /// The validated plan relations, in order.
    pub closed spec fn relations_spec(&self) -> Vec<PlanRelation> {
        self.plan_relations
    }

    /// Whether this validated plan is internally consistent: its version
    /// is, its version is supported, it holds at least one relation, and
    /// every relation is internally consistent.
    pub open spec fn wf(&self) -> bool {
        &&& self.version_spec().wf()
        &&& caret_matches(supported_version(), self.version_spec()@.version)
        &&& self.relations_spec()@.len() > 0
        &&& forall|i: int|
            0 <= i < self.relations_spec()@.len() ==> (#[trigger] self.relations_spec()@[i]).wf()
    }

    /// The validated version.
    pub fn version(&self) -> (v: &Version)
        ensures
            *v == self.version_spec(),
    {
        &self.version
    }

    /// The validated extension sources, in declaration order.
    pub fn simple_extension_uris(&self) -> (u: &Vec<SimpleExtensionURI>)
        ensures
            *u == self.uris_spec(),
    {
        &self.simple_extension_uris
    }

    /// The validated plan relations, in order.
    pub fn plan_relations(&self) -> (p: &Vec<PlanRelation>)
        ensures
            *p == self.relations_spec(),
    {
        &self.plan_relations
    }

    /// The raw plan this validated plan converts back to: the version
    /// re-encoded, each extension source as its anchor with the normalized
    /// URI string, and each relation's retained tree.
    #[verifier::loop_isolation(false)]
    pub fn into_raw(self) -> (r: proto::Plan)
        requires
            self.version_spec().wf(),
        ensures
            r.version matches Some(rv) && rv@ == crate::validate::version::version_to_raw_v(
                self.version_spec()@,
            ),
            r.extension_uris@.len() == self.uris_spec()@.len(),
            forall|i: int|
                0 <= i < self.uris_spec()@.len() ==> {
                    &&& (#[trigger] r.extension_uris@[i]).extension_uri_anchor
                        == self.uris_spec()@[i]@.anchor
                    &&& r.extension_uris@[i].uri@ == self.uris_spec()@[i]@.uri
                },
            r.relations@.len() == self.relations_spec()@.len(),
            forall|i: int|
                0 <= i < self.relations_spec()@.len() ==> raw_of_plan_relation(
                    self.relations_spec()@[i],
                    #[trigger] r.relations@[i],
                ),
    {
        let Plan { version, simple_extension_uris, plan_relations } = self;
        let ghost uris0 = simple_extension_uris@;
        let mut simple_extension_uris = simple_extension_uris;
        let mut extension_uris: Vec<proto::SimpleExtensionUri> = Vec::new();
        let n = simple_extension_uris.len();
        let mut i: usize = 0;
        while i < n
            invariant
                i <= n,
                n == uris0.len(),
                simple_extension_uris@ == uris0.skip(i as int),
                extension_uris@.len() == i,
                forall|j: int|
                    0 <= j < i ==> {
                        &&& (#[trigger] extension_uris@[j]).extension_uri_anchor
                            == uris0[j]@.anchor
                        &&& extension_uris@[j].uri@ == uris0[j]@.uri
                    },
            decreases n - i,
        {
            let u = simple_extension_uris.remove(0);
            proof {
                assert(u == uris0[i as int]);
                assert(simple_extension_uris@ =~= uris0.skip(i as int + 1));
            }
            extension_uris.push(u.into_raw());
            i = i + 1;
        }
        let ghost rels0 = plan_relations@;
        let mut plan_relations = plan_relations;
        let mut relations: Vec<proto::PlanRel> = Vec::new();
        let m = plan_relations.len();
        let mut j: usize = 0;
        while j < m
            invariant
                j <= m,
                m == rels0.len(),
                plan_relations@ == rels0.skip(j as int),
                relations@.len() == j,
                forall|k: int|
                    0 <= k < j ==> raw_of_plan_relation(rels0[k], #[trigger] relations@[k]),
            decreases m - j,
        {
            let pr = plan_relations.remove(0);
            proof {
                assert(pr == rels0[j as int]);
                assert(plan_relations@ =~= rels0.skip(j as int + 1));
            }
            relations.push(pr.into_raw());
            j = j + 1;
        }
        proto::Plan { version: Some(version.into_raw()), extension_uris, relations }
    }
}

/// Validation errors for [`proto::Plan`].
#[derive(Debug, PartialEq)]
pub enum PlanError {
    /// The version of this plan is invalid.
    Version(VersionError),
    /// The version of this plan lies outside the supported range; carries
    /// the plan's version and the lower bound of the supported caret range.
    SubstraitVersion(SemVer, SemVer),
    /// A simple extension failed to register.
    SimpleExtension(SimpleExtensionURIError),
    /// There must be at least one relation.
    MissingRelations,
    /// An issue with a plan relation.
    PlanRelation(PlanRelationError),
}

/// The registry a context holds after the first `n` extension sources of a
/// declaration list have been registered in order, each anchor bound to its
/// parsed URI.
pub open spec fn registry_after(
    reg: Map<u32, Seq<char>>,
    uris: Seq<proto::SimpleExtensionUri>,
    n: int,
) -> Map<u32, Seq<char>>
    decreases n,
{
    if n <= 0 {
        reg
    } else {
        registry_after(reg, uris, n - 1).insert(
            uris[n - 1].extension_uri_anchor,
            parse_url_spec(uris[n - 1].uri@)->Some_0,
        )
    }
}

/// Whether every declared extension source parses as an absolute URI.
pub open spec fn uris_parse(uris: Seq<proto::SimpleExtensionUri>) -> bool {
    forall|i: int| 0 <= i < uris.len() ==> parse_url_spec((#[trigger] uris[i]).uri@) is Some
}

/// Whether each of the first `n` declared anchors is new when its turn
/// comes: not in the starting registry, and not declared earlier in the
/// list.
pub open spec fn anchors_fresh(
    reg: Map<u32, Seq<char>>,
    uris: Seq<proto::SimpleExtensionUri>,
    n: int,
) -> bool {
    forall|i: int|
        0 <= i < n ==> !registry_after(reg, uris, i).contains_key(
            (#[trigger] uris[i]).extension_uri_anchor,
        )
}

/// Whether every entry of a relation list validates.
pub open spec fn relations_valid(rels: Seq<proto::PlanRel>) -> bool {
    forall|i: int| 0 <= i < rels.len() ==> plan_rel_valid(#[trigger] rels[i])
}

/// Whether a raw plan holds a version that validates.
pub open spec fn version_ok(p: proto::Plan) -> bool {
    p.version is Some && validate_version_v(p.version->Some_0@) is Ok
}

/// Whether a raw plan's validated version is caret-compatible with the
/// supported Substrait version.
pub open spec fn version_compat(p: proto::Plan) -> bool {
    caret_matches(supported_version(), validate_version_v(p.version->Some_0@)->Ok_0.version)
}

impl<C: Context> Validate<C> for proto::Plan {
    type Validated = Plan;

    type Error = PlanError;

    /// Validates a plan, in this fixed order: the version must be present,
    /// valid and caret-compatible with the supported Substrait version;
    /// every declared extension source must parse and register in the
    /// shared context, in declaration order; every plan relation must
    /// validate, in order; and the relation list must not be empty.
    /// Validation stops at the first failure; anchors registered before a
    /// later failure stay registered.
    #[verifier::loop_isolation(false)]
    fn validate(self, ctx: &mut C) -> (r: Result<Self::Validated, Self::Error>)
        ensures
            self.version is None ==> r == Err::<Plan, PlanError>(
                PlanError::Version(VersionError::Missing),
            ),
            self.version matches Some(v) ==> (validate_version_v(v@) matches Err(e) ==> (r
                matches Err(PlanError::Version(ve)) && ve@ == e)),
            version_ok(self) && !version_compat(self) ==> r == Err::<Plan, PlanError>(
                PlanError::SubstraitVersion(
                    validate_version_v(self.version->Some_0@)->Ok_0.version,
                    supported_version(),
                ),
            ),
            !(version_ok(self) && version_compat(self)) ==> final(ctx).registry() == old(
                ctx,
            ).registry(),
            r matches Err(PlanError::Version(_)) ==> self.version is None || validate_version_v(
                self.version->Some_0@,
            ) is Err,
            r matches Err(PlanError::SubstraitVersion(_, _)) ==> version_ok(self)
                && !version_compat(self),
            r matches Err(PlanError::SimpleExtension(_)) ==> version_ok(self) && version_compat(
                self,
            ) && exists|k: int|
                0 <= k <= self.extension_uris@.len() && final(ctx).registry() == registry_after(
                    old(ctx).registry(),
                    self.extension_uris@,
                    k,
                ),
            version_ok(self) && version_compat(self) && !uris_parse(self.extension_uris@) ==> (r
                matches Err(PlanError::SimpleExtension(_))),
            r == Err::<Plan, PlanError>(PlanError::MissingRelations) ==> version_ok(self)
                && version_compat(self) && self.relations@.len() == 0 && uris_parse(
                self.extension_uris@,
            ) && anchors_fresh(
                old(ctx).registry(),
                self.extension_uris@,
                self.extension_uris@.len() as int,
            ) && final(ctx).registry() == registry_after(
                old(ctx).registry(),
                self.extension_uris@,
                self.extension_uris@.len() as int,
            ),
            r matches Err(PlanError::PlanRelation(_)) ==> version_ok(self) && version_compat(self)
                && !relations_valid(self.relations@) && uris_parse(self.extension_uris@)
                && anchors_fresh(
                old(ctx).registry(),
                self.extension_uris@,
                self.extension_uris@.len() as int,
            ) && final(ctx).registry() == registry_after(
                old(ctx).registry(),
                self.extension_uris@,
                self.extension_uris@.len() as int,
            ),
            version_ok(self) && version_compat(self) && self.extension_uris@.len() == 0 ==> {
                &&& (r is Ok <==> self.relations@.len() > 0 && relations_valid(self.relations@))
                &&& (self.relations@.len() == 0 ==> r == Err::<Plan, PlanError>(
                    PlanError::MissingRelations,
                ))
            },
            r matches Ok(plan) ==> {
                &&& version_ok(self) && version_compat(self)
                &&& plan.wf()
                &&& plan.version_spec()@ == validate_version_v(self.version->Some_0@)->Ok_0
                &&& uris_parse(self.extension_uris@)
                &&& anchors_fresh(
                    old(ctx).registry(),
                    self.extension_uris@,
                    self.extension_uris@.len() as int,
                )
                &&& final(ctx).registry() == registry_after(
                    old(ctx).registry(),
                    self.extension_uris@,
                    self.extension_uris@.len() as int,
                )
                &&& plan.uris_spec()@.len() == self.extension_uris@.len()
                &&& forall|i: int|
                    0 <= i < self.extension_uris@.len() ==> {
                        &&& (#[trigger] plan.uris_spec()@[i])@.anchor
                            == self.extension_uris@[i].extension_uri_anchor
                        &&& plan.uris_spec()@[i]@.uri == parse_url_spec(
                            self.extension_uris@[i].uri@,
                        )->Some_0
                    }
                &&& self.relations@.len() > 0
                &&& relations_valid(self.relations@)
                &&& plan.relations_spec()@.len() == self.relations@.len()
                &&& forall|i: int|
                    0 <= i < self.relations@.len() ==> validated_matches(
                        self.relations@[i].rel_type->Some_0,
                        #[trigger] plan.relations_spec()@[i],
                    )
            },
    {
        let proto::Plan { version, extension_uris, relations } = self;

        // A plan requires a version, and it must be valid.
        let version = match version {
            Some(v) => match v.validate(ctx) {
                Ok(v) => v,
                Err(e) => {
                    return Err(PlanError::Version(e));
                },
            },
            None => {
                return Err(PlanError::Version(VersionError::Missing));
            },
        };

        // The version must be compatible with the supported range.
        if !crate::version::is_supported_version(version.version()) {
            return Err(PlanError::SubstraitVersion(*version.version(), supported()));
        }

        // Register every declared extension source, in declaration order.
        let ghost reg0 = ctx.registry();
        let ghost uris0 = extension_uris@;
        let mut extension_uris = extension_uris;
        let mut simple_extension_uris: Vec<SimpleExtensionURI> = Vec::new();
        let n = extension_uris.len();
        let mut i: usize = 0;
        while i < n
            invariant
                i <= n,
                extension_uris@ == uris0.skip(i as int),
                simple_extension_uris@.len() == i,
                ctx.registry() == registry_after(reg0, uris0, i as int),
                forall|j: int|
                    0 <= j < i ==> parse_url_spec((#[trigger] uris0[j]).uri@) is Some,
                anchors_fresh(reg0, uris0, i as int),
                forall|j: int|
                    0 <= j < i ==> {
                        &&& (#[trigger] simple_extension_uris@[j])@.anchor
                            == uris0[j].extension_uri_anchor
                        &&& simple_extension_uris@[j]@.uri == parse_url_spec(uris0[j].uri@)->Some_0
                    },
            decreases n - i,
        {
            let u = extension_uris.remove(0);
            proof {
                assert(u == uris0[i as int]);
                assert(extension_uris@ =~= uris0.skip(i as int + 1));
            }
            match u.validate(ctx) {
                Ok(v) => {
                    simple_extension_uris.push(v);
                },
                Err(e) => {
                    proof {
                        assert(0 <= i as int <= uris0.len() && ctx.registry() == registry_after(
                            old(ctx).registry(),
                            uris0,
                            i as int,
                        ));
                    }
                    return Err(PlanError::SimpleExtension(e));
                },
            }
            i = i + 1;
        }

        // Validate every plan relation, in order.
        let ghost rels0 = relations@;
        let mut relations = relations;
        let mut plan_relations: Vec<PlanRelation> = Vec::new();
        let m = relations.len();
        let mut j: usize = 0;
        while j < m
            invariant
                j <= m,
                relations@ == rels0.skip(j as int),
                plan_relations@.len() == j,
                ctx.registry() == registry_after(reg0, uris0, uris0.len() as int),
                forall|k: int| 0 <= k < j ==> plan_rel_valid(#[trigger] rels0[k]),
                forall|k: int| 0 <= k < j ==> (#[trigger] plan_relations@[k]).wf(),
                forall|k: int|
                    0 <= k < j ==> validated_matches(
                        rels0[k].rel_type->Some_0,
                        #[trigger] plan_relations@[k],
                    ),
            decreases m - j,
        {
            let pr = relations.remove(0);
            proof {
                assert(pr == rels0[j as int]);
                assert(relations@ =~= rels0.skip(j as int + 1));
            }
            match pr.validate(ctx) {
                Ok(v) => {
                    plan_relations.push(v);
                },
                Err(e) => {
                    return Err(PlanError::PlanRelation(e));
                },
            }
            j = j + 1;
        }

        // A plan must hold at least one relation.
        if plan_relations.len() == 0 {
            return Err(PlanError::MissingRelations);
        }
        Ok(Plan { version, simple_extension_uris, plan_relations })
    }
}

} // verus!
