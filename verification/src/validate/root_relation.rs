//! Validation of [`proto::RelRoot`].

use crate::proto;
use crate::relation::{field_v, fields_v, rel_schema_v, rel_wf, FieldV, TypeV};
use crate::validate::relation::{Relation, RelationErrV, RelationError};
use crate::validate::{Context, Validate};
use vstd::prelude::*;

verus! {

/// How many names a field binds when names are assigned depth-first: one
/// for the field itself, and one for every field nested below it.
pub open spec fn name_count_field(f: FieldV) -> nat
    decreases f,
{
    1 + (match f.ty {
        TypeV::Nested(inner) => name_count_fields(inner),
        _ => 0,
    })
}

/// How many names a field list binds when names are assigned depth-first.
pub open spec fn name_count_fields(fs: Seq<FieldV>) -> nat
    decreases fs,
{
    if fs.len() == 0 {
        0
    } else {
        name_count_field(fs[0]) + name_count_fields(fs.skip(1))
    }
}

/// Counts the names a field list binds, stopping as soon as the count
/// exceeds `cap`: the fields of `fields` from position `from` on bind
/// exactly the returned number of names, or more than `cap` of them.
#[verifier::loop_isolation(false)]
fn count_names_capped(fields: &Vec<proto::Field>, from: usize, cap: usize) -> (r: Option<usize>)
    requires
        from <= fields@.len(),
    ensures
        r matches Some(n) ==> n == name_count_fields(fields_v(fields@.skip(from as int))) && n
            <= cap,
        r is None ==> name_count_fields(fields_v(fields@.skip(from as int))) > cap,
    decreases fields@, (fields@.len() - from as int),
{
    broadcast use crate::relation::lemma_fields_v;

    if from >= fields.len() {
        proof {
            assert(fields@.skip(from as int) =~= Seq::<proto::Field>::empty());
        }
        return Some(0);
    }
    proof {
        assert(fields@.skip(from as int)[0] == fields@[from as int]);
        assert(fields@.skip(from as int).skip(1) =~= fields@.skip(from as int + 1));
    }
    let ghost tail = fields@.skip(from as int);
    let ghost tailv = fields_v(tail);
    proof {
        assert(tailv.len() == tail.len());
        assert(tail.len() > 0);
        assert(name_count_fields(tailv) == name_count_field(tailv[0]) + name_count_fields(
            tailv.skip(1),
        ));
        assert(name_count_field(tailv[0]) >= 1);
    }
    if cap == 0 {
        return None;
    }
    let mut used: usize = 1;
    match &fields[from].ty {
        proto::Type::Nested(inner) => {
            match count_names_capped(&inner.fields, 0, cap - 1) {
                Some(m) => {
                    proof {
                        assert(inner.fields@.skip(0) =~= inner.fields@);
                    }
                    used = 1 + m;
                },
                None => {
                    proof {
                        assert(inner.fields@.skip(0) =~= inner.fields@);
                    }
                    return None;
                },
            }
        },
        _ => {},
    }
    proof {
        assert(tailv[0] == field_v(fields@[from as int]));
        assert(tailv.skip(1) =~= fields_v(fields@.skip(from as int + 1)));
        assert(used == name_count_field(tailv[0]));
    }
    match count_names_capped(fields, from + 1, cap - used) {
        Some(rest) => Some(used + rest),
        None => None,
    }
}

/// A validated [`proto::RelRoot`]: a validated relation whose derived
/// schema binds, depth-first, exactly as many fields as there are declared
/// output names.
#[derive(Debug, PartialEq)]
pub struct RootRelation {
    /// The relation.
    relation: Relation,
    /// The names for the output fields (depth-first).
    schema: Vec<String>,
}

impl RootRelation {
    /// The validated relation.
    pub closed spec fn relation_spec(&self) -> Relation {
        self.relation
    }

    /// The declared output field names.
    pub closed spec fn names_spec(&self) -> Vec<String> {
        self.schema
    }

    /// Whether this validated root relation is internally consistent: its
    /// relation is, and its name list matches the derived schema's
    /// depth-first field count exactly.
    pub open spec fn wf(&self) -> bool {
        &&& self.relation_spec().wf()
        &&& name_count_fields(self.relation_spec().schema_spec()) == self.names_spec()@.len()
    }

    /// The validated relation.
    pub fn relation(&self) -> (r: &Relation)
        ensures
            *r == self.relation_spec(),
    {
        &self.relation
    }

    /// The declared output field names, depth-first.
    pub fn names(&self) -> (n: &Vec<String>)
        ensures
            *n == self.names_spec(),
    {
        &self.schema
    }

    /// The raw root relation this converts back to: the retained tree and
    /// the declared names, unchanged.
    pub fn into_raw(self) -> (r: proto::RelRoot)
        ensures
            r.input matches Some(rel) && rel == self.relation_spec().rel_spec(),
            r.names == self.names_spec(),
    {
        let RootRelation { relation, schema } = self;
        proto::RelRoot { input: Some(relation.into_raw()), names: schema }
    }
}

/// Validation errors for [`proto::RelRoot`].
#[derive(Debug, PartialEq)]
pub enum RootRelationError {
    /// Invalid relation.
    Relation(RelationError),
    /// The root relation has no input relation.
    MissingInput,
    /// The declared output names do not match the derived schema: names
    /// bind depth-first, one per field at every nesting depth, and the
    /// count must match exactly. Carries the number of names declared.
    Names {
        /// How many names the root relation declared.
        provided: usize,
    },
}

/// The mathematical value of a [`RootRelationError`].
pub enum RootRelationErrV {
    /// Invalid relation.
    Relation(RelationErrV),
    /// The root relation has no input relation.
    MissingInput,
    /// The declared output names do not match the derived schema.
    Names {
        /// How many names the root relation declared.
        provided: usize,
    },
}

impl View for RootRelationError {
    type V = RootRelationErrV;

    open spec fn view(&self) -> RootRelationErrV {
        match self {
            RootRelationError::Relation(e) => RootRelationErrV::Relation(e@),
            RootRelationError::MissingInput => RootRelationErrV::MissingInput,
            RootRelationError::Names { provided } => RootRelationErrV::Names {
                provided: *provided,
            },
        }
    }
}

/// Whether a raw root relation validates: it has an input, the input is
/// well-formed, its schema derives, and the declared names match the
/// schema's depth-first field count exactly.
pub open spec fn root_valid(root: proto::RelRoot) -> bool {
    &&& root.input is Some
    &&& rel_wf(root.input->Some_0)
    &&& rel_schema_v(root.input->Some_0) is Ok
    &&& name_count_fields(rel_schema_v(root.input->Some_0)->Ok_0) == root.names@.len()
}

impl<C: Context> Validate<C> for proto::RelRoot {
    type Validated = RootRelation;

    type Error = RootRelationError;

    /// Validates a root relation: its input relation must validate, and
    /// its name list must match the derived schema's depth-first field
    /// count. The context is not consulted and is left unchanged.
    fn validate(self, ctx: &mut C) -> (r: Result<Self::Validated, Self::Error>)
        ensures
            *final(ctx) == *old(ctx),
            r is Ok <==> root_valid(self),
            self.input is None ==> r == Err::<RootRelation, RootRelationError>(
                RootRelationError::MissingInput,
            ),
            self.input matches Some(rel) ==> {
                &&& !rel_wf(rel) ==> r == Err::<RootRelation, RootRelationError>(
                    RootRelationError::Relation(RelationError::Incomplete),
                )
                &&& rel_wf(rel) ==> (rel_schema_v(rel) matches Err(e) ==> (r matches Err(
                    RootRelationError::Relation(RelationError::Schema(se)),
                ) && se@ == e))
                &&& rel_wf(rel) && rel_schema_v(rel) is Ok && name_count_fields(
                    rel_schema_v(rel)->Ok_0,
                ) != self.names@.len() ==> r == Err::<RootRelation, RootRelationError>(
                    RootRelationError::Names { provided: self.names@.len() as usize },
                )
            },
            r matches Ok(v) ==> {
                &&& v.wf()
                &&& v.relation_spec().rel_spec() == self.input->Some_0
                &&& v.names_spec() == self.names
            },
    {
        let proto::RelRoot { input, names } = self;
        let rel = match input {
            Some(r) => r,
            None => {
                return Err(RootRelationError::MissingInput);
            },
        };
        let relation = match rel.validate(ctx) {
            Ok(v) => v,
            Err(e) => {
                return Err(RootRelationError::Relation(e));
            },
        };
        let cap = names.len();
        let schema = relation.schema();
        let counted = count_names_capped(&schema.fields, 0, cap);
        proof {
            assert(schema.fields@.skip(0) =~= schema.fields@);
        }
        match counted {
            Some(n) => {
                if n == cap {
                    Ok(RootRelation { relation, schema: names })
                } else {
                    Err(RootRelationError::Names { provided: cap })
                }
            },
            None => Err(RootRelationError::Names { provided: cap }),
        }
    }
}

} // verus!
