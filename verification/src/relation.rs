//! The schema model and the relation schema deriver.
//!
//! Schema derivation is a pure recursive function over the operator tree: a
//! read node yields its declared base schema, unary operators pass their
//! input schema through the node's emit specification, a join concatenates
//! the schemas of its two inputs, and an aggregate yields its grouping-key
//! fields followed by its measure-result fields.

use crate::proto::{
    AggregateRel, EmitKind, Expression, FetchRel, Field, FilterRel, JoinRel, Literal, Measure,
    NamedStruct, ProjectRel, ReadRel, Rel, RelCommon, RelType, SortRel, Type,
};
use vstd::pervasive::unreached;
use vstd::prelude::*;

verus! {

/// The mathematical value of a [`Field`]: its name as a character sequence
/// and its type.
pub struct FieldV {
    /// The field name.
    pub name: Seq<char>,
    /// The field type.
    pub ty: TypeV,
}

/// The mathematical value of a [`Type`].
pub enum TypeV {
    /// A boolean.
    Bool,
    /// An integer.
    Int,
    /// A text string.
    Text,
    /// A fixed-point decimal.
    Decimal,
    /// A calendar date.
    Date,
    /// A nested structure.
    Nested(Seq<FieldV>),
}

/// The mathematical value of a [`Type`].
pub open spec fn type_v(t: Type) -> TypeV
    decreases t,
{
    match t {
        Type::Bool => TypeV::Bool,
        Type::Int => TypeV::Int,
        Type::Text => TypeV::Text,
        Type::Decimal => TypeV::Decimal,
        Type::Date => TypeV::Date,
        Type::Nested(ns) => TypeV::Nested(fields_v(ns.fields@)),
    }
}

/// The mathematical value of a [`Field`].
pub open spec fn field_v(f: Field) -> FieldV
    decreases f,
{
    FieldV { name: f.name@, ty: type_v(f.ty) }
}

/// The mathematical values of a sequence of fields, element-wise.
pub open spec fn fields_v(fs: Seq<Field>) -> Seq<FieldV>
    decreases fs,
{
    if fs.len() == 0 {
        Seq::empty()
    } else {
        seq![field_v(fs[0])] + fields_v(fs.skip(1))
    }
}

/// The mathematical value of a [`NamedStruct`]: the sequence of its field
/// values.
pub open spec fn schema_v(s: NamedStruct) -> Seq<FieldV> {
    fields_v(s.fields@)
}

/// [`fields_v`] maps a sequence of fields element-wise: the result has the
/// same length and holds the value of the field at each position.
pub broadcast proof fn lemma_fields_v(fs: Seq<Field>)
    ensures
        (#[trigger] fields_v(fs)).len() == fs.len(),
        forall|i: int| 0 <= i < fs.len() ==> fields_v(fs)[i] == field_v(fs[i]),
    decreases fs,
{
    if fs.len() > 0 {
        lemma_fields_v(fs.skip(1));
    }
}

/// An inconsistency found while deriving a schema.
#[derive(Debug, PartialEq)]
pub enum SchemaError {
    /// An emit position or field reference lies outside the field list it
    /// indexes.
    IndexOutOfRange {
        /// The offending position.
        index: i32,
        /// The number of fields in the indexed list.
        field_count: usize,
    },
    /// Two fields of a concatenated schema share a name.
    FieldNameCollision(String),
}

/// The mathematical value of a [`SchemaError`].
pub enum SchemaErrV {
    /// An emit position or field reference out of range.
    IndexOutOfRange {
        /// The offending position.
        index: int,
        /// The number of fields in the indexed list.
        field_count: nat,
    },
    /// A field name shared by both sides of a concatenation.
    FieldNameCollision(Seq<char>),
}

impl View for SchemaError {
    type V = SchemaErrV;

    open spec fn view(&self) -> SchemaErrV {
        match *self {
            SchemaError::IndexOutOfRange { index, field_count } => SchemaErrV::IndexOutOfRange {
                index: index as int,
                field_count: field_count as nat,
            },
            SchemaError::FieldNameCollision(name) => SchemaErrV::FieldNameCollision(name@),
        }
    }
}

/// The mathematical value of a schema-or-error result.
pub open spec fn schema_res_v(r: Result<NamedStruct, SchemaError>) -> Result<
    Seq<FieldV>,
    SchemaErrV,
> {
    match r {
        Ok(s) => Ok(schema_v(s)),
        Err(e) => Err(e@),
    }
}

/// Whether every position of an emit list lies inside a field list of the
/// given length.
pub open spec fn emit_in_range(len: nat, list: Seq<i32>) -> bool {
    forall|k: int| 0 <= k < list.len() ==> 0 <= #[trigger] list[k] < len
}

/// The fields selected by an emit list, in list order.
pub open spec fn emit_fields(fields: Seq<FieldV>, list: Seq<i32>) -> Seq<FieldV> {
    Seq::new(list.len(), |k: int| fields[list[k] as int])
}

/// Whether position `k` holds the first out-of-range entry of an emit list.
pub open spec fn emit_err_at(len: nat, list: Seq<i32>, k: int) -> bool {
    &&& 0 <= k < list.len()
    &&& !(0 <= list[k] < len)
    &&& forall|j: int| 0 <= j < k ==> 0 <= #[trigger] list[j] < len
}

/// At most one position holds the first out-of-range entry.
pub proof fn lemma_emit_err_unique(len: nat, list: Seq<i32>, k1: int, k2: int)
    requires
        emit_err_at(len, list, k1),
        emit_err_at(len, list, k2),
    ensures
        k1 == k2,
{
}

/// What applying an emit specification to a field list yields: the list
/// unchanged for a direct emit, the selected fields when every position is in
/// range, and otherwise an error citing the first position out of range.
/// Positions index the top-level field list: a nested field counts as one
/// field and is selected together with everything below it.
pub open spec fn apply_emit_v(fields: Seq<FieldV>, emit: EmitKind) -> Result<
    Seq<FieldV>,
    SchemaErrV,
> {
    match emit {
        EmitKind::Direct => Ok(fields),
        EmitKind::Emit(list) => if emit_in_range(fields.len(), list@) {
            Ok(emit_fields(fields, list@))
        } else {
            Err(
                SchemaErrV::IndexOutOfRange {
                    index: list@[choose|k: int| emit_err_at(fields.len(), list@, k)] as int,
                    field_count: fields.len(),
                },
            )
        },
    }
}

/// Whether no field name occurs on both sides of a concatenation.
pub open spec fn names_disjoint(a: Seq<FieldV>, b: Seq<FieldV>) -> bool {
    forall|i: int, j: int|
        0 <= i < a.len() && 0 <= j < b.len() ==> (#[trigger] a[i].name) != (#[trigger] b[j].name)
}

/// Whether position `j` holds the first field of `b` whose name also occurs
/// in `a`.
pub open spec fn collision_at(a: Seq<FieldV>, b: Seq<FieldV>, j: int) -> bool {
    &&& 0 <= j < b.len()
    &&& exists|i: int| 0 <= i < a.len() && (#[trigger] a[i].name) == b[j].name
    &&& forall|j2: int, i: int|
        0 <= j2 < j && 0 <= i < a.len() ==> (#[trigger] a[i].name) != (#[trigger] b[j2].name)
}

/// At most one position holds the first colliding field.
pub proof fn lemma_collision_unique(a: Seq<FieldV>, b: Seq<FieldV>, j1: int, j2: int)
    requires
        collision_at(a, b, j1),
        collision_at(a, b, j2),
    ensures
        j1 == j2,
{
}

/// What concatenating two field lists yields: the fields of `a` followed by
/// the fields of `b` when no name occurs on both sides, and otherwise an
/// error citing the name of the first field of `b` already named in `a`.
pub open spec fn concat_v(a: Seq<FieldV>, b: Seq<FieldV>) -> Result<Seq<FieldV>, SchemaErrV> {
    if names_disjoint(a, b) {
        Ok(a + b)
    } else {
        Err(
            SchemaErrV::FieldNameCollision(b[choose|j: int| collision_at(a, b, j)].name),
        )
    }
}

impl View for Type {
    type V = TypeV;

    open spec fn view(&self) -> TypeV {
        type_v(*self)
    }
}

impl View for Field {
    type V = FieldV;

    open spec fn view(&self) -> FieldV {
        field_v(*self)
    }
}

impl View for NamedStruct {
    type V = Seq<FieldV>;

    open spec fn view(&self) -> Seq<FieldV> {
        schema_v(*self)
    }
}

/// A copy of a type with the same mathematical value.
fn clone_type(t: &Type) -> (r: Type)
    ensures
        r@ == t@,
    decreases *t,
{
    match t {
        Type::Bool => Type::Bool,
        Type::Int => Type::Int,
        Type::Text => Type::Text,
        Type::Decimal => Type::Decimal,
        Type::Date => Type::Date,
        Type::Nested(ns) => Type::Nested(clone_named_struct(ns)),
    }
}

/// A copy of a field with the same mathematical value.
fn clone_field(f: &Field) -> (r: Field)
    ensures
        r@ == f@,
    decreases *f,
{
    Field { name: f.name.clone(), ty: clone_type(&f.ty) }
}

/// A copy of a schema with the same mathematical value.
#[verifier::loop_isolation(false)]
fn clone_named_struct(s: &NamedStruct) -> (r: NamedStruct)
    ensures
        r@ == s@,
    decreases *s,
{
    broadcast use lemma_fields_v;
    let mut fields: Vec<Field> = Vec::new();
    let n = s.fields.len();
    for i in 0..n
        invariant
            n == s.fields.len(),
            fields@.len() == i,
            forall|j: int| 0 <= j < i ==> field_v(#[trigger] fields@[j]) == field_v(s.fields@[j]),
    {
        let f = clone_field(&s.fields[i]);
        fields.push(f);
    }
    let r = NamedStruct { fields };
    proof {
        lemma_fields_v(r.fields@);
        lemma_fields_v(s.fields@);
        assert(schema_v(r) =~= schema_v(*s));
    }
    r
}

impl Clone for Type {
    /// A copy with the same mathematical value.
    fn clone(&self) -> (r: Self)
        ensures
            r@ == self@,
    {
        clone_type(self)
    }
}

impl Clone for Field {
    /// A copy with the same mathematical value.
    fn clone(&self) -> (r: Self)
        ensures
            r@ == self@,
    {
        clone_field(self)
    }
}

impl Clone for NamedStruct {
    /// A copy with the same mathematical value.
    fn clone(&self) -> (r: Self)
        ensures
            r@ == self@,
    {
        clone_named_struct(self)
    }
}

impl NamedStruct {
    /// Applies an emit specification to this schema: the schema passes
    /// through unchanged for a direct emit, and an explicit emit list selects
    /// the field at each listed position, in list order. Positions index
    /// the schema's top-level field list, so a nested field moves as one
    /// unit. A position outside the field list is an error.
    #[verifier::loop_isolation(false)]
    pub fn apply_emit(&self, emit_kind: &EmitKind) -> (r: Result<NamedStruct, SchemaError>)
        ensures
            schema_res_v(r) == apply_emit_v(self@, *emit_kind),
    {
        broadcast use lemma_fields_v;
        match emit_kind {
            EmitKind::Direct => Ok(self.clone()),
            EmitKind::Emit(list) => {
                let len = self.fields.len();
                let mut fields: Vec<Field> = Vec::new();
                let n = list.len();
                for k in 0..n
                    invariant
                        n == list.len(),
                        len == self.fields.len(),
                        fields@.len() == k,
                        forall|j: int| 0 <= j < k ==> 0 <= #[trigger] list@[j] < len,
                        forall|j: int|
                            0 <= j < k ==> field_v(#[trigger] fields@[j]) == field_v(
                                self.fields@[list@[j] as int],
                            ),
                {
                    let idx = list[k];
                    if idx < 0 || idx as usize >= len {
                        proof {
                            assert(emit_err_at(self@.len(), list@, k as int));
                            assert(emit_err_at(
                                self@.len(),
                                list@,
                                choose|k2: int| emit_err_at(self@.len(), list@, k2),
                            ));
                            lemma_emit_err_unique(
                                self@.len(),
                                list@,
                                k as int,
                                choose|k2: int| emit_err_at(self@.len(), list@, k2),
                            );
                        }
                        return Err(
                            SchemaError::IndexOutOfRange { index: idx, field_count: len },
                        );
                    }
                    let f = clone_field(&self.fields[idx as usize]);
                    fields.push(f);
                }
                let r = NamedStruct { fields };
                proof {
                    lemma_fields_v(r.fields@);
                    assert(schema_v(r) =~= emit_fields(self@, list@));
                }
                Ok(r)
            },
        }
    }

    /// Concatenates another schema onto this one: the result holds this
    /// schema's fields followed by the other's. A field name occurring on
    /// both sides is an error citing that name.
    #[verifier::loop_isolation(false)]
    pub fn concat(&self, other: NamedStruct) -> (r: Result<NamedStruct, SchemaError>)
        ensures
            schema_res_v(r) == concat_v(self@, other@),
    {
        broadcast use lemma_fields_v;
        let b_len = other.fields.len();
        let a_len = self.fields.len();
        for j in 0..b_len
            invariant
                b_len == other.fields.len(),
                a_len == self.fields.len(),
                forall|j2: int, i: int|
                    0 <= j2 < j && 0 <= i < a_len ==> (#[trigger] self@[i].name) != (
                    #[trigger] other@[j2].name),
        {
            for i in 0..a_len
                invariant
                    b_len == other.fields.len(),
                    a_len == self.fields.len(),
                    j < b_len,
                    forall|j2: int, i2: int|
                        0 <= j2 < j && 0 <= i2 < a_len ==> (#[trigger] self@[i2].name) != (
                        #[trigger] other@[j2].name),
                    forall|i2: int| 0 <= i2 < i ==> (#[trigger] self@[i2].name) != other@[j as int].name,
            {
                if self.fields[i].name == other.fields[j].name {
                    proof {
                        assert(self@[i as int].name == other@[j as int].name);
                        assert(collision_at(self@, other@, j as int));
                        assert(collision_at(
                            self@,
                            other@,
                            choose|j2: int| collision_at(self@, other@, j2),
                        ));
                        lemma_collision_unique(
                            self@,
                            other@,
                            j as int,
                            choose|j2: int| collision_at(self@, other@, j2),
                        );
                    }
                    let name = other.fields[j].name.clone();
                    return Err(SchemaError::FieldNameCollision(name));
                }
            }
        }
        let mut fields: Vec<Field> = Vec::new();
        for i in 0..a_len
            invariant
                a_len == self.fields.len(),
                fields@.len() == i,
                forall|k: int| 0 <= k < i ==> field_v(#[trigger] fields@[k]) == field_v(
                    self.fields@[k],
                ),
        {
            let f = clone_field(&self.fields[i]);
            fields.push(f);
        }
        for m in 0..b_len
            invariant
                b_len == other.fields.len(),
                a_len == self.fields@.len(),
                fields@.len() == a_len + m,
                forall|k: int| 0 <= k < a_len ==> field_v(#[trigger] fields@[k]) == field_v(
                    self.fields@[k],
                ),
                forall|k: int| a_len <= k < a_len + m ==> field_v(#[trigger] fields@[k]) == field_v(
                    other.fields@[k - a_len],
                ),
        {
            let f = clone_field(&other.fields[m]);
            fields.push(f);
        }
        let r = NamedStruct { fields };
        proof {
            lemma_fields_v(r.fields@);
            assert(schema_v(r) =~= schema_v(*self) + schema_v(other));
        }
        Ok(r)
    }
}

/// Whether the type of a measure result is declared.
pub open spec fn measures_wf(measures: Seq<Measure>) -> bool {
    forall|i: int| 0 <= i < measures.len() ==> (#[trigger] measures[i]).output_type is Some
}

/// Whether a read node holds every field it needs.
pub open spec fn read_wf(rr: ReadRel) -> bool {
    rr.common is Some && rr.base_schema is Some
}

/// Whether a filter node and its input hold every field they need.
pub open spec fn filter_wf(fr: FilterRel) -> bool
    decreases fr,
{
    &&& fr.common is Some
    &&& fr.common->Some_0.emit_kind is Some
    &&& fr.input is Some
    &&& rel_wf(fr.input->Some_0)
}

/// Whether a fetch node and its input hold every field they need.
pub open spec fn fetch_wf(fr: FetchRel) -> bool
    decreases fr,
{
    &&& fr.common is Some
    &&& fr.common->Some_0.emit_kind is Some
    &&& fr.input is Some
    &&& rel_wf(fr.input->Some_0)
}

/// Whether a sort node and its input hold every field they need.
pub open spec fn sort_wf(sr: SortRel) -> bool
    decreases sr,
{
    &&& sr.common is Some
    &&& sr.common->Some_0.emit_kind is Some
    &&& sr.input is Some
    &&& rel_wf(sr.input->Some_0)
}

/// Whether an aggregate node and its input hold every field they need.
pub open spec fn aggregate_wf(ar: AggregateRel) -> bool
    decreases ar,
{
    &&& ar.common is Some
    &&& ar.input is Some
    &&& rel_wf(ar.input->Some_0)
    &&& measures_wf(ar.measures@)
}

/// Whether a join node and its two inputs hold every field they need.
pub open spec fn join_wf(jr: JoinRel) -> bool
    decreases jr,
{
    &&& jr.common is Some
    &&& jr.left is Some
    &&& rel_wf(jr.left->Some_0)
    &&& jr.right is Some
    &&& rel_wf(jr.right->Some_0)
}

/// Whether a project node and its input hold every field they need.
pub open spec fn project_wf(pr: ProjectRel) -> bool
    decreases pr,
{
    &&& pr.common is Some
    &&& pr.common->Some_0.emit_kind is Some
    &&& pr.input is Some
    &&& rel_wf(pr.input->Some_0)
}

/// Whether a relation tree holds every required field: an operator on every
/// node, common metadata everywhere, an emit specification where one is
/// applied, a base schema on every read, inputs where the operator takes
/// them, and a declared type on every measure.
pub open spec fn rel_wf(r: Rel) -> bool
    decreases r,
{
    match r.rel_type {
        None => false,
        Some(rt) => match rt {
            RelType::Read(rr) => read_wf(*rr),
            RelType::Filter(fr) => filter_wf(*fr),
            RelType::Fetch(fr) => fetch_wf(*fr),
            RelType::Aggregate(ar) => aggregate_wf(*ar),
            RelType::Sort(sr) => sort_wf(*sr),
            RelType::Join(jr) => join_wf(*jr),
            RelType::Project(pr) => project_wf(*pr),
        },
    }
}

/// The common metadata of a well-formed relation node.
pub open spec fn rel_common_v(r: Rel) -> RelCommon {
    match r.rel_type {
        None => arbitrary(),
        Some(rt) => match rt {
            RelType::Read(rr) => (*rr).common->Some_0,
            RelType::Filter(fr) => (*fr).common->Some_0,
            RelType::Fetch(fr) => (*fr).common->Some_0,
            RelType::Aggregate(ar) => (*ar).common->Some_0,
            RelType::Sort(sr) => (*sr).common->Some_0,
            RelType::Join(jr) => (*jr).common->Some_0,
            RelType::Project(pr) => (*pr).common->Some_0,
        },
    }
}

/// The unnamed fields a measure list contributes to an aggregate's schema,
/// one per measure, typed by the measure's declared result type.
pub open spec fn measure_fields_v(measures: Seq<Measure>) -> Seq<FieldV> {
    Seq::new(
        measures.len(),
        |i: int| FieldV { name: Seq::empty(), ty: type_v(measures[i].output_type->Some_0) },
    )
}

/// What an aggregate derives over its input's fields: the grouping-key
/// fields, in grouping order, followed by one unnamed field per measure.
/// Grouping positions index the input's top-level field list. A grouping
/// position outside that list is an error citing the first such position.
pub open spec fn aggregate_fields_v(
    input: Seq<FieldV>,
    groups: Seq<i32>,
    measures: Seq<Measure>,
) -> Result<Seq<FieldV>, SchemaErrV> {
    if emit_in_range(input.len(), groups) {
        Ok(emit_fields(input, groups) + measure_fields_v(measures))
    } else {
        Err(
            SchemaErrV::IndexOutOfRange {
                index: groups[choose|k: int| emit_err_at(input.len(), groups, k)] as int,
                field_count: input.len(),
            },
        )
    }
}

/// The type of a literal value.
pub open spec fn literal_type_v(l: Literal) -> TypeV {
    match l {
        Literal::Bool(_) => TypeV::Bool,
        Literal::Int(_) => TypeV::Int,
        Literal::Text(_) => TypeV::Text,
        Literal::Date(_) => TypeV::Date,
    }
}

/// Whether an expression's field reference, if it is one, lies inside a
/// field list of the given length. Field references index the input's
/// top-level field list, like emit positions.
pub open spec fn expr_ref_ok(len: nat, e: Expression) -> bool {
    match e {
        Expression::FieldRef(i) => 0 <= i < len,
        Expression::Literal(_) => true,
    }
}

/// Whether every field reference of an expression list is in range.
pub open spec fn exprs_in_range(len: nat, exprs: Seq<Expression>) -> bool {
    forall|k: int| 0 <= k < exprs.len() ==> expr_ref_ok(len, #[trigger] exprs[k])
}

/// Whether position `k` holds the first out-of-range field reference.
pub open spec fn expr_err_at(len: nat, exprs: Seq<Expression>, k: int) -> bool {
    &&& 0 <= k < exprs.len()
    &&& !expr_ref_ok(len, exprs[k])
    &&& forall|j: int| 0 <= j < k ==> expr_ref_ok(len, #[trigger] exprs[j])
}

/// At most one position holds the first out-of-range field reference.
pub proof fn lemma_expr_err_unique(len: nat, exprs: Seq<Expression>, k1: int, k2: int)
    requires
        expr_err_at(len, exprs, k1),
        expr_err_at(len, exprs, k2),
    ensures
        k1 == k2,
{
}

/// The unnamed field an expression contributes: the referenced input field's
/// type for a field reference, the literal's type for a literal.
pub open spec fn expr_field_v(input: Seq<FieldV>, e: Expression) -> FieldV {
    match e {
        Expression::FieldRef(i) => FieldV { name: Seq::empty(), ty: input[i as int].ty },
        Expression::Literal(l) => FieldV { name: Seq::empty(), ty: literal_type_v(l) },
    }
}

/// The fields an expression list contributes, one per expression.
pub open spec fn expr_fields_v(input: Seq<FieldV>, exprs: Seq<Expression>) -> Seq<FieldV> {
    Seq::new(exprs.len(), |k: int| expr_field_v(input, exprs[k]))
}

/// The pre-emit field list of a project over its input's fields: the input
/// fields followed by one field per expression. A field reference outside
/// the input's field list is an error citing the first such reference.
pub open spec fn project_base_v(input: Seq<FieldV>, exprs: Seq<Expression>) -> Result<
    Seq<FieldV>,
    SchemaErrV,
> {
    if exprs_in_range(input.len(), exprs) {
        Ok(input + expr_fields_v(input, exprs))
    } else {
        Err(
            SchemaErrV::IndexOutOfRange {
                index: exprs[choose|k: int| expr_err_at(input.len(), exprs, k)]->FieldRef_0
                    as int,
                field_count: input.len(),
            },
        )
    }
}

/// What a read derives: its declared base schema, verbatim.
pub open spec fn read_schema_v(rr: ReadRel) -> Result<Seq<FieldV>, SchemaErrV> {
    Ok(schema_v(rr.base_schema->Some_0))
}

/// What a filter derives: its input's schema, through its emit.
pub open spec fn filter_schema_v(fr: FilterRel) -> Result<Seq<FieldV>, SchemaErrV>
    decreases fr,
{
    match fr.input {
        Some(input) => match rel_schema_v(input) {
            Ok(s) => apply_emit_v(s, fr.common->Some_0.emit_kind->Some_0),
            Err(e) => Err(e),
        },
        None => arbitrary(),
    }
}

/// What a fetch derives: its input's schema, through its emit.
pub open spec fn fetch_schema_v(fr: FetchRel) -> Result<Seq<FieldV>, SchemaErrV>
    decreases fr,
{
    match fr.input {
        Some(input) => match rel_schema_v(input) {
            Ok(s) => apply_emit_v(s, fr.common->Some_0.emit_kind->Some_0),
            Err(e) => Err(e),
        },
        None => arbitrary(),
    }
}

/// What a sort derives: its input's schema, through its emit.
pub open spec fn sort_schema_v(sr: SortRel) -> Result<Seq<FieldV>, SchemaErrV>
    decreases sr,
{
    match sr.input {
        Some(input) => match rel_schema_v(input) {
            Ok(s) => apply_emit_v(s, sr.common->Some_0.emit_kind->Some_0),
            Err(e) => Err(e),
        },
        None => arbitrary(),
    }
}

/// What an aggregate derives: its grouping-key fields followed by its
/// measure-result fields.
pub open spec fn aggregate_schema_v(ar: AggregateRel) -> Result<Seq<FieldV>, SchemaErrV>
    decreases ar,
{
    match ar.input {
        Some(input) => match rel_schema_v(input) {
            Ok(s) => aggregate_fields_v(s, ar.grouping_fields@, ar.measures@),
            Err(e) => Err(e),
        },
        None => arbitrary(),
    }
}

/// What a join derives: its left input's fields followed by its right
/// input's fields; the left input is derived first.
pub open spec fn join_schema_v(jr: JoinRel) -> Result<Seq<FieldV>, SchemaErrV>
    decreases jr,
{
    match (jr.left, jr.right) {
        (Some(left), Some(right)) => match rel_schema_v(left) {
            Ok(a) => match rel_schema_v(right) {
                Ok(b) => concat_v(a, b),
                Err(e) => Err(e),
            },
            Err(e) => Err(e),
        },
        _ => arbitrary(),
    }
}

/// What a project derives: its input's fields followed by one field per
/// expression, through its emit.
pub open spec fn project_schema_v(pr: ProjectRel) -> Result<Seq<FieldV>, SchemaErrV>
    decreases pr,
{
    match pr.input {
        Some(input) => match rel_schema_v(input) {
            Ok(s) => match project_base_v(s, pr.expressions@) {
                Ok(base) => apply_emit_v(base, pr.common->Some_0.emit_kind->Some_0),
                Err(e) => Err(e),
            },
            Err(e) => Err(e),
        },
        None => arbitrary(),
    }
}

/// The schema a well-formed relation tree derives, by operator kind.
pub open spec fn rel_schema_v(r: Rel) -> Result<Seq<FieldV>, SchemaErrV>
    decreases r,
{
    match r.rel_type {
        None => arbitrary(),
        Some(rt) => match rt {
            RelType::Read(rr) => read_schema_v(*rr),
            RelType::Filter(fr) => filter_schema_v(*fr),
            RelType::Fetch(fr) => fetch_schema_v(*fr),
            RelType::Aggregate(ar) => aggregate_schema_v(*ar),
            RelType::Sort(sr) => sort_schema_v(*sr),
            RelType::Join(jr) => join_schema_v(*jr),
            RelType::Project(pr) => project_schema_v(*pr),
        },
    }
}

/// The type of a literal value.
fn literal_type(l: &Literal) -> (t: Type)
    ensures
        type_v(t) == literal_type_v(*l),
{
    match l {
        Literal::Bool(_) => Type::Bool,
        Literal::Int(_) => Type::Int,
        Literal::Text(_) => Type::Text,
        Literal::Date(_) => Type::Date,
    }
}

/// The fields an aggregate derives over an input schema: the grouping-key
/// fields followed by one unnamed field per measure.
#[verifier::loop_isolation(false)]
fn aggregate_fields(input: &NamedStruct, groups: &Vec<i32>, measures: &Vec<Measure>) -> (r: Result<
    NamedStruct,
    SchemaError,
>)
    requires
        measures_wf(measures@),
    ensures
        schema_res_v(r) == aggregate_fields_v(input@, groups@, measures@),
{
    broadcast use lemma_fields_v;

    let len = input.fields.len();
    let mut fields: Vec<Field> = Vec::new();
    let n = groups.len();
    for k in 0..n
        invariant
            fields@.len() == k,
            forall|j: int| 0 <= j < k ==> 0 <= #[trigger] groups@[j] < len,
            forall|j: int|
                0 <= j < k ==> field_v(#[trigger] fields@[j]) == field_v(
                    input.fields@[groups@[j] as int],
                ),
    {
        let idx = groups[k];
        if idx < 0 || idx as usize >= len {
            proof {
                assert(emit_err_at(input@.len(), groups@, k as int));
                assert(emit_err_at(
                    input@.len(),
                    groups@,
                    choose|k2: int| emit_err_at(input@.len(), groups@, k2),
                ));
                lemma_emit_err_unique(
                    input@.len(),
                    groups@,
                    k as int,
                    choose|k2: int| emit_err_at(input@.len(), groups@, k2),
                );
            }
            return Err(SchemaError::IndexOutOfRange { index: idx, field_count: len });
        }
        let f = clone_field(&input.fields[idx as usize]);
        fields.push(f);
    }
    let m = measures.len();
    for i in 0..m
        invariant
            fields@.len() == n + i,
            forall|j: int|
                0 <= j < n ==> field_v(#[trigger] fields@[j]) == field_v(
                    input.fields@[groups@[j] as int],
                ),
            forall|j: int|
                n <= j < n + i ==> field_v(#[trigger] fields@[j]) == (FieldV {
                    name: Seq::empty(),
                    ty: type_v(measures@[j - n].output_type->Some_0),
                }),
    {
        let mt = match &measures[i].output_type {
            Some(t) => t,
            None => unreached(),
        };
        let f = Field { name: String::new(), ty: clone_type(mt) };
        fields.push(f);
    }
    let r = NamedStruct { fields };
    proof {
        assert(schema_v(r) =~= emit_fields(input@, groups@) + measure_fields_v(measures@));
    }
    Ok(r)
}

/// The pre-emit field list of a project over an input schema: the input
/// fields followed by one unnamed field per expression.
#[verifier::loop_isolation(false)]
fn project_base(input: &NamedStruct, exprs: &Vec<Expression>) -> (r: Result<
    NamedStruct,
    SchemaError,
>)
    ensures
        schema_res_v(r) == project_base_v(input@, exprs@),
{
    broadcast use lemma_fields_v;

    let len = input.fields.len();
    let mut fields: Vec<Field> = Vec::new();
    for i in 0..len
        invariant
            fields@.len() == i,
            forall|j: int|
                0 <= j < i ==> field_v(#[trigger] fields@[j]) == field_v(input.fields@[j]),
    {
        let f = clone_field(&input.fields[i]);
        fields.push(f);
    }
    let n = exprs.len();
    for k in 0..n
        invariant
            fields@.len() == len + k,
            forall|j: int| 0 <= j < k ==> expr_ref_ok(input@.len(), #[trigger] exprs@[j]),
            forall|j: int|
                0 <= j < len ==> field_v(#[trigger] fields@[j]) == field_v(input.fields@[j]),
            forall|j: int|
                len <= j < len + k ==> field_v(#[trigger] fields@[j]) == expr_field_v(
                    input@,
                    exprs@[j - len],
                ),
    {
        match &exprs[k] {
            Expression::FieldRef(fi) => {
                let fi = *fi;
                if fi < 0 || fi as usize >= len {
                    proof {
                        assert(expr_err_at(input@.len(), exprs@, k as int));
                        assert(expr_err_at(
                            input@.len(),
                            exprs@,
                            choose|k2: int| expr_err_at(input@.len(), exprs@, k2),
                        ));
                        lemma_expr_err_unique(
                            input@.len(),
                            exprs@,
                            k as int,
                            choose|k2: int| expr_err_at(input@.len(), exprs@, k2),
                        );
                    }
                    return Err(SchemaError::IndexOutOfRange { index: fi, field_count: len });
                }
                let f = Field {
                    name: String::new(),
                    ty: clone_type(&input.fields[fi as usize].ty),
                };
                fields.push(f);
            },
            Expression::Literal(l) => {
                let f = Field { name: String::new(), ty: literal_type(l) };
                fields.push(f);
            },
        }
    }
    let r = NamedStruct { fields };
    proof {
        assert(schema_v(r) =~= input@ + expr_fields_v(input@, exprs@));
    }
    Ok(r)
}

/// Derives the schema of a read node.
fn derive_read(rr: &ReadRel) -> (r: Result<NamedStruct, SchemaError>)
    requires
        read_wf(*rr),
    ensures
        schema_res_v(r) == read_schema_v(*rr),
{
    match &rr.base_schema {
        Some(s) => Ok(s.clone()),
        None => unreached(),
    }
}

/// Derives the schema of a filter node.
fn derive_filter(fr: &FilterRel) -> (r: Result<NamedStruct, SchemaError>)
    requires
        filter_wf(*fr),
    ensures
        schema_res_v(r) == filter_schema_v(*fr),
    decreases *fr,
{
    let input = match &fr.input {
        Some(i) => i,
        None => unreached(),
    };
    let s = match derive_schema(input) {
        Ok(s) => s,
        Err(e) => {
            return Err(e);
        },
    };
    let common = match &fr.common {
        Some(c) => c,
        None => unreached(),
    };
    let emit = match &common.emit_kind {
        Some(e) => e,
        None => unreached(),
    };
    s.apply_emit(emit)
}

/// Derives the schema of a fetch node.
fn derive_fetch(fr: &FetchRel) -> (r: Result<NamedStruct, SchemaError>)
    requires
        fetch_wf(*fr),
    ensures
        schema_res_v(r) == fetch_schema_v(*fr),
    decreases *fr,
{
    let input = match &fr.input {
        Some(i) => i,
        None => unreached(),
    };
    let s = match derive_schema(input) {
        Ok(s) => s,
        Err(e) => {
            return Err(e);
        },
    };
    let common = match &fr.common {
        Some(c) => c,
        None => unreached(),
    };
    let emit = match &common.emit_kind {
        Some(e) => e,
        None => unreached(),
    };
    s.apply_emit(emit)
}

/// Derives the schema of a sort node.
fn derive_sort(sr: &SortRel) -> (r: Result<NamedStruct, SchemaError>)
    requires
        sort_wf(*sr),
    ensures
        schema_res_v(r) == sort_schema_v(*sr),
    decreases *sr,
{
    let input = match &sr.input {
        Some(i) => i,
        None => unreached(),
    };
    let s = match derive_schema(input) {
        Ok(s) => s,
        Err(e) => {
            return Err(e);
        },
    };
    let common = match &sr.common {
        Some(c) => c,
        None => unreached(),
    };
    let emit = match &common.emit_kind {
        Some(e) => e,
        None => unreached(),
    };
    s.apply_emit(emit)
}

/// Derives the schema of an aggregate node.
fn derive_aggregate(ar: &AggregateRel) -> (r: Result<NamedStruct, SchemaError>)
    requires
        aggregate_wf(*ar),
    ensures
        schema_res_v(r) == aggregate_schema_v(*ar),
    decreases *ar,
{
    let input = match &ar.input {
        Some(i) => i,
        None => unreached(),
    };
    let s = match derive_schema(input) {
        Ok(s) => s,
        Err(e) => {
            return Err(e);
        },
    };
    aggregate_fields(&s, &ar.grouping_fields, &ar.measures)
}

/// Derives the schema of a join node.
fn derive_join(jr: &JoinRel) -> (r: Result<NamedStruct, SchemaError>)
    requires
        join_wf(*jr),
    ensures
        schema_res_v(r) == join_schema_v(*jr),
    decreases *jr,
{
    let left = match &jr.left {
        Some(l) => l,
        None => unreached(),
    };
    let right = match &jr.right {
        Some(l) => l,
        None => unreached(),
    };
    let a = match derive_schema(left) {
        Ok(a) => a,
        Err(e) => {
            return Err(e);
        },
    };
    let b = match derive_schema(right) {
        Ok(b) => b,
        Err(e) => {
            return Err(e);
        },
    };
    a.concat(b)
}

/// Derives the schema of a project node.
fn derive_project(pr: &ProjectRel) -> (r: Result<NamedStruct, SchemaError>)
    requires
        project_wf(*pr),
    ensures
        schema_res_v(r) == project_schema_v(*pr),
    decreases *pr,
{
    let input = match &pr.input {
        Some(i) => i,
        None => unreached(),
    };
    let s = match derive_schema(input) {
        Ok(s) => s,
        Err(e) => {
            return Err(e);
        },
    };
    let base = match project_base(&s, &pr.expressions) {
        Ok(b) => b,
        Err(e) => {
            return Err(e);
        },
    };
    let common = match &pr.common {
        Some(c) => c,
        None => unreached(),
    };
    let emit = match &common.emit_kind {
        Some(e) => e,
        None => unreached(),
    };
    base.apply_emit(emit)
}

/// Derives the schema of any well-formed relation node, by operator kind.
fn derive_schema(r: &Rel) -> (res: Result<NamedStruct, SchemaError>)
    requires
        rel_wf(*r),
    ensures
        schema_res_v(res) == rel_schema_v(*r),
    decreases *r,
{
    match &r.rel_type {
        Some(rt) => match rt {
            RelType::Read(rr) => derive_read(&**rr),
            RelType::Filter(fr) => derive_filter(&**fr),
            RelType::Fetch(fr) => derive_fetch(&**fr),
            RelType::Aggregate(ar) => derive_aggregate(&**ar),
            RelType::Sort(sr) => derive_sort(&**sr),
            RelType::Join(jr) => derive_join(&**jr),
            RelType::Project(pr) => derive_project(&**pr),
        },
        None => unreached(),
    }
}

/// A node of the relational-operator tree: it exposes common metadata and
/// derives the schema of the rows it produces.
pub trait Relation {
    /// Whether this node and its inputs hold every field schema derivation
    /// needs.
    spec fn wf_spec(&self) -> bool;

    /// The schema this node derives, as a mathematical value.
    spec fn schema_spec(&self) -> Result<Seq<FieldV>, SchemaErrV>;

    /// The common metadata of this node, as a mathematical value.
    spec fn common_spec(&self) -> RelCommon;

    /// The common operator metadata of this node.
    fn common(&self) -> (c: &RelCommon)
        requires
            self.wf_spec(),
        ensures
            *c == self.common_spec(),
    ;

    /// The schema of the rows this node produces.
    fn schema(&self) -> (r: Result<NamedStruct, SchemaError>)
        requires
            self.wf_spec(),
        ensures
            schema_res_v(r) == self.schema_spec(),
    ;
}

impl Relation for Rel {
    open spec fn wf_spec(&self) -> bool {
        rel_wf(*self)
    }

    open spec fn schema_spec(&self) -> Result<Seq<FieldV>, SchemaErrV> {
        rel_schema_v(*self)
    }

    open spec fn common_spec(&self) -> RelCommon {
        rel_common_v(*self)
    }

    fn common(&self) -> (c: &RelCommon) {
        match &self.rel_type {
            Some(rt) => match rt {
                RelType::Read(rr) => rr.common(),
                RelType::Filter(fr) => fr.common(),
                RelType::Fetch(fr) => fr.common(),
                RelType::Aggregate(ar) => ar.common(),
                RelType::Sort(sr) => sr.common(),
                RelType::Join(jr) => jr.common(),
                RelType::Project(pr) => pr.common(),
            },
            None => unreached(),
        }
    }

    fn schema(&self) -> (r: Result<NamedStruct, SchemaError>) {
        derive_schema(self)
    }
}

impl Relation for ReadRel {
    open spec fn wf_spec(&self) -> bool {
        read_wf(*self)
    }

    open spec fn schema_spec(&self) -> Result<Seq<FieldV>, SchemaErrV> {
        read_schema_v(*self)
    }

    open spec fn common_spec(&self) -> RelCommon {
        self.common->Some_0
    }

    fn common(&self) -> (c: &RelCommon) {
        match &self.common {
            Some(c) => c,
            None => unreached(),
        }
    }

    fn schema(&self) -> (r: Result<NamedStruct, SchemaError>) {
        derive_read(self)
    }
}

impl Relation for FilterRel {
    open spec fn wf_spec(&self) -> bool {
        filter_wf(*self)
    }

    open spec fn schema_spec(&self) -> Result<Seq<FieldV>, SchemaErrV> {
        filter_schema_v(*self)
    }

    open spec fn common_spec(&self) -> RelCommon {
        self.common->Some_0
    }

    fn common(&self) -> (c: &RelCommon) {
        match &self.common {
            Some(c) => c,
            None => unreached(),
        }
    }

    fn schema(&self) -> (r: Result<NamedStruct, SchemaError>) {
        derive_filter(self)
    }
}

impl Relation for FetchRel {
    open spec fn wf_spec(&self) -> bool {
        fetch_wf(*self)
    }

    open spec fn schema_spec(&self) -> Result<Seq<FieldV>, SchemaErrV> {
        fetch_schema_v(*self)
    }

    open spec fn common_spec(&self) -> RelCommon {
        self.common->Some_0
    }

    fn common(&self) -> (c: &RelCommon) {
        match &self.common {
            Some(c) => c,
            None => unreached(),
        }
    }

    fn schema(&self) -> (r: Result<NamedStruct, SchemaError>) {
        derive_fetch(self)
    }
}

impl Relation for AggregateRel {
    open spec fn wf_spec(&self) -> bool {
        aggregate_wf(*self)
    }

    open spec fn schema_spec(&self) -> Result<Seq<FieldV>, SchemaErrV> {
        aggregate_schema_v(*self)
    }

    open spec fn common_spec(&self) -> RelCommon {
        self.common->Some_0
    }

    fn common(&self) -> (c: &RelCommon) {
        match &self.common {
            Some(c) => c,
            None => unreached(),
        }
    }

    fn schema(&self) -> (r: Result<NamedStruct, SchemaError>) {
        derive_aggregate(self)
    }
}

impl Relation for SortRel {
    open spec fn wf_spec(&self) -> bool {
        sort_wf(*self)
    }

    open spec fn schema_spec(&self) -> Result<Seq<FieldV>, SchemaErrV> {
        sort_schema_v(*self)
    }

    open spec fn common_spec(&self) -> RelCommon {
        self.common->Some_0
    }

    fn common(&self) -> (c: &RelCommon) {
        match &self.common {
            Some(c) => c,
            None => unreached(),
        }
    }

    fn schema(&self) -> (r: Result<NamedStruct, SchemaError>) {
        derive_sort(self)
    }
}

impl Relation for JoinRel {
    open spec fn wf_spec(&self) -> bool {
        join_wf(*self)
    }

    open spec fn schema_spec(&self) -> Result<Seq<FieldV>, SchemaErrV> {
        join_schema_v(*self)
    }

    open spec fn common_spec(&self) -> RelCommon {
        self.common->Some_0
    }

    fn common(&self) -> (c: &RelCommon) {
        match &self.common {
            Some(c) => c,
            None => unreached(),
        }
    }

    fn schema(&self) -> (r: Result<NamedStruct, SchemaError>) {
        derive_join(self)
    }
}

impl Relation for ProjectRel {
    open spec fn wf_spec(&self) -> bool {
        project_wf(*self)
    }

    open spec fn schema_spec(&self) -> Result<Seq<FieldV>, SchemaErrV> {
        project_schema_v(*self)
    }

    open spec fn common_spec(&self) -> RelCommon {
        self.common->Some_0
    }

    fn common(&self) -> (c: &RelCommon) {
        match &self.common {
            Some(c) => c,
            None => unreached(),
        }
    }

    fn schema(&self) -> (r: Result<NamedStruct, SchemaError>) {
        derive_project(self)
    }
}

/// A read relation derives exactly its declared base schema.
pub proof fn lemma_read_schema(rr: ReadRel)
    requires
        read_wf(rr),
    ensures
        rr.schema_spec() == Ok::<Seq<FieldV>, SchemaErrV>(schema_v(rr.base_schema->Some_0)),
{
}

/// A filter whose emit is direct derives exactly its input's schema: both
/// succeed with the same fields, or both fail with the same error.
pub proof fn lemma_filter_direct_schema(fr: FilterRel)
    requires
        filter_wf(fr),
        fr.common->Some_0.emit_kind->Some_0 is Direct,
    ensures
        fr.schema_spec() == rel_schema_v(fr.input->Some_0),
{
}

/// Concatenating schemas with disjoint field names succeeds and yields the
/// first schema's fields followed by the second's.
pub proof fn lemma_concat_disjoint(a: Seq<FieldV>, b: Seq<FieldV>)
    requires
        names_disjoint(a, b),
    ensures
        concat_v(a, b) == Ok::<Seq<FieldV>, SchemaErrV>(a + b),
{
}

} // verus!
