use substrait::proto;
use substrait::relation::Relation;
use substrait::relation::SchemaError;
use substrait::validate::plan_relation::PlanRelation;
use substrait::validate::validator::Validator;
use substrait::validate::Validate;

fn field(name: &str, ty: proto::Type) -> proto::Field {
    proto::Field { name: String::from(name), ty }
}

fn common_direct() -> proto::RelCommon {
    proto::RelCommon { emit_kind: Some(proto::EmitKind::Direct) }
}

fn read_rel(fields: Vec<proto::Field>) -> proto::Rel {
    proto::Rel {
        rel_type: Some(proto::RelType::Read(Box::new(proto::ReadRel {
            common: Some(common_direct()),
            base_schema: Some(proto::NamedStruct { fields }),
        }))),
    }
}

fn three_fields() -> proto::NamedStruct {
    proto::NamedStruct {
        fields: vec![
            field("a", proto::Type::Int),
            field("b", proto::Type::Text),
            field("c", proto::Type::Bool),
        ],
    }
}

#[test]
fn read_schema() {
    // A read derives its declared base schema verbatim.
    let rel = read_rel(three_fields().fields);
    assert_eq!(rel.schema(), Ok(three_fields()));
}

#[test]
fn filter_identity_emit() {
    // A filter with a direct emit derives its input's schema unchanged.
    let rel = proto::Rel {
        rel_type: Some(proto::RelType::Filter(Box::new(proto::FilterRel {
            common: Some(common_direct()),
            input: Some(read_rel(three_fields().fields)),
        }))),
    };
    assert_eq!(rel.schema(), read_rel(three_fields().fields).schema());
}

#[test]
fn emit_select() {
    // An explicit emit list selects fields by position, in list order.
    let selected = three_fields()
        .apply_emit(&proto::EmitKind::Emit(vec![2, 0]))
        .unwrap();
    assert_eq!(
        selected,
        proto::NamedStruct {
            fields: vec![field("c", proto::Type::Bool), field("a", proto::Type::Int)],
        }
    );
}

#[test]
fn emit_out_of_range() {
    // An emit position outside the field list is an error.
    assert_eq!(
        three_fields().apply_emit(&proto::EmitKind::Emit(vec![5])),
        Err(SchemaError::IndexOutOfRange { index: 5, field_count: 3 })
    );
}

#[test]
fn emit_direct() {
    // A direct emit passes the schema through unchanged.
    assert_eq!(
        three_fields().apply_emit(&proto::EmitKind::Direct),
        Ok(three_fields())
    );
}

#[test]
fn concat_fields() {
    // Concatenation appends the second schema's fields after the first's.
    let left = proto::NamedStruct {
        fields: vec![field("a", proto::Type::Int), field("b", proto::Type::Text)],
    };
    let right = proto::NamedStruct {
        fields: vec![field("c", proto::Type::Bool), field("d", proto::Type::Date)],
    };
    assert_eq!(
        left.concat(right),
        Ok(proto::NamedStruct {
            fields: vec![
                field("a", proto::Type::Int),
                field("b", proto::Type::Text),
                field("c", proto::Type::Bool),
                field("d", proto::Type::Date),
            ],
        })
    );
}

#[test]
fn concat_collision() {
    // A field name occurring on both sides is an error citing that name.
    let left = proto::NamedStruct {
        fields: vec![field("a", proto::Type::Int), field("b", proto::Type::Text)],
    };
    let right = proto::NamedStruct {
        fields: vec![field("b", proto::Type::Bool)],
    };
    assert_eq!(
        left.concat(right),
        Err(SchemaError::FieldNameCollision(String::from("b")))
    );
}

#[test]
fn join_schema() {
    // A join concatenates the schemas of its two inputs.
    let rel = proto::Rel {
        rel_type: Some(proto::RelType::Join(Box::new(proto::JoinRel {
            common: Some(common_direct()),
            left: Some(read_rel(vec![field("a", proto::Type::Int)])),
            right: Some(read_rel(vec![field("b", proto::Type::Text)])),
        }))),
    };
    assert_eq!(
        rel.schema(),
        Ok(proto::NamedStruct {
            fields: vec![field("a", proto::Type::Int), field("b", proto::Type::Text)],
        })
    );
}

#[test]
fn project_schema() {
    // A project appends one unnamed field per expression to the input's
    // fields before applying emit.
    let rel = proto::Rel {
        rel_type: Some(proto::RelType::Project(Box::new(proto::ProjectRel {
            common: Some(common_direct()),
            input: Some(read_rel(vec![field("a", proto::Type::Int)])),
            expressions: vec![
                proto::Expression::FieldRef(0),
                proto::Expression::Literal(proto::Literal::Bool(true)),
            ],
        }))),
    };
    assert_eq!(
        rel.schema(),
        Ok(proto::NamedStruct {
            fields: vec![
                field("a", proto::Type::Int),
                field("", proto::Type::Int),
                field("", proto::Type::Bool),
            ],
        })
    );
}

#[test]
fn aggregate_schema() {
    // An aggregate derives its grouping-key fields followed by one unnamed
    // field per measure.
    let rel = proto::Rel {
        rel_type: Some(proto::RelType::Aggregate(Box::new(proto::AggregateRel {
            common: Some(common_direct()),
            input: Some(read_rel(three_fields().fields)),
            grouping_fields: vec![1],
            measures: vec![proto::Measure { output_type: Some(proto::Type::Decimal) }],
        }))),
    };
    assert_eq!(
        rel.schema(),
        Ok(proto::NamedStruct {
            fields: vec![field("b", proto::Type::Text), field("", proto::Type::Decimal)],
        })
    );
}

fn lineitem_read() -> proto::Rel {
    read_rel(vec![
        field("L_ORDERKEY", proto::Type::Int),
        field("L_PARTKEY", proto::Type::Int),
        field("L_SUPPKEY", proto::Type::Int),
        field("L_LINENUMBER", proto::Type::Int),
        field("L_QUANTITY", proto::Type::Decimal),
        field("L_EXTENDEDPRICE", proto::Type::Decimal),
        field("L_DISCOUNT", proto::Type::Decimal),
        field("L_TAX", proto::Type::Decimal),
        field("L_RETURNFLAG", proto::Type::Text),
        field("L_LINESTATUS", proto::Type::Text),
        field("L_SHIPDATE", proto::Type::Date),
        field("L_COMMITDATE", proto::Type::Date),
        field("L_RECEIPTDATE", proto::Type::Date),
        field("L_SHIPINSTRUCT", proto::Type::Text),
        field("L_SHIPMODE", proto::Type::Text),
        field("L_COMMENT", proto::Type::Text),
    ])
}

#[test]
fn check() {
    // A pricing-summary query over the line-item table: filter by ship
    // date, group by return flag and line status, and compute eight
    // measures. The derived schema of the root relation must have as many
    // fields as the query declares output columns.
    let aggregate = proto::Rel {
        rel_type: Some(proto::RelType::Aggregate(Box::new(proto::AggregateRel {
            common: Some(common_direct()),
            input: Some(proto::Rel {
                rel_type: Some(proto::RelType::Filter(Box::new(proto::FilterRel {
                    common: Some(common_direct()),
                    input: Some(lineitem_read()),
                }))),
            }),
            grouping_fields: vec![8, 9],
            measures: vec![
                proto::Measure { output_type: Some(proto::Type::Decimal) },
                proto::Measure { output_type: Some(proto::Type::Decimal) },
                proto::Measure { output_type: Some(proto::Type::Decimal) },
                proto::Measure { output_type: Some(proto::Type::Decimal) },
                proto::Measure { output_type: Some(proto::Type::Decimal) },
                proto::Measure { output_type: Some(proto::Type::Decimal) },
                proto::Measure { output_type: Some(proto::Type::Decimal) },
                proto::Measure { output_type: Some(proto::Type::Int) },
            ],
        }))),
    };
    let names = vec![
        String::from("L_RETURNFLAG"),
        String::from("L_LINESTATUS"),
        String::from("SUM_QTY"),
        String::from("SUM_BASE_PRICE"),
        String::from("SUM_DISC_PRICE"),
        String::from("SUM_CHARGE"),
        String::from("AVG_QTY"),
        String::from("AVG_PRICE"),
        String::from("AVG_DISC"),
        String::from("COUNT_ORDER"),
    ];
    let joined = proto::Rel {
        rel_type: Some(proto::RelType::Join(Box::new(proto::JoinRel {
            common: Some(common_direct()),
            left: Some(read_rel(vec![field("o_orderkey", proto::Type::Int)])),
            right: Some(read_rel(vec![field("c_custkey", proto::Type::Int)])),
        }))),
    };
    let plan = proto::Plan {
        version: Some(proto::Version {
            major_number: 0,
            minor_number: 24,
            patch_number: 0,
            ..Default::default()
        }),
        extension_uris: vec![
            proto::SimpleExtensionUri {
                extension_uri_anchor: 1,
                uri: String::from("https://example.com/functions_datetime.yaml"),
            },
            proto::SimpleExtensionUri {
                extension_uri_anchor: 2,
                uri: String::from("https://example.com/functions_arithmetic_decimal.yaml"),
            },
            proto::SimpleExtensionUri {
                extension_uri_anchor: 3,
                uri: String::from("https://example.com/functions_aggregate_generic.yaml"),
            },
        ],
        relations: vec![
            proto::PlanRel {
                rel_type: Some(proto::PlanRelType::Root(proto::RelRoot {
                    input: Some(aggregate),
                    names: names.clone(),
                })),
            },
            proto::PlanRel {
                rel_type: Some(proto::PlanRelType::Rel(joined)),
            },
        ],
    };
    let validated = plan.validate(&mut Validator::new()).unwrap();
    assert_eq!(validated.simple_extension_uris().len(), 3);
    assert_eq!(validated.plan_relations().len(), 2);
    match &validated.plan_relations()[0] {
        PlanRelation::RootRelation(root) => {
            assert_eq!(root.relation().schema().fields.len(), names.len());
            assert_eq!(root.names(), &names);
        }
        other => panic!("expected a root relation, got {other:?}"),
    }
    match &validated.plan_relations()[1] {
        PlanRelation::Relation(relation) => {
            assert_eq!(relation.schema().fields.len(), 2);
        }
        other => panic!("expected a bare relation, got {other:?}"),
    }
}
