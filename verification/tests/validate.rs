use substrait::proto;
use substrait::validate::plan::PlanError;
use substrait::validate::simple_extension_uri::SimpleExtensionURIError;
use substrait::validate::validator::Validator;
use substrait::validate::version::VersionError;
use substrait::validate::Validate;
use substrait::version::SemVer;

#[test]
fn plan_round_trip() {
    // A validated plan converts back to a raw plan with the same version,
    // the normalized extension URIs, and the retained relation trees.
    let relation = proto::PlanRel {
        rel_type: Some(proto::PlanRelType::Root(proto::RelRoot {
            input: Some(read_rel(vec![field("a", proto::Type::Int)])),
            names: vec![String::from("a")],
        })),
    };
    let raw = proto::Plan {
        version: Some(supported_proto_version()),
        extension_uris: vec![proto::SimpleExtensionUri {
            extension_uri_anchor: 1,
            uri: String::from("https://example.com/extensions.yaml"),
        }],
        relations: vec![relation],
    };
    let validated = raw.validate(&mut Validator::new()).unwrap();
    assert_eq!(validated.version().version(), &SemVer { major: 0, minor: 24, patch: 0 });
    let back = validated.into_raw();
    assert_eq!(back.version, Some(supported_proto_version()));
    assert_eq!(back.extension_uris.len(), 1);
    assert_eq!(back.extension_uris[0].extension_uri_anchor, 1);
    assert_eq!(
        back.extension_uris[0].uri.as_str(),
        "https://example.com/extensions.yaml"
    );
    assert_eq!(back.relations.len(), 1);
    match &back.relations[0].rel_type {
        Some(proto::PlanRelType::Root(root)) => {
            assert_eq!(root.names, vec![String::from("a")]);
            assert!(root.input.is_some());
        }
        other => panic!("expected a root relation, got {other:?}"),
    }
}

fn field(name: &str, ty: proto::Type) -> proto::Field {
    proto::Field { name: String::from(name), ty }
}

fn read_rel(fields: Vec<proto::Field>) -> proto::Rel {
    proto::Rel {
        rel_type: Some(proto::RelType::Read(Box::new(proto::ReadRel {
            common: Some(proto::RelCommon { emit_kind: Some(proto::EmitKind::Direct) }),
            base_schema: Some(proto::NamedStruct { fields }),
        }))),
    }
}

fn supported_proto_version() -> proto::Version {
    proto::Version {
        major_number: 0,
        minor_number: 24,
        patch_number: 0,
        ..Default::default()
    }
}

#[test]
fn version_version() {
    let version = proto::Version::default();
    assert_eq!(
        version.validate(&mut Validator::new()),
        Err(VersionError::Missing)
    );

    let version = proto::Version {
        major_number: 1,
        ..Default::default()
    };
    assert!(version.validate(&mut Validator::new()).is_ok());
}

#[test]
fn git_hash() {
    let base = proto::Version {
        major_number: 1,
        ..Default::default()
    };

    // Bad length
    let git_hash = String::from("short");
    let version = proto::Version {
        git_hash: git_hash.clone(),
        ..base.clone()
    };
    assert_eq!(
        version.validate(&mut Validator::new()),
        Err(VersionError::GitHash(git_hash))
    );

    // Not lowercase
    let git_hash = String::from("2FD4E1C67A2D28FCED849EE1BB76E7391B93EB12");
    let version = proto::Version {
        git_hash: git_hash.clone(),
        ..base.clone()
    };
    assert_eq!(
        version.validate(&mut Validator::new()),
        Err(VersionError::GitHash(git_hash))
    );

    // Not all hex digits
    let git_hash = String::from("2fd4e1c67a2d28fced849ee1bb76e7391b93eb1g");
    let version = proto::Version {
        git_hash: git_hash.clone(),
        ..base.clone()
    };
    assert_eq!(
        version.validate(&mut Validator::new()),
        Err(VersionError::GitHash(git_hash))
    );

    // Not all ascii
    let git_hash = String::from("2fd4e1c67a2d28fced849ee1bb76e7391b93eb1å");
    let version = proto::Version {
        git_hash: git_hash.clone(),
        ..base.clone()
    };
    assert_eq!(
        version.validate(&mut Validator::new()),
        Err(VersionError::GitHash(git_hash))
    );

    // Valid
    let git_hash = String::from("2fd4e1c67a2d28fced849ee1bb76e7391b93eb12");
    let version = proto::Version {
        git_hash,
        ..base.clone()
    };
    assert!(version.validate(&mut Validator::new()).is_ok());
}

#[test]
fn producer() {
    // Empty producer maps to `None`
    let version = proto::Version {
        major_number: 1,
        producer: String::from(""),
        ..Default::default()
    };
    assert!(version
        .validate(&mut Validator::new())
        .unwrap()
        .producer
        .is_none());
}

#[test]
fn convert() {
    let version = proto::Version {
        major_number: 1,
        minor_number: 2,
        patch_number: 3,
        git_hash: String::from(""),
        producer: String::from("test"),
    };
    assert_eq!(
        version
            .clone()
            .validate(&mut Validator::new())
            .unwrap()
            .into_raw(),
        version
    );
}

#[test]
fn git_hash_decode_encode() {
    // The decoded bytes match an independent decoder, and re-encoding them
    // yields the identical string.
    let git_hash = String::from("2fd4e1c67a2d28fced849ee1bb76e7391b93eb12");
    let version = proto::Version {
        major_number: 1,
        git_hash: git_hash.clone(),
        ..Default::default()
    };
    let validated = version.validate(&mut Validator::new()).unwrap();
    let bytes = validated.git_hash().unwrap().clone();
    assert_eq!(bytes.len(), 20);
    assert_eq!(bytes[0], 0x2f);
    assert_eq!(bytes[19], 0x12);
    assert_eq!(bytes, hex::decode(&git_hash).unwrap());
    assert_eq!(validated.into_raw().git_hash, git_hash);
}

#[test]
fn plan_version() {
    // Version could be missing
    let plan = proto::Plan {
        version: None,
        ..Default::default()
    };
    assert!(matches!(
        plan.validate(&mut Validator::new()),
        Err(PlanError::Version(VersionError::Missing))
    ));

    // Version could be invalid
    let plan = proto::Plan {
        version: Some(proto::Version::default()),
        ..Default::default()
    };
    assert!(matches!(
        plan.validate(&mut Validator::new()),
        Err(PlanError::Version(VersionError::Missing))
    ));

    // Version could be incompatible
    let plan = proto::Plan {
        version: Some(proto::Version {
            major_number: 0,
            minor_number: 0,
            patch_number: 42,
            ..Default::default()
        }),
        ..Default::default()
    };
    assert!(matches!(
        plan.validate(&mut Validator::new()),
        Err(PlanError::SubstraitVersion(_, _))
    ));
}

#[test]
fn plan_success() {
    // A plan with a valid version, no extension URIs and one valid relation
    // validates.
    let plan = proto::Plan {
        version: Some(supported_proto_version()),
        extension_uris: Vec::new(),
        relations: vec![proto::PlanRel {
            rel_type: Some(proto::PlanRelType::Rel(read_rel(vec![
                field("a", proto::Type::Int),
                field("b", proto::Type::Text),
            ]))),
        }],
    };
    let plan = plan.validate(&mut Validator::new()).unwrap();
    assert_eq!(plan.plan_relations().len(), 1);
    assert!(plan.simple_extension_uris().is_empty());
}

#[test]
fn missing_relations() {
    // A plan with a valid version and zero relations is rejected.
    let plan = proto::Plan {
        version: Some(supported_proto_version()),
        extension_uris: Vec::new(),
        relations: Vec::new(),
    };
    assert!(matches!(
        plan.validate(&mut Validator::new()),
        Err(PlanError::MissingRelations)
    ));
}

#[test]
fn duplicate_anchor() {
    // Reusing an anchor fails, citing the new URI and the one already
    // registered.
    let mut validator = Validator::new();
    let first = proto::SimpleExtensionUri {
        extension_uri_anchor: 1,
        uri: String::from("https://a"),
    };
    assert!(first.validate(&mut validator).is_ok());

    let second = proto::SimpleExtensionUri {
        extension_uri_anchor: 1,
        uri: String::from("https://b"),
    };
    match second.validate(&mut validator) {
        Err(SimpleExtensionURIError::DuplicateAnchor { added, defined }) => {
            assert_eq!(added.anchor(), 1);
            assert_eq!(added.uri().as_str(), url::Url::parse("https://b").unwrap().as_str());
            assert_eq!(defined.as_str(), url::Url::parse("https://a").unwrap().as_str());
        }
        other => panic!("expected a duplicate anchor error, got {other:?}"),
    }
}

#[test]
fn distinct_anchors() {
    // Distinct anchors both register; re-registering either cites the URI
    // it is bound to.
    let mut validator = Validator::new();
    let first = proto::SimpleExtensionUri {
        extension_uri_anchor: 1,
        uri: String::from("https://a"),
    };
    let second = proto::SimpleExtensionUri {
        extension_uri_anchor: 2,
        uri: String::from("https://b"),
    };
    assert!(first.validate(&mut validator).is_ok());
    assert!(second.validate(&mut validator).is_ok());

    let reuse_one = proto::SimpleExtensionUri {
        extension_uri_anchor: 1,
        uri: String::from("https://c"),
    };
    match reuse_one.validate(&mut validator) {
        Err(SimpleExtensionURIError::DuplicateAnchor { defined, .. }) => {
            assert_eq!(defined.as_str(), url::Url::parse("https://a").unwrap().as_str());
        }
        other => panic!("expected a duplicate anchor error, got {other:?}"),
    }
    let reuse_two = proto::SimpleExtensionUri {
        extension_uri_anchor: 2,
        uri: String::from("https://c"),
    };
    match reuse_two.validate(&mut validator) {
        Err(SimpleExtensionURIError::DuplicateAnchor { defined, .. }) => {
            assert_eq!(defined.as_str(), url::Url::parse("https://b").unwrap().as_str());
        }
        other => panic!("expected a duplicate anchor error, got {other:?}"),
    }
}

#[test]
fn invalid_uri() {
    // A string that does not parse as an absolute URI is rejected with the
    // original string in the error.
    let raw = proto::SimpleExtensionUri {
        extension_uri_anchor: 1,
        uri: String::from("not a uri"),
    };
    match raw.validate(&mut Validator::new()) {
        Err(SimpleExtensionURIError::InvalidURI(uri, _)) => {
            assert_eq!(uri.as_str(), "not a uri");
        }
        other => panic!("expected an invalid URI error, got {other:?}"),
    }
}

#[test]
fn uri_normalization() {
    // The stored URI is the parser's normalized serialization, as the url
    // crate produces it.
    let raw = proto::SimpleExtensionUri {
        extension_uri_anchor: 7,
        uri: String::from("HTTPS://Example.COM/functions_arithmetic.yaml"),
    };
    let validated = raw.validate(&mut Validator::new()).unwrap();
    assert_eq!(validated.anchor(), 7);
    assert_eq!(
        validated.uri().as_str(),
        url::Url::parse("HTTPS://Example.COM/functions_arithmetic.yaml")
            .unwrap()
            .as_str()
    );
    assert_eq!(
        validated.uri().as_str(),
        "https://example.com/functions_arithmetic.yaml"
    );
}

#[test]
fn supported_version_matches_semver() {
    // The caret check agrees with the semver crate's evaluation of the
    // corresponding caret requirement.
    let req = semver::VersionReq::parse("^0.24.0").unwrap();
    let cases = [
        (0u64, 24u64, 0u64),
        (0, 24, 7),
        (0, 25, 0),
        (0, 0, 42),
        (1, 24, 0),
        (0, 23, 9),
    ];
    for (major, minor, patch) in cases {
        assert_eq!(
            substrait::version::is_supported_version(&SemVer { major, minor, patch }),
            req.matches(&semver::Version::new(major, minor, patch)),
        );
    }
}

#[test]
fn empty_plan_relation() {
    let plan = proto::Plan {
        version: Some(supported_proto_version()),
        extension_uris: Vec::new(),
        relations: vec![proto::PlanRel { rel_type: None }],
    };
    assert!(matches!(
        plan.validate(&mut Validator::new()),
        Err(PlanError::PlanRelation(
            substrait::validate::plan_relation::PlanRelationError::Empty
        ))
    ));
}

#[test]
fn incomplete_relation() {
    // A relation without an operator is rejected as incomplete.
    let raw = proto::Rel { rel_type: None };
    assert_eq!(
        raw.validate(&mut Validator::new()),
        Err(substrait::validate::relation::RelationError::Incomplete)
    );
}

#[test]
fn root_missing_input() {
    let raw = proto::RelRoot {
        input: None,
        names: Vec::new(),
    };
    assert_eq!(
        raw.validate(&mut Validator::new()),
        Err(substrait::validate::root_relation::RootRelationError::MissingInput)
    );
}

#[test]
fn root_name_count() {
    // The declared names must match the derived schema's depth-first field
    // count exactly.
    let ok = proto::RelRoot {
        input: Some(read_rel(vec![
            field("a", proto::Type::Int),
            field("b", proto::Type::Text),
        ])),
        names: vec![String::from("a"), String::from("b")],
    };
    assert!(ok.validate(&mut Validator::new()).is_ok());

    let too_few = proto::RelRoot {
        input: Some(read_rel(vec![
            field("a", proto::Type::Int),
            field("b", proto::Type::Text),
        ])),
        names: vec![String::from("a")],
    };
    assert!(matches!(
        too_few.validate(&mut Validator::new()),
        Err(substrait::validate::root_relation::RootRelationError::Names { provided: 1 })
    ));

    // A nested field binds one name for itself and one per nested field.
    let nested = proto::RelRoot {
        input: Some(read_rel(vec![
            field("a", proto::Type::Int),
            field(
                "s",
                proto::Type::Nested(proto::NamedStruct {
                    fields: vec![field("x", proto::Type::Bool), field("y", proto::Type::Date)],
                }),
            ),
        ])),
        names: vec![
            String::from("a"),
            String::from("s"),
            String::from("x"),
            String::from("y"),
        ],
    };
    assert!(nested.validate(&mut Validator::new()).is_ok());
}

#[test]
fn relation_schema_error() {
    // A complete tree whose emit list points outside the field list is
    // rejected with the schema inconsistency.
    let raw = proto::Rel {
        rel_type: Some(proto::RelType::Filter(Box::new(proto::FilterRel {
            common: Some(proto::RelCommon {
                emit_kind: Some(proto::EmitKind::Emit(vec![9])),
            }),
            input: Some(read_rel(vec![field("a", proto::Type::Int)])),
        }))),
    };
    assert_eq!(
        raw.validate(&mut Validator::new()),
        Err(substrait::validate::relation::RelationError::Schema(
            substrait::relation::SchemaError::IndexOutOfRange { index: 9, field_count: 1 }
        ))
    );
}

#[test]
fn root_inner_error() {
    // An invalid relation inside a root relation is reported wrapped.
    let raw = proto::RelRoot {
        input: Some(proto::Rel { rel_type: None }),
        names: Vec::new(),
    };
    assert_eq!(
        raw.validate(&mut Validator::new()),
        Err(substrait::validate::root_relation::RootRelationError::Relation(
            substrait::validate::relation::RelationError::Incomplete
        ))
    );
}

#[test]
fn plan_bad_extension() {
    // An unparseable extension URI fails the plan with the wrapped error.
    let plan = proto::Plan {
        version: Some(supported_proto_version()),
        extension_uris: vec![proto::SimpleExtensionUri {
            extension_uri_anchor: 1,
            uri: String::from("not a uri"),
        }],
        relations: vec![proto::PlanRel {
            rel_type: Some(proto::PlanRelType::Rel(read_rel(vec![field(
                "a",
                proto::Type::Int,
            )]))),
        }],
    };
    assert!(matches!(
        plan.validate(&mut Validator::new()),
        Err(PlanError::SimpleExtension(
            SimpleExtensionURIError::InvalidURI(_, _)
        ))
    ));
}

#[test]
fn plan_duplicate_extension_anchor() {
    // A reused anchor inside a plan fails the plan with the wrapped error.
    let plan = proto::Plan {
        version: Some(supported_proto_version()),
        extension_uris: vec![
            proto::SimpleExtensionUri {
                extension_uri_anchor: 1,
                uri: String::from("https://a"),
            },
            proto::SimpleExtensionUri {
                extension_uri_anchor: 1,
                uri: String::from("https://b"),
            },
        ],
        relations: vec![proto::PlanRel {
            rel_type: Some(proto::PlanRelType::Rel(read_rel(vec![field(
                "a",
                proto::Type::Int,
            )]))),
        }],
    };
    assert!(matches!(
        plan.validate(&mut Validator::new()),
        Err(PlanError::SimpleExtension(
            SimpleExtensionURIError::DuplicateAnchor { .. }
        ))
    ));
}
