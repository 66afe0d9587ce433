use builder::artifact::{
    Action, BuilderArtifact, ErrorArtifact, Extraction, FieldArtifact, Initial, Setter,
};
use builder::attribute::{Diagnostic, EachConfig};
use builder::classify::Classification;
use builder::descriptor::{
    AttributeTag, FieldDescriptor, GenericArgument, PathArguments, PathSegment, Token,
    TypeDescriptor, TypeExpr, TypeShape,
};
use builder::synthesize::{
    builder_each_setter, classify_fields, report, synthesize, synthesize_field, ClassifiedField,
};

fn named(name: &str) -> TypeExpr {
    TypeExpr {
        text: name.to_string(),
        shape: TypeShape::Path(vec![PathSegment {
            ident: name.to_string(),
            arguments: PathArguments::Plain,
        }]),
    }
}

fn wrapped(wrapper: &str, inner: TypeExpr) -> TypeExpr {
    TypeExpr {
        text: format!("{}<{}>", wrapper, inner.text),
        shape: TypeShape::Path(vec![PathSegment {
            ident: wrapper.to_string(),
            arguments: PathArguments::AngleBracketed(vec![GenericArgument::Type(inner)]),
        }]),
    }
}

fn builder_pair(key: &str, source: &str) -> AttributeTag {
    AttributeTag {
        path: "builder".to_string(),
        arguments: Some(vec![
            Token::Ident(key.to_string()),
            Token::Punct('='),
            Token::Literal(source.to_string()),
        ]),
    }
}

fn each(name: &str) -> AttributeTag {
    builder_pair("each", &format!("\"{}\"", name))
}

fn field(name: &str, declared_type: TypeExpr, attributes: Vec<AttributeTag>) -> FieldDescriptor {
    FieldDescriptor { name: name.to_string(), declared_type, attributes }
}

fn setter(name: &str, parameter_type: &str, action: Action) -> Setter {
    Setter { name: name.to_string(), parameter_type: parameter_type.to_string(), action }
}

fn config(name: &str) -> EachConfig {
    EachConfig { element_setter_name: name.to_string() }
}

fn command() -> TypeDescriptor {
    TypeDescriptor {
        name: "Command".to_string(),
        fields: vec![
            field("executable", named("String"), vec![]),
            field("args", wrapped("Vec", named("String")), vec![each("arg")]),
            field("env", wrapped("Vec", named("String")), vec![each("env")]),
            field("current_dir", wrapped("Option", named("String")), vec![]),
        ],
    }
}

fn executable_artifact() -> FieldArtifact {
    FieldArtifact {
        name: "executable".to_string(),
        storage_type: "Option<String>".to_string(),
        initial: Initial::Unset,
        setters: vec![setter("executable", "String", Action::Store)],
        extraction: Extraction::Required {
            message: "field `executable` is not set".to_string(),
        },
    }
}

fn args_artifact() -> FieldArtifact {
    FieldArtifact {
        name: "args".to_string(),
        storage_type: "Vec<String>".to_string(),
        initial: Initial::Empty,
        setters: vec![
            setter("arg", "String", Action::Append),
            setter("args", "Vec<String>", Action::Replace),
        ],
        extraction: Extraction::Always,
    }
}

fn env_artifact() -> FieldArtifact {
    FieldArtifact {
        name: "env".to_string(),
        storage_type: "Vec<String>".to_string(),
        initial: Initial::Empty,
        setters: vec![setter("env", "String", Action::Append)],
        extraction: Extraction::Always,
    }
}

fn current_dir_artifact() -> FieldArtifact {
    FieldArtifact {
        name: "current_dir".to_string(),
        storage_type: "Option<String>".to_string(),
        initial: Initial::Unset,
        setters: vec![setter("current_dir", "String", Action::Store)],
        extraction: Extraction::Always,
    }
}

#[test]
fn synthesize_required_field() {
    let field = field("executable", named("String"), vec![]);
    let class = Classification::Required { declared_type: &field.declared_type };
    assert_eq!(synthesize_field(&field, &class), executable_artifact());
}

#[test]
fn synthesize_required_field_keeps_a_wrapper_it_did_not_recognize() {
    let declared = TypeExpr { text: "Vec<u8, Global>".to_string(), shape: TypeShape::Other };
    let field = field("bytes", declared, vec![]);
    let class = Classification::Required { declared_type: &field.declared_type };
    let artifact = synthesize_field(&field, &class);
    assert_eq!(artifact.storage_type, "Option<Vec<u8, Global>>");
    assert_eq!(artifact.initial, Initial::Unset);
    assert_eq!(artifact.setters, vec![setter("bytes", "Vec<u8, Global>", Action::Store)]);
    assert_eq!(
        artifact.extraction,
        Extraction::Required { message: "field `bytes` is not set".to_string() }
    );
}

#[test]
fn synthesize_optional_field() {
    let field = field("current_dir", wrapped("Option", named("String")), vec![]);
    let inner = named("String");
    let class = Classification::Optional { inner_type: &inner };
    assert_eq!(synthesize_field(&field, &class), current_dir_artifact());
}

#[test]
fn synthesize_repeated_field_without_element_setter() {
    let field = field("args", wrapped("Vec", named("String")), vec![]);
    let inner = named("String");
    let class = Classification::Repeated { inner_type: &inner, element_config: None };
    assert_eq!(
        synthesize_field(&field, &class),
        FieldArtifact {
            name: "args".to_string(),
            storage_type: "Vec<String>".to_string(),
            initial: Initial::Empty,
            setters: vec![setter("args", "Vec<String>", Action::Replace)],
            extraction: Extraction::Always,
        }
    );
}

#[test]
fn synthesize_repeated_field_with_element_setter_of_another_name() {
    let field = field("args", wrapped("Vec", named("String")), vec![each("arg")]);
    let inner = named("String");
    let class =
        Classification::Repeated { inner_type: &inner, element_config: Some(config("arg")) };
    assert_eq!(synthesize_field(&field, &class), args_artifact());
}

#[test]
fn synthesize_repeated_field_with_element_setter_of_the_same_name() {
    let field = field("env", wrapped("Vec", named("String")), vec![each("env")]);
    let inner = named("String");
    let class =
        Classification::Repeated { inner_type: &inner, element_config: Some(config("env")) };
    assert_eq!(synthesize_field(&field, &class), env_artifact());
}

#[test]
fn each_setter_comes_with_a_bulk_setter_under_another_name() {
    let field = field("args", wrapped("Vec", named("String")), vec![]);
    assert_eq!(
        builder_each_setter(&field, &named("String"), &config("arg")),
        vec![
            setter("arg", "String", Action::Append),
            setter("args", "Vec<String>", Action::Replace),
        ]
    );
}

#[test]
fn each_setter_stands_alone_under_the_field_name() {
    let field = field("args", wrapped("Vec", named("String")), vec![]);
    assert_eq!(
        builder_each_setter(&field, &named("String"), &config("args")),
        vec![setter("args", "String", Action::Append)]
    );
}

#[test]
fn report_places_the_diagnostic_in_the_record() {
    let diagnostic = Diagnostic { message: "expected something".to_string(), attribute: 2 };
    assert_eq!(
        report(&diagnostic, 5),
        ErrorArtifact { message: "expected something".to_string(), field: 5, attribute: 2 }
    );
}

#[test]
fn classify_fields_keeps_the_order() {
    let input = TypeDescriptor {
        name: "Command".to_string(),
        fields: vec![
            field("executable", named("String"), vec![]),
            field("args", wrapped("Vec", named("String")), vec![builder_pair("eac", "\"arg\"")]),
            field("current_dir", wrapped("Option", named("String")), vec![]),
        ],
    };
    let classified = classify_fields(&input);
    assert_eq!(classified.len(), 3);
    assert_eq!(classified[0].field, &input.fields[0]);
    assert_eq!(classified[1].field, &input.fields[1]);
    assert_eq!(classified[2].field, &input.fields[2]);
    assert!(matches!(classified[0].outcome, Ok(Classification::Required { .. })));
    assert_eq!(
        classified[1].outcome,
        Err(Diagnostic {
            message: "expected `builder(each = \"...\")`".to_string(),
            attribute: 0,
        })
    );
    assert!(matches!(classified[2].outcome, Ok(Classification::Optional { .. })));
}

#[test]
fn synthesize_partitions_fields_and_errors() {
    let first = field("first", named("u8"), vec![]);
    let second = field("second", named("u8"), vec![]);
    let third = field("third", named("u8"), vec![]);
    let classified = vec![
        ClassifiedField {
            field: &first,
            outcome: Err(Diagnostic { message: "one".to_string(), attribute: 3 }),
        },
        ClassifiedField {
            field: &second,
            outcome: Ok(Classification::Required { declared_type: &second.declared_type }),
        },
        ClassifiedField {
            field: &third,
            outcome: Err(Diagnostic { message: "two".to_string(), attribute: 0 }),
        },
    ];
    let artifact = synthesize("Record", &classified);
    assert_eq!(artifact.record_name, "Record");
    assert_eq!(artifact.builder_name, "RecordBuilder");
    assert_eq!(artifact.fields.len(), 1);
    assert_eq!(artifact.fields[0].name, "second");
    assert_eq!(
        artifact.error_artifacts,
        vec![
            ErrorArtifact { message: "one".to_string(), field: 0, attribute: 3 },
            ErrorArtifact { message: "two".to_string(), field: 2, attribute: 0 },
        ]
    );
}

#[test]
fn derive_command() {
    assert_eq!(
        builder::derive(&command()),
        BuilderArtifact {
            record_name: "Command".to_string(),
            builder_name: "CommandBuilder".to_string(),
            fields: vec![
                executable_artifact(),
                args_artifact(),
                env_artifact(),
                current_dir_artifact(),
            ],
            error_artifacts: vec![],
        }
    );
}

#[test]
fn derive_record_without_fields() {
    let input = TypeDescriptor { name: "Unit".to_string(), fields: vec![] };
    assert_eq!(
        builder::derive(&input),
        BuilderArtifact {
            record_name: "Unit".to_string(),
            builder_name: "UnitBuilder".to_string(),
            fields: vec![],
            error_artifacts: vec![],
        }
    );
}

#[test]
fn derive_plain_record_has_one_setter_per_field() {
    let input = TypeDescriptor {
        name: "Plain".to_string(),
        fields: vec![
            field("executable", named("String"), vec![]),
            field("args", wrapped("Vec", named("String")), vec![]),
            field("current_dir", wrapped("Option", named("String")), vec![]),
        ],
    };
    let artifact = builder::derive(&input);
    assert_eq!(artifact.error_artifacts, vec![]);
    assert_eq!(artifact.fields.len(), 3);
    assert_eq!(artifact.fields[0].setters, vec![setter("executable", "String", Action::Store)]);
    assert_eq!(artifact.fields[1].setters, vec![setter("args", "Vec<String>", Action::Replace)]);
    assert_eq!(artifact.fields[2].setters, vec![setter("current_dir", "String", Action::Store)]);
    assert_eq!(artifact.fields[1].initial, Initial::Empty);
    assert_eq!(artifact.fields[1].extraction, Extraction::Always);
}

#[test]
fn derive_names_each_required_field_in_its_message() {
    let input = TypeDescriptor {
        name: "Pair".to_string(),
        fields: vec![
            field("left", named("u8"), vec![]),
            field("middle", wrapped("Option", named("u8")), vec![]),
            field("right", named("u8"), vec![]),
        ],
    };
    let artifact = builder::derive(&input);
    assert_eq!(
        artifact.fields[0].extraction,
        Extraction::Required { message: "field `left` is not set".to_string() }
    );
    assert_eq!(artifact.fields[1].extraction, Extraction::Always);
    assert_eq!(
        artifact.fields[2].extraction,
        Extraction::Required { message: "field `right` is not set".to_string() }
    );
}

#[test]
fn derive_optional_field_is_never_required() {
    let input = TypeDescriptor {
        name: "Maybe".to_string(),
        fields: vec![field("current_dir", wrapped("Option", named("String")), vec![])],
    };
    let artifact = builder::derive(&input);
    assert_eq!(artifact.fields, vec![current_dir_artifact()]);
    assert_eq!(artifact.fields[0].initial, Initial::Unset);
    assert_eq!(artifact.fields[0].extraction, Extraction::Always);
}

#[test]
fn derive_reports_a_malformed_attribute_and_keeps_the_other_fields() {
    let mut input = command();
    input.fields[1].attributes = vec![builder_pair("eac", "\"arg\"")];
    let artifact = builder::derive(&input);
    assert_eq!(
        artifact.error_artifacts,
        vec![ErrorArtifact {
            message: "expected `builder(each = \"...\")`".to_string(),
            field: 1,
            attribute: 0,
        }]
    );
    assert_eq!(
        artifact.fields,
        vec![executable_artifact(), env_artifact(), current_dir_artifact()]
    );
    for field in &artifact.fields {
        assert_ne!(field.name, "args");
        for setter in &field.setters {
            assert_ne!(setter.name, "arg");
            assert_ne!(setter.name, "args");
        }
    }
    let mut without = command();
    without.fields.remove(1);
    assert_eq!(artifact.fields, builder::derive(&without).fields);
}

#[test]
fn derive_reports_a_value_that_is_no_string() {
    let mut input = command();
    input.fields[2].attributes = vec![
        AttributeTag { path: "doc".to_string(), arguments: None },
        builder_pair("each", "5"),
    ];
    let artifact = builder::derive(&input);
    assert_eq!(
        artifact.error_artifacts,
        vec![ErrorArtifact {
            message: "expected `builder(each = \"...\")`".to_string(),
            field: 2,
            attribute: 1,
        }]
    );
    assert_eq!(
        artifact.fields,
        vec![executable_artifact(), args_artifact(), current_dir_artifact()]
    );
}

#[test]
fn derive_reports_every_malformed_attribute() {
    let input = TypeDescriptor {
        name: "Broken".to_string(),
        fields: vec![
            field("first", named("u8"), vec![builder_pair("each", "1")]),
            field("second", wrapped("Option", named("u8")), vec![builder_pair("eac", "\"x\"")]),
            field("third", wrapped("Vec", named("u8")), vec![builder_pair("each", "b\"x\"")]),
        ],
    };
    let artifact = builder::derive(&input);
    assert_eq!(artifact.fields, vec![]);
    assert_eq!(artifact.error_artifacts.len(), 3);
    for (position, error) in artifact.error_artifacts.iter().enumerate() {
        assert_eq!(error.message, "expected `builder(each = \"...\")`");
        assert_eq!(error.field, position);
        assert_eq!(error.attribute, 0);
    }
}

#[test]
fn derive_twice_gives_the_same_artifact() {
    let input = command();
    let first = builder::derive(&input);
    let second = builder::derive(&input);
    assert_eq!(first, second);
    assert_eq!(first.source(), second.source());
    assert_eq!(first.source().as_bytes(), second.source().as_bytes());
    assert_eq!(first, builder::derive(&command()));
}
