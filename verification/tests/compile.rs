use validation_plan::intent::{Arg, FieldDecl, Intent, Literal, MetaArg, MetaItem, StructDecl,
    ValidationAttr};
use validation_plan::plan::compile;
use validation_plan::types::TypeDesc;
use validation_plan::validation::{ErrorKind, Validator};

fn s(t: &str) -> String {
    t.to_string()
}

fn field(name: &str, ty: &str, intents: Vec<Intent>) -> FieldDecl {
    FieldDecl {
        name: s(name),
        ty: TypeDesc::new(ty),
        validations: vec![ValidationAttr::Intents(intents)],
        metas: vec![],
    }
}

fn one_field_decl(name: &str, ty: &str, intents: Vec<Intent>) -> StructDecl {
    StructDecl { fields: vec![field(name, ty, intents)], struct_intents: vec![] }
}

#[test]
fn email_on_string_compiles() {
    let decl = one_field_decl("mail", "String", vec![Intent::Bare(s("email"))]);
    let plan = compile(&decl).unwrap();
    assert_eq!(plan.fields.len(), 1);
    assert_eq!(plan.fields[0].checks.len(), 1);
    assert_eq!(plan.fields[0].checks[0].validator, Validator::Email);
    assert_eq!(plan.fields[0].external_name, "mail");
}

#[test]
fn email_on_bool_is_rejected() {
    let decl = one_field_decl("flag", "bool", vec![Intent::Bare(s("email"))]);
    let e = compile(&decl).unwrap_err();
    assert_eq!(e.kind, ErrorKind::TypeIncompatible);
    assert_eq!(e.field, "flag");
    assert_eq!(e.subject, "email");
}

#[test]
fn length_on_bool_is_rejected() {
    let decl = one_field_decl(
        "flag",
        "bool",
        vec![Intent::Group(s("length"), vec![Arg { name: s("min"), value: Literal::Num(1) }])],
    );
    let e = compile(&decl).unwrap_err();
    assert_eq!(e.kind, ErrorKind::TypeIncompatible);
}

#[test]
fn length_without_bounds_is_rejected() {
    let decl = one_field_decl("name", "String", vec![Intent::Group(s("length"), vec![])]);
    let e = compile(&decl).unwrap_err();
    assert_eq!(e.kind, ErrorKind::MissingBounds);
}

#[test]
fn range_without_bounds_is_rejected() {
    let decl = one_field_decl("age", "i64", vec![Intent::Group(s("range"), vec![])]);
    let e = compile(&decl).unwrap_err();
    assert_eq!(e.kind, ErrorKind::MissingBounds);
}

#[test]
fn length_with_min_and_max_compiles() {
    let decl = one_field_decl(
        "name",
        "Option<String>",
        vec![Intent::Group(
            s("length"),
            vec![
                Arg { name: s("min"), value: Literal::Num(1) },
                Arg { name: s("max"), value: Literal::Num(8) },
            ],
        )],
    );
    let plan = compile(&decl).unwrap();
    assert_eq!(
        plan.fields[0].checks[0].validator,
        Validator::Length { min: Some(1), max: Some(8), equal: None }
    );
}

#[test]
fn unknown_validator_is_rejected() {
    let decl = one_field_decl("name", "String", vec![Intent::Bare(s("sparkles"))]);
    let e = compile(&decl).unwrap_err();
    assert_eq!(e.kind, ErrorKind::UnknownValidator);
    assert_eq!(e.subject, "sparkles");
}

#[test]
fn wrong_literal_shape_is_rejected() {
    let decl = one_field_decl("name", "String", vec![Intent::Assign(s("contains"), Literal::Num(7))]);
    let e = compile(&decl).unwrap_err();
    assert_eq!(e.kind, ErrorKind::WrongLiteralShape);
}

#[test]
fn unknown_argument_is_rejected() {
    let decl = one_field_decl(
        "name",
        "String",
        vec![Intent::Group(s("length"), vec![Arg { name: s("size"), value: Literal::Num(3) }])],
    );
    let e = compile(&decl).unwrap_err();
    assert_eq!(e.kind, ErrorKind::UnknownArgument);
    assert_eq!(e.subject, "size");
}

#[test]
fn custom_without_function_is_rejected() {
    let decl = one_field_decl("name", "String", vec![Intent::Group(s("custom"), vec![])]);
    let e = compile(&decl).unwrap_err();
    assert_eq!(e.kind, ErrorKind::MissingArgument);
    assert_eq!(e.subject, "function");
}

#[test]
fn must_match_missing_field_is_rejected() {
    let decl = one_field_decl(
        "password",
        "String",
        vec![Intent::Assign(s("must_match"), Literal::Text(s("password2")))],
    );
    let e = compile(&decl).unwrap_err();
    assert_eq!(e.kind, ErrorKind::CrossFieldMismatch);
    assert_eq!(e.subject, "password2");
}

#[test]
fn must_match_different_type_is_rejected() {
    let decl = StructDecl {
        fields: vec![
            field(
                "password",
                "String",
                vec![Intent::Assign(s("must_match"), Literal::Text(s("password2")))],
            ),
            field("password2", "i64", vec![]),
        ],
        struct_intents: vec![],
    };
    let e = compile(&decl).unwrap_err();
    assert_eq!(e.kind, ErrorKind::CrossFieldMismatch);
}

#[test]
fn must_match_same_type_compiles() {
    let decl = StructDecl {
        fields: vec![
            field(
                "password",
                "String",
                vec![Intent::Assign(s("must_match"), Literal::Text(s("password2")))],
            ),
            field("password2", "String", vec![Intent::Bare(s("required"))]),
        ],
        struct_intents: vec![],
    };
    let plan = compile(&decl).unwrap();
    assert_eq!(plan.fields[0].checks[0].validator, Validator::MustMatch(s("password2")));
}

#[test]
fn type_equality_ignores_whitespace() {
    let decl = StructDecl {
        fields: vec![
            field(
                "a",
                "Vec< u8 >",
                vec![Intent::Assign(s("must_match"), Literal::Text(s("b")))],
            ),
            field("b", "Vec<u8>", vec![Intent::Bare(s("required"))]),
        ],
        struct_intents: vec![],
    };
    assert!(compile(&decl).is_ok());
}

#[test]
fn required_nested_expands_to_required_then_nested() {
    let decl = one_field_decl("child", "Child", vec![Intent::Bare(s("required_nested"))]);
    let plan = compile(&decl).unwrap();
    assert_eq!(plan.fields[0].checks.len(), 2);
    assert_eq!(plan.fields[0].checks[0].validator, Validator::Required);
    assert_eq!(plan.fields[0].checks[1].validator, Validator::Nested);
}

#[test]
fn bare_marker_defaults_to_nested() {
    let decl = StructDecl {
        fields: vec![FieldDecl {
            name: s("child"),
            ty: TypeDesc::new("Child"),
            validations: vec![ValidationAttr::Marker],
            metas: vec![],
        }],
        struct_intents: vec![],
    };
    let plan = compile(&decl).unwrap();
    assert_eq!(plan.fields[0].checks[0].validator, Validator::Nested);
}

#[test]
fn empty_validator_list_is_rejected() {
    let decl = one_field_decl("name", "String", vec![]);
    // one annotation with no intents declares validation but yields nothing
    let e = compile(&decl).unwrap_err();
    assert_eq!(e.kind, ErrorKind::EmptyValidatorList);
}

#[test]
fn unnamed_field_is_rejected() {
    let decl = one_field_decl("", "String", vec![Intent::Bare(s("required"))]);
    let e = compile(&decl).unwrap_err();
    assert_eq!(e.kind, ErrorKind::UnnamedField);
}

#[test]
fn rename_sets_external_name() {
    let decl = StructDecl {
        fields: vec![FieldDecl {
            name: s("internal_id"),
            ty: TypeDesc::new("String"),
            validations: vec![ValidationAttr::Intents(vec![Intent::Bare(s("required"))])],
            metas: vec![MetaItem::Pair(s("rename"), Literal::Text(s("id")))],
        }],
        struct_intents: vec![],
    };
    let plan = compile(&decl).unwrap();
    assert_eq!(plan.fields[0].external_name, "id");
    assert_eq!(plan.fields[0].decl_name, "internal_id");
}

#[test]
fn rename_found_one_level_deep() {
    let decl = StructDecl {
        fields: vec![FieldDecl {
            name: s("inner"),
            ty: TypeDesc::new("String"),
            validations: vec![ValidationAttr::Intents(vec![Intent::Bare(s("required"))])],
            metas: vec![MetaItem::Group(
                s("serialization"),
                vec![MetaArg::Pair(s("rename"), Literal::Text(s("outer")))],
            )],
        }],
        struct_intents: vec![],
    };
    let plan = compile(&decl).unwrap();
    assert_eq!(plan.fields[0].external_name, "outer");
}

#[test]
fn schema_intent_compiles() {
    let decl = StructDecl {
        fields: vec![field("name", "String", vec![Intent::Bare(s("required"))])],
        struct_intents: vec![Intent::Group(
            s("schema"),
            vec![
                Arg { name: s("function"), value: Literal::Text(s("check_all")) },
                Arg { name: s("skip_on_field_errors"), value: Literal::Truth(false) },
            ],
        )],
    };
    let plan = compile(&decl).unwrap();
    assert_eq!(plan.schemas.len(), 1);
    assert_eq!(plan.schemas[0].function, "check_all");
    assert!(!plan.schemas[0].skip_on_field_errors);
}

#[test]
fn schema_skip_defaults_to_true() {
    let decl = StructDecl {
        fields: vec![],
        struct_intents: vec![Intent::Group(
            s("schema"),
            vec![Arg { name: s("function"), value: Literal::Text(s("check_all")) }],
        )],
    };
    let plan = compile(&decl).unwrap();
    assert!(plan.schemas[0].skip_on_field_errors);
}

#[test]
fn schema_without_function_is_rejected() {
    let decl = StructDecl {
        fields: vec![],
        struct_intents: vec![Intent::Group(s("schema"), vec![])],
    };
    let e = compile(&decl).unwrap_err();
    assert_eq!(e.kind, ErrorKind::SchemaFunctionMissing);
}

#[test]
fn non_schema_struct_intent_is_rejected() {
    let decl = StructDecl {
        fields: vec![],
        struct_intents: vec![Intent::Bare(s("validate_me"))],
    };
    let e = compile(&decl).unwrap_err();
    assert_eq!(e.kind, ErrorKind::SchemaIntentInvalid);
}

#[test]
fn schema_unknown_argument_is_rejected() {
    let decl = StructDecl {
        fields: vec![],
        struct_intents: vec![Intent::Group(
            s("schema"),
            vec![Arg { name: s("fn"), value: Literal::Text(s("x")) }],
        )],
    };
    let e = compile(&decl).unwrap_err();
    assert_eq!(e.kind, ErrorKind::UnknownArgument);
}
