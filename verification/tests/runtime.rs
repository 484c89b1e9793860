use validation_plan::intent::{Arg, FieldDecl, Intent, Literal, MetaItem, StructDecl,
    ValidationAttr};
use validation_plan::plan::compile;
use validation_plan::run::{CustomOutcome, ExternalCalls, KeyedEntry, RegexOutcome, SchemaOutcome,
    TypedPlan, validate};
use validation_plan::types::TypeDesc;
use validation_plan::value::{FieldValue, Record, Value};

fn s(t: &str) -> String {
    t.to_string()
}

fn field(name: &str, ty: &str, intents: Vec<Intent>) -> FieldDecl {
    FieldDecl {
        name: s(name),
        ty: TypeDesc::new(ty),
        validations: vec![ValidationAttr::Intents(intents)],
        metas: vec![],
    }
}

fn record(fields: Vec<(&str, Value)>) -> Record {
    Record {
        fields: fields
            .into_iter()
            .map(|(n, v)| FieldValue { name: s(n), value: v })
            .collect(),
    }
}

fn no_ext() -> ExternalCalls {
    ExternalCalls { regexes: vec![], customs: vec![], schemas: vec![] }
}

#[test]
fn all_validators_satisfied_succeeds() {
    let decl = StructDecl {
        fields: vec![
            field("mail", "String", vec![Intent::Bare(s("email"))]),
            field(
                "name",
                "String",
                vec![Intent::Group(
                    s("length"),
                    vec![
                        Arg { name: s("min"), value: Literal::Num(1) },
                        Arg { name: s("max"), value: Literal::Num(10) },
                    ],
                )],
            ),
            field(
                "age",
                "i64",
                vec![Intent::Group(
                    s("range"),
                    vec![
                        Arg { name: s("min"), value: Literal::Num(0) },
                        Arg { name: s("max"), value: Literal::Num(150) },
                    ],
                )],
            ),
        ],
        struct_intents: vec![],
    };
    let plan = compile(&decl).unwrap();
    let rec = record(vec![
        ("mail", Value::Text(s("someone@example.com"))),
        ("name", Value::Text(s("Ada"))),
        ("age", Value::Num(36)),
    ]);
    assert!(validate(&plan, &vec![], &rec, &no_ext()).is_ok());
}

#[test]
fn one_violation_yields_one_entry_with_default_code() {
    let decl = StructDecl {
        fields: vec![
            field("mail", "String", vec![Intent::Bare(s("email"))]),
            field("age", "i64", vec![Intent::Group(
                s("range"),
                vec![Arg { name: s("min"), value: Literal::Num(0) }],
            )]),
        ],
        struct_intents: vec![],
    };
    let plan = compile(&decl).unwrap();
    let rec = record(vec![
        ("mail", Value::Text(s("not-an-email"))),
        ("age", Value::Num(5)),
    ]);
    let errs = validate(&plan, &vec![], &rec, &no_ext()).unwrap_err();
    assert_eq!(errs.groups.len(), 1);
    assert_eq!(errs.groups[0].field, "mail");
    assert_eq!(errs.groups[0].entries.len(), 1);
    assert_eq!(errs.groups[0].entries[0].code, "email");
}

#[test]
fn declared_code_overrides_default() {
    let decl = StructDecl {
        fields: vec![field(
            "mail",
            "String",
            vec![Intent::Group(
                s("email"),
                vec![
                    Arg { name: s("code"), value: Literal::Text(s("bad_mail")) },
                    Arg { name: s("message"), value: Literal::Text(s("fix the address")) },
                ],
            )],
        )],
        struct_intents: vec![],
    };
    let plan = compile(&decl).unwrap();
    let rec = record(vec![("mail", Value::Text(s("nope")))]);
    let errs = validate(&plan, &vec![], &rec, &no_ext()).unwrap_err();
    assert_eq!(errs.groups[0].entries[0].code, "bad_mail");
    assert_eq!(errs.groups[0].entries[0].message, Some(s("fix the address")));
}

#[test]
fn required_failure_suppresses_other_validators() {
    let decl = StructDecl {
        fields: vec![field(
            "mail",
            "Option<String>",
            vec![
                Intent::Bare(s("required")),
                Intent::Bare(s("email")),
                Intent::Group(
                    s("length"),
                    vec![Arg { name: s("min"), value: Literal::Num(3) }],
                ),
            ],
        )],
        struct_intents: vec![],
    };
    let plan = compile(&decl).unwrap();
    let rec = record(vec![("mail", Value::Absent)]);
    let errs = validate(&plan, &vec![], &rec, &no_ext()).unwrap_err();
    assert_eq!(errs.groups.len(), 1);
    assert_eq!(errs.groups[0].entries.len(), 1);
    assert_eq!(errs.groups[0].entries[0].code, "required");
}

#[test]
fn multiple_failures_on_one_field_accumulate() {
    let decl = StructDecl {
        fields: vec![field(
            "mail",
            "String",
            vec![
                Intent::Bare(s("email")),
                Intent::Group(
                    s("length"),
                    vec![Arg { name: s("min"), value: Literal::Num(30) }],
                ),
            ],
        )],
        struct_intents: vec![],
    };
    let plan = compile(&decl).unwrap();
    let rec = record(vec![("mail", Value::Text(s("short")))]);
    let errs = validate(&plan, &vec![], &rec, &no_ext()).unwrap_err();
    assert_eq!(errs.groups[0].entries.len(), 2);
    assert_eq!(errs.groups[0].entries[0].code, "email");
    assert_eq!(errs.groups[0].entries[1].code, "length");
}

#[test]
fn must_match_fails_exactly_when_values_differ() {
    let decl = StructDecl {
        fields: vec![
            field(
                "password",
                "String",
                vec![Intent::Assign(s("must_match"), Literal::Text(s("password2")))],
            ),
            field("password2", "String", vec![Intent::Bare(s("required"))]),
        ],
        struct_intents: vec![],
    };
    let plan = compile(&decl).unwrap();
    let same = record(vec![
        ("password", Value::Text(s("hunter"))),
        ("password2", Value::Text(s("hunter"))),
    ]);
    assert!(validate(&plan, &vec![], &same, &no_ext()).is_ok());
    let diff = record(vec![
        ("password", Value::Text(s("hunter"))),
        ("password2", Value::Text(s("gatherer"))),
    ]);
    let errs = validate(&plan, &vec![], &diff, &no_ext()).unwrap_err();
    assert_eq!(errs.groups[0].field, "password");
    assert_eq!(errs.groups[0].entries[0].code, "must_match");
}

#[test]
fn renamed_field_reports_under_external_name() {
    let decl = StructDecl {
        fields: vec![FieldDecl {
            name: s("internal_id"),
            ty: TypeDesc::new("Option<String>"),
            validations: vec![ValidationAttr::Intents(vec![Intent::Bare(s("required"))])],
            metas: vec![MetaItem::Pair(s("rename"), Literal::Text(s("id")))],
        }],
        struct_intents: vec![],
    };
    let plan = compile(&decl).unwrap();
    let rec = record(vec![("internal_id", Value::Absent)]);
    let errs = validate(&plan, &vec![], &rec, &no_ext()).unwrap_err();
    assert_eq!(errs.groups[0].field, "id");
}

#[test]
fn schema_skipped_on_field_errors_by_default() {
    let decl = StructDecl {
        fields: vec![field("mail", "String", vec![Intent::Bare(s("email"))])],
        struct_intents: vec![Intent::Group(
            s("schema"),
            vec![Arg { name: s("function"), value: Literal::Text(s("whole")) }],
        )],
    };
    let plan = compile(&decl).unwrap();
    let rec = record(vec![("mail", Value::Text(s("bad")))]);
    let ext = ExternalCalls {
        regexes: vec![],
        customs: vec![],
        schemas: vec![SchemaOutcome {
            function: s("whole"),
            errors: vec![KeyedEntry { key: s("__all__"), code: s("whole_bad"), message: None }],
        }],
    };
    let errs = validate(&plan, &vec![], &rec, &ext).unwrap_err();
    // only the field error: the schema function's outcome was not consulted
    assert_eq!(errs.groups.len(), 1);
    assert_eq!(errs.groups[0].field, "mail");
}

#[test]
fn schema_runs_when_skip_is_false() {
    let decl = StructDecl {
        fields: vec![field("mail", "String", vec![Intent::Bare(s("email"))])],
        struct_intents: vec![Intent::Group(
            s("schema"),
            vec![
                Arg { name: s("function"), value: Literal::Text(s("whole")) },
                Arg { name: s("skip_on_field_errors"), value: Literal::Truth(false) },
            ],
        )],
    };
    let plan = compile(&decl).unwrap();
    let rec = record(vec![("mail", Value::Text(s("bad")))]);
    let ext = ExternalCalls {
        regexes: vec![],
        customs: vec![],
        schemas: vec![SchemaOutcome {
            function: s("whole"),
            errors: vec![KeyedEntry { key: s("__all__"), code: s("whole_bad"), message: None }],
        }],
    };
    let errs = validate(&plan, &vec![], &rec, &ext).unwrap_err();
    assert_eq!(errs.groups.len(), 2);
    assert_eq!(errs.groups[1].field, "__all__");
    assert_eq!(errs.groups[1].entries[0].code, "whole_bad");
}

#[test]
fn schema_runs_when_no_field_errors() {
    let decl = StructDecl {
        fields: vec![field("mail", "String", vec![Intent::Bare(s("email"))])],
        struct_intents: vec![Intent::Group(
            s("schema"),
            vec![Arg { name: s("function"), value: Literal::Text(s("whole")) }],
        )],
    };
    let plan = compile(&decl).unwrap();
    let rec = record(vec![("mail", Value::Text(s("a@b.cd")))]);
    let ext = ExternalCalls {
        regexes: vec![],
        customs: vec![],
        schemas: vec![SchemaOutcome {
            function: s("whole"),
            errors: vec![KeyedEntry { key: s("pair"), code: s("uneven"), message: None }],
        }],
    };
    let errs = validate(&plan, &vec![], &rec, &ext).unwrap_err();
    assert_eq!(errs.groups.len(), 1);
    assert_eq!(errs.groups[0].field, "pair");
    assert_eq!(errs.groups[0].entries[0].code, "uneven");
}

#[test]
fn custom_outcome_is_reported() {
    let decl = StructDecl {
        fields: vec![field(
            "name",
            "String",
            vec![Intent::Assign(s("custom"), Literal::Text(s("check_name")))],
        )],
        struct_intents: vec![],
    };
    let plan = compile(&decl).unwrap();
    let rec = record(vec![("name", Value::Text(s("zz")))]);
    let ext = ExternalCalls {
        regexes: vec![],
        customs: vec![CustomOutcome {
            function: s("check_name"),
            field: s("name"),
            failure: Some(s("odd_name")),
        }],
        schemas: vec![],
    };
    let errs = validate(&plan, &vec![], &rec, &ext).unwrap_err();
    assert_eq!(errs.groups[0].entries[0].code, "odd_name");
}

#[test]
fn regex_outcome_is_reported() {
    let decl = StructDecl {
        fields: vec![field(
            "name",
            "String",
            vec![Intent::Assign(s("regex"), Literal::Text(s("NAME_RE")))],
        )],
        struct_intents: vec![],
    };
    let plan = compile(&decl).unwrap();
    let rec = record(vec![("name", Value::Text(s("zz")))]);
    let ext = ExternalCalls {
        regexes: vec![RegexOutcome { path: s("NAME_RE"), matched: false }],
        customs: vec![],
        schemas: vec![],
    };
    let errs = validate(&plan, &vec![], &rec, &ext).unwrap_err();
    assert_eq!(errs.groups[0].entries[0].code, "regex");
}

#[test]
fn contains_checks_substring() {
    let decl = StructDecl {
        fields: vec![field(
            "mail",
            "String",
            vec![Intent::Assign(s("contains"), Literal::Text(s("@")))],
        )],
        struct_intents: vec![],
    };
    let plan = compile(&decl).unwrap();
    let ok = record(vec![("mail", Value::Text(s("a@b")))]);
    assert!(validate(&plan, &vec![], &ok, &no_ext()).is_ok());
    let bad = record(vec![("mail", Value::Text(s("ab")))]);
    let errs = validate(&plan, &vec![], &bad, &no_ext()).unwrap_err();
    assert_eq!(errs.groups[0].entries[0].code, "contains");
}

#[test]
fn validate_twice_is_identical() {
    let decl = StructDecl {
        fields: vec![
            field("mail", "String", vec![Intent::Bare(s("email"))]),
            field("age", "i64", vec![Intent::Group(
                s("range"),
                vec![Arg { name: s("max"), value: Literal::Num(10) }],
            )]),
        ],
        struct_intents: vec![],
    };
    let plan = compile(&decl).unwrap();
    let rec = record(vec![
        ("mail", Value::Text(s("oops"))),
        ("age", Value::Num(99)),
    ]);
    let r1 = validate(&plan, &vec![], &rec, &no_ext()).unwrap_err();
    let r2 = validate(&plan, &vec![], &rec, &no_ext()).unwrap_err();
    assert_eq!(r1, r2);
}

#[test]
fn plans_are_reusable_across_records() {
    let decl = StructDecl {
        fields: vec![field("mail", "String", vec![Intent::Bare(s("email"))])],
        struct_intents: vec![],
    };
    let plan = compile(&decl).unwrap();
    let good = record(vec![("mail", Value::Text(s("a@b.cd")))]);
    let bad = record(vec![("mail", Value::Text(s("nope")))]);
    assert!(validate(&plan, &vec![], &good, &no_ext()).is_ok());
    assert!(validate(&plan, &vec![], &bad, &no_ext()).is_err());
    assert!(validate(&plan, &vec![], &good, &no_ext()).is_ok());
}

#[test]
fn typed_plan_registry_is_public() {
    let decl = StructDecl { fields: vec![], struct_intents: vec![] };
    let plan = compile(&decl).unwrap();
    let tp = TypedPlan { ty: TypeDesc::new("Child"), plan };
    let reg = vec![tp];
    assert_eq!(reg.len(), 1);
}
