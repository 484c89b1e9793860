use validation_plan::intent::{Arg, FieldDecl, Intent, Literal, StructDecl, ValidationAttr};
use validation_plan::plan::compile;
use validation_plan::run::{ExternalCalls, KeyedEntry, SchemaOutcome, TypedPlan, validate};
use validation_plan::types::TypeDesc;
use validation_plan::value::{FieldValue, Record, Value};

fn s(t: &str) -> String {
    t.to_string()
}

fn field(name: &str, ty: &str, intents: Vec<Intent>) -> FieldDecl {
    FieldDecl {
        name: s(name),
        ty: TypeDesc::new(ty),
        validations: vec![ValidationAttr::Intents(intents)],
        metas: vec![],
    }
}

fn no_ext() -> ExternalCalls {
    ExternalCalls { regexes: vec![], customs: vec![], schemas: vec![] }
}

/// A parent with a `required_nested` child of type `Child`, whose own plan
/// requires a well-formed email.
fn parent_and_registry() -> (validation_plan::plan::ValidationPlan, Vec<TypedPlan>) {
    let parent = StructDecl {
        fields: vec![field("child", "Child", vec![Intent::Bare(s("required_nested"))])],
        struct_intents: vec![],
    };
    let child = StructDecl {
        fields: vec![field("mail", "String", vec![Intent::Bare(s("email"))])],
        struct_intents: vec![],
    };
    let parent_plan = compile(&parent).unwrap();
    let child_plan = compile(&child).unwrap();
    (parent_plan, vec![TypedPlan { ty: TypeDesc::new("Child"), plan: child_plan }])
}

fn child_record(mail: &str) -> Value {
    Value::Sub(Record {
        fields: vec![FieldValue { name: s("mail"), value: Value::Text(s(mail)) }],
    })
}

#[test]
fn nested_success() {
    let (plan, reg) = parent_and_registry();
    let rec = Record {
        fields: vec![FieldValue { name: s("child"), value: child_record("a@b.cd") }],
    };
    assert!(validate(&plan, &reg, &rec, &no_ext()).is_ok());
}

#[test]
fn nested_failure_is_flattened_under_parent_key() {
    let (plan, reg) = parent_and_registry();
    let rec = Record {
        fields: vec![FieldValue { name: s("child"), value: child_record("oops") }],
    };
    let errs = validate(&plan, &reg, &rec, &no_ext()).unwrap_err();
    assert_eq!(errs.groups.len(), 1);
    assert_eq!(errs.groups[0].field, "child");
    assert_eq!(errs.groups[0].entries[0].code, "email");
}

#[test]
fn absent_nested_value_fails_required_only() {
    let (plan, reg) = parent_and_registry();
    let rec = Record {
        fields: vec![FieldValue { name: s("child"), value: Value::Absent }],
    };
    let errs = validate(&plan, &reg, &rec, &no_ext()).unwrap_err();
    assert_eq!(errs.groups.len(), 1);
    assert_eq!(errs.groups[0].entries.len(), 1);
    assert_eq!(errs.groups[0].entries[0].code, "required");
}

#[test]
fn parent_schema_still_runs_when_only_child_fails() {
    let parent = StructDecl {
        fields: vec![field("child", "Child", vec![Intent::Bare(s("required_nested"))])],
        struct_intents: vec![Intent::Group(
            s("schema"),
            vec![Arg { name: s("function"), value: Literal::Text(s("whole")) }],
        )],
    };
    let child = StructDecl {
        fields: vec![field("mail", "String", vec![Intent::Bare(s("email"))])],
        struct_intents: vec![],
    };
    let plan = compile(&parent).unwrap();
    let reg = vec![TypedPlan { ty: TypeDesc::new("Child"), plan: compile(&child).unwrap() }];
    let rec = Record {
        fields: vec![FieldValue { name: s("child"), value: child_record("oops") }],
    };
    let ext = ExternalCalls {
        regexes: vec![],
        customs: vec![],
        schemas: vec![SchemaOutcome {
            function: s("whole"),
            errors: vec![KeyedEntry { key: s("pair"), code: s("uneven"), message: None }],
        }],
    };
    // the parent has no field-phase errors of its own, so even a skipping
    // schema rule runs; the child's errors arrive afterwards
    let errs = validate(&plan, &reg, &rec, &ext).unwrap_err();
    assert_eq!(errs.groups.len(), 2);
    assert_eq!(errs.groups[0].field, "pair");
    assert_eq!(errs.groups[0].entries[0].code, "uneven");
    assert_eq!(errs.groups[1].field, "child");
    assert_eq!(errs.groups[1].entries[0].code, "email");
}

#[test]
fn two_level_nesting_flattens_to_the_parent_of_each_level() {
    let top = StructDecl {
        fields: vec![field("middle", "Middle", vec![Intent::Bare(s("required_nested"))])],
        struct_intents: vec![],
    };
    let middle = StructDecl {
        fields: vec![field("leaf", "Leaf", vec![Intent::Bare(s("required_nested"))])],
        struct_intents: vec![],
    };
    let leaf = StructDecl {
        fields: vec![field("mail", "String", vec![Intent::Bare(s("email"))])],
        struct_intents: vec![],
    };
    let plan = compile(&top).unwrap();
    let reg = vec![
        TypedPlan { ty: TypeDesc::new("Middle"), plan: compile(&middle).unwrap() },
        TypedPlan { ty: TypeDesc::new("Leaf"), plan: compile(&leaf).unwrap() },
    ];
    let rec = Record {
        fields: vec![FieldValue {
            name: s("middle"),
            value: Value::Sub(Record {
                fields: vec![FieldValue {
                    name: s("leaf"),
                    value: Value::Sub(Record {
                        fields: vec![FieldValue {
                            name: s("mail"),
                            value: Value::Text(s("oops")),
                        }],
                    }),
                }],
            }),
        }],
    };
    let errs = validate(&plan, &reg, &rec, &no_ext()).unwrap_err();
    // the leaf's email error is flattened to "leaf" inside the middle
    // record, and that to "middle" at the top
    assert_eq!(errs.groups.len(), 1);
    assert_eq!(errs.groups[0].field, "middle");
    assert_eq!(errs.groups[0].entries[0].code, "email");
}

#[test]
fn unregistered_nested_type_adds_no_errors() {
    let parent = StructDecl {
        fields: vec![field("child", "Child", vec![Intent::Bare(s("required_nested"))])],
        struct_intents: vec![],
    };
    let plan = compile(&parent).unwrap();
    let rec = Record {
        fields: vec![FieldValue { name: s("child"), value: child_record("oops") }],
    };
    assert!(validate(&plan, &vec![], &rec, &no_ext()).is_ok());
}
