//! Laws of compilation and execution.
//!
//! Each proof function here states one guarantee of the library over the
//! spec-level models that the executable functions' contracts are pinned
//! to, so the guarantee carries to every run.

use vstd::prelude::*;
use crate::errors::{EntryModel, ErrorsModel};
use crate::extract::{spec_bounds_fold, spec_field_validators, spec_find_rename,
    spec_intent_validators, empty_bounds, type_err};
use crate::intent::{FieldDecl, Intent};
use crate::run::{ExternalCalls, TypedPlan, field_value, has_nested, merge_keyed, spec_check,
    spec_field_errors, spec_phase_a, spec_phase_b, spec_phase_c, spec_schema_errors,
    spec_validate};
use crate::validation::{ErrModel, ErrorKind, FvModel, SchemaModel, ValidatorModel};
use crate::value::{Record, value_model};

verus! {

/// A failing `required` suppresses every validator declared after it on
/// the same field: the field's error list ends with the `required` entry.
pub proof fn lemma_required_suppresses(
    fvs: Seq<FvModel>,
    j: int,
    decl_name: Seq<char>,
    rec: Record,
    ext: ExternalCalls,
)
    requires
        0 <= j < fvs.len(),
        fvs[j].validator is Required,
        spec_check(fvs[j], decl_name, rec, ext) is Some,
    ensures
        spec_field_errors(fvs, j, decl_name, rec, ext) == seq![
            spec_check(fvs[j], decl_name, rec, ext)->0,
        ],
{
}

/// A record whose fields each violate no validator but one produces
/// exactly that validator's entry for the field: the entry carries the
/// declared code override if one was given, else the default.
pub proof fn lemma_single_failure(
    fvs: Seq<FvModel>,
    i: int,
    j0: int,
    decl_name: Seq<char>,
    rec: Record,
    ext: ExternalCalls,
)
    requires
        0 <= i <= j0 < fvs.len(),
        spec_check(fvs[j0], decl_name, rec, ext) is Some,
        forall|j: int|
            0 <= j < fvs.len() && j != j0 ==> #[trigger] spec_check(fvs[j], decl_name, rec, ext)
                is None,
    ensures
        spec_field_errors(fvs, i, decl_name, rec, ext) == seq![
            spec_check(fvs[j0], decl_name, rec, ext)->0,
        ],
    decreases j0 - i,
{
    let e = spec_check(fvs[j0], decl_name, rec, ext)->0;
    if i == j0 {
        assert(!(fvs[j0].validator is Nested));
        if !(fvs[j0].validator is Required) {
            lemma_all_pass_empty(fvs, j0 + 1, decl_name, rec, ext);
            assert(seq![e] + Seq::<EntryModel>::empty() =~= seq![e]);
        }
    } else {
        lemma_single_failure(fvs, i + 1, j0, decl_name, rec, ext);
        if !(fvs[i].validator is Nested) {
            assert(spec_check(fvs[i], decl_name, rec, ext) is None);
        }
    }
}

/// A field whose validators all pass records nothing.
pub proof fn lemma_all_pass_empty(
    fvs: Seq<FvModel>,
    i: int,
    decl_name: Seq<char>,
    rec: Record,
    ext: ExternalCalls,
)
    requires
        forall|j: int|
            i <= j < fvs.len() ==> #[trigger] spec_check(fvs[j], decl_name, rec, ext) is None,
    ensures
        spec_field_errors(fvs, i, decl_name, rec, ext) == Seq::<EntryModel>::empty(),
    decreases fvs.len() - i,
{
    if 0 <= i < fvs.len() {
        lemma_all_pass_empty(fvs, i + 1, decl_name, rec, ext);
    }
}

/// At run time `must_match` fails exactly when the two fields' values
/// differ.
pub proof fn lemma_must_match_runtime(
    fv: FvModel,
    other: Seq<char>,
    decl_name: Seq<char>,
    rec: Record,
    ext: ExternalCalls,
)
    requires
        fv.validator == ValidatorModel::MustMatch(other),
    ensures
        spec_check(fv, decl_name, rec, ext) is Some <==> value_model(field_value(rec, decl_name))
            != value_model(field_value(rec, other)),
{
}

/// Declaring `length` or `range` with no bound at all is a compile-time
/// failure.
pub proof fn lemma_missing_bounds(field: FieldDecl, fields: Seq<FieldDecl>, it: Intent)
    requires
        it matches Intent::Group(name, args) && ((name@ == "length"@ || name@ == "range"@) && (
        spec_bounds_fold(field.name@, args@, 0, name@ == "length"@, empty_bounds()) matches Ok(st)
            && (st.min is None && st.max is None && st.equal is None))),
    ensures
        spec_intent_validators(field, fields, it) is Err,
        spec_intent_validators(field, fields, it) matches Err(e) ==> e.kind
            == ErrorKind::MissingBounds || e.kind == ErrorKind::TypeIncompatible,
{
}

/// Declaring a string-format validator, `email` among them, on a field
/// whose type is not string-like is a compile-time failure; so is
/// `length` on a type without a length capability.
pub proof fn lemma_type_incompatible(field: FieldDecl, fields: Seq<FieldDecl>, name: String)
    requires
        crate::extract::is_format_name(name@),
        !crate::types::is_string_like(field.ty.norm@),
    ensures
        spec_intent_validators(field, fields, Intent::Bare(name)) == Err::<Seq<FvModel>, ErrModel>(
            type_err(field.name@, name@),
        ),
{
}

/// A declared rename decides the external name: errors for the field are
/// keyed by the renamed name, not the declaration name.
pub proof fn lemma_rename_external(field: FieldDecl, fields: Seq<FieldDecl>, ext_name: Seq<char>)
    requires
        field.name@.len() > 0,
        spec_find_rename(field.name@, field.metas@, 0) == Ok::<Option<Seq<char>>, ErrModel>(
            Some(ext_name),
        ),
        spec_field_validators(field, fields) is Ok,
    ensures
        spec_field_validators(field, fields) matches Ok(p) && p.0 == ext_name,
{
}

/// A schema rule that skips on field errors merges nothing when field
/// errors exist; one that does not skip always merges its function's
/// outcome.
pub proof fn lemma_skip_on_field_errors(
    schemas: Seq<SchemaModel>,
    i: int,
    ss: Seq<crate::run::SchemaOutcome>,
    has_field_errors: bool,
    m: ErrorsModel,
)
    requires
        0 <= i < schemas.len(),
    ensures
        schemas[i].skip_on_field_errors && has_field_errors ==> spec_phase_b(
            schemas,
            i,
            ss,
            has_field_errors,
            m,
        ) == spec_phase_b(schemas, i + 1, ss, has_field_errors, m),
        !(schemas[i].skip_on_field_errors && has_field_errors) ==> spec_phase_b(
            schemas,
            i,
            ss,
            has_field_errors,
            m,
        ) == spec_phase_b(
            schemas,
            i + 1,
            ss,
            has_field_errors,
            merge_keyed(m, spec_schema_errors(ss, 0, schemas[i].function), 0),
        ),
{
}

/// Whether a schema rule is skipped depends only on the record's own
/// field-phase errors: nested sub-record validation happens after the
/// schema phase and cannot suppress it.
pub proof fn lemma_schema_reads_only_field_errors(
    plans: Seq<TypedPlan>,
    plan: crate::plan::PlanModel,
    rec: Record,
    ext: ExternalCalls,
)
    ensures
        spec_validate(plans, plan, rec, ext) == spec_phase_c(
            plans,
            plan.fields,
            0,
            rec,
            ext,
            spec_phase_b(
                plan.schemas,
                0,
                ext.schemas@,
                spec_phase_a(plan.fields, 0, rec, ext, Seq::empty()).len() > 0,
                spec_phase_a(plan.fields, 0, rec, ext, Seq::empty()),
            ),
        ),
{
}

/// Validation is a pure function of plan, record and recorded outcomes:
/// two runs over the same unmodified inputs produce structurally equal
/// errors.
pub proof fn lemma_validate_deterministic(
    plans: Seq<TypedPlan>,
    plan: crate::plan::PlanModel,
    rec: Record,
    ext: ExternalCalls,
    r1: ErrorsModel,
    r2: ErrorsModel,
)
    requires
        r1 == spec_validate(plans, plan, rec, ext),
        r2 == spec_validate(plans, plan, rec, ext),
    ensures
        r1 == r2,
{
}

/// The field phase records nothing when every validator of every field
/// passes.
pub proof fn lemma_phase_a_clean(
    fields: Seq<crate::plan::FieldPlanModel>,
    i: int,
    rec: Record,
    ext: ExternalCalls,
    m: ErrorsModel,
)
    requires
        forall|t: int, j: int|
            i <= t < fields.len() && 0 <= j < fields[t].checks.len() ==> #[trigger] spec_check(
                fields[t].checks[j],
                fields[t].decl_name,
                rec,
                ext,
            ) is None,
    ensures
        spec_phase_a(fields, i, rec, ext, m) == m,
    decreases fields.len() - i,
{
    if 0 <= i < fields.len() {
        lemma_all_pass_empty(fields[i].checks, 0, fields[i].decl_name, rec, ext);
        lemma_phase_a_clean(fields, i + 1, rec, ext, m);
    }
}

/// The schema phase records nothing when every named function returned
/// no errors.
pub proof fn lemma_phase_b_clean(
    schemas: Seq<SchemaModel>,
    i: int,
    ss: Seq<crate::run::SchemaOutcome>,
    has_field_errors: bool,
    m: ErrorsModel,
)
    requires
        forall|t: int|
            0 <= t < schemas.len() ==> #[trigger] spec_schema_errors(
                ss,
                0,
                schemas[t].function,
            ).len() == 0,
    ensures
        spec_phase_b(schemas, i, ss, has_field_errors, m) == m,
    decreases schemas.len() - i,
{
    if 0 <= i < schemas.len() {
        lemma_phase_b_clean(schemas, i + 1, ss, has_field_errors, m);
    }
}

/// The nested phase records nothing when no field requests nested
/// validation.
pub proof fn lemma_phase_c_clean(
    plans: Seq<TypedPlan>,
    fields: Seq<crate::plan::FieldPlanModel>,
    i: int,
    rec: Record,
    ext: ExternalCalls,
    m: ErrorsModel,
)
    requires
        forall|t: int| 0 <= t < fields.len() ==> !has_nested(#[trigger] fields[t].checks),
    ensures
        spec_phase_c(plans, fields, i, rec, ext, m) == m,
    decreases fields.len() - i,
{
    if 0 <= i < fields.len() {
        lemma_phase_c_clean(plans, fields, i + 1, rec, ext, m);
    }
}

/// When every other field passes everything and exactly one validator of
/// one field fails, the field phase records exactly that validator's
/// entry under the field's external name.
pub proof fn lemma_phase_a_single(
    fields: Seq<crate::plan::FieldPlanModel>,
    i: int,
    t0: int,
    j0: int,
    rec: Record,
    ext: ExternalCalls,
    m: ErrorsModel,
)
    requires
        0 <= i <= t0 < fields.len(),
        forall|t: int, j: int|
            i <= t < fields.len() && t != t0 && 0 <= j < fields[t].checks.len()
                ==> #[trigger] spec_check(
                fields[t].checks[j],
                fields[t].decl_name,
                rec,
                ext,
            ) is None,
        0 <= j0 < fields[t0].checks.len(),
        spec_check(fields[t0].checks[j0], fields[t0].decl_name, rec, ext) is Some,
        forall|j: int|
            0 <= j < fields[t0].checks.len() && j != j0 ==> #[trigger] spec_check(
                fields[t0].checks[j],
                fields[t0].decl_name,
                rec,
                ext,
            ) is None,
        forall|g: int| 0 <= g < m.len() ==> #[trigger] m[g].0 != fields[t0].external_name,
    ensures
        spec_phase_a(fields, i, rec, ext, m) == m.push(
            (
                fields[t0].external_name,
                seq![spec_check(fields[t0].checks[j0], fields[t0].decl_name, rec, ext)->0],
            ),
        ),
    decreases fields.len() - i,
{
    let e = spec_check(fields[t0].checks[j0], fields[t0].decl_name, rec, ext)->0;
    if i == t0 {
        let k = fields[t0].external_name;
        lemma_single_failure(fields[t0].checks, 0, j0, fields[t0].decl_name, rec, ext);
        crate::errors::lemma_merge_add_absent(m, k, e);
        assert(crate::run::merge_entries(crate::errors::merge_add(m, k, e), k, seq![e], 1)
            == crate::errors::merge_add(m, k, e));
        assert(crate::run::merge_entries(m, k, seq![e], 0) == crate::errors::merge_add(m, k, e));
        lemma_phase_a_clean(fields, i + 1, rec, ext, m.push((k, seq![e])));
    } else {
        lemma_all_pass_empty(fields[i].checks, 0, fields[i].decl_name, rec, ext);
        lemma_phase_a_single(fields, i + 1, t0, j0, rec, ext, m);
    }
}

/// A record violating exactly one declared validator yields exactly one
/// entry under that field's external name (the schema functions reporting
/// nothing, and no field requesting nested validation).
pub proof fn lemma_validate_single_failure(
    plans: Seq<TypedPlan>,
    plan: crate::plan::PlanModel,
    t0: int,
    j0: int,
    rec: Record,
    ext: ExternalCalls,
)
    requires
        0 <= t0 < plan.fields.len(),
        forall|t: int, j: int|
            0 <= t < plan.fields.len() && t != t0 && 0 <= j < plan.fields[t].checks.len()
                ==> #[trigger] spec_check(
                plan.fields[t].checks[j],
                plan.fields[t].decl_name,
                rec,
                ext,
            ) is None,
        0 <= j0 < plan.fields[t0].checks.len(),
        spec_check(plan.fields[t0].checks[j0], plan.fields[t0].decl_name, rec, ext) is Some,
        forall|j: int|
            0 <= j < plan.fields[t0].checks.len() && j != j0 ==> #[trigger] spec_check(
                plan.fields[t0].checks[j],
                plan.fields[t0].decl_name,
                rec,
                ext,
            ) is None,
        forall|t: int|
            0 <= t < plan.schemas.len() ==> #[trigger] spec_schema_errors(
                ext.schemas@,
                0,
                plan.schemas[t].function,
            ).len() == 0,
        forall|t: int| 0 <= t < plan.fields.len() ==> !has_nested(#[trigger] plan.fields[t].checks),
    ensures
        spec_validate(plans, plan, rec, ext) == seq![
            (
                plan.fields[t0].external_name,
                seq![
                    spec_check(plan.fields[t0].checks[j0], plan.fields[t0].decl_name, rec, ext)->0,
                ],
            ),
        ],
{
    let e = spec_check(plan.fields[t0].checks[j0], plan.fields[t0].decl_name, rec, ext)->0;
    let one = seq![(plan.fields[t0].external_name, seq![e])];
    lemma_phase_a_single(plan.fields, 0, t0, j0, rec, ext, Seq::empty());
    assert(Seq::<(Seq<char>, Seq<EntryModel>)>::empty().push(
        (plan.fields[t0].external_name, seq![e]),
    ) =~= one);
    lemma_phase_b_clean(plan.schemas, 0, ext.schemas@, true, one);
    lemma_phase_c_clean(plans, plan.fields, 0, rec, ext, one);
}

/// A record that satisfies every declared validator validates
/// successfully, provided the schema functions report nothing and no
/// field requests nested validation.
pub proof fn lemma_validate_success(
    plans: Seq<TypedPlan>,
    plan: crate::plan::PlanModel,
    rec: Record,
    ext: ExternalCalls,
)
    requires
        forall|t: int, j: int|
            0 <= t < plan.fields.len() && 0 <= j < plan.fields[t].checks.len()
                ==> #[trigger] spec_check(
                plan.fields[t].checks[j],
                plan.fields[t].decl_name,
                rec,
                ext,
            ) is None,
        forall|t: int|
            0 <= t < plan.schemas.len() ==> #[trigger] spec_schema_errors(
                ext.schemas@,
                0,
                plan.schemas[t].function,
            ).len() == 0,
        forall|t: int| 0 <= t < plan.fields.len() ==> !has_nested(#[trigger] plan.fields[t].checks),
    ensures
        spec_validate(plans, plan, rec, ext) == Seq::<(Seq<char>, Seq<EntryModel>)>::empty(),
{
    lemma_phase_a_clean(plan.fields, 0, rec, ext, Seq::empty());
    lemma_phase_b_clean(plan.schemas, 0, ext.schemas@, false, Seq::empty());
    lemma_phase_c_clean(plans, plan.fields, 0, rec, ext, Seq::empty());
}

} // verus!
