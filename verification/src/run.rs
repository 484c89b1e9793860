//! Plan execution.
//!
//! Running a plan against a record proceeds in three phases: field
//! validators write into the error accumulator (a failing `required`
//! suppresses the rest of that field's validators); schema rules run next,
//! each skipped when the record already has field errors and the rule says
//! so; nested sub-records are validated last, their errors flattened under
//! the parent field's external name.  The result is success exactly when
//! the accumulator ends empty.
//!
//! What external functions return is not this library's to compute: the
//! caller hands in the outcomes of the external calls — regex matches,
//! custom-function verdicts and schema-function error sets for this very
//! record — and execution is a pure function of plan, record and those
//! outcomes.  An outcome absent from the tables counts as a pass.

use vstd::prelude::*;
use crate::checks::{credit_card_check, credit_card_ok, email_check, email_ok, non_control_check,
    non_control_ok, phone_check, phone_ok, url_check, url_ok};
use crate::errors::{EntryModel, ErrorEntry, ErrorsModel, ValidationErrors, entries_model,
    entry_model, errors_model, merge_add};
use crate::text::{chars_of, contains_chars, contains_seq, str_eq_lit};
use crate::validation::{FieldValidation, FvModel, ValidatorModel, fv_model};
use crate::value::{Record, Value, spec_lookup_field, value_eq, value_model};
use vstd::string::StringExecFns;

verus! {

/// The recorded outcome of one regex lookup: whether the pattern at this
/// path matched the field's value.
pub struct RegexOutcome {
    pub path: String,
    pub matched: bool,
}

/// The recorded outcome of one custom-function call on one field: the
/// error code it returned, if it rejected the value.
pub struct CustomOutcome {
    pub function: String,
    pub field: String,
    pub failure: Option<String>,
}

/// One error a schema function returned, under its own key.
pub struct KeyedEntry {
    pub key: String,
    pub code: String,
    pub message: Option<String>,
}

/// The recorded outcome of one schema-function call on this record.
pub struct SchemaOutcome {
    pub function: String,
    pub errors: Vec<KeyedEntry>,
}

/// The outcomes of every external call made for one validation run.
pub struct ExternalCalls {
    pub regexes: Vec<RegexOutcome>,
    pub customs: Vec<CustomOutcome>,
    pub schemas: Vec<SchemaOutcome>,
}

/// Whether the regex at `path` matched, per the recorded outcomes; an
/// unrecorded path counts as a match.
pub open spec fn spec_regex_matched(rs: Seq<RegexOutcome>, i: int, path: Seq<char>) -> bool
    decreases rs.len() - i,
{
    if i < 0 || i >= rs.len() {
        true
    } else if rs[i].path@ == path {
        rs[i].matched
    } else {
        spec_regex_matched(rs, i + 1, path)
    }
}

/// The code a custom function rejected this field with, per the recorded
/// outcomes; an unrecorded call counts as a pass.
pub open spec fn spec_custom_failure(
    cs: Seq<CustomOutcome>,
    i: int,
    function: Seq<char>,
    field: Seq<char>,
) -> Option<Seq<char>>
    decreases cs.len() - i,
{
    if i < 0 || i >= cs.len() {
        None
    } else if cs[i].function@ == function && cs[i].field@ == field {
        crate::validation::opt_str_model(cs[i].failure)
    } else {
        spec_custom_failure(cs, i + 1, function, field)
    }
}

/// The model of the keyed errors a schema function returned.
pub open spec fn keyed_entries_model(es: Seq<KeyedEntry>) -> Seq<(Seq<char>, EntryModel)> {
    es.map_values(
        |e: KeyedEntry|
            (
                e.key@,
                EntryModel { code: e.code@, message: crate::validation::opt_str_model(e.message) },
            ),
    )
}

/// The errors the schema function returned, per the recorded outcomes; an
/// unrecorded function counts as returning none.
pub open spec fn spec_schema_errors(ss: Seq<SchemaOutcome>, i: int, function: Seq<char>) -> Seq<
    (Seq<char>, EntryModel),
>
    decreases ss.len() - i,
{
    if i < 0 || i >= ss.len() {
        Seq::empty()
    } else if ss[i].function@ == function {
        keyed_entries_model(ss[i].errors@)
    } else {
        spec_schema_errors(ss, i + 1, function)
    }
}

/// The value the record holds for a declared field; a field missing from
/// the instance counts as absent.
pub open spec fn field_value(rec: Record, decl_name: Seq<char>) -> Value {
    match spec_lookup_field(rec.fields@, decl_name) {
        Some(v) => v,
        None => Value::Absent,
    }
}

/// The entry a failing validator records: the declared code override, or
/// the given default.
pub open spec fn mk_entry(fv: FvModel, default_code: Seq<char>) -> EntryModel {
    EntryModel {
        code: match fv.code {
            Some(c) => c,
            None => default_code,
        },
        message: fv.message,
    }
}

/// Whether a present value of the wrong shape, or a failing check, makes
/// a string-format validator record an error: absent values pass
/// everything but `required`.
pub open spec fn text_check_fails(v: Value, ok: spec_fn(Seq<char>) -> bool) -> bool {
    match v {
        Value::Absent => false,
        Value::Text(s) => !ok(s@),
        _ => true,
    }
}

/// The error one validator records for one field of the record, if any.
/// `required` fails on an absent value; every other validator passes an
/// absent value except `must_match` and `custom`, which see the field as
/// it is; a present value of the wrong shape fails.  `nested` records
/// nothing here: it runs in the last phase.
pub open spec fn spec_check(fv: FvModel, decl_name: Seq<char>, rec: Record, ext: ExternalCalls)
    -> Option<EntryModel> {
    let v = field_value(rec, decl_name);
    match fv.validator {
        ValidatorModel::Required => {
            if v is Absent {
                Some(mk_entry(fv, "required"@))
            } else {
                None
            }
        },
        ValidatorModel::Nested => None,
        ValidatorModel::Email => {
            if text_check_fails(v, |s: Seq<char>| email_ok(s)) {
                Some(mk_entry(fv, "email"@))
            } else {
                None
            }
        },
        ValidatorModel::Url => {
            if text_check_fails(v, |s: Seq<char>| url_ok(s)) {
                Some(mk_entry(fv, "url"@))
            } else {
                None
            }
        },
        ValidatorModel::Phone => {
            if text_check_fails(v, |s: Seq<char>| phone_ok(s)) {
                Some(mk_entry(fv, "phone"@))
            } else {
                None
            }
        },
        ValidatorModel::CreditCard => {
            if text_check_fails(v, |s: Seq<char>| credit_card_ok(s)) {
                Some(mk_entry(fv, "credit_card"@))
            } else {
                None
            }
        },
        ValidatorModel::NonControlCharacter => {
            if text_check_fails(v, |s: Seq<char>| non_control_ok(s)) {
                Some(mk_entry(fv, "non_control_character"@))
            } else {
                None
            }
        },
        ValidatorModel::Length { min, max, equal } => {
            let fails = match v {
                Value::Absent => false,
                Value::Text(s) => {
                    let n = s@.len() as int;
                    (equal matches Some(e) && n != e) || (min matches Some(m) && n < m) || (
                    max matches Some(x) && n > x)
                },
                _ => true,
            };
            if fails {
                Some(mk_entry(fv, "length"@))
            } else {
                None
            }
        },
        ValidatorModel::Range { min, max } => {
            let fails = match v {
                Value::Absent => false,
                Value::Num(x) => (min matches Some(m) && (x as int) < m) || (max matches Some(
                    mx,
                ) && (x as int) > mx),
                _ => true,
            };
            if fails {
                Some(mk_entry(fv, "range"@))
            } else {
                None
            }
        },
        ValidatorModel::Contains(p) => {
            if text_check_fails(v, |s: Seq<char>| contains_seq(s, p)) {
                Some(mk_entry(fv, "contains"@))
            } else {
                None
            }
        },
        ValidatorModel::Regex(path) => {
            let fails = match v {
                Value::Absent => false,
                Value::Text(_) => !spec_regex_matched(ext.regexes@, 0, path),
                _ => true,
            };
            if fails {
                Some(mk_entry(fv, "regex"@))
            } else {
                None
            }
        },
        ValidatorModel::Custom(f) => {
            match spec_custom_failure(ext.customs@, 0, f, decl_name) {
                Some(code) => Some(
                    EntryModel {
                        code: match fv.code {
                            Some(c) => c,
                            None => code,
                        },
                        message: fv.message,
                    },
                ),
                None => None,
            }
        },
        ValidatorModel::MustMatch(other) => {
            if value_model(v) != value_model(field_value(rec, other)) {
                Some(mk_entry(fv, "must_match"@))
            } else {
                None
            }
        },
    }
}

/// Builds the entry a failing validator records.
fn make_entry(fv: &FieldValidation, default_code: &str) -> (e: ErrorEntry)
    ensures
        entry_model(e) == mk_entry(fv_model(*fv), default_code@),
{
    ErrorEntry {
        code: match &fv.code {
            Some(c) => c.clone(),
            None => String::from_str(default_code),
        },
        message: match &fv.message {
            Some(m) => Some(m.clone()),
            None => None,
        },
    }
}

/// Looks up a regex outcome; an unrecorded path counts as a match.
#[verifier::loop_isolation(false)]
fn regex_matched(rs: &Vec<RegexOutcome>, path: &String) -> (r: bool)
    ensures
        r == spec_regex_matched(rs@, 0, path@),
{
    let n = rs.len();
    let mut i: usize = 0;
    while i < n
        invariant
            0 <= i <= n,
            spec_regex_matched(rs@, 0, path@) == spec_regex_matched(rs@, i as int, path@),
        decreases n - i,
    {
        if str_eq_lit(&rs[i].path, path.as_str()) {
            return rs[i].matched;
        }
        i = i + 1;
    }
    true
}

/// Looks up a custom-function outcome; an unrecorded call counts as a
/// pass.
#[verifier::loop_isolation(false)]
fn custom_failure(cs: &Vec<CustomOutcome>, function: &String, field: &String) -> (r: Option<
    String,
>)
    ensures
        match r {
            Some(code) => spec_custom_failure(cs@, 0, function@, field@) == Some(code@),
            None => spec_custom_failure(cs@, 0, function@, field@) is None,
        },
{
    let n = cs.len();
    let mut i: usize = 0;
    while i < n
        invariant
            0 <= i <= n,
            spec_custom_failure(cs@, 0, function@, field@) == spec_custom_failure(
                cs@,
                i as int,
                function@,
                field@,
            ),
        decreases n - i,
    {
        if str_eq_lit(&cs[i].function, function.as_str()) && str_eq_lit(
            &cs[i].field,
            field.as_str(),
        ) {
            return match &cs[i].failure {
                Some(c) => Some(c.clone()),
                None => None,
            };
        }
        i = i + 1;
    }
    None
}

/// Runs one validator against the record, returning the entry it records
/// on failure.
#[verifier::loop_isolation(false)]
pub fn check_validator(
    fv: &FieldValidation,
    decl_name: &String,
    rec: &Record,
    ext: &ExternalCalls,
) -> (r: Option<ErrorEntry>)
    ensures
        match r {
            Some(e) => spec_check(fv_model(*fv), decl_name@, *rec, *ext) == Some(entry_model(e)),
            None => spec_check(fv_model(*fv), decl_name@, *rec, *ext) is None,
        },
{
    let vopt = rec.lookup_field(decl_name);
    match &fv.validator {
        crate::validation::Validator::Required => {
            match vopt {
                None => Some(make_entry(fv, "required")),
                Some(Value::Absent) => Some(make_entry(fv, "required")),
                Some(_) => None,
            }
        },
        crate::validation::Validator::Nested => None,
        crate::validation::Validator::Email => {
            match vopt {
                None => None,
                Some(Value::Absent) => None,
                Some(Value::Text(s)) => {
                    if email_check(&chars_of(s.as_str())) {
                        None
                    } else {
                        Some(make_entry(fv, "email"))
                    }
                },
                Some(_) => Some(make_entry(fv, "email")),
            }
        },
        crate::validation::Validator::Url => {
            match vopt {
                None => None,
                Some(Value::Absent) => None,
                Some(Value::Text(s)) => {
                    if url_check(&chars_of(s.as_str())) {
                        None
                    } else {
                        Some(make_entry(fv, "url"))
                    }
                },
                Some(_) => Some(make_entry(fv, "url")),
            }
        },
        crate::validation::Validator::Phone => {
            match vopt {
                None => None,
                Some(Value::Absent) => None,
                Some(Value::Text(s)) => {
                    if phone_check(&chars_of(s.as_str())) {
                        None
                    } else {
                        Some(make_entry(fv, "phone"))
                    }
                },
                Some(_) => Some(make_entry(fv, "phone")),
            }
        },
        crate::validation::Validator::CreditCard => {
            match vopt {
                None => None,
                Some(Value::Absent) => None,
                Some(Value::Text(s)) => {
                    if credit_card_check(&chars_of(s.as_str())) {
                        None
                    } else {
                        Some(make_entry(fv, "credit_card"))
                    }
                },
                Some(_) => Some(make_entry(fv, "credit_card")),
            }
        },
        crate::validation::Validator::NonControlCharacter => {
            match vopt {
                None => None,
                Some(Value::Absent) => None,
                Some(Value::Text(s)) => {
                    if non_control_check(&chars_of(s.as_str())) {
                        None
                    } else {
                        Some(make_entry(fv, "non_control_character"))
                    }
                },
                Some(_) => Some(make_entry(fv, "non_control_character")),
            }
        },
        crate::validation::Validator::Length { min, max, equal } => {
            match vopt {
                None => None,
                Some(Value::Absent) => None,
                Some(Value::Text(s)) => {
                    let cs = chars_of(s.as_str());
                    let n = cs.len() as u64;
                    let bad_equal = match equal {
                        Some(e) => {
                            if *e < 0 {
                                true
                            } else {
                                n != (*e as u64)
                            }
                        },
                        None => false,
                    };
                    let bad_min = match min {
                        Some(m) => {
                            if *m < 0 {
                                false
                            } else {
                                n < (*m as u64)
                            }
                        },
                        None => false,
                    };
                    let bad_max = match max {
                        Some(x) => {
                            if *x < 0 {
                                true
                            } else {
                                n > (*x as u64)
                            }
                        },
                        None => false,
                    };
                    if bad_equal || bad_min || bad_max {
                        Some(make_entry(fv, "length"))
                    } else {
                        None
                    }
                },
                Some(_) => Some(make_entry(fv, "length")),
            }
        },
        crate::validation::Validator::Range { min, max } => {
            match vopt {
                None => None,
                Some(Value::Absent) => None,
                Some(Value::Num(x)) => {
                    let bad_min = match min {
                        Some(m) => *x < *m,
                        None => false,
                    };
                    let bad_max = match max {
                        Some(mx) => *x > *mx,
                        None => false,
                    };
                    if bad_min || bad_max {
                        Some(make_entry(fv, "range"))
                    } else {
                        None
                    }
                },
                Some(_) => Some(make_entry(fv, "range")),
            }
        },
        crate::validation::Validator::Contains(p) => {
            match vopt {
                None => None,
                Some(Value::Absent) => None,
                Some(Value::Text(s)) => {
                    if contains_chars(&chars_of(s.as_str()), &chars_of(p.as_str())) {
                        None
                    } else {
                        Some(make_entry(fv, "contains"))
                    }
                },
                Some(_) => Some(make_entry(fv, "contains")),
            }
        },
        crate::validation::Validator::Regex(path) => {
            match vopt {
                None => None,
                Some(Value::Absent) => None,
                Some(Value::Text(_)) => {
                    if regex_matched(&ext.regexes, path) {
                        None
                    } else {
                        Some(make_entry(fv, "regex"))
                    }
                },
                Some(_) => Some(make_entry(fv, "regex")),
            }
        },
        crate::validation::Validator::Custom(f) => {
            match custom_failure(&ext.customs, f, decl_name) {
                None => None,
                Some(code) => Some(
                    ErrorEntry {
                        code: match &fv.code {
                            Some(c) => c.clone(),
                            None => code,
                        },
                        message: match &fv.message {
                            Some(m) => Some(m.clone()),
                            None => None,
                        },
                    },
                ),
            }
        },
        crate::validation::Validator::MustMatch(other) => {
            let absent = Value::Absent;
            let va = match vopt {
                Some(v) => v,
                None => &absent,
            };
            let oopt = rec.lookup_field(other);
            let vb = match oopt {
                Some(v) => v,
                None => &absent,
            };
            if value_eq(va, vb) {
                None
            } else {
                Some(make_entry(fv, "must_match"))
            }
        },
    }
}

/// The entries one field's validators record, in order, from position
/// `j`: a failing `required` suppresses everything after it, and `nested`
/// records nothing in this phase.
pub open spec fn spec_field_errors(
    fvs: Seq<FvModel>,
    j: int,
    decl_name: Seq<char>,
    rec: Record,
    ext: ExternalCalls,
) -> Seq<EntryModel>
    decreases fvs.len() - j,
{
    if j < 0 || j >= fvs.len() {
        Seq::empty()
    } else {
        let fv = fvs[j];
        if fv.validator is Nested {
            spec_field_errors(fvs, j + 1, decl_name, rec, ext)
        } else {
            match spec_check(fv, decl_name, rec, ext) {
                None => spec_field_errors(fvs, j + 1, decl_name, rec, ext),
                Some(e) => {
                    if fv.validator is Required {
                        seq![e]
                    } else {
                        seq![e] + spec_field_errors(fvs, j + 1, decl_name, rec, ext)
                    }
                },
            }
        }
    }
}

/// Runs one field's validators, collecting the entries they record; a
/// failing `required` stops the field's remaining validators.
#[verifier::loop_isolation(false)]
pub fn field_errors(
    checks: &Vec<FieldValidation>,
    decl_name: &String,
    rec: &Record,
    ext: &ExternalCalls,
) -> (r: Vec<ErrorEntry>)
    ensures
        entries_model(r@) == spec_field_errors(
            crate::validation::fvs_model(checks@),
            0,
            decl_name@,
            *rec,
            *ext,
        ),
{
    let ghost fvs = crate::validation::fvs_model(checks@);
    let mut out: Vec<ErrorEntry> = Vec::new();
    let n = checks.len();
    let mut j: usize = 0;
    proof {
        assert(entries_model(out@) =~= Seq::<EntryModel>::empty());
    }
    while j < n
        invariant
            n == checks@.len(),
            fvs == crate::validation::fvs_model(checks@),
            0 <= j <= n,
            spec_field_errors(fvs, 0, decl_name@, *rec, *ext) == entries_model(out@)
                + spec_field_errors(fvs, j as int, decl_name@, *rec, *ext),
        decreases n - j,
    {
        let ghost prev = entries_model(out@);
        let fv = &checks[j];
        assert(fvs[j as int] == fv_model(*fv));
        let is_nested = match &fv.validator {
            crate::validation::Validator::Nested => true,
            _ => false,
        };
        if !is_nested {
            match check_validator(fv, decl_name, rec, ext) {
                None => {},
                Some(e) => {
                    let ghost em = entry_model(e);
                    let is_required = match &fv.validator {
                        crate::validation::Validator::Required => true,
                        _ => false,
                    };
                    out.push(e);
                    proof {
                        assert(entries_model(out@) =~= prev + seq![em]);
                    }
                    if is_required {
                        proof {
                            assert(spec_field_errors(fvs, j as int, decl_name@, *rec, *ext)
                                =~= seq![em]);
                        }
                        return out;
                    }
                    proof {
                        assert(prev + (seq![em] + spec_field_errors(
                            fvs,
                            j + 1,
                            decl_name@,
                            *rec,
                            *ext,
                        )) =~= entries_model(out@) + spec_field_errors(
                            fvs,
                            j + 1,
                            decl_name@,
                            *rec,
                            *ext,
                        ));
                    }
                },
            }
        }
        j = j + 1;
    }
    assert(entries_model(out@) =~= entries_model(out@) + Seq::<EntryModel>::empty());
    out
}

/// Recording a list of entries under one key, from position `j`.
pub open spec fn merge_entries(m: ErrorsModel, k: Seq<char>, es: Seq<EntryModel>, j: int)
    -> ErrorsModel
    decreases es.len() - j,
{
    if j < 0 || j >= es.len() {
        m
    } else {
        merge_entries(merge_add(m, k, es[j]), k, es, j + 1)
    }
}

/// Recording a list of keyed entries, from position `j`.
pub open spec fn merge_keyed(m: ErrorsModel, kes: Seq<(Seq<char>, EntryModel)>, j: int)
    -> ErrorsModel
    decreases kes.len() - j,
{
    if j < 0 || j >= kes.len() {
        m
    } else {
        merge_keyed(merge_add(m, kes[j].0, kes[j].1), kes, j + 1)
    }
}

/// Flattening a sub-record's errors under one key, group by group, from
/// position `g`.
pub open spec fn merge_flat(m: ErrorsModel, k: Seq<char>, sub: ErrorsModel, g: int) -> ErrorsModel
    decreases sub.len() - g,
{
    if g < 0 || g >= sub.len() {
        m
    } else {
        merge_flat(merge_entries(m, k, sub[g].1, 0), k, sub, g + 1)
    }
}

/// Records a list of entries under one key.
#[verifier::loop_isolation(false)]
fn merge_entries_exec(errors: &mut ValidationErrors, key: &String, es: Vec<ErrorEntry>)
    ensures
        errors_model(*final(errors)) == merge_entries(
            errors_model(*old(errors)),
            key@,
            entries_model(es@),
            0,
        ),
{
    let ghost ems = entries_model(es@);
    let mut es = es;
    let ghost j: int = 0;
    loop
        invariant
            0 <= j <= ems.len(),
            entries_model(es@) =~= ems.skip(j),
            merge_entries(errors_model(*old(errors)), key@, ems, 0) == merge_entries(
                errors_model(*errors),
                key@,
                ems,
                j,
            ),
        decreases ems.len() - j,
    {
        if es.len() == 0 {
            assert(j == ems.len());
            return ;
        }
        let ghost es_before = es@;
        let e = es.remove(0);
        proof {
            assert(entries_model(es_before)[0] == entry_model(es_before[0]));
            assert(ems.skip(j)[0] == ems[j]);
            assert(entry_model(e) == ems[j]);
            assert forall|t: int| 0 <= t < es@.len() implies entries_model(es@)[t] == ems.skip(
                j + 1,
            )[t] by {
                assert(es@[t] == es_before[t + 1]);
                assert(entries_model(es_before)[t + 1] == entry_model(es_before[t + 1]));
                assert(ems.skip(j)[t + 1] == ems[j + 1 + t]);
            }
            assert(entries_model(es@) =~= ems.skip(j + 1));
        }
        errors.add(key, e);
        proof {
            j = j + 1;
        }
    }
}

/// Phase one: every field's validators, in extraction order, write into
/// the accumulator under the field's external name.
pub open spec fn spec_phase_a(
    fields: Seq<crate::plan::FieldPlanModel>,
    i: int,
    rec: Record,
    ext: ExternalCalls,
    m: ErrorsModel,
) -> ErrorsModel
    decreases fields.len() - i,
{
    if i < 0 || i >= fields.len() {
        m
    } else {
        spec_phase_a(
            fields,
            i + 1,
            rec,
            ext,
            merge_entries(
                m,
                fields[i].external_name,
                spec_field_errors(fields[i].checks, 0, fields[i].decl_name, rec, ext),
                0,
            ),
        )
    }
}

/// Phase two: each schema rule, in declaration order, merges the errors
/// its function returned, unless field errors exist and the rule skips on
/// them.
pub open spec fn spec_phase_b(
    schemas: Seq<crate::validation::SchemaModel>,
    i: int,
    ss: Seq<SchemaOutcome>,
    has_field_errors: bool,
    m: ErrorsModel,
) -> ErrorsModel
    decreases schemas.len() - i,
{
    if i < 0 || i >= schemas.len() {
        m
    } else {
        let s = schemas[i];
        let m2 = if s.skip_on_field_errors && has_field_errors {
            m
        } else {
            merge_keyed(m, spec_schema_errors(ss, 0, s.function), 0)
        };
        spec_phase_b(schemas, i + 1, ss, has_field_errors, m2)
    }
}

/// Whether a field's validator list requests nested validation.
pub open spec fn has_nested(checks: Seq<FvModel>) -> bool {
    exists|j: int| 0 <= j < checks.len() && checks[j].validator is Nested
}

/// A compiled plan for one record type, keyed by its type descriptor.
pub struct TypedPlan {
    pub ty: crate::types::TypeDesc,
    pub plan: crate::plan::ValidationPlan,
}

/// The plan registered for a type, scanning from position `i`.
pub open spec fn spec_lookup_plan(ps: Seq<TypedPlan>, i: int, ty: Seq<char>) -> Option<
    crate::plan::PlanModel,
>
    decreases ps.len() - i,
{
    if i < 0 || i >= ps.len() {
        None
    } else if ps[i].ty.norm@ == ty {
        Some(crate::plan::plan_model(ps[i].plan))
    } else {
        spec_lookup_plan(ps, i + 1, ty)
    }
}

/// The looked-up value is one of the record's field values.
proof fn lemma_lookup_member(fs: Seq<crate::value::FieldValue>, name: Seq<char>)
    ensures
        match spec_lookup_field(fs, name) {
            Some(v) => exists|k: int| 0 <= k < fs.len() && fs[k].value == v,
            None => true,
        },
    decreases fs.len(),
{
    if fs.len() > 0 {
        if fs[0].name@ == name {
            assert(fs[0].value == fs[0].value);
        } else {
            lemma_lookup_member(fs.drop_first(), name);
            match spec_lookup_field(fs.drop_first(), name) {
                Some(v) => {
                    let k = choose|k: int|
                        0 <= k < fs.drop_first().len() && fs.drop_first()[k].value == v;
                    assert(fs[k + 1].value == v);
                },
                None => {},
            }
        }
    }
}

/// Phase three: each field that requests nested validation and holds a
/// sub-record whose type has a registered plan is validated recursively;
/// the sub-errors are flattened under the parent field's external name.
pub open spec fn spec_phase_c(
    plans: Seq<TypedPlan>,
    fields: Seq<crate::plan::FieldPlanModel>,
    i: int,
    rec: Record,
    ext: ExternalCalls,
    m: ErrorsModel,
) -> ErrorsModel
    decreases rec, 0int, fields.len() - i,
    via spec_phase_c_decreases
{
    if i < 0 || i >= fields.len() {
        m
    } else {
        let f = fields[i];
        let m2 = if has_nested(f.checks) {
            match field_value(rec, f.decl_name) {
                Value::Sub(sub) => {
                    match spec_lookup_plan(plans, 0, f.ty) {
                        Some(sp) => merge_flat(
                            m,
                            f.external_name,
                            spec_validate(plans, sp, sub, ext),
                            0,
                        ),
                        None => m,
                    }
                },
                _ => m,
            }
        } else {
            m
        };
        spec_phase_c(plans, fields, i + 1, rec, ext, m2)
    }
}

#[via_fn]
proof fn spec_phase_c_decreases(
    plans: Seq<TypedPlan>,
    fields: Seq<crate::plan::FieldPlanModel>,
    i: int,
    rec: Record,
    ext: ExternalCalls,
    m: ErrorsModel,
) {
    if 0 <= i < fields.len() {
        let v = field_value(rec, fields[i].decl_name);
        match v {
            Value::Sub(sub) => {
                lemma_lookup_member(rec.fields@, fields[i].decl_name);
                let k = choose|k: int|
                    0 <= k < rec.fields@.len() && rec.fields@[k].value == v;
                assert(decreases_to!(rec.fields => rec.fields@[k]));
                assert(decreases_to!(rec.fields@[k] => rec.fields@[k].value));
                assert(decreases_to!(v => sub));
                assert(decreases_to!(rec => sub));
            },
            _ => {},
        }
    }
}

/// Fetches (as a copy) the errors the schema function returned.
#[verifier::loop_isolation(false)]
fn schema_outcome_errors(ss: &Vec<SchemaOutcome>, function: &String) -> (r: Vec<KeyedEntry>)
    ensures
        keyed_entries_model(r@) == spec_schema_errors(ss@, 0, function@),
{
    let n = ss.len();
    let mut i: usize = 0;
    while i < n
        invariant
            0 <= i <= n,
            n == ss@.len(),
            spec_schema_errors(ss@, 0, function@) == spec_schema_errors(ss@, i as int, function@),
        decreases n - i,
    {
        if str_eq_lit(&ss[i].function, function.as_str()) {
            let src = &ss[i].errors;
            let m = src.len();
            let mut out: Vec<KeyedEntry> = Vec::new();
            let mut j: usize = 0;
            while j < m
                invariant
                    0 <= j <= m,
                    0 <= i < ss@.len(),
                    m == src@.len(),
                    src@ == ss@[i as int].errors@,
                    keyed_entries_model(out@) =~= keyed_entries_model(src@).take(j as int),
                decreases m - j,
            {
                let e = &src[j];
                out.push(
                    KeyedEntry {
                        key: e.key.clone(),
                        code: e.code.clone(),
                        message: match &e.message {
                            Some(x) => Some(x.clone()),
                            None => None,
                        },
                    },
                );
                proof {
                    assert(keyed_entries_model(out@) =~= keyed_entries_model(src@).take(j + 1));
                }
                j = j + 1;
            }
            proof {
                assert(keyed_entries_model(src@).take(m as int) =~= keyed_entries_model(src@));
            }
            return out;
        }
        i = i + 1;
    }
    let out: Vec<KeyedEntry> = Vec::new();
    assert(keyed_entries_model(out@) =~= Seq::<(Seq<char>, EntryModel)>::empty());
    out
}

/// Records a list of keyed entries.
#[verifier::loop_isolation(false)]
fn merge_keyed_exec(errors: &mut ValidationErrors, kes: Vec<KeyedEntry>)
    ensures
        errors_model(*final(errors)) == merge_keyed(
            errors_model(*old(errors)),
            keyed_entries_model(kes@),
            0,
        ),
{
    let ghost ems = keyed_entries_model(kes@);
    let mut kes = kes;
    let ghost j: int = 0;
    loop
        invariant
            0 <= j <= ems.len(),
            keyed_entries_model(kes@) =~= ems.skip(j),
            merge_keyed(errors_model(*old(errors)), ems, 0) == merge_keyed(
                errors_model(*errors),
                ems,
                j,
            ),
        decreases ems.len() - j,
    {
        if kes.len() == 0 {
            assert(j == ems.len());
            return ;
        }
        let ghost kes_before = kes@;
        let e = kes.remove(0);
        let entry = ErrorEntry { code: e.code, message: e.message };
        proof {
            assert(keyed_entries_model(kes_before)[0] == ems.skip(j)[0]);
            assert(ems.skip(j)[0] == ems[j]);
            assert forall|t: int| 0 <= t < kes@.len() implies keyed_entries_model(kes@)[t]
                == ems.skip(j + 1)[t] by {
                assert(kes@[t] == kes_before[t + 1]);
                assert(keyed_entries_model(kes_before)[t + 1] == ems.skip(j)[t + 1]);
                assert(ems.skip(j)[t + 1] == ems[j + 1 + t]);
                assert(ems.skip(j + 1)[t] == ems[j + 1 + t]);
            }
            assert(keyed_entries_model(kes@) =~= ems.skip(j + 1));
            assert(entry_model(entry) == ems[j].1);
        }
        errors.add(&e.key, entry);
        proof {
            j = j + 1;
        }
    }
}

/// Whether the validator list requests nested validation.
fn has_nested_exec(checks: &Vec<FieldValidation>) -> (r: bool)
    ensures
        r == has_nested(crate::validation::fvs_model(checks@)),
{
    let ghost fvs = crate::validation::fvs_model(checks@);
    let n = checks.len();
    let mut j: usize = 0;
    while j < n
        invariant
            0 <= j <= n,
            n == checks@.len(),
            fvs == crate::validation::fvs_model(checks@),
            forall|t: int| 0 <= t < j ==> !(#[trigger] fvs[t].validator is Nested),
        decreases n - j,
    {
        assert(fvs[j as int] == fv_model(checks@[j as int]));
        match &checks[j].validator {
            crate::validation::Validator::Nested => {
                return true;
            },
            _ => {},
        }
        j = j + 1;
    }
    false
}

/// Finds the plan registered for a type descriptor.
#[verifier::loop_isolation(false)]
fn lookup_plan<'a>(plans: &'a Vec<TypedPlan>, ty: &crate::types::TypeDesc) -> (r: Option<
    &'a crate::plan::ValidationPlan,
>)
    ensures
        match r {
            Some(p) => spec_lookup_plan(plans@, 0, ty.norm@) == Some(crate::plan::plan_model(*p)),
            None => spec_lookup_plan(plans@, 0, ty.norm@) is None,
        },
{
    let n = plans.len();
    let mut i: usize = 0;
    while i < n
        invariant
            0 <= i <= n,
            n == plans@.len(),
            spec_lookup_plan(plans@, 0, ty.norm@) == spec_lookup_plan(plans@, i as int, ty.norm@),
        decreases n - i,
    {
        if plans[i].ty.same_as(ty) {
            return Some(&plans[i].plan);
        }
        i = i + 1;
    }
    None
}

/// Flattens a sub-record's errors under one external name.
#[verifier::loop_isolation(false)]
fn merge_flat_exec(errors: &mut ValidationErrors, key: &String, sub: ValidationErrors)
    ensures
        errors_model(*final(errors)) == merge_flat(
            errors_model(*old(errors)),
            key@,
            errors_model(sub),
            0,
        ),
{
    let ghost sm = errors_model(sub);
    let mut groups = sub.groups;
    let ghost g: int = 0;
    loop
        invariant
            0 <= g <= sm.len(),
            groups@.map_values(
                |x: crate::errors::FieldErrors| (x.field@, entries_model(x.entries@)),
            ) =~= sm.skip(g),
            merge_flat(errors_model(*old(errors)), key@, sm, 0) == merge_flat(
                errors_model(*errors),
                key@,
                sm,
                g,
            ),
        decreases sm.len() - g,
    {
        if groups.len() == 0 {
            assert(g == sm.len());
            return ;
        }
        let ghost gb = groups@;
        let grp = groups.remove(0);
        proof {
            let f = |x: crate::errors::FieldErrors| (x.field@, entries_model(x.entries@));
            assert(gb.map_values(f)[0] == sm.skip(g)[0]);
            assert(sm.skip(g)[0] == sm[g]);
            assert(entries_model(grp.entries@) == sm[g].1);
            assert forall|t: int| 0 <= t < groups@.len() implies groups@.map_values(f)[t]
                == sm.skip(g + 1)[t] by {
                assert(groups@[t] == gb[t + 1]);
                assert(gb.map_values(f)[t + 1] == sm.skip(g)[t + 1]);
                assert(sm.skip(g)[t + 1] == sm[g + 1 + t]);
                assert(sm.skip(g + 1)[t] == sm[g + 1 + t]);
            }
            assert(groups@.map_values(f) =~= sm.skip(g + 1));
        }
        merge_entries_exec(errors, key, grp.entries);
        proof {
            g = g + 1;
        }
    }
}

/// The full validation outcome: field phase, then schema phase, then
/// nested phase, over an initially empty accumulator.
pub open spec fn spec_validate(
    plans: Seq<TypedPlan>,
    plan: crate::plan::PlanModel,
    rec: Record,
    ext: ExternalCalls,
) -> ErrorsModel
    decreases rec, 1int, 0int,
{
    let a = spec_phase_a(plan.fields, 0, rec, ext, Seq::empty());
    let b = spec_phase_b(plan.schemas, 0, ext.schemas@, a.len() > 0, a);
    spec_phase_c(plans, plan.fields, 0, rec, ext, b)
}

/// Runs one record type's plan against a record, collecting every error
/// the three phases record.
#[verifier::loop_isolation(false)]
pub fn validate_record(
    plans: &Vec<TypedPlan>,
    plan: &crate::plan::ValidationPlan,
    rec: &Record,
    ext: &ExternalCalls,
) -> (r: ValidationErrors)
    ensures
        errors_model(r) == spec_validate(plans@, crate::plan::plan_model(*plan), *rec, *ext),
    decreases *rec,
{
    let ghost pm = crate::plan::plan_model(*plan);
    let mut errors = ValidationErrors::new();
    let n = plan.fields.len();
    let mut i: usize = 0;
    while i < n
        invariant
            0 <= i <= n,
            n == plan.fields@.len(),
            spec_phase_a(pm.fields, 0, *rec, *ext, Seq::empty()) == spec_phase_a(
                pm.fields,
                i as int,
                *rec,
                *ext,
                errors_model(errors),
            ),
        decreases n - i,
    {
        let fp = &plan.fields[i];
        proof {
            assert(pm.fields[i as int] == crate::plan::field_plan_model(plan.fields@[i as int]));
        }
        let es = field_errors(&fp.checks, &fp.decl_name, rec, ext);
        merge_entries_exec(&mut errors, &fp.external_name, es);
        i = i + 1;
    }
    let ghost a = errors_model(errors);
    proof {
        assert(a == spec_phase_a(pm.fields, 0, *rec, *ext, Seq::empty()));
    }
    let has_field_errors = !errors.is_empty();
    let sn = plan.schemas.len();
    let mut k: usize = 0;
    while k < sn
        invariant
            0 <= k <= sn,
            sn == plan.schemas@.len(),
            has_field_errors == (a.len() > 0),
            spec_phase_b(pm.schemas, 0, ext.schemas@, a.len() > 0, a) == spec_phase_b(
                pm.schemas,
                k as int,
                ext.schemas@,
                a.len() > 0,
                errors_model(errors),
            ),
        decreases sn - k,
    {
        let s = &plan.schemas[k];
        proof {
            assert(pm.schemas[k as int] == crate::validation::schema_model(
                plan.schemas@[k as int],
            ));
        }
        if !(s.skip_on_field_errors && has_field_errors) {
            let kes = schema_outcome_errors(&ext.schemas, &s.function);
            merge_keyed_exec(&mut errors, kes);
        }
        k = k + 1;
    }
    let ghost b = errors_model(errors);
    proof {
        assert(b == spec_phase_b(pm.schemas, 0, ext.schemas@, a.len() > 0, a));
    }
    let mut c: usize = 0;
    while c < n
        invariant
            0 <= c <= n,
            n == plan.fields@.len(),
            spec_phase_c(plans@, pm.fields, 0, *rec, *ext, b) == spec_phase_c(
                plans@,
                pm.fields,
                c as int,
                *rec,
                *ext,
                errors_model(errors),
            ),
        decreases n - c,
    {
        let fp = &plan.fields[c];
        proof {
            assert(pm.fields[c as int] == crate::plan::field_plan_model(plan.fields@[c as int]));
        }
        if has_nested_exec(&fp.checks) {
            match rec.lookup_field(&fp.decl_name) {
                Some(v) => {
                    match v {
                        Value::Sub(sub) => {
                            match lookup_plan(plans, &fp.ty) {
                                Some(sp) => {
                                    proof {
                                        lemma_lookup_member(rec.fields@, fp.decl_name@);
                                        let t = choose|t: int|
                                            0 <= t < rec.fields@.len() && rec.fields@[t].value
                                                == *v;
                                        assert(decreases_to!(rec.fields => rec.fields@[t]));
                                        assert(decreases_to!(
                                            rec.fields@[t] => rec.fields@[t].value));
                                        assert(decreases_to!(*v => *sub));
                                        assert(decreases_to!(*rec => *sub));
                                    }
                                    let sube = validate_record(plans, sp, sub, ext);
                                    merge_flat_exec(&mut errors, &fp.external_name, sube);
                                },
                                None => {},
                            }
                        },
                        _ => {},
                    }
                },
                None => {},
            }
        }
        c = c + 1;
    }
    errors
}

/// Validates a record against its compiled plan: success exactly when no
/// phase recorded an error.  `plans` registers the compiled plans of
/// nested record types by their type descriptors.
pub fn validate(
    plan: &crate::plan::ValidationPlan,
    plans: &Vec<TypedPlan>,
    rec: &Record,
    ext: &ExternalCalls,
) -> (r: Result<(), ValidationErrors>)
    ensures
        match r {
            Ok(_) => spec_validate(plans@, crate::plan::plan_model(*plan), *rec, *ext).len() == 0,
            Err(e) => errors_model(e) == spec_validate(
                plans@,
                crate::plan::plan_model(*plan),
                *rec,
                *ext,
            ) && errors_model(e).len() > 0,
        },
{
    let errors = validate_record(plans, plan, rec, ext);
    if errors.is_empty() {
        Ok(())
    } else {
        Err(errors)
    }
}

} // verus!
