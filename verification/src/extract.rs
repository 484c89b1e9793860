//! Field and schema validation extraction.
//!
//! Extraction runs once, at schema-definition time, over the static record
//! description.  Per field it reads every attached intent in declaration
//! order, checks the validator against the field's type, resolves the
//! arguments, and produces the ordered validator list together with the
//! field's external name.  Struct-level `schema` intents are collected the
//! same way.  Every function mirrors a spec-level extraction function
//! exactly: the first offending intent yields the same fatal error, and a
//! clean schema yields the same entries.

use vstd::prelude::*;
use crate::intent::{Arg, FieldDecl, Intent, MetaArg, MetaItem};
use crate::lit::{lit_to_bool, lit_to_num, lit_to_string, lit_bool_model, lit_num_model,
    lit_string_model};
use crate::text::str_eq_lit;
use crate::types::TypeDesc;
use crate::validation::{CompileError, ErrModel, ErrorKind, FieldValidation, FvModel, Validator,
    SchemaModel, SchemaValidation,
    ValidatorModel, err_model, fv_model, fvs_model, schema_model};
use vstd::string::StringExecFns;

verus! {

/// A rename error: the `rename` intent held a literal that is not a
/// string.
pub open spec fn rename_shape_err(fname: Seq<char>) -> ErrModel {
    ErrModel { kind: ErrorKind::WrongLiteralShape, field: fname, subject: "rename"@ }
}

/// The rename found among the arguments of one grouping metadata intent,
/// scanning from position `i`.
pub open spec fn spec_rename_in_args(fname: Seq<char>, args: Seq<MetaArg>, i: int) -> Result<
    Option<Seq<char>>,
    ErrModel,
>
    decreases args.len() - i,
{
    if i < 0 || i >= args.len() {
        Ok(None)
    } else {
        match args[i] {
            MetaArg::Pair(name, l) => {
                if name@ == "rename"@ {
                    match lit_string_model(l) {
                        Some(s) => Ok(Some(s)),
                        None => Err(rename_shape_err(fname)),
                    }
                } else {
                    spec_rename_in_args(fname, args, i + 1)
                }
            },
            _ => spec_rename_in_args(fname, args, i + 1),
        }
    }
}

/// The external name declared by a rename intent, scanning the metadata
/// from position `i`; grouping intents are searched one level deep, and
/// the first match in declaration order wins.
pub open spec fn spec_find_rename(fname: Seq<char>, metas: Seq<MetaItem>, i: int) -> Result<
    Option<Seq<char>>,
    ErrModel,
>
    decreases metas.len() - i,
{
    if i < 0 || i >= metas.len() {
        Ok(None)
    } else {
        match metas[i] {
            MetaItem::Pair(name, l) => {
                if name@ == "rename"@ {
                    match lit_string_model(l) {
                        Some(s) => Ok(Some(s)),
                        None => Err(rename_shape_err(fname)),
                    }
                } else {
                    spec_find_rename(fname, metas, i + 1)
                }
            },
            MetaItem::Group(_, args) => {
                match spec_rename_in_args(fname, args@, 0) {
                    Err(e) => Err(e),
                    Ok(Some(s)) => Ok(Some(s)),
                    Ok(None) => spec_find_rename(fname, metas, i + 1),
                }
            },
            _ => spec_find_rename(fname, metas, i + 1),
        }
    }
}

/// Whether an executable rename result and its model agree.
pub open spec fn rename_matches(
    r: Result<Option<String>, CompileError>,
    m: Result<Option<Seq<char>>, ErrModel>,
) -> bool {
    match r {
        Ok(Some(s)) => m == Ok::<Option<Seq<char>>, ErrModel>(Some(s@)),
        Ok(None) => m == Ok::<Option<Seq<char>>, ErrModel>(None),
        Err(e) => m == Err::<Option<Seq<char>>, ErrModel>(err_model(e)),
    }
}

/// Resolves the field's external name: the name a rename intent declares,
/// if one is present.  Grouping metadata intents are searched exactly one
/// level deep; the first match in declaration order wins.
pub fn find_original_field_name(fname: &String, metas: &Vec<MetaItem>) -> (r: Result<
    Option<String>,
    CompileError,
>)
    ensures
        rename_matches(r, spec_find_rename(fname@, metas@, 0)),
{
    let n = metas.len();
    let mut i: usize = 0;
    while i < n
        invariant
            n == metas@.len(),
            0 <= i <= n,
            spec_find_rename(fname@, metas@, 0) == spec_find_rename(fname@, metas@, i as int),
        decreases n - i,
    {
        match &metas[i] {
            MetaItem::Pair(name, l) => {
                if str_eq_lit(name, "rename") {
                    match lit_to_string(l) {
                        Some(s) => {
                            return Ok(Some(s));
                        },
                        None => {
                            return Err(
                                CompileError {
                                    kind: ErrorKind::WrongLiteralShape,
                                    field: fname.clone(),
                                    subject: String::from_str("rename"),
                                },
                            );
                        },
                    }
                }
            },
            MetaItem::Group(_, args) => {
                let an = args.len();
                let mut j: usize = 0;
                while j < an
                    invariant
                        an == args@.len(),
                        0 <= j <= an,
                        0 <= i < metas@.len(),
                        metas@[i as int] matches MetaItem::Group(_, a) && a@ == args@,
                        spec_find_rename(fname@, metas@, 0) == spec_find_rename(
                            fname@,
                            metas@,
                            i as int,
                        ),
                        spec_rename_in_args(fname@, args@, 0) == spec_rename_in_args(
                            fname@,
                            args@,
                            j as int,
                        ),
                    decreases an - j,
                {
                    match &args[j] {
                        MetaArg::Pair(name, l) => {
                            if str_eq_lit(name, "rename") {
                                match lit_to_string(l) {
                                    Some(s) => {
                                        return Ok(Some(s));
                                    },
                                    None => {
                                        return Err(
                                            CompileError {
                                                kind: ErrorKind::WrongLiteralShape,
                                                field: fname.clone(),
                                                subject: String::from_str("rename"),
                                            },
                                        );
                                    },
                                }
                            }
                        },
                        _ => {},
                    }
                    j = j + 1;
                }
            },
            _ => {},
        }
        i = i + 1;
    }
    Ok(None)
}

/// The normalized type identifier of the first field with the given
/// declaration name, scanning from position `i`.
pub open spec fn spec_lookup_type(fields: Seq<FieldDecl>, i: int, name: Seq<char>) -> Option<
    Seq<char>,
>
    decreases fields.len() - i,
{
    if i < 0 || i >= fields.len() {
        None
    } else if fields[i].name@ == name {
        Some(fields[i].ty.norm@)
    } else {
        spec_lookup_type(fields, i + 1, name)
    }
}

/// Finds the declared type of the named field, as `must_match` needs it.
pub fn lookup_type<'a>(fields: &'a Vec<FieldDecl>, name: &String) -> (r: Option<&'a TypeDesc>)
    ensures
        match r {
            Some(t) => spec_lookup_type(fields@, 0, name@) == Some(t.norm@),
            None => spec_lookup_type(fields@, 0, name@) is None,
        },
{
    let n = fields.len();
    let mut i: usize = 0;
    while i < n
        invariant
            n == fields@.len(),
            0 <= i <= n,
            spec_lookup_type(fields@, 0, name@) == spec_lookup_type(fields@, i as int, name@),
        decreases n - i,
    {
        if str_eq_lit(name, fields[i].name.as_str()) {
            return Some(&fields[i].ty);
        }
        i = i + 1;
    }
    None
}

/// An argument whose literal has the wrong shape.
pub open spec fn shape_err(fname: Seq<char>, arg: Seq<char>) -> ErrModel {
    ErrModel { kind: ErrorKind::WrongLiteralShape, field: fname, subject: arg }
}

/// An argument name the validator does not take.
pub open spec fn unknown_arg_err(fname: Seq<char>, arg: Seq<char>) -> ErrModel {
    ErrModel { kind: ErrorKind::UnknownArgument, field: fname, subject: arg }
}

/// Resolved bound arguments of a `length` or `range` intent.
pub struct BoundArgs {
    pub min: Option<i64>,
    pub max: Option<i64>,
    pub equal: Option<i64>,
    pub code: Option<String>,
    pub message: Option<String>,
}

/// Model of resolved bound arguments.
pub struct BoundArgsModel {
    pub min: Option<int>,
    pub max: Option<int>,
    pub equal: Option<int>,
    pub code: Option<Seq<char>>,
    pub message: Option<Seq<char>>,
}

/// The model of resolved bound arguments.
pub open spec fn bound_args_model(b: BoundArgs) -> BoundArgsModel {
    BoundArgsModel {
        min: crate::validation::opt_num_model(b.min),
        max: crate::validation::opt_num_model(b.max),
        equal: crate::validation::opt_num_model(b.equal),
        code: crate::validation::opt_str_model(b.code),
        message: crate::validation::opt_str_model(b.message),
    }
}

/// No bound argument resolved yet.
pub open spec fn empty_bounds() -> BoundArgsModel {
    BoundArgsModel { min: None, max: None, equal: None, code: None, message: None }
}

/// Folds the arguments of a `length` or `range` intent from position `i`.
/// `length` takes `min`, `max` and `equal`; `range` only `min` and `max`;
/// both take `code` and `message`.  The bounds are numeric, the overrides
/// strings; any other pairing is a shape error, any other name unknown.
pub open spec fn spec_bounds_fold(
    fname: Seq<char>,
    args: Seq<Arg>,
    i: int,
    with_equal: bool,
    st: BoundArgsModel,
) -> Result<BoundArgsModel, ErrModel>
    decreases args.len() - i,
{
    if i < 0 || i >= args.len() {
        Ok(st)
    } else {
        let a = args[i];
        if a.name@ == "min"@ {
            match lit_num_model(a.value) {
                Some(v) => spec_bounds_fold(
                    fname,
                    args,
                    i + 1,
                    with_equal,
                    BoundArgsModel { min: Some(v as int), ..st },
                ),
                None => Err(shape_err(fname, a.name@)),
            }
        } else if a.name@ == "max"@ {
            match lit_num_model(a.value) {
                Some(v) => spec_bounds_fold(
                    fname,
                    args,
                    i + 1,
                    with_equal,
                    BoundArgsModel { max: Some(v as int), ..st },
                ),
                None => Err(shape_err(fname, a.name@)),
            }
        } else if with_equal && a.name@ == "equal"@ {
            match lit_num_model(a.value) {
                Some(v) => spec_bounds_fold(
                    fname,
                    args,
                    i + 1,
                    with_equal,
                    BoundArgsModel { equal: Some(v as int), ..st },
                ),
                None => Err(shape_err(fname, a.name@)),
            }
        } else if a.name@ == "code"@ {
            match lit_string_model(a.value) {
                Some(v) => spec_bounds_fold(
                    fname,
                    args,
                    i + 1,
                    with_equal,
                    BoundArgsModel { code: Some(v), ..st },
                ),
                None => Err(shape_err(fname, a.name@)),
            }
        } else if a.name@ == "message"@ {
            match lit_string_model(a.value) {
                Some(v) => spec_bounds_fold(
                    fname,
                    args,
                    i + 1,
                    with_equal,
                    BoundArgsModel { message: Some(v), ..st },
                ),
                None => Err(shape_err(fname, a.name@)),
            }
        } else {
            Err(unknown_arg_err(fname, a.name@))
        }
    }
}

/// Resolves the arguments of a `length` or `range` intent.
pub fn bounds_args(fname: &String, args: &Vec<Arg>, with_equal: bool) -> (r: Result<
    BoundArgs,
    CompileError,
>)
    ensures
        match r {
            Ok(b) => spec_bounds_fold(fname@, args@, 0, with_equal, empty_bounds()) == Ok::<
                _,
                ErrModel,
            >(bound_args_model(b)),
            Err(e) => spec_bounds_fold(fname@, args@, 0, with_equal, empty_bounds()) == Err::<
                BoundArgsModel,
                _,
            >(err_model(e)),
        },
{
    let mut cur = BoundArgs { min: None, max: None, equal: None, code: None, message: None };
    let n = args.len();
    let mut i: usize = 0;
    while i < n
        invariant
            n == args@.len(),
            0 <= i <= n,
            spec_bounds_fold(fname@, args@, 0, with_equal, empty_bounds()) == spec_bounds_fold(
                fname@,
                args@,
                i as int,
                with_equal,
                bound_args_model(cur),
            ),
        decreases n - i,
    {
        let a = &args[i];
        if str_eq_lit(&a.name, "min") {
            match lit_to_num(&a.value) {
                Some(v) => {
                    cur.min = Some(v);
                },
                None => {
                    return Err(
                        CompileError {
                            kind: ErrorKind::WrongLiteralShape,
                            field: fname.clone(),
                            subject: a.name.clone(),
                        },
                    );
                },
            }
        } else if str_eq_lit(&a.name, "max") {
            match lit_to_num(&a.value) {
                Some(v) => {
                    cur.max = Some(v);
                },
                None => {
                    return Err(
                        CompileError {
                            kind: ErrorKind::WrongLiteralShape,
                            field: fname.clone(),
                            subject: a.name.clone(),
                        },
                    );
                },
            }
        } else if with_equal && str_eq_lit(&a.name, "equal") {
            match lit_to_num(&a.value) {
                Some(v) => {
                    cur.equal = Some(v);
                },
                None => {
                    return Err(
                        CompileError {
                            kind: ErrorKind::WrongLiteralShape,
                            field: fname.clone(),
                            subject: a.name.clone(),
                        },
                    );
                },
            }
        } else if str_eq_lit(&a.name, "code") {
            match lit_to_string(&a.value) {
                Some(v) => {
                    cur.code = Some(v);
                },
                None => {
                    return Err(
                        CompileError {
                            kind: ErrorKind::WrongLiteralShape,
                            field: fname.clone(),
                            subject: a.name.clone(),
                        },
                    );
                },
            }
        } else if str_eq_lit(&a.name, "message") {
            match lit_to_string(&a.value) {
                Some(v) => {
                    cur.message = Some(v);
                },
                None => {
                    return Err(
                        CompileError {
                            kind: ErrorKind::WrongLiteralShape,
                            field: fname.clone(),
                            subject: a.name.clone(),
                        },
                    );
                },
            }
        } else {
            return Err(
                CompileError {
                    kind: ErrorKind::UnknownArgument,
                    field: fname.clone(),
                    subject: a.name.clone(),
                },
            );
        }
        i = i + 1;
    }
    Ok(cur)
}

/// Resolved arguments of a single-argument or argument-less intent: the
/// keyed value, if the intent takes one, and the overrides.
pub struct KeyedArgs {
    pub value: Option<String>,
    pub code: Option<String>,
    pub message: Option<String>,
}

/// Model of resolved keyed arguments.
pub struct KeyedArgsModel {
    pub value: Option<Seq<char>>,
    pub code: Option<Seq<char>>,
    pub message: Option<Seq<char>>,
}

/// The model of resolved keyed arguments.
pub open spec fn keyed_args_model(k: KeyedArgs) -> KeyedArgsModel {
    KeyedArgsModel {
        value: crate::validation::opt_str_model(k.value),
        code: crate::validation::opt_str_model(k.code),
        message: crate::validation::opt_str_model(k.message),
    }
}

/// No keyed argument resolved yet.
pub open spec fn empty_keyed() -> KeyedArgsModel {
    KeyedArgsModel { value: None, code: None, message: None }
}

/// Folds the arguments of a grouped intent with one required string
/// argument named `key` (or none, when `key` is empty), plus the `code`
/// and `message` overrides.
pub open spec fn spec_keyed_fold(
    fname: Seq<char>,
    key: Seq<char>,
    args: Seq<Arg>,
    i: int,
    st: KeyedArgsModel,
) -> Result<KeyedArgsModel, ErrModel>
    decreases args.len() - i,
{
    if i < 0 || i >= args.len() {
        Ok(st)
    } else {
        let a = args[i];
        if key.len() > 0 && a.name@ == key {
            match lit_string_model(a.value) {
                Some(v) => spec_keyed_fold(
                    fname,
                    key,
                    args,
                    i + 1,
                    KeyedArgsModel { value: Some(v), ..st },
                ),
                None => Err(shape_err(fname, a.name@)),
            }
        } else if a.name@ == "code"@ {
            match lit_string_model(a.value) {
                Some(v) => spec_keyed_fold(
                    fname,
                    key,
                    args,
                    i + 1,
                    KeyedArgsModel { code: Some(v), ..st },
                ),
                None => Err(shape_err(fname, a.name@)),
            }
        } else if a.name@ == "message"@ {
            match lit_string_model(a.value) {
                Some(v) => spec_keyed_fold(
                    fname,
                    key,
                    args,
                    i + 1,
                    KeyedArgsModel { message: Some(v), ..st },
                ),
                None => Err(shape_err(fname, a.name@)),
            }
        } else {
            Err(unknown_arg_err(fname, a.name@))
        }
    }
}

/// Resolves the arguments of a single-argument or argument-less intent.
pub fn keyed_args(fname: &String, key: &str, args: &Vec<Arg>) -> (r: Result<
    KeyedArgs,
    CompileError,
>)
    ensures
        match r {
            Ok(k) => spec_keyed_fold(fname@, key@, args@, 0, empty_keyed()) == Ok::<_, ErrModel>(
                keyed_args_model(k),
            ),
            Err(e) => spec_keyed_fold(fname@, key@, args@, 0, empty_keyed()) == Err::<
                KeyedArgsModel,
                _,
            >(err_model(e)),
        },
{
    let mut cur = KeyedArgs { value: None, code: None, message: None };
    let n = args.len();
    let mut i: usize = 0;
    while i < n
        invariant
            n == args@.len(),
            0 <= i <= n,
            spec_keyed_fold(fname@, key@, args@, 0, empty_keyed()) == spec_keyed_fold(
                fname@,
                key@,
                args@,
                i as int,
                keyed_args_model(cur),
            ),
        decreases n - i,
    {
        let a = &args[i];
        if !key.is_empty() && str_eq_lit(&a.name, key) {
            match lit_to_string(&a.value) {
                Some(v) => {
                    cur.value = Some(v);
                },
                None => {
                    return Err(
                        CompileError {
                            kind: ErrorKind::WrongLiteralShape,
                            field: fname.clone(),
                            subject: a.name.clone(),
                        },
                    );
                },
            }
        } else if str_eq_lit(&a.name, "code") {
            match lit_to_string(&a.value) {
                Some(v) => {
                    cur.code = Some(v);
                },
                None => {
                    return Err(
                        CompileError {
                            kind: ErrorKind::WrongLiteralShape,
                            field: fname.clone(),
                            subject: a.name.clone(),
                        },
                    );
                },
            }
        } else if str_eq_lit(&a.name, "message") {
            match lit_to_string(&a.value) {
                Some(v) => {
                    cur.message = Some(v);
                },
                None => {
                    return Err(
                        CompileError {
                            kind: ErrorKind::WrongLiteralShape,
                            field: fname.clone(),
                            subject: a.name.clone(),
                        },
                    );
                },
            }
        } else {
            return Err(
                CompileError {
                    kind: ErrorKind::UnknownArgument,
                    field: fname.clone(),
                    subject: a.name.clone(),
                },
            );
        }
        i = i + 1;
    }
    Ok(cur)
}

/// A validator paired with a type lacking the needed capability.
pub open spec fn type_err(fname: Seq<char>, vname: Seq<char>) -> ErrModel {
    ErrModel { kind: ErrorKind::TypeIncompatible, field: fname, subject: vname }
}

/// A `must_match` against a missing field or one of another type.
pub open spec fn cross_err(fname: Seq<char>, other: Seq<char>) -> ErrModel {
    ErrModel { kind: ErrorKind::CrossFieldMismatch, field: fname, subject: other }
}

/// A validator name outside the vocabulary, or in a shape it does not
/// take.
pub open spec fn unknown_validator_err(fname: Seq<char>, vname: Seq<char>) -> ErrModel {
    ErrModel { kind: ErrorKind::UnknownValidator, field: fname, subject: vname }
}

/// A required argument that was not given.
pub open spec fn missing_arg_err(fname: Seq<char>, key: Seq<char>) -> ErrModel {
    ErrModel { kind: ErrorKind::MissingArgument, field: fname, subject: key }
}

/// `length` or `range` without any bound.
pub open spec fn missing_bounds_err(fname: Seq<char>, vname: Seq<char>) -> ErrModel {
    ErrModel { kind: ErrorKind::MissingBounds, field: fname, subject: vname }
}

/// Whether the name is one of the string-format validators.
pub open spec fn is_format_name(name: Seq<char>) -> bool {
    name == "email"@ || name == "url"@ || name == "phone"@ || name == "credit_card"@ || name
        == "non_control_character"@
}

/// The string-format validator a name denotes.
pub open spec fn format_kind(name: Seq<char>) -> ValidatorModel {
    if name == "email"@ {
        ValidatorModel::Email
    } else if name == "url"@ {
        ValidatorModel::Url
    } else if name == "phone"@ {
        ValidatorModel::Phone
    } else if name == "credit_card"@ {
        ValidatorModel::CreditCard
    } else {
        ValidatorModel::NonControlCharacter
    }
}

/// One entry without overrides.
pub open spec fn plain_fv(v: ValidatorModel) -> FvModel {
    FvModel { validator: v, code: None, message: None }
}

/// The `must_match` compatibility decision: the referenced field must
/// exist and its type descriptor must equal the current field's.
pub open spec fn spec_must_match(
    field: FieldDecl,
    fields: Seq<FieldDecl>,
    other: Seq<char>,
    code: Option<Seq<char>>,
    message: Option<Seq<char>>,
) -> Result<Seq<FvModel>, ErrModel> {
    match spec_lookup_type(fields, 0, other) {
        None => Err(cross_err(field.name@, other)),
        Some(t2) => {
            if t2 != field.ty.norm@ {
                Err(cross_err(field.name@, other))
            } else {
                Ok(
                    seq![
                        FvModel { validator: ValidatorModel::MustMatch(other), code, message },
                    ],
                )
            }
        },
    }
}

/// The validators one intent contributes, or the fatal error it raises.
/// The type-compatibility check runs before argument resolution, so a
/// type error surfaces first.
pub open spec fn spec_intent_validators(
    field: FieldDecl,
    fields: Seq<FieldDecl>,
    it: Intent,
) -> Result<Seq<FvModel>, ErrModel> {
    let fname = field.name@;
    let fnorm = field.ty.norm@;
    match it {
        Intent::Bare(name) => {
            if is_format_name(name@) {
                if !crate::types::is_string_like(fnorm) {
                    Err(type_err(fname, name@))
                } else {
                    Ok(seq![plain_fv(format_kind(name@))])
                }
            } else if name@ == "required"@ {
                Ok(seq![plain_fv(ValidatorModel::Required)])
            } else if name@ == "required_nested"@ {
                Ok(seq![plain_fv(ValidatorModel::Required), plain_fv(ValidatorModel::Nested)])
            } else {
                Err(unknown_validator_err(fname, name@))
            }
        },
        Intent::Assign(name, l) => {
            if name@ == "custom"@ {
                match lit_string_model(l) {
                    Some(s) => Ok(seq![plain_fv(ValidatorModel::Custom(s))]),
                    None => Err(shape_err(fname, name@)),
                }
            } else if name@ == "contains"@ {
                match lit_string_model(l) {
                    Some(s) => Ok(seq![plain_fv(ValidatorModel::Contains(s))]),
                    None => Err(shape_err(fname, name@)),
                }
            } else if name@ == "regex"@ {
                match lit_string_model(l) {
                    Some(s) => Ok(seq![plain_fv(ValidatorModel::Regex(s))]),
                    None => Err(shape_err(fname, name@)),
                }
            } else if name@ == "must_match"@ {
                match lit_string_model(l) {
                    Some(s) => spec_must_match(field, fields, s, None, None),
                    None => Err(shape_err(fname, name@)),
                }
            } else {
                Err(unknown_validator_err(fname, name@))
            }
        },
        Intent::Group(name, args) => {
            if name@ == "length"@ {
                if !crate::types::has_len_cap(fnorm) {
                    Err(type_err(fname, name@))
                } else {
                    match spec_bounds_fold(fname, args@, 0, true, empty_bounds()) {
                        Err(e) => Err(e),
                        Ok(st) => {
                            if st.min is None && st.max is None && st.equal is None {
                                Err(missing_bounds_err(fname, name@))
                            } else {
                                Ok(
                                    seq![
                                        FvModel {
                                            validator: ValidatorModel::Length {
                                                min: st.min,
                                                max: st.max,
                                                equal: st.equal,
                                            },
                                            code: st.code,
                                            message: st.message,
                                        },
                                    ],
                                )
                            }
                        },
                    }
                }
            } else if name@ == "range"@ {
                if !crate::types::has_range_cap(fnorm) {
                    Err(type_err(fname, name@))
                } else {
                    match spec_bounds_fold(fname, args@, 0, false, empty_bounds()) {
                        Err(e) => Err(e),
                        Ok(st) => {
                            if st.min is None && st.max is None {
                                Err(missing_bounds_err(fname, name@))
                            } else {
                                Ok(
                                    seq![
                                        FvModel {
                                            validator: ValidatorModel::Range {
                                                min: st.min,
                                                max: st.max,
                                            },
                                            code: st.code,
                                            message: st.message,
                                        },
                                    ],
                                )
                            }
                        },
                    }
                }
            } else if is_format_name(name@) {
                if !crate::types::is_string_like(fnorm) {
                    Err(type_err(fname, name@))
                } else {
                    match spec_keyed_fold(fname, Seq::empty(), args@, 0, empty_keyed()) {
                        Err(e) => Err(e),
                        Ok(st) => Ok(
                            seq![
                                FvModel {
                                    validator: format_kind(name@),
                                    code: st.code,
                                    message: st.message,
                                },
                            ],
                        ),
                    }
                }
            } else if name@ == "custom"@ || name@ == "contains"@ || name@ == "regex"@ {
                let key = if name@ == "custom"@ {
                    "function"@
                } else if name@ == "contains"@ {
                    "pattern"@
                } else {
                    "path"@
                };
                match spec_keyed_fold(fname, key, args@, 0, empty_keyed()) {
                    Err(e) => Err(e),
                    Ok(st) => {
                        match st.value {
                            None => Err(missing_arg_err(fname, key)),
                            Some(v) => {
                                let vm = if name@ == "custom"@ {
                                    ValidatorModel::Custom(v)
                                } else if name@ == "contains"@ {
                                    ValidatorModel::Contains(v)
                                } else {
                                    ValidatorModel::Regex(v)
                                };
                                Ok(
                                    seq![
                                        FvModel {
                                            validator: vm,
                                            code: st.code,
                                            message: st.message,
                                        },
                                    ],
                                )
                            },
                        }
                    },
                }
            } else if name@ == "must_match"@ {
                match spec_keyed_fold(fname, "other"@, args@, 0, empty_keyed()) {
                    Err(e) => Err(e),
                    Ok(st) => {
                        match st.value {
                            None => Err(missing_arg_err(fname, "other"@)),
                            Some(v) => spec_must_match(field, fields, v, st.code, st.message),
                        }
                    },
                }
            } else {
                Err(unknown_validator_err(fname, name@))
            }
        },
    }
}

/// Whether an executable validator-list result and its model agree.
pub open spec fn fvs_matches(
    r: Result<Vec<FieldValidation>, CompileError>,
    m: Result<Seq<FvModel>, ErrModel>,
) -> bool {
    match r {
        Ok(v) => m == Ok::<Seq<FvModel>, ErrModel>(fvs_model(v@)),
        Err(e) => m == Err::<Seq<FvModel>, ErrModel>(err_model(e)),
    }
}

/// A successful one-entry validator list.
fn ok_one(fv: FieldValidation) -> (r: Result<Vec<FieldValidation>, CompileError>)
    ensures
        fvs_matches(r, Ok(seq![fv_model(fv)])),
{
    let ghost m = fv_model(fv);
    let mut out: Vec<FieldValidation> = Vec::new();
    out.push(fv);
    assert(fvs_model(out@) =~= seq![m]);
    Ok(out)
}

/// A successful two-entry validator list.
fn ok_two(fv1: FieldValidation, fv2: FieldValidation) -> (r: Result<
    Vec<FieldValidation>,
    CompileError,
>)
    ensures
        fvs_matches(r, Ok(seq![fv_model(fv1), fv_model(fv2)])),
{
    let ghost m1 = fv_model(fv1);
    let ghost m2 = fv_model(fv2);
    let mut out: Vec<FieldValidation> = Vec::new();
    out.push(fv1);
    out.push(fv2);
    assert(fvs_model(out@) =~= seq![m1, m2]);
    Ok(out)
}

/// The string-format validator a name denotes, if any.
fn format_validator(name: &String) -> (v: Option<Validator>)
    ensures
        match v {
            Some(vv) => is_format_name(name@) && crate::validation::validator_model(vv)
                == format_kind(name@),
            None => !is_format_name(name@),
        },
{
    if str_eq_lit(name, "email") {
        Some(Validator::Email)
    } else if str_eq_lit(name, "url") {
        Some(Validator::Url)
    } else if str_eq_lit(name, "phone") {
        Some(Validator::Phone)
    } else if str_eq_lit(name, "credit_card") {
        Some(Validator::CreditCard)
    } else if str_eq_lit(name, "non_control_character") {
        Some(Validator::NonControlCharacter)
    } else {
        None
    }
}

/// Builds the `must_match` entry after the cross-field type check.
fn must_match_validators(
    field: &FieldDecl,
    fields: &Vec<FieldDecl>,
    other: String,
    code: Option<String>,
    message: Option<String>,
) -> (r: Result<Vec<FieldValidation>, CompileError>)
    ensures
        fvs_matches(
            r,
            spec_must_match(
                *field,
                fields@,
                other@,
                crate::validation::opt_str_model(code),
                crate::validation::opt_str_model(message),
            ),
        ),
{
    match lookup_type(fields, &other) {
        None => Err(
            CompileError {
                kind: ErrorKind::CrossFieldMismatch,
                field: field.name.clone(),
                subject: other,
            },
        ),
        Some(t2) => {
            if !field.ty.same_as(t2) {
                Err(
                    CompileError {
                        kind: ErrorKind::CrossFieldMismatch,
                        field: field.name.clone(),
                        subject: other,
                    },
                )
            } else {
                ok_one(FieldValidation { validator: Validator::MustMatch(other), code, message })
            }
        },
    }
}

/// The validators one intent contributes, with the type check run before
/// argument resolution; the first offence is fatal.
pub fn find_validators_for_intent(field: &FieldDecl, fields: &Vec<FieldDecl>, it: &Intent) -> (r:
    Result<Vec<FieldValidation>, CompileError>)
    ensures
        fvs_matches(r, spec_intent_validators(*field, fields@, *it)),
{
    match it {
        Intent::Bare(name) => {
            match format_validator(name) {
                Some(v) => {
                    if !crate::types::string_like(&field.ty) {
                        Err(
                            CompileError {
                                kind: ErrorKind::TypeIncompatible,
                                field: field.name.clone(),
                                subject: name.clone(),
                            },
                        )
                    } else {
                        ok_one(FieldValidation::new(v))
                    }
                },
                None => {
                    if str_eq_lit(name, "required") {
                        ok_one(FieldValidation::new(Validator::Required))
                    } else if str_eq_lit(name, "required_nested") {
                        ok_two(
                            FieldValidation::new(Validator::Required),
                            FieldValidation::new(Validator::Nested),
                        )
                    } else {
                        Err(
                            CompileError {
                                kind: ErrorKind::UnknownValidator,
                                field: field.name.clone(),
                                subject: name.clone(),
                            },
                        )
                    }
                },
            }
        },
        Intent::Assign(name, l) => {
            if str_eq_lit(name, "custom") {
                match lit_to_string(l) {
                    Some(s) => ok_one(FieldValidation::new(Validator::Custom(s))),
                    None => Err(
                        CompileError {
                            kind: ErrorKind::WrongLiteralShape,
                            field: field.name.clone(),
                            subject: name.clone(),
                        },
                    ),
                }
            } else if str_eq_lit(name, "contains") {
                match lit_to_string(l) {
                    Some(s) => ok_one(FieldValidation::new(Validator::Contains(s))),
                    None => Err(
                        CompileError {
                            kind: ErrorKind::WrongLiteralShape,
                            field: field.name.clone(),
                            subject: name.clone(),
                        },
                    ),
                }
            } else if str_eq_lit(name, "regex") {
                match lit_to_string(l) {
                    Some(s) => ok_one(FieldValidation::new(Validator::Regex(s))),
                    None => Err(
                        CompileError {
                            kind: ErrorKind::WrongLiteralShape,
                            field: field.name.clone(),
                            subject: name.clone(),
                        },
                    ),
                }
            } else if str_eq_lit(name, "must_match") {
                match lit_to_string(l) {
                    Some(s) => must_match_validators(field, fields, s, None, None),
                    None => Err(
                        CompileError {
                            kind: ErrorKind::WrongLiteralShape,
                            field: field.name.clone(),
                            subject: name.clone(),
                        },
                    ),
                }
            } else {
                Err(
                    CompileError {
                        kind: ErrorKind::UnknownValidator,
                        field: field.name.clone(),
                        subject: name.clone(),
                    },
                )
            }
        },
        Intent::Group(name, args) => {
            if str_eq_lit(name, "length") {
                if !crate::types::len_capable(&field.ty) {
                    return Err(
                        CompileError {
                            kind: ErrorKind::TypeIncompatible,
                            field: field.name.clone(),
                            subject: name.clone(),
                        },
                    );
                }
                match bounds_args(&field.name, args, true) {
                    Err(e) => Err(e),
                    Ok(b) => {
                        if b.min.is_none() && b.max.is_none() && b.equal.is_none() {
                            Err(
                                CompileError {
                                    kind: ErrorKind::MissingBounds,
                                    field: field.name.clone(),
                                    subject: name.clone(),
                                },
                            )
                        } else {
                            ok_one(
                                FieldValidation {
                                    validator: Validator::Length {
                                        min: b.min,
                                        max: b.max,
                                        equal: b.equal,
                                    },
                                    code: b.code,
                                    message: b.message,
                                },
                            )
                        }
                    },
                }
            } else if str_eq_lit(name, "range") {
                if !crate::types::range_capable(&field.ty) {
                    return Err(
                        CompileError {
                            kind: ErrorKind::TypeIncompatible,
                            field: field.name.clone(),
                            subject: name.clone(),
                        },
                    );
                }
                match bounds_args(&field.name, args, false) {
                    Err(e) => Err(e),
                    Ok(b) => {
                        if b.min.is_none() && b.max.is_none() {
                            Err(
                                CompileError {
                                    kind: ErrorKind::MissingBounds,
                                    field: field.name.clone(),
                                    subject: name.clone(),
                                },
                            )
                        } else {
                            ok_one(
                                FieldValidation {
                                    validator: Validator::Range { min: b.min, max: b.max },
                                    code: b.code,
                                    message: b.message,
                                },
                            )
                        }
                    },
                }
            } else {
                match format_validator(name) {
                    Some(v) => {
                        if !crate::types::string_like(&field.ty) {
                            return Err(
                                CompileError {
                                    kind: ErrorKind::TypeIncompatible,
                                    field: field.name.clone(),
                                    subject: name.clone(),
                                },
                            );
                        }
                        proof {
                            reveal_strlit("");
                            assert(""@ =~= Seq::<char>::empty());
                        }
                        match keyed_args(&field.name, "", args) {
                            Err(e) => Err(e),
                            Ok(k) => ok_one(
                                FieldValidation {
                                    validator: v,
                                    code: k.code,
                                    message: k.message,
                                },
                            ),
                        }
                    },
                    None => {
                        if str_eq_lit(name, "custom") || str_eq_lit(name, "contains") || str_eq_lit(
                            name,
                            "regex",
                        ) {
                            let key = if str_eq_lit(name, "custom") {
                                "function"
                            } else if str_eq_lit(name, "contains") {
                                "pattern"
                            } else {
                                "path"
                            };
                            match keyed_args(&field.name, key, args) {
                                Err(e) => Err(e),
                                Ok(k) => {
                                    match k.value {
                                        None => Err(
                                            CompileError {
                                                kind: ErrorKind::MissingArgument,
                                                field: field.name.clone(),
                                                subject: String::from_str(key),
                                            },
                                        ),
                                        Some(v) => {
                                            let vv = if str_eq_lit(name, "custom") {
                                                Validator::Custom(v)
                                            } else if str_eq_lit(name, "contains") {
                                                Validator::Contains(v)
                                            } else {
                                                Validator::Regex(v)
                                            };
                                            ok_one(
                                                FieldValidation {
                                                    validator: vv,
                                                    code: k.code,
                                                    message: k.message,
                                                },
                                            )
                                        },
                                    }
                                },
                            }
                        } else if str_eq_lit(name, "must_match") {
                            match keyed_args(&field.name, "other", args) {
                                Err(e) => Err(e),
                                Ok(k) => {
                                    match k.value {
                                        None => Err(
                                            CompileError {
                                                kind: ErrorKind::MissingArgument,
                                                field: field.name.clone(),
                                                subject: String::from_str("other"),
                                            },
                                        ),
                                        Some(v) => must_match_validators(
                                            field,
                                            fields,
                                            v,
                                            k.code,
                                            k.message,
                                        ),
                                    }
                                },
                            }
                        } else {
                            Err(
                                CompileError {
                                    kind: ErrorKind::UnknownValidator,
                                    field: field.name.clone(),
                                    subject: name.clone(),
                                },
                            )
                        }
                    },
                }
            }
        },
    }
}

/// The validators contributed by the intents of one annotation, from
/// position `i`, concatenated in declaration order.
pub open spec fn spec_intents_fold(
    field: FieldDecl,
    fields: Seq<FieldDecl>,
    its: Seq<Intent>,
    i: int,
) -> Result<Seq<FvModel>, ErrModel>
    decreases its.len() - i,
{
    if i < 0 || i >= its.len() {
        Ok(Seq::empty())
    } else {
        match spec_intent_validators(field, fields, its[i]) {
            Err(e) => Err(e),
            Ok(h) => {
                match spec_intents_fold(field, fields, its, i + 1) {
                    Err(e) => Err(e),
                    Ok(t) => Ok(h + t),
                }
            },
        }
    }
}

/// The validators one annotation contributes: the bare marker requests
/// nested validation; a list contributes its intents' validators.
pub open spec fn spec_attr_validators(
    field: FieldDecl,
    fields: Seq<FieldDecl>,
    attr: crate::intent::ValidationAttr,
) -> Result<Seq<FvModel>, ErrModel> {
    match attr {
        crate::intent::ValidationAttr::Marker => Ok(seq![plain_fv(ValidatorModel::Nested)]),
        crate::intent::ValidationAttr::Intents(l) => spec_intents_fold(field, fields, l@, 0),
    }
}

/// The validators of all annotations from position `i`, concatenated in
/// declaration order.
pub open spec fn spec_attrs_fold(
    field: FieldDecl,
    fields: Seq<FieldDecl>,
    attrs: Seq<crate::intent::ValidationAttr>,
    i: int,
) -> Result<Seq<FvModel>, ErrModel>
    decreases attrs.len() - i,
{
    if i < 0 || i >= attrs.len() {
        Ok(Seq::empty())
    } else {
        match spec_attr_validators(field, fields, attrs[i]) {
            Err(e) => Err(e),
            Ok(h) => {
                match spec_attrs_fold(field, fields, attrs, i + 1) {
                    Err(e) => Err(e),
                    Ok(t) => Ok(h + t),
                }
            },
        }
    }
}

/// Everything extraction decides about one field: its external name and
/// its ordered validator list, or the first fatal error.
pub open spec fn spec_field_validators(field: FieldDecl, fields: Seq<FieldDecl>) -> Result<
    (Seq<char>, Seq<FvModel>),
    ErrModel,
> {
    if field.name@.len() == 0 {
        Err(ErrModel { kind: ErrorKind::UnnamedField, field: field.name@, subject: field.name@ })
    } else {
        match spec_find_rename(field.name@, field.metas@, 0) {
            Err(e) => Err(e),
            Ok(ren) => {
                let external = match ren {
                    Some(s) => s,
                    None => field.name@,
                };
                match spec_attrs_fold(field, fields, field.validations@, 0) {
                    Err(e) => Err(e),
                    Ok(fvs) => {
                        if field.validations@.len() > 0 && fvs.len() == 0 {
                            Err(
                                ErrModel {
                                    kind: ErrorKind::EmptyValidatorList,
                                    field: field.name@,
                                    subject: field.name@,
                                },
                            )
                        } else {
                            Ok((external, fvs))
                        }
                    },
                }
            },
        }
    }
}

/// Whether an executable per-field result and its model agree.
pub open spec fn field_matches(
    r: Result<(String, Vec<FieldValidation>), CompileError>,
    m: Result<(Seq<char>, Seq<FvModel>), ErrModel>,
) -> bool {
    match r {
        Ok(p) => m == Ok::<(Seq<char>, Seq<FvModel>), ErrModel>((p.0@, fvs_model(p.1@))),
        Err(e) => m == Err::<(Seq<char>, Seq<FvModel>), ErrModel>(err_model(e)),
    }
}

/// Extracts everything about one field: its external name (the rename if
/// one is declared, else the declaration name) and its ordered validator
/// list.  A field that declares validation but yields no validator is a
/// fatal error, as is a nameless field.
#[verifier::loop_isolation(false)]
pub fn find_validators_for_field(field: &FieldDecl, fields: &Vec<FieldDecl>) -> (r: Result<
    (String, Vec<FieldValidation>),
    CompileError,
>)
    ensures
        field_matches(r, spec_field_validators(*field, fields@)),
{
    if field.name.as_str().is_empty() {
        return Err(
            CompileError {
                kind: ErrorKind::UnnamedField,
                field: field.name.clone(),
                subject: field.name.clone(),
            },
        );
    }
    let external = match find_original_field_name(&field.name, &field.metas) {
        Err(e) => {
            return Err(e);
        },
        Ok(Some(s)) => s,
        Ok(None) => field.name.clone(),
    };
    let mut out: Vec<FieldValidation> = Vec::new();
    let n = field.validations.len();
    let mut i: usize = 0;
    proof {
        assert(fvs_model(out@) =~= Seq::<FvModel>::empty());
        match spec_attrs_fold(*field, fields@, field.validations@, 0) {
            Ok(t) => {
                assert(fvs_model(out@) + t =~= t);
            },
            Err(e) => {},
        }
    }
    while i < n
        invariant
            n == field.validations@.len(),
            0 <= i <= n,
            match spec_attrs_fold(*field, fields@, field.validations@, i as int) {
                Ok(t) => spec_attrs_fold(*field, fields@, field.validations@, 0) == Ok::<
                    Seq<FvModel>,
                    ErrModel,
                >(fvs_model(out@) + t),
                Err(e) => spec_attrs_fold(*field, fields@, field.validations@, 0) == Err::<
                    Seq<FvModel>,
                    ErrModel,
                >(e),
            },
        decreases n - i,
    {
        let ghost prefix = fvs_model(out@);
        match &field.validations[i] {
            crate::intent::ValidationAttr::Marker => {
                let fv = FieldValidation::new(Validator::Nested);
                let ghost m = fv_model(fv);
                out.push(fv);
                proof {
                    assert(fvs_model(out@) =~= prefix + seq![m]);
                    match spec_attrs_fold(*field, fields@, field.validations@, i + 1) {
                        Ok(t) => {
                            assert(prefix + (seq![m] + t) =~= fvs_model(out@) + t);
                        },
                        Err(e) => {},
                    }
                }
            },
            crate::intent::ValidationAttr::Intents(list) => {
                let ln = list.len();
                let mut j: usize = 0;
                let ghost mut done: Seq<FvModel> = Seq::empty();
                proof {
                    assert(fvs_model(out@) =~= prefix + done);
                    match spec_intents_fold(*field, fields@, list@, 0) {
                        Ok(t) => {
                            assert(done + t =~= t);
                        },
                        Err(e) => {},
                    }
                }
                while j < ln
                    invariant
                        ln == list@.len(),
                        0 <= j <= ln,
                        0 <= i < field.validations@.len(),
                        n == field.validations@.len(),
                        field.validations@[i as int] matches crate::intent::ValidationAttr::Intents(
                            l,
                        ) && l@ == list@,
                        fvs_model(out@) == prefix + done,
                        match spec_attrs_fold(*field, fields@, field.validations@, i as int) {
                            Ok(t) => spec_attrs_fold(*field, fields@, field.validations@, 0)
                                == Ok::<Seq<FvModel>, ErrModel>(prefix + t),
                            Err(e) => spec_attrs_fold(*field, fields@, field.validations@, 0)
                                == Err::<Seq<FvModel>, ErrModel>(e),
                        },
                        match spec_intents_fold(*field, fields@, list@, j as int) {
                            Ok(t) => spec_intents_fold(*field, fields@, list@, 0) == Ok::<
                                Seq<FvModel>,
                                ErrModel,
                            >(done + t),
                            Err(e) => spec_intents_fold(*field, fields@, list@, 0) == Err::<
                                Seq<FvModel>,
                                ErrModel,
                            >(e),
                        },
                    decreases ln - j,
                {
                    match find_validators_for_intent(field, fields, &list[j]) {
                        Err(e) => {
                            return Err(e);
                        },
                        Ok(mut v) => {
                            let ghost vm = fvs_model(v@);
                            let ghost v0 = v@;
                            let ghost out_start = out@;
                            out.append(&mut v);
                            proof {
                                let old_done = done;
                                done = done + vm;
                                crate::validation::lemma_fvs_model_concat(out_start, v0);
                                assert(prefix + old_done + vm =~= prefix + done);
                                assert(fvs_model(out@) == prefix + done);
                                match spec_intents_fold(*field, fields@, list@, j + 1) {
                                    Ok(t) => {
                                        assert(old_done + (vm + t) =~= done + t);
                                    },
                                    Err(e) => {},
                                }
                            }
                        },
                    }
                    j = j + 1;
                }
                proof {
                    match spec_attrs_fold(*field, fields@, field.validations@, i + 1) {
                        Ok(t) => {
                            assert(prefix + (done + t) =~= (prefix + done) + t);
                        },
                        Err(e) => {},
                    }
                }
            },
        }
        i = i + 1;
    }
    if n > 0 && out.len() == 0 {
        return Err(
            CompileError {
                kind: ErrorKind::EmptyValidatorList,
                field: field.name.clone(),
                subject: field.name.clone(),
            },
        );
    }
    Ok((external, out))
}

/// Resolved arguments of a struct-level `schema` intent.
pub struct SchemaArgs {
    pub function: Option<String>,
    pub skip_on_field_errors: bool,
    pub code: Option<String>,
    pub message: Option<String>,
}

/// Model of resolved schema arguments.
pub struct SchemaArgsModel {
    pub function: Option<Seq<char>>,
    pub skip_on_field_errors: bool,
    pub code: Option<Seq<char>>,
    pub message: Option<Seq<char>>,
}

/// The model of resolved schema arguments.
pub open spec fn schema_args_model(s: SchemaArgs) -> SchemaArgsModel {
    SchemaArgsModel {
        function: crate::validation::opt_str_model(s.function),
        skip_on_field_errors: s.skip_on_field_errors,
        code: crate::validation::opt_str_model(s.code),
        message: crate::validation::opt_str_model(s.message),
    }
}

/// No schema argument resolved yet; skipping on field errors is the
/// default.
pub open spec fn empty_schema_args() -> SchemaArgsModel {
    SchemaArgsModel { function: None, skip_on_field_errors: true, code: None, message: None }
}

/// Folds the arguments of a `schema` intent from position `i`:
/// `function`, `code` and `message` are strings, `skip_on_field_errors` a
/// boolean; any other name is unknown.  Struct-level errors carry an
/// empty field name.
pub open spec fn spec_schema_fold(args: Seq<Arg>, i: int, st: SchemaArgsModel) -> Result<
    SchemaArgsModel,
    ErrModel,
>
    decreases args.len() - i,
{
    if i < 0 || i >= args.len() {
        Ok(st)
    } else {
        let a = args[i];
        if a.name@ == "function"@ {
            match lit_string_model(a.value) {
                Some(v) => spec_schema_fold(
                    args,
                    i + 1,
                    SchemaArgsModel { function: Some(v), ..st },
                ),
                None => Err(shape_err(Seq::empty(), a.name@)),
            }
        } else if a.name@ == "skip_on_field_errors"@ {
            match lit_bool_model(a.value) {
                Some(v) => spec_schema_fold(
                    args,
                    i + 1,
                    SchemaArgsModel { skip_on_field_errors: v, ..st },
                ),
                None => Err(shape_err(Seq::empty(), a.name@)),
            }
        } else if a.name@ == "code"@ {
            match lit_string_model(a.value) {
                Some(v) => spec_schema_fold(args, i + 1, SchemaArgsModel { code: Some(v), ..st }),
                None => Err(shape_err(Seq::empty(), a.name@)),
            }
        } else if a.name@ == "message"@ {
            match lit_string_model(a.value) {
                Some(v) => spec_schema_fold(
                    args,
                    i + 1,
                    SchemaArgsModel { message: Some(v), ..st },
                ),
                None => Err(shape_err(Seq::empty(), a.name@)),
            }
        } else {
            Err(unknown_arg_err(Seq::empty(), a.name@))
        }
    }
}

/// One struct-level intent: only a grouped intent named `schema` is
/// legal, and it must name a non-empty `function`.
pub open spec fn spec_struct_validation(it: Intent) -> Result<SchemaModel, ErrModel> {
    match it {
        Intent::Group(name, args) => {
            if name@ != "schema"@ {
                Err(
                    ErrModel {
                        kind: ErrorKind::SchemaIntentInvalid,
                        field: Seq::empty(),
                        subject: name@,
                    },
                )
            } else {
                match spec_schema_fold(args@, 0, empty_schema_args()) {
                    Err(e) => Err(e),
                    Ok(st) => {
                        match st.function {
                            None => Err(
                                ErrModel {
                                    kind: ErrorKind::SchemaFunctionMissing,
                                    field: Seq::empty(),
                                    subject: "function"@,
                                },
                            ),
                            Some(f) => {
                                if f.len() == 0 {
                                    Err(
                                        ErrModel {
                                            kind: ErrorKind::SchemaFunctionMissing,
                                            field: Seq::empty(),
                                            subject: "function"@,
                                        },
                                    )
                                } else {
                                    Ok(
                                        SchemaModel {
                                            function: f,
                                            skip_on_field_errors: st.skip_on_field_errors,
                                            code: st.code,
                                            message: st.message,
                                        },
                                    )
                                }
                            },
                        }
                    },
                }
            }
        },
        Intent::Bare(name) => Err(
            ErrModel { kind: ErrorKind::SchemaIntentInvalid, field: Seq::empty(), subject: name@ },
        ),
        Intent::Assign(name, _) => Err(
            ErrModel { kind: ErrorKind::SchemaIntentInvalid, field: Seq::empty(), subject: name@ },
        ),
    }
}

/// All struct-level intents from position `i`, in declaration order.
pub open spec fn spec_struct_validations(its: Seq<Intent>, i: int) -> Result<
    Seq<SchemaModel>,
    ErrModel,
>
    decreases its.len() - i,
{
    if i < 0 || i >= its.len() {
        Ok(Seq::empty())
    } else {
        match spec_struct_validation(its[i]) {
            Err(e) => Err(e),
            Ok(h) => {
                match spec_struct_validations(its, i + 1) {
                    Err(e) => Err(e),
                    Ok(t) => Ok(seq![h] + t),
                }
            },
        }
    }
}

/// Whether an executable schema result and its model agree.
pub open spec fn schema_matches(
    r: Result<SchemaValidation, CompileError>,
    m: Result<SchemaModel, ErrModel>,
) -> bool {
    match r {
        Ok(s) => m == Ok::<SchemaModel, ErrModel>(schema_model(s)),
        Err(e) => m == Err::<SchemaModel, ErrModel>(err_model(e)),
    }
}

/// Reads one struct-level intent into a schema validation entry.
#[verifier::loop_isolation(false)]
pub fn find_struct_validation(it: &Intent) -> (r: Result<SchemaValidation, CompileError>)
    ensures
        schema_matches(r, spec_struct_validation(*it)),
{
    match it {
        Intent::Group(name, args) => {
            if !str_eq_lit(name, "schema") {
                return Err(
                    CompileError {
                        kind: ErrorKind::SchemaIntentInvalid,
                        field: String::new(),
                        subject: name.clone(),
                    },
                );
            }
            let mut cur = SchemaArgs {
                function: None,
                skip_on_field_errors: true,
                code: None,
                message: None,
            };
            let n = args.len();
            let mut i: usize = 0;
            proof {
                reveal_strlit("");
                assert(""@ =~= Seq::<char>::empty());
            }
            while i < n
                invariant
                    n == args@.len(),
                    0 <= i <= n,
                    spec_schema_fold(args@, 0, empty_schema_args()) == spec_schema_fold(
                        args@,
                        i as int,
                        schema_args_model(cur),
                    ),
                decreases n - i,
            {
                let a = &args[i];
                if str_eq_lit(&a.name, "function") {
                    match lit_to_string(&a.value) {
                        Some(v) => {
                            cur.function = Some(v);
                        },
                        None => {
                            return Err(
                                CompileError {
                                    kind: ErrorKind::WrongLiteralShape,
                                    field: String::new(),
                                    subject: a.name.clone(),
                                },
                            );
                        },
                    }
                } else if str_eq_lit(&a.name, "skip_on_field_errors") {
                    match lit_to_bool(&a.value) {
                        Some(v) => {
                            cur.skip_on_field_errors = v;
                        },
                        None => {
                            return Err(
                                CompileError {
                                    kind: ErrorKind::WrongLiteralShape,
                                    field: String::new(),
                                    subject: a.name.clone(),
                                },
                            );
                        },
                    }
                } else if str_eq_lit(&a.name, "code") {
                    match lit_to_string(&a.value) {
                        Some(v) => {
                            cur.code = Some(v);
                        },
                        None => {
                            return Err(
                                CompileError {
                                    kind: ErrorKind::WrongLiteralShape,
                                    field: String::new(),
                                    subject: a.name.clone(),
                                },
                            );
                        },
                    }
                } else if str_eq_lit(&a.name, "message") {
                    match lit_to_string(&a.value) {
                        Some(v) => {
                            cur.message = Some(v);
                        },
                        None => {
                            return Err(
                                CompileError {
                                    kind: ErrorKind::WrongLiteralShape,
                                    field: String::new(),
                                    subject: a.name.clone(),
                                },
                            );
                        },
                    }
                } else {
                    return Err(
                        CompileError {
                            kind: ErrorKind::UnknownArgument,
                            field: String::new(),
                            subject: a.name.clone(),
                        },
                    );
                }
                i = i + 1;
            }
            match cur.function {
                None => Err(
                    CompileError {
                        kind: ErrorKind::SchemaFunctionMissing,
                        field: String::new(),
                        subject: String::from_str("function"),
                    },
                ),
                Some(f) => {
                    if f.as_str().is_empty() {
                        Err(
                            CompileError {
                                kind: ErrorKind::SchemaFunctionMissing,
                                field: String::new(),
                                subject: String::from_str("function"),
                            },
                        )
                    } else {
                        Ok(
                            SchemaValidation {
                                function: f,
                                skip_on_field_errors: cur.skip_on_field_errors,
                                code: cur.code,
                                message: cur.message,
                            },
                        )
                    }
                },
            }
        },
        Intent::Bare(name) => Err(
            CompileError {
                kind: ErrorKind::SchemaIntentInvalid,
                field: String::new(),
                subject: name.clone(),
            },
        ),
        Intent::Assign(name, _) => Err(
            CompileError {
                kind: ErrorKind::SchemaIntentInvalid,
                field: String::new(),
                subject: name.clone(),
            },
        ),
    }
}

/// Whether an executable schema-list result and its model agree.
pub open spec fn schemas_matches(
    r: Result<Vec<SchemaValidation>, CompileError>,
    m: Result<Seq<SchemaModel>, ErrModel>,
) -> bool {
    match r {
        Ok(v) => m == Ok::<Seq<SchemaModel>, ErrModel>(crate::validation::schemas_model(v@)),
        Err(e) => m == Err::<Seq<SchemaModel>, ErrModel>(err_model(e)),
    }
}

/// Reads all struct-level intents, in declaration order.
#[verifier::loop_isolation(false)]
pub fn find_struct_validations(intents: &Vec<Intent>) -> (r: Result<
    Vec<SchemaValidation>,
    CompileError,
>)
    ensures
        schemas_matches(r, spec_struct_validations(intents@, 0)),
{
    let mut out: Vec<SchemaValidation> = Vec::new();
    let n = intents.len();
    let mut i: usize = 0;
    proof {
        assert(crate::validation::schemas_model(out@) =~= Seq::<SchemaModel>::empty());
        match spec_struct_validations(intents@, 0) {
            Ok(t) => {
                assert(crate::validation::schemas_model(out@) + t =~= t);
            },
            Err(e) => {},
        }
    }
    while i < n
        invariant
            n == intents@.len(),
            0 <= i <= n,
            match spec_struct_validations(intents@, i as int) {
                Ok(t) => spec_struct_validations(intents@, 0) == Ok::<Seq<SchemaModel>, ErrModel>(
                    crate::validation::schemas_model(out@) + t,
                ),
                Err(e) => spec_struct_validations(intents@, 0) == Err::<Seq<SchemaModel>, ErrModel>(
                    e,
                ),
            },
        decreases n - i,
    {
        match find_struct_validation(&intents[i]) {
            Err(e) => {
                return Err(e);
            },
            Ok(s) => {
                let ghost prev = crate::validation::schemas_model(out@);
                let ghost sm = schema_model(s);
                out.push(s);
                proof {
                    assert(crate::validation::schemas_model(out@) =~= prev + seq![sm]);
                    match spec_struct_validations(intents@, i + 1) {
                        Ok(t) => {
                            assert(prev + (seq![sm] + t) =~= (prev + seq![sm]) + t);
                        },
                        Err(e) => {},
                    }
                }
            },
        }
        i = i + 1;
    }
    Ok(out)
}

} // verus!
