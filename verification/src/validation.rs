//! The validator vocabulary and the entries a plan is made of.
//!
//! `Validator` is the closed set of rule kinds with their resolved
//! arguments; `FieldValidation` pairs one validator with its optional code
//! and message overrides; `SchemaValidation` is one whole-record rule.
//! `CompileError` is the fatal diagnostic extraction stops on.  Each type
//! has a mathematical model used by the contracts.

use vstd::prelude::*;

verus! {

/// The closed set of validator kinds, each with its resolved arguments.
#[derive(Debug, PartialEq, Eq)]
pub enum Validator {
    Email,
    Url,
    Phone,
    CreditCard,
    NonControlCharacter,
    Required,
    Nested,
    Length { min: Option<i64>, max: Option<i64>, equal: Option<i64> },
    Range { min: Option<i64>, max: Option<i64> },
    Custom(String),
    Contains(String),
    Regex(String),
    MustMatch(String),
}

/// Model of a validator: the same shape over sequences and mathematical
/// integers.
pub enum ValidatorModel {
    Email,
    Url,
    Phone,
    CreditCard,
    NonControlCharacter,
    Required,
    Nested,
    Length { min: Option<int>, max: Option<int>, equal: Option<int> },
    Range { min: Option<int>, max: Option<int> },
    Custom(Seq<char>),
    Contains(Seq<char>),
    Regex(Seq<char>),
    MustMatch(Seq<char>),
}

/// The model of an optional bound.
pub open spec fn opt_num_model(o: Option<i64>) -> Option<int> {
    match o {
        Some(n) => Some(n as int),
        None => None,
    }
}

/// The model of an optional string.
pub open spec fn opt_str_model(o: Option<String>) -> Option<Seq<char>> {
    match o {
        Some(s) => Some(s@),
        None => None,
    }
}

/// The model of a validator.
pub open spec fn validator_model(v: Validator) -> ValidatorModel {
    match v {
        Validator::Email => ValidatorModel::Email,
        Validator::Url => ValidatorModel::Url,
        Validator::Phone => ValidatorModel::Phone,
        Validator::CreditCard => ValidatorModel::CreditCard,
        Validator::NonControlCharacter => ValidatorModel::NonControlCharacter,
        Validator::Required => ValidatorModel::Required,
        Validator::Nested => ValidatorModel::Nested,
        Validator::Length { min, max, equal } => ValidatorModel::Length {
            min: opt_num_model(min),
            max: opt_num_model(max),
            equal: opt_num_model(equal),
        },
        Validator::Range { min, max } => ValidatorModel::Range {
            min: opt_num_model(min),
            max: opt_num_model(max),
        },
        Validator::Custom(s) => ValidatorModel::Custom(s@),
        Validator::Contains(s) => ValidatorModel::Contains(s@),
        Validator::Regex(s) => ValidatorModel::Regex(s@),
        Validator::MustMatch(s) => ValidatorModel::MustMatch(s@),
    }
}

/// One declared validation rule on a field: the validator plus its
/// optional code and message overrides.
#[derive(Debug, PartialEq, Eq)]
pub struct FieldValidation {
    pub validator: Validator,
    pub code: Option<String>,
    pub message: Option<String>,
}

/// Model of a field validation entry.
pub struct FvModel {
    pub validator: ValidatorModel,
    pub code: Option<Seq<char>>,
    pub message: Option<Seq<char>>,
}

/// The model of a field validation entry.
pub open spec fn fv_model(f: FieldValidation) -> FvModel {
    FvModel {
        validator: validator_model(f.validator),
        code: opt_str_model(f.code),
        message: opt_str_model(f.message),
    }
}

/// The models of a list of field validation entries, in order.
pub open spec fn fvs_model(fs: Seq<FieldValidation>) -> Seq<FvModel> {
    fs.map_values(|f: FieldValidation| fv_model(f))
}

impl FieldValidation {
    /// A rule with no overrides.
    pub fn new(validator: Validator) -> (r: FieldValidation)
        ensures
            fv_model(r) == (FvModel {
                validator: validator_model(validator),
                code: None,
                message: None,
            }),
    {
        FieldValidation { validator, code: None, message: None }
    }
}

/// One whole-record validation rule: the named external function and its
/// control flags.
#[derive(Debug, PartialEq, Eq)]
pub struct SchemaValidation {
    /// The external function's name; required and non-empty.
    pub function: String,
    /// Skip this rule when the record already has field-level errors.
    pub skip_on_field_errors: bool,
    pub code: Option<String>,
    pub message: Option<String>,
}

/// Model of a schema validation entry.
pub struct SchemaModel {
    pub function: Seq<char>,
    pub skip_on_field_errors: bool,
    pub code: Option<Seq<char>>,
    pub message: Option<Seq<char>>,
}

/// The model of a schema validation entry.
pub open spec fn schema_model(s: SchemaValidation) -> SchemaModel {
    SchemaModel {
        function: s.function@,
        skip_on_field_errors: s.skip_on_field_errors,
        code: opt_str_model(s.code),
        message: opt_str_model(s.message),
    }
}

/// The models of a list of schema validation entries, in order.
pub open spec fn schemas_model(ss: Seq<SchemaValidation>) -> Seq<SchemaModel> {
    ss.map_values(|s: SchemaValidation| schema_model(s))
}

/// Mapping to models distributes over concatenation.
pub proof fn lemma_fvs_model_concat(a: Seq<FieldValidation>, b: Seq<FieldValidation>)
    ensures
        fvs_model(a + b) == fvs_model(a) + fvs_model(b),
{
    assert(fvs_model(a + b) =~= fvs_model(a) + fvs_model(b));
}

/// The class of a fatal compilation error.
#[derive(PartialEq, Eq, Structural, Clone, Copy, Debug)]
pub enum ErrorKind {
    /// A validator name outside the vocabulary, or a known name in a shape
    /// it does not take.
    UnknownValidator,
    /// A literal of the wrong shape for an argument.
    WrongLiteralShape,
    /// A required argument was not given.
    MissingArgument,
    /// An argument name the validator does not take.
    UnknownArgument,
    /// `length` or `range` with no bound at all.
    MissingBounds,
    /// A validator paired with a type lacking the needed capability.
    TypeIncompatible,
    /// `must_match` against a missing field or one of another type.
    CrossFieldMismatch,
    /// A struct-level intent that is not a `schema` group.
    SchemaIntentInvalid,
    /// A schema intent without a non-empty `function`.
    SchemaFunctionMissing,
    /// A field that declares validation but yields no validator.
    EmptyValidatorList,
    /// A field without a name.
    UnnamedField,
}

/// A fatal diagnostic: compilation stops on the first one.
#[derive(Debug, PartialEq, Eq)]
pub struct CompileError {
    pub kind: ErrorKind,
    /// The field the offending intent is attached to; empty for a
    /// struct-level intent.
    pub field: String,
    /// The offending token: a validator name, an argument name, or a type
    /// identifier.
    pub subject: String,
}

/// Model of a compilation error.
pub struct ErrModel {
    pub kind: ErrorKind,
    pub field: Seq<char>,
    pub subject: Seq<char>,
}

/// The model of a compilation error.
pub open spec fn err_model(e: CompileError) -> ErrModel {
    ErrModel { kind: e.kind, field: e.field@, subject: e.subject@ }
}

} // verus!
