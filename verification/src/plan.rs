//! The validation plan and its assembly.
//!
//! Compiling a record description runs extraction once per field, collects
//! the struct-level schema rules, and produces an immutable plan: per
//! field its declaration name, external name, type descriptor and ordered
//! validator list, plus the ordered schema rules.  The plan is shareable
//! across all instances of the record type.

use vstd::prelude::*;
use crate::extract::{find_struct_validations, find_validators_for_field, spec_field_validators,
    spec_struct_validations};
use crate::intent::StructDecl;
use crate::types::TypeDesc;
use crate::validation::{CompileError, ErrModel, FieldValidation, FvModel, SchemaModel,
    SchemaValidation, err_model, fvs_model, schemas_model};

verus! {

/// Everything the plan holds about one field.
#[derive(Debug, PartialEq, Eq)]
pub struct FieldPlan {
    /// The field's declaration name, used for value lookup.
    pub decl_name: String,
    /// The name errors are reported under.
    pub external_name: String,
    /// The field's declared type, symbolically.
    pub ty: TypeDesc,
    /// The validators to run, in extraction order.
    pub checks: Vec<FieldValidation>,
}

/// Model of one field's plan.
pub struct FieldPlanModel {
    pub decl_name: Seq<char>,
    pub external_name: Seq<char>,
    pub ty: Seq<char>,
    pub checks: Seq<FvModel>,
}

/// The model of one field's plan.
pub open spec fn field_plan_model(p: FieldPlan) -> FieldPlanModel {
    FieldPlanModel {
        decl_name: p.decl_name@,
        external_name: p.external_name@,
        ty: p.ty.norm@,
        checks: fvs_model(p.checks@),
    }
}

/// The models of a list of field plans, in order.
pub open spec fn field_plans_model(ps: Seq<FieldPlan>) -> Seq<FieldPlanModel> {
    ps.map_values(|p: FieldPlan| field_plan_model(p))
}

/// An executable validation plan for one record type.
#[derive(Debug, PartialEq, Eq)]
pub struct ValidationPlan {
    /// Per field, in declaration order.
    pub fields: Vec<FieldPlan>,
    /// The schema rules, in declaration order.
    pub schemas: Vec<SchemaValidation>,
}

/// Model of a validation plan.
pub struct PlanModel {
    pub fields: Seq<FieldPlanModel>,
    pub schemas: Seq<SchemaModel>,
}

/// The model of a validation plan.
pub open spec fn plan_model(p: ValidationPlan) -> PlanModel {
    PlanModel { fields: field_plans_model(p.fields@), schemas: schemas_model(p.schemas@) }
}

/// The field plans extraction yields from position `i` on.
pub open spec fn spec_compile_fields(fields: Seq<crate::intent::FieldDecl>, i: int) -> Result<
    Seq<FieldPlanModel>,
    ErrModel,
>
    decreases fields.len() - i,
{
    if i < 0 || i >= fields.len() {
        Ok(Seq::empty())
    } else {
        match spec_field_validators(fields[i], fields) {
            Err(e) => Err(e),
            Ok(p) => {
                match spec_compile_fields(fields, i + 1) {
                    Err(e) => Err(e),
                    Ok(t) => Ok(
                        seq![
                            FieldPlanModel {
                                decl_name: fields[i].name@,
                                external_name: p.0,
                                ty: fields[i].ty.norm@,
                                checks: p.1,
                            },
                        ] + t,
                    ),
                }
            },
        }
    }
}

/// The plan compilation yields: every field extracted against the whole
/// field list, then the struct-level schema rules, or the first fatal
/// error.
pub open spec fn spec_compile(decl: StructDecl) -> Result<PlanModel, ErrModel> {
    match spec_compile_fields(decl.fields@, 0) {
        Err(e) => Err(e),
        Ok(fps) => {
            match spec_struct_validations(decl.struct_intents@, 0) {
                Err(e) => Err(e),
                Ok(ss) => Ok(PlanModel { fields: fps, schemas: ss }),
            }
        },
    }
}

/// Whether an executable compilation result and its model agree.
pub open spec fn compile_matches(
    r: Result<ValidationPlan, CompileError>,
    m: Result<PlanModel, ErrModel>,
) -> bool {
    match r {
        Ok(p) => m == Ok::<PlanModel, ErrModel>(plan_model(p)),
        Err(e) => m == Err::<PlanModel, ErrModel>(err_model(e)),
    }
}

/// Compiles a record description into its validation plan, or stops on
/// the first fatal diagnostic.
#[verifier::loop_isolation(false)]
pub fn compile(decl: &StructDecl) -> (r: Result<ValidationPlan, CompileError>)
    ensures
        compile_matches(r, spec_compile(*decl)),
{
    let mut fps: Vec<FieldPlan> = Vec::new();
    let n = decl.fields.len();
    let mut i: usize = 0;
    proof {
        assert(field_plans_model(fps@) =~= Seq::<FieldPlanModel>::empty());
        match spec_compile_fields(decl.fields@, 0) {
            Ok(t) => {
                assert(field_plans_model(fps@) + t =~= t);
            },
            Err(e) => {},
        }
    }
    while i < n
        invariant
            n == decl.fields@.len(),
            0 <= i <= n,
            match spec_compile_fields(decl.fields@, i as int) {
                Ok(t) => spec_compile_fields(decl.fields@, 0) == Ok::<
                    Seq<FieldPlanModel>,
                    ErrModel,
                >(field_plans_model(fps@) + t),
                Err(e) => spec_compile_fields(decl.fields@, 0) == Err::<
                    Seq<FieldPlanModel>,
                    ErrModel,
                >(e),
            },
        decreases n - i,
    {
        match find_validators_for_field(&decl.fields[i], &decl.fields) {
            Err(e) => {
                return Err(e);
            },
            Ok((external, checks)) => {
                let fp = FieldPlan {
                    decl_name: decl.fields[i].name.clone(),
                    external_name: external,
                    ty: decl.fields[i].ty.duplicate(),
                    checks,
                };
                let ghost prev = field_plans_model(fps@);
                let ghost pm = field_plan_model(fp);
                fps.push(fp);
                proof {
                    assert(field_plans_model(fps@) =~= prev + seq![pm]);
                    match spec_compile_fields(decl.fields@, i + 1) {
                        Ok(t) => {
                            assert(prev + (seq![pm] + t) =~= (prev + seq![pm]) + t);
                        },
                        Err(e) => {},
                    }
                }
            },
        }
        i = i + 1;
    }
    let schemas = match find_struct_validations(&decl.struct_intents) {
        Err(e) => {
            return Err(e);
        },
        Ok(ss) => ss,
    };
    Ok(ValidationPlan { fields: fps, schemas })
}

} // verus!
