use vstd::prelude::*;
use crate::error::{AASCheckError, CheckError, Violation, ViolationModel};
use crate::json::{document_of, read_document, value_text};

verus! {

/// A schema compiled for validation under Draft 2019-09. It holds a
/// `jsonschema::Validator`, which only `compile` makes; what it reports is
/// described through `compiled_from`, the schema it was made from.
#[verifier::external_body]
pub struct CompiledSchema {
    validator: jsonschema::Validator,
}

/// The compact text of the schema that a compiled schema was made from.
pub uninterp spec fn compiled_from(v: CompiledSchema) -> Seq<char>;

/// Why compiling the schema with compact text `schema` as a Draft 2019-09
/// schema fails, if it does.
pub uninterp spec fn schema_fault(schema: Seq<char>) -> Option<Seq<char>>;

/// The first violation that a Draft 2019-09 validator compiled from the schema
/// text `schema` reports for the instance text `instance`, if any.
pub uninterp spec fn first_violation(schema: Seq<char>, instance: Seq<char>) -> Option<ViolationModel>;

/// Every violation that a Draft 2019-09 validator compiled from the schema text
/// `schema` reports for the instance text `instance`, in the order reported.
pub uninterp spec fn all_violations(schema: Seq<char>, instance: Seq<char>) -> Seq<ViolationModel>;

/// Relies on `jsonschema::draft201909::new`: it compiles a schema under Draft
/// 2019-09, or fails with an error whose `Display` gives the message.
#[verifier::external_body]
fn compile(schema: &serde_json::Value) -> (r: Result<CompiledSchema, String>)
    ensures
        match schema_fault(value_text(*schema)) {
            None => r is Ok && compiled_from(r->Ok_0) == value_text(*schema),
            Some(m) => r is Err && r->Err_0@ == m,
        },
{
    jsonschema::draft201909::new(schema)
        .map(|validator| CompiledSchema { validator })
        .map_err(|e| e.to_string())
}

/// Relies on `jsonschema::Validator::validate`: it returns the first error
/// that the validator finds, with its instance path, keyword and message.
#[verifier::external_body]
fn validate_first(schema: &CompiledSchema, instance: &serde_json::Value) -> (r: Option<Violation>)
    ensures
        match first_violation(compiled_from(*schema), value_text(*instance)) {
            None => r is None,
            Some(v) => r is Some && r->Some_0@ == v,
        },
{
    schema.validator.validate(instance).err().map(|e| Violation {
        path: e.instance_path().as_str().to_string(),
        rule: e.kind().keyword().to_string(),
        message: e.to_string(),
    })
}

/// Relies on `jsonschema::Validator::iter_errors`: it returns every error that
/// the validator finds, each with its instance path, keyword and message.
#[verifier::external_body]
fn validate_every(schema: &CompiledSchema, instance: &serde_json::Value) -> (r: Vec<Violation>)
    ensures
        violations_model(r@) == all_violations(compiled_from(*schema), value_text(*instance)),
{
    schema.validator.iter_errors(instance).map(|e| Violation {
        path: e.instance_path().as_str().to_string(),
        rule: e.kind().keyword().to_string(),
        message: e.to_string(),
    }).collect()
}

/// The models of a sequence of violations.
pub open spec fn violations_model(vs: Seq<Violation>) -> Seq<ViolationModel> {
    vs.map_values(|v: Violation| v@)
}

/// The violations reported for the instance text `instance` against the schema
/// text `schema`: all of them when `collect_all` holds, else at most the first.
pub open spec fn report(schema: Seq<char>, instance: Seq<char>, collect_all: bool) -> Seq<ViolationModel> {
    if collect_all {
        all_violations(schema, instance)
    } else {
        match first_violation(schema, instance) {
            None => Seq::empty(),
            Some(v) => seq![v],
        }
    }
}

/// What compiling the schema document with text `text` yields: the compact
/// text of the compiled schema, or the error.
pub open spec fn compilation(text: Seq<char>) -> Result<Seq<char>, CheckError> {
    match document_of(text) {
        Ok(c) => match schema_fault(c) {
            None => Ok(c),
            Some(m) => Err(CheckError::InvalidSchema(m)),
        },
        Err(e) => Err(e),
    }
}

/// The outcome of validating the instance text `instance` against the schema text `schema`.
pub open spec fn verdict(schema: Seq<char>, instance: Seq<char>) -> Result<(), CheckError> {
    match first_violation(schema, instance) {
        None => Ok(()),
        Some(v) => Err(CheckError::ValidationFailed(v)),
    }
}

/// Compiles the schema document with text `text` as a Draft 2019-09 schema.
pub fn compile_schema(text: &str) -> (r: Result<CompiledSchema, AASCheckError>)
    ensures
        match r {
            Ok(v) => compilation(text@) == Ok::<Seq<char>, CheckError>(compiled_from(v)),
            Err(e) => compilation(text@) == Err::<Seq<char>, CheckError>(e@),
        },
{
    let doc = read_document(text);
    match doc {
        Ok(v) => match compile(&v) {
            Ok(validator) => Ok(validator),
            Err(m) => Err(AASCheckError::InvalidSchema(m)),
        },
        Err(e) => Err(e),
    }
}

/// Validates `instance` against `schema`, reporting the first violation.
pub fn validate(schema: &CompiledSchema, instance: &serde_json::Value) -> (r: Result<(), AASCheckError>)
    ensures
        crate::error::result_view(r) == verdict(compiled_from(*schema), value_text(*instance)),
{
    match validate_first(schema, instance) {
        None => Ok(()),
        Some(v) => Err(AASCheckError::ValidationFailed(v)),
    }
}

/// Validates `instance` against `schema`, reporting every violation when
/// `collect_all` holds and at most the first one otherwise.
pub fn validate_report(schema: &CompiledSchema, instance: &serde_json::Value, collect_all: bool) -> (r: Vec<Violation>)
    ensures
        violations_model(r@) == report(compiled_from(*schema), value_text(*instance), collect_all),
{
    if collect_all {
        validate_every(schema, instance)
    } else {
        let mut r: Vec<Violation> = Vec::new();
        match validate_first(schema, instance) {
            None => {},
            Some(v) => r.push(v),
        }
        proof {
            assert(violations_model(r@) =~= report(compiled_from(*schema), value_text(*instance), collect_all));
        }
        r
    }
}

} // verus!
