use vstd::prelude::*;
use crate::error::{result_view, AASCheckError, CheckError, Violation, ViolationModel};
use crate::json::{envelope, envelope_text, value_text};
use crate::mode::Mode;
use crate::schema::{
    compiled_from, first_violation, report, validate, validate_report, verdict, violations_model,
    CompiledSchema,
};

verus! {

/// The document that the schema sees for an instance with text `instance`
/// read in `mode`: the instance itself for a whole environment, an
/// environment around it for a single submodel.
pub open spec fn shaped(instance: Seq<char>, mode: Mode) -> Seq<char> {
    match mode {
        Mode::AAS => instance,
        Mode::Submodel => envelope_text(instance),
    }
}

/// The outcome of checking the instance text `instance` in `mode` against the
/// schema text `schema`.
pub open spec fn check_outcome(schema: Seq<char>, instance: Seq<char>, mode: Mode) -> Result<(), CheckError> {
    verdict(schema, shaped(instance, mode))
}

/// Brings `instance` into the top-level shape that the schema expects in
/// `mode`; this never fails.
pub fn shape(instance: serde_json::Value, mode: Mode) -> (r: serde_json::Value)
    ensures
        value_text(r) == shaped(value_text(instance), mode),
{
    match mode {
        Mode::AAS => instance,
        Mode::Submodel => envelope(instance),
    }
}

/// Checks `instance` in `mode` against `schema`: shapes it, then reports the
/// first violation, if any.
pub fn check(schema: &CompiledSchema, instance: serde_json::Value, mode: Mode) -> (r: Result<(), AASCheckError>)
    ensures
        result_view(r) == check_outcome(compiled_from(*schema), value_text(instance), mode),
{
    let doc = shape(instance, mode);
    validate(schema, &doc)
}

/// How a check reports violations.
#[derive(Clone, Copy, PartialEq, Eq, Structural, Debug, Default)]
pub struct CheckOptions {
    /// Report every violation instead of stopping at the first.
    pub collect_all: bool,
}

/// The violations that a check of the instance text `instance` in `mode`
/// against the schema text `schema` reports.
pub open spec fn report_outcome(schema: Seq<char>, instance: Seq<char>, mode: Mode, options: CheckOptions) -> Seq<ViolationModel> {
    report(schema, shaped(instance, mode), options.collect_all)
}

/// Checks `instance` in `mode` against `schema` and lists the violations found,
/// as `options` asks; an empty list means the document is valid.
pub fn check_with(schema: &CompiledSchema, instance: serde_json::Value, mode: Mode, options: CheckOptions) -> (r: Vec<Violation>)
    ensures
        violations_model(r@) == report_outcome(compiled_from(*schema), value_text(instance), mode, options),
{
    let doc = shape(instance, mode);
    validate_report(schema, &doc, options.collect_all)
}

/// Reporting only the first violation agrees with the check: nothing is
/// reported exactly when the check succeeds, and otherwise the one violation
/// reported is the one the check fails with; a check fails with nothing else.
pub proof fn lemma_first_report_agrees(schema: Seq<char>, instance: Seq<char>, mode: Mode)
    ensures
        match check_outcome(schema, instance, mode) {
            Ok(()) => report_outcome(schema, instance, mode, (CheckOptions { collect_all: false }))
                == Seq::<ViolationModel>::empty(),
            Err(CheckError::ValidationFailed(v)) => report_outcome(schema, instance, mode, (CheckOptions { collect_all: false }))
                == seq![v],
            Err(_) => false,
        },
{
}

/// A document that meets every constraint of the schema is valid: as a whole
/// environment, and as a submodel whose environment meets them.
pub proof fn lemma_conforming_is_valid(schema: Seq<char>, instance: Seq<char>, mode: Mode)
    requires
        first_violation(schema, shaped(instance, mode)) is None,
    ensures
        check_outcome(schema, instance, mode) == Ok::<(), CheckError>(()),
{
}

/// Checking a submodel gives the same outcome as checking, as a whole
/// environment, the environment with no shells, that submodel as its only
/// submodel, and no concept descriptions.
pub proof fn lemma_submodel_is_enveloped(schema: Seq<char>, instance: Seq<char>)
    ensures
        check_outcome(schema, instance, Mode::Submodel)
            == check_outcome(schema, envelope_text(instance), Mode::AAS),
{
}

/// The outcome of a check depends only on the schema a validator was compiled
/// from and on the instance's content: checking the same instance twice
/// against the same compiled schema gives the same outcome.
pub proof fn lemma_check_deterministic(
    first: CompiledSchema,
    second: CompiledSchema,
    a: serde_json::Value,
    b: serde_json::Value,
    mode: Mode,
)
    requires
        compiled_from(first) == compiled_from(second),
        value_text(a) == value_text(b),
    ensures
        check_outcome(compiled_from(first), value_text(a), mode)
            == check_outcome(compiled_from(second), value_text(b), mode),
{
}

} // verus!
