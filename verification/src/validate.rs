//! The validation pipeline: parse the schema, parse the instance, compile
//! the schema for Draft 7, run the validator. Each step that fails ends it.
use vstd::prelude::*;
use crate::backend::{
    collect_errors, compile_draft7, describe_json_error, describe_validation_error,
    draft7_validator, json_error_text, json_parse, locate_validation_error, parse_json,
    validation_error_location, validation_error_text, validation_errors, CompiledValidator,
};
use crate::finding::{validation_model, Finding, FindingModel, ValidateError, ValidateErrorModel};
use crate::params::Role;

verus! {

/// The parse error for the text with the given role.
pub open spec fn malformed(role: Role, text: Seq<char>) -> ValidateErrorModel {
    match role {
        Role::Schema => ValidateErrorModel::MalformedSchema(text),
        Role::Layout => ValidateErrorModel::MalformedInstance(text),
    }
}

/// The finding that stands for one error of the validator.
pub open spec fn finding_of(error: jsonschema::ValidationError<'static>) -> FindingModel {
    FindingModel {
        message: validation_error_text(error),
        instance_path: validation_error_location(error),
    }
}

/// The findings that stand for the validator's errors, one for one and in
/// the same order.
pub open spec fn findings_of(errors: Seq<jsonschema::ValidationError<'static>>) -> Seq<
    FindingModel,
> {
    Seq::new(errors.len(), |i: int| finding_of(errors[i]))
}

/// Whether `result` is what validating `instance_text` against
/// `schema_text` may come to. Every case but one admits a single result. For
/// a schema that is JSON and does not compile, the result is an
/// `InvalidSchema` error whose finding is the compiler's to choose.
pub open spec fn validates_to(
    schema_text: Seq<char>,
    instance_text: Seq<char>,
    result: Result<Seq<FindingModel>, ValidateErrorModel>,
) -> bool {
    match json_parse(schema_text) {
        Err(error) => result == Err::<Seq<FindingModel>, ValidateErrorModel>(
            malformed(Role::Schema, json_error_text(error)),
        ),
        Ok(schema) => match json_parse(instance_text) {
            Err(error) => result == Err::<Seq<FindingModel>, ValidateErrorModel>(
                malformed(Role::Layout, json_error_text(error)),
            ),
            Ok(instance) => match draft7_validator(schema) {
                None => result is Err && result->Err_0 is InvalidSchema,
                Some(validator) => result == Ok::<Seq<FindingModel>, ValidateErrorModel>(
                    findings_of(validation_errors(validator, instance)),
                ),
            },
        },
    }
}

/// Whether both texts are JSON and the schema does not compile for Draft 7:
/// the one case in which the result of validation is not fixed in full.
pub open spec fn schema_refused(schema_text: Seq<char>, instance_text: Seq<char>) -> bool {
    &&& json_parse(schema_text) is Ok
    &&& json_parse(instance_text) is Ok
    &&& draft7_validator(json_parse(schema_text)->Ok_0) is None
}

/// Whether both texts are JSON and the schema compiles for Draft 7.
pub open spec fn well_formed(schema_text: Seq<char>, instance_text: Seq<char>) -> bool {
    &&& json_parse(schema_text) is Ok
    &&& json_parse(instance_text) is Ok
    &&& draft7_validator(json_parse(schema_text)->Ok_0) is Some
}

/// The validator's errors for a well-formed pair of texts, in its order.
pub open spec fn violations(schema_text: Seq<char>, instance_text: Seq<char>) -> Seq<
    jsonschema::ValidationError<'static>,
> {
    validation_errors(
        draft7_validator(json_parse(schema_text)->Ok_0)->Some_0,
        json_parse(instance_text)->Ok_0,
    )
}

/// Turns the parser's verdict on the text with the given role into the
/// pipeline's: the document, or the parse error of that role.
pub fn classify_parse(parsed: Result<serde_json::Value, serde_json::Error>, role: Role) -> (r:
    Result<serde_json::Value, ValidateError>)
    ensures
        match parsed {
            Ok(document) => r == Ok::<serde_json::Value, ValidateError>(document),
            Err(error) => r is Err && r->Err_0.deep_view() == malformed(
                role,
                json_error_text(error),
            ),
        },
{
    match parsed {
        Ok(document) => Ok(document),
        Err(error) => {
            let text = describe_json_error(&error);
            match role {
                Role::Schema => Err(ValidateError::MalformedSchema(text)),
                Role::Layout => Err(ValidateError::MalformedInstance(text)),
            }
        },
    }
}

/// Turns one error of the validator into a finding.
pub fn finding_from(error: &jsonschema::ValidationError<'_>) -> (finding: Finding)
    ensures
        finding.deep_view() == finding_of(*error),
{
    Finding {
        message: describe_validation_error(error),
        instance_path: locate_validation_error(error),
    }
}

/// Turns the validator's errors into findings, one for one and in the same
/// order.
pub fn findings_from(errors: &Vec<jsonschema::ValidationError<'_>>) -> (findings: Vec<Finding>)
    ensures
        findings.deep_view() == findings_of(errors@),
{
    let mut findings: Vec<Finding> = Vec::new();
    let mut i: usize = 0;
    while i < errors.len()
        invariant
            i <= errors.len(),
            findings.len() == i,
            forall|k: int| 0 <= k < i ==> findings[k].deep_view() == finding_of(errors[k]),
        decreases errors.len() - i,
    {
        let finding = finding_from(&errors[i]);
        findings.push(finding);
        i += 1;
    }
    assert(findings.deep_view() =~= findings_of(errors@));
    findings
}

/// Turns the compiler's verdict on a schema into the pipeline's: the
/// validator, or the error that says the schema is no Draft 7 schema.
pub fn classify_compile(
    compiled: Result<CompiledValidator, jsonschema::ValidationError<'static>>,
) -> (r: Result<CompiledValidator, ValidateError>)
    ensures
        match compiled {
            Ok(validator) => r == Ok::<CompiledValidator, ValidateError>(validator),
            Err(error) => r is Err && r->Err_0.deep_view() == ValidateErrorModel::InvalidSchema(
                finding_of(error),
            ),
        },
{
    match compiled {
        Ok(validator) => Ok(validator),
        Err(error) => Err(ValidateError::InvalidSchema(finding_from(&error))),
    }
}

/// Validates the JSON text `json_data` against the Draft 7 schema in
/// `json_schema`. Returns the validator's findings in its order, none if the
/// document conforms.
///
/// Fails with `MalformedSchema` if the schema text is not JSON; else with
/// `MalformedInstance` if the instance text is not JSON; else with
/// `InvalidSchema` if the schema does not compile. Of that last error only
/// the kind is fixed: which objection it holds is the compiler's choice.
pub fn validate_json(json_schema: String, json_data: String) -> (r: Result<
    Vec<Finding>,
    ValidateError,
>)
    ensures
        validates_to(json_schema@, json_data@, validation_model(r)),
{
    let schema = match classify_parse(parse_json(json_schema.as_str()), Role::Schema) {
        Ok(document) => document,
        Err(error) => {
            return Err(error);
        },
    };
    let instance = match classify_parse(parse_json(json_data.as_str()), Role::Layout) {
        Ok(document) => document,
        Err(error) => {
            return Err(error);
        },
    };
    let validator = match classify_compile(compile_draft7(&schema)) {
        Ok(validator) => validator,
        Err(error) => {
            return Err(error);
        },
    };
    let errors = collect_errors(&validator, &instance);
    Ok(findings_from(&errors))
}

/// For a well-formed pair of texts validation succeeds, with one finding
/// for each of the validator's errors, in the validator's order.
pub proof fn lemma_findings_follow_violations(
    schema_text: Seq<char>,
    instance_text: Seq<char>,
    result: Result<Seq<FindingModel>, ValidateErrorModel>,
)
    requires
        well_formed(schema_text, instance_text),
        validates_to(schema_text, instance_text, result),
    ensures
        result == Ok::<Seq<FindingModel>, ValidateErrorModel>(
            findings_of(violations(schema_text, instance_text)),
        ),
        result->Ok_0.len() == violations(schema_text, instance_text).len(),
        forall|i: int|
            0 <= i < violations(schema_text, instance_text).len() ==> result->Ok_0[i]
                == finding_of(#[trigger] violations(schema_text, instance_text)[i]),
{
}

/// An instance text that is not JSON makes validation fail with a parse
/// error, whatever the schema text is: with that of the instance if the
/// schema text is JSON, with that of the schema if it is not. Whether the
/// schema would compile plays no part.
pub proof fn lemma_malformed_instance_fails(
    schema_text: Seq<char>,
    instance_text: Seq<char>,
    result: Result<Seq<FindingModel>, ValidateErrorModel>,
)
    requires
        json_parse(instance_text) is Err,
        validates_to(schema_text, instance_text, result),
    ensures
        result is Err,
        result->Err_0.is_parse_error(),
        json_parse(schema_text) is Ok ==> result == Err::<Seq<FindingModel>, ValidateErrorModel>(
            ValidateErrorModel::MalformedInstance(json_error_text(json_parse(instance_text)->Err_0)),
        ),
{
}

/// A schema text that is not JSON makes validation fail with the parse
/// error of the schema, the same for every instance text.
pub proof fn lemma_malformed_schema_fails(
    schema_text: Seq<char>,
    instance_text: Seq<char>,
    result: Result<Seq<FindingModel>, ValidateErrorModel>,
)
    requires
        json_parse(schema_text) is Err,
        validates_to(schema_text, instance_text, result),
    ensures
        result == Err::<Seq<FindingModel>, ValidateErrorModel>(
            ValidateErrorModel::MalformedSchema(json_error_text(json_parse(schema_text)->Err_0)),
        ),
{
}

/// A schema that is JSON but does not compile for Draft 7 makes validation
/// of any JSON instance fail with `InvalidSchema`.
pub proof fn lemma_invalid_schema_fails(
    schema_text: Seq<char>,
    instance_text: Seq<char>,
    result: Result<Seq<FindingModel>, ValidateErrorModel>,
)
    requires
        schema_refused(schema_text, instance_text),
        validates_to(schema_text, instance_text, result),
    ensures
        result is Err,
        result->Err_0 is InvalidSchema,
{
}

/// Validating the same two texts again gives the same findings in the same
/// order, or the same parse error: nothing is carried over from one call of
/// [`validate_json`] to the next. Where the schema does not compile, both
/// calls fail with `InvalidSchema`; the compiler's objection may differ.
pub proof fn lemma_validation_repeats(
    first: Result<Seq<FindingModel>, ValidateErrorModel>,
    second: Result<Seq<FindingModel>, ValidateErrorModel>,
    schema_text: Seq<char>,
    instance_text: Seq<char>,
)
    requires
        validates_to(schema_text, instance_text, first),
        validates_to(schema_text, instance_text, second),
    ensures
        !schema_refused(schema_text, instance_text) ==> first == second,
        first is Ok || second is Ok ==> first == second,
        schema_refused(schema_text, instance_text) ==> {
            &&& first is Err && first->Err_0 is InvalidSchema
            &&& second is Err && second->Err_0 is InvalidSchema
        },
{
}

} // verus!
