//! The boundary to `serde_json` and `jsonschema`.
//!
//! Nothing in this module is proved. Each item states what the rest of the
//! crate assumes of the two crates. Parsing a text, walking a compiled
//! validator over an instance, and describing an error are taken to depend
//! on their arguments alone. Of compiling a schema only this much is
//! assumed: whether it succeeds, and the validator if it does, depend on the
//! schema alone. The error of a refused schema is left open, since the
//! compiler may report any one of several unresolvable references.
//!
//! The schema validator is built without its optional HTTP and file
//! retrievers, so compiling a schema reaches neither the network nor the
//! disk.
use vstd::prelude::*;

verus! {

/// `serde_json::Value`, a parsed JSON document. Opaque to Verus.
#[verifier::external_type_specification]
#[verifier::external_body]
pub struct ExValue(serde_json::Value);

/// `serde_json::Error`, the reason a text is not JSON. Opaque to Verus.
#[verifier::external_type_specification]
#[verifier::external_body]
pub struct ExJsonError(serde_json::Error);

/// `jsonschema::ValidationError`, one violation of a schema rule. Opaque to
/// Verus.
#[verifier::external_type_specification]
#[verifier::external_body]
pub struct ExValidationError<'a>(jsonschema::ValidationError<'a>);

/// A schema compiled for Draft 7: a `jsonschema::Validator`. Verus
/// cannot take the outside type itself, whose parameter is bound by a trait
/// of its crate, so the value is kept behind this struct.
#[verifier::external_body]
pub struct CompiledValidator {
    inner: jsonschema::Validator,
}

/// What `serde_json::from_str::<serde_json::Value>` returns for `text`.
pub uninterp spec fn json_parse(text: Seq<char>) -> Result<serde_json::Value, serde_json::Error>;

/// What the `Display` impl of `serde_json::Error` writes for `error`.
pub uninterp spec fn json_error_text(error: serde_json::Error) -> Seq<char>;

/// The validator that `jsonschema::draft7::new` returns for `schema`, if it
/// accepts the schema.
pub uninterp spec fn draft7_validator(schema: serde_json::Value) -> Option<CompiledValidator>;

/// The errors that `jsonschema::Validator::iter_errors` yields for
/// `instance`, in the order in which it yields them.
pub uninterp spec fn validation_errors(
    validator: CompiledValidator,
    instance: serde_json::Value,
) -> Seq<jsonschema::ValidationError<'static>>;

/// What the `Display` impl of `jsonschema::ValidationError` writes for `error`.
pub uninterp spec fn validation_error_text(error: jsonschema::ValidationError<'static>) -> Seq<
    char,
>;

/// The JSON Pointer that `jsonschema::ValidationError::instance_path` holds
/// for `error`.
pub uninterp spec fn validation_error_location(
    error: jsonschema::ValidationError<'static>,
) -> Seq<char>;

/// Calls `serde_json::from_str` at type `serde_json::Value`. Assumed: the
/// result depends on the characters of `text` alone.
#[verifier::external_body]
pub(crate) fn parse_json(text: &str) -> (parsed: Result<serde_json::Value, serde_json::Error>)
    ensures
        parsed == json_parse(text@),
{
    serde_json::from_str::<serde_json::Value>(text)
}

/// Calls `to_string` on a `serde_json::Error`, which runs its `Display`
/// impl. Assumed: the text depends on the error alone.
#[verifier::external_body]
pub(crate) fn describe_json_error(error: &serde_json::Error) -> (text: String)
    ensures
        text@ == json_error_text(*error),
{
    error.to_string()
}

/// Calls `jsonschema::draft7::new`. Assumed: whether the schema is accepted,
/// and the validator if it is, depend on the schema document alone. Nothing
/// is assumed of the error of a refused schema.
#[verifier::external_body]
pub(crate) fn compile_draft7(schema: &serde_json::Value) -> (compiled: Result<
    CompiledValidator,
    jsonschema::ValidationError<'static>,
>)
    ensures
        compiled is Ok <==> draft7_validator(*schema) is Some,
        compiled is Ok ==> compiled->Ok_0 == draft7_validator(*schema)->Some_0,
{
    jsonschema::draft7::new(schema).map(|inner| CompiledValidator { inner })
}

/// Calls `jsonschema::Validator::iter_errors` and collects what it yields.
/// Assumed: the errors and their order depend on the validator and the
/// instance alone.
#[verifier::external_body]
pub(crate) fn collect_errors<'i>(
    validator: &'i CompiledValidator,
    instance: &'i serde_json::Value,
) -> (errors: Vec<jsonschema::ValidationError<'i>>)
    ensures
        errors@ == validation_errors(*validator, *instance),
{
    validator.inner.iter_errors(instance).collect()
}

/// Calls `to_string` on a `jsonschema::ValidationError`, which runs its
/// `Display` impl. Assumed: the text depends on the error alone.
#[verifier::external_body]
pub(crate) fn describe_validation_error(error: &jsonschema::ValidationError<'_>) -> (text: String)
    ensures
        text@ == validation_error_text(*error),
{
    error.to_string()
}

/// Calls `jsonschema::ValidationError::instance_path` and copies the
/// pointer's text. Assumed: the pointer depends on the error alone.
#[verifier::external_body]
pub(crate) fn locate_validation_error(error: &jsonschema::ValidationError<'_>) -> (path: String)
    ensures
        path@ == validation_error_location(*error),
{
    error.instance_path().as_str().to_owned()
}

} // verus!
