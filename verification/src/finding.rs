//! What a validation run finds: violations of the schema, and the reasons
//! for which no validation took place.
use vstd::prelude::*;

verus! {

/// One violation of a schema rule.
#[derive(Clone, Debug)]
pub struct Finding {
    /// The validator's description of the violation.
    pub message: String,
    /// JSON Pointer to the offending place in the document; empty at its root.
    pub instance_path: String,
}

/// The mathematical value of a [`Finding`].
pub ghost struct FindingModel {
    pub message: Seq<char>,
    pub instance_path: Seq<char>,
}

impl DeepView for Finding {
    type V = FindingModel;

    open spec fn deep_view(&self) -> FindingModel {
        FindingModel { message: self.message@, instance_path: self.instance_path@ }
    }
}

/// Why two texts could not be validated against each other.
#[derive(Clone, Debug)]
pub enum ValidateError {
    /// The schema text is not JSON; holds the parser's description.
    MalformedSchema(String),
    /// The instance text is not JSON; holds the parser's description.
    MalformedInstance(String),
    /// The schema is JSON but no Draft 7 schema; holds what the compiler
    /// objected to and where in the schema document.
    InvalidSchema(Finding),
}

/// The mathematical value of a [`ValidateError`].
pub ghost enum ValidateErrorModel {
    MalformedSchema(Seq<char>),
    MalformedInstance(Seq<char>),
    InvalidSchema(FindingModel),
}

impl DeepView for ValidateError {
    type V = ValidateErrorModel;

    open spec fn deep_view(&self) -> ValidateErrorModel {
        match self {
            ValidateError::MalformedSchema(text) => ValidateErrorModel::MalformedSchema(text@),
            ValidateError::MalformedInstance(text) => ValidateErrorModel::MalformedInstance(text@),
            ValidateError::InvalidSchema(finding) => ValidateErrorModel::InvalidSchema(
                finding.deep_view(),
            ),
        }
    }
}

impl ValidateErrorModel {
    /// Whether the error says that one of the two texts is not JSON.
    pub open spec fn is_parse_error(self) -> bool {
        self is MalformedSchema || self is MalformedInstance
    }
}

/// The mathematical value of what validation returns.
pub open spec fn validation_model(result: Result<Vec<Finding>, ValidateError>) -> Result<
    Seq<FindingModel>,
    ValidateErrorModel,
> {
    match result {
        Ok(findings) => Ok(findings.deep_view()),
        Err(error) => Err(error.deep_view()),
    }
}

} // verus!
