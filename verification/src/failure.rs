//! The ways in which a run ends without a verdict on the document.
use vstd::prelude::*;
use crate::finding::{Finding, FindingModel, ValidateError, ValidateErrorModel};
use crate::params::Role;

verus! {

/// Why the file system refused a path.
#[derive(Clone, Copy, Debug, PartialEq, Eq, Structural)]
pub enum IoFailure {
    /// Nothing exists under the path.
    NotFound,
    /// The path may not be inspected or read.
    PermissionDenied,
    /// Any other refusal.
    Other,
}

/// Why a run produced no verdict.
#[derive(Clone, Debug)]
pub enum Failure {
    /// The path could not be inspected, most often because nothing exists
    /// under it.
    PathUnavailable { role: Role, path: String, cause: IoFailure },
    /// The path names something other than a regular file.
    NotAFile { role: Role, path: String },
    /// The path names a regular file that could not be read.
    Unreadable { role: Role, path: String, cause: IoFailure },
    /// Both files were read and the validation pipeline failed.
    Invalid(ValidateError),
}

/// The mathematical value of a [`Failure`].
pub ghost enum FailureModel {
    PathUnavailable { role: Role, path: Seq<char>, cause: IoFailure },
    NotAFile { role: Role, path: Seq<char> },
    Unreadable { role: Role, path: Seq<char>, cause: IoFailure },
    Invalid(ValidateErrorModel),
}

impl DeepView for Failure {
    type V = FailureModel;

    open spec fn deep_view(&self) -> FailureModel {
        match self {
            Failure::PathUnavailable { role, path, cause } => FailureModel::PathUnavailable {
                role: *role,
                path: path@,
                cause: *cause,
            },
            Failure::NotAFile { role, path } => FailureModel::NotAFile { role: *role, path: path@ },
            Failure::Unreadable { role, path, cause } => FailureModel::Unreadable {
                role: *role,
                path: path@,
                cause: *cause,
            },
            Failure::Invalid(error) => FailureModel::Invalid(error.deep_view()),
        }
    }
}

impl FailureModel {
    /// Whether the failure is about a path as such, rather than about what
    /// the file under it holds.
    pub open spec fn is_path_error(self) -> bool {
        self is PathUnavailable || self is NotAFile
    }
}

/// The mathematical value of how a run ends: the findings, or the failure.
pub open spec fn outcome_model(outcome: Result<Vec<Finding>, Failure>) -> Result<
    Seq<FindingModel>,
    FailureModel,
> {
    match outcome {
        Ok(findings) => Ok(findings.deep_view()),
        Err(failure) => Err(failure.deep_view()),
    }
}

/// How a run ends once both texts are read: as validation ends, with a
/// pipeline error counted among the failures.
pub open spec fn lift_validation(
    result: Result<Seq<FindingModel>, ValidateErrorModel>,
) -> Result<Seq<FindingModel>, FailureModel> {
    match result {
        Ok(findings) => Ok(findings),
        Err(error) => Err(FailureModel::Invalid(error)),
    }
}

} // verus!
