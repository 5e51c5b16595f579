//! What a run prints and the status it exits with.
use vstd::prelude::*;
use vstd::string::StringExecFns;
use crate::failure::{lift_validation, outcome_model, Failure, FailureModel, IoFailure};
use crate::finding::{Finding, FindingModel, ValidateError, ValidateErrorModel};
use crate::params::Role;
use crate::validate::{
    finding_of, lemma_findings_follow_violations, validates_to, violations, well_formed,
};

verus! {

/// The exit status of a run whose document conforms.
pub const EXIT_CONFORMS: i32 = 0;

/// The exit status of every other run.
pub const EXIT_FAILURE: i32 = 1;

/// What a run hands to its caller to print and to exit with.
#[derive(Clone, Debug)]
pub struct Report {
    /// The process exit status.
    pub exit_code: i32,
    /// Lines for standard output: one per finding, in the validator's order.
    pub stdout: Vec<String>,
    /// Lines for standard error: the reason of a failed run.
    pub stderr: Vec<String>,
    /// Whether the usage text follows the lines for standard error.
    pub usage: bool,
}

/// The mathematical value of a [`Report`].
pub ghost struct ReportModel {
    pub exit_code: int,
    pub stdout: Seq<Seq<char>>,
    pub stderr: Seq<Seq<char>>,
    pub usage: bool,
}

impl DeepView for Report {
    type V = ReportModel;

    open spec fn deep_view(&self) -> ReportModel {
        ReportModel {
            exit_code: self.exit_code as int,
            stdout: self.stdout.deep_view(),
            stderr: self.stderr.deep_view(),
            usage: self.usage,
        }
    }
}

/// The words for a refusal of the file system.
pub open spec fn io_failure_text(cause: IoFailure) -> Seq<char> {
    match cause {
        IoFailure::NotFound => "not found"@,
        IoFailure::PermissionDenied => "permission denied"@,
        IoFailure::Other => "I/O error"@,
    }
}

/// A message followed by the place it is about, unless that place is the
/// root of the document.
pub open spec fn located(message: Seq<char>, path: Seq<char>) -> Seq<char> {
    if path.len() == 0 {
        message
    } else {
        message + " (at "@ + path + ")"@
    }
}

/// The line printed for one finding.
pub open spec fn finding_line(finding: FindingModel) -> Seq<char> {
    "Validation error: "@ + located(finding.message, finding.instance_path)
}

/// The lines printed for the findings, one for one and in the same order.
pub open spec fn finding_lines(findings: Seq<FindingModel>) -> Seq<Seq<char>> {
    Seq::new(findings.len(), |i: int| finding_line(findings[i]))
}

/// The line printed for a pipeline error.
pub open spec fn validate_error_line(error: ValidateErrorModel) -> Seq<char> {
    match error {
        ValidateErrorModel::MalformedSchema(text) => "Malformed schema JSON: "@ + text,
        ValidateErrorModel::MalformedInstance(text) => "Malformed instance JSON: "@ + text,
        ValidateErrorModel::InvalidSchema(finding) => "Schema compilation error: "@ + located(
            finding.message,
            finding.instance_path,
        ),
    }
}

/// The words that open the line for a path that could not be inspected.
pub open spec fn unavailable_prefix(role: Role) -> Seq<char> {
    match role {
        Role::Schema => "Problem reading schema file "@,
        Role::Layout => "Problem reading layout file "@,
    }
}

/// The words that open the line for a file that could not be read.
pub open spec fn unreadable_prefix(role: Role) -> Seq<char> {
    match role {
        Role::Schema => "Cannot read JSON schema file "@,
        Role::Layout => "Cannot read JSON data file "@,
    }
}

/// The line printed for a failure.
pub open spec fn failure_line(failure: FailureModel) -> Seq<char> {
    match failure {
        FailureModel::PathUnavailable { role, path, cause } => unavailable_prefix(role) + path
            + ": "@ + io_failure_text(cause),
        FailureModel::NotAFile { role, path } => path + " is not a file"@,
        FailureModel::Unreadable { role, path, cause } => unreadable_prefix(role) + path + ": "@
            + io_failure_text(cause),
        FailureModel::Invalid(error) => validate_error_line(error),
    }
}

/// The exit status of a run: zero if and only if validation took place and
/// found nothing.
pub open spec fn exit_status(outcome: Result<Seq<FindingModel>, FailureModel>) -> int {
    match outcome {
        Ok(findings) => if findings.len() == 0 {
            EXIT_CONFORMS as int
        } else {
            EXIT_FAILURE as int
        },
        Err(_) => EXIT_FAILURE as int,
    }
}

/// What is printed and returned for the way a run ended.
pub open spec fn report_of(outcome: Result<Seq<FindingModel>, FailureModel>) -> ReportModel {
    match outcome {
        Ok(findings) => ReportModel {
            exit_code: exit_status(outcome),
            stdout: finding_lines(findings),
            stderr: Seq::empty(),
            usage: false,
        },
        Err(failure) => ReportModel {
            exit_code: exit_status(outcome),
            stdout: Seq::empty(),
            stderr: seq![failure_line(failure)],
            usage: failure.is_path_error(),
        },
    }
}

impl IoFailure {
    /// The words for this refusal.
    pub fn describe(&self) -> (text: &'static str)
        ensures
            text@ == io_failure_text(*self),
    {
        match self {
            IoFailure::NotFound => "not found",
            IoFailure::PermissionDenied => "permission denied",
            IoFailure::Other => "I/O error",
        }
    }
}

/// Appends the place to the message, unless the place is the document's root.
fn render_located(message: &String, path: &String) -> (text: String)
    ensures
        text@ == located(message@, path@),
{
    if path.as_str().is_empty() {
        message.clone()
    } else {
        message.clone().concat(" (at ").concat(path.as_str()).concat(")")
    }
}

impl Finding {
    /// The line printed for this finding.
    pub fn render(&self) -> (line: String)
        ensures
            line@ == finding_line(self.deep_view()),
    {
        let located = render_located(&self.message, &self.instance_path);
        String::from_str("Validation error: ").concat(located.as_str())
    }
}

impl ValidateError {
    /// The line printed for this error.
    pub fn render(&self) -> (line: String)
        ensures
            line@ == validate_error_line(self.deep_view()),
    {
        match self {
            ValidateError::MalformedSchema(text) => String::from_str(
                "Malformed schema JSON: ",
            ).concat(text.as_str()),
            ValidateError::MalformedInstance(text) => String::from_str(
                "Malformed instance JSON: ",
            ).concat(text.as_str()),
            ValidateError::InvalidSchema(finding) => {
                let located = render_located(&finding.message, &finding.instance_path);
                String::from_str("Schema compilation error: ").concat(located.as_str())
            },
        }
    }
}

impl Failure {
    /// The line printed for this failure.
    pub fn render(&self) -> (line: String)
        ensures
            line@ == failure_line(self.deep_view()),
    {
        match self {
            Failure::PathUnavailable { role, path, cause } => {
                let prefix = match role {
                    Role::Schema => "Problem reading schema file ",
                    Role::Layout => "Problem reading layout file ",
                };
                String::from_str(prefix).concat(path.as_str()).concat(": ").concat(
                    cause.describe(),
                )
            },
            Failure::NotAFile { role, path } => path.clone().concat(" is not a file"),
            Failure::Unreadable { role, path, cause } => {
                let prefix = match role {
                    Role::Schema => "Cannot read JSON schema file ",
                    Role::Layout => "Cannot read JSON data file ",
                };
                String::from_str(prefix).concat(path.as_str()).concat(": ").concat(
                    cause.describe(),
                )
            },
            Failure::Invalid(error) => error.render(),
        }
    }

    /// Whether the usage text is printed after this failure's line: it is
    /// for a path that could not be inspected or is no regular file.
    pub fn shows_usage(&self) -> (usage: bool)
        ensures
            usage == self.deep_view().is_path_error(),
    {
        match self {
            Failure::PathUnavailable { .. } => true,
            Failure::NotAFile { .. } => true,
            Failure::Unreadable { .. } => false,
            Failure::Invalid(_) => false,
        }
    }
}

/// The exit status for the way a run ended: zero if and only if validation
/// took place and found nothing.
pub fn exit_code(outcome: &Result<Vec<Finding>, Failure>) -> (code: i32)
    ensures
        code == exit_status(outcome_model(*outcome)),
        code == 0 <==> outcome_model(*outcome) == Ok::<Seq<FindingModel>, FailureModel>(
            Seq::empty(),
        ),
{
    match outcome {
        Ok(findings) => {
            assert(findings.deep_view().len() == findings.len());
            if findings.len() == 0 {
                assert(findings.deep_view() =~= Seq::<FindingModel>::empty());
                EXIT_CONFORMS
            } else {
                EXIT_FAILURE
            }
        },
        Err(_) => EXIT_FAILURE,
    }
}

/// The lines printed for the findings, one for one and in the same order.
pub fn render_findings(findings: &Vec<Finding>) -> (lines: Vec<String>)
    ensures
        lines.deep_view() == finding_lines(findings.deep_view()),
{
    let mut lines: Vec<String> = Vec::new();
    let mut i: usize = 0;
    while i < findings.len()
        invariant
            i <= findings.len(),
            lines.len() == i,
            forall|k: int| 0 <= k < i ==> lines[k]@ == finding_line(findings[k].deep_view()),
        decreases findings.len() - i,
    {
        let line = findings[i].render();
        lines.push(line);
        i += 1;
    }
    assert(lines.deep_view() =~= finding_lines(findings.deep_view()));
    lines
}

/// What to print and the status to exit with for the way a run ended.
///
/// A run that validated prints one line per finding on standard output and
/// nothing on standard error. A failed run prints its reason on standard
/// error, followed by the usage text if the failure is about a path.
pub fn report(outcome: &Result<Vec<Finding>, Failure>) -> (r: Report)
    ensures
        r.deep_view() == report_of(outcome_model(*outcome)),
{
    let code = exit_code(outcome);
    match outcome {
        Ok(findings) => {
            let stdout = render_findings(findings);
            let stderr: Vec<String> = Vec::new();
            assert(stderr.deep_view() =~= Seq::<Seq<char>>::empty());
            Report { exit_code: code, stdout, stderr, usage: false }
        },
        Err(failure) => {
            let stdout: Vec<String> = Vec::new();
            let mut stderr: Vec<String> = Vec::new();
            stderr.push(failure.render());
            assert(stdout.deep_view() =~= Seq::<Seq<char>>::empty());
            assert(stderr.deep_view() =~= seq![failure_line(failure.deep_view())]);
            Report { exit_code: code, stdout, stderr, usage: failure.shows_usage() }
        },
    }
}

/// A document that conforms to its schema gives no finding, no output and
/// exit status zero.
pub proof fn lemma_conforming_run_exits_zero(
    schema_text: Seq<char>,
    instance_text: Seq<char>,
    result: Result<Seq<FindingModel>, ValidateErrorModel>,
)
    requires
        well_formed(schema_text, instance_text),
        violations(schema_text, instance_text).len() == 0,
        validates_to(schema_text, instance_text, result),
    ensures
        result == Ok::<Seq<FindingModel>, ValidateErrorModel>(Seq::empty()),
        report_of(lift_validation(result)) == (ReportModel {
            exit_code: 0,
            stdout: Seq::empty(),
            stderr: Seq::empty(),
            usage: false,
        }),
{
    lemma_findings_follow_violations(schema_text, instance_text, result);
    assert(result->Ok_0 =~= Seq::<FindingModel>::empty());
    assert(finding_lines(result->Ok_0) =~= Seq::<Seq<char>>::empty());
}

/// A document that breaks its schema gives a non-zero exit status and one
/// line on standard output for each of the validator's errors, in the
/// validator's order, and nothing on standard error.
pub proof fn lemma_violations_are_reported_in_order(
    schema_text: Seq<char>,
    instance_text: Seq<char>,
    result: Result<Seq<FindingModel>, ValidateErrorModel>,
)
    requires
        well_formed(schema_text, instance_text),
        violations(schema_text, instance_text).len() > 0,
        validates_to(schema_text, instance_text, result),
    ensures
        result is Ok,
        result->Ok_0.len() == violations(schema_text, instance_text).len(),
        ({
            let report = report_of(lift_validation(result));
            &&& report.exit_code != 0
            &&& report.stderr.len() == 0
            &&& report.stdout.len() == violations(schema_text, instance_text).len()
            &&& forall|i: int|
                0 <= i < report.stdout.len() ==> report.stdout[i] == finding_line(
                    finding_of(#[trigger] violations(schema_text, instance_text)[i]),
                )
        }),
{
    lemma_findings_follow_violations(schema_text, instance_text, result);
}

/// Every failed run exits with a non-zero status, prints nothing on
/// standard output and one line on standard error.
pub proof fn lemma_failure_is_reported(failure: FailureModel)
    ensures
        report_of(Err(failure)).exit_code != 0,
        report_of(Err(failure)).stdout.len() == 0,
        report_of(Err(failure)).stderr == seq![failure_line(failure)],
        report_of(Err(failure)).usage == failure.is_path_error(),
{
}

} // verus!
