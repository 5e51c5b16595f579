//! The decisions of a run, free of I/O.
//!
//! A [`Driver`] asks for one thing at a time: to inspect a path or to load a
//! file. The caller does what is asked and reports what happened as an
//! [`Event`]; the driver answers with its next state or with the outcome of
//! the run.
//!
//! The order is fixed. The schema path is inspected first, then the layout
//! path, and the first path that is no regular file ends the run. Only when
//! both are regular files is anything read: the schema, then the layout.
//! With both texts in hand the driver validates.
use vstd::prelude::*;
use crate::failure::{lift_validation, outcome_model, Failure, FailureModel, IoFailure};
use crate::finding::{Finding, FindingModel, ValidateErrorModel};
use crate::params::{Params, ParamsModel, Role};
use crate::validate::{validate_json, validates_to};

verus! {

/// What the file system says of a path.
#[derive(Clone, Copy, Debug, PartialEq, Eq, Structural)]
pub enum PathStatus {
    /// A regular file.
    File,
    /// Something else: a directory or a special file.
    NotAFile,
    /// The path could not be inspected.
    Unavailable(IoFailure),
}

/// What the driver asks its caller to do.
#[derive(Clone, Copy, Debug, PartialEq, Eq, Structural)]
pub enum Request {
    /// Find out what the path of this role names.
    Inspect(Role),
    /// Read the whole file of this role as text.
    Load(Role),
}

/// What the caller reports back.
#[derive(Clone, Debug)]
pub enum Event {
    /// The answer to `Inspect`.
    Status(PathStatus),
    /// The answer to `Load`: the file's text.
    Loaded(String),
    /// The answer to `Load` when the file could not be read.
    LoadFailed(IoFailure),
}

/// The mathematical value of an [`Event`].
pub ghost enum EventModel {
    Status(PathStatus),
    Loaded(Seq<char>),
    LoadFailed(IoFailure),
}

impl DeepView for Event {
    type V = EventModel;

    open spec fn deep_view(&self) -> EventModel {
        match self {
            Event::Status(status) => EventModel::Status(*status),
            Event::Loaded(text) => EventModel::Loaded(text@),
            Event::LoadFailed(cause) => EventModel::LoadFailed(*cause),
        }
    }
}

/// What a driver is waiting for.
#[derive(Clone, Copy, Debug, PartialEq, Eq, Structural)]
pub enum Stage {
    /// The status of the schema path.
    SchemaStatus,
    /// The status of the layout path; the schema path is a regular file.
    LayoutStatus,
    /// The text of the schema; both paths are regular files.
    SchemaText,
    /// The text of the layout; the schema has been read.
    LayoutText,
}

/// A run in progress.
#[derive(Debug)]
pub struct Driver {
    params: Params,
    stage: Stage,
    schema_text: String,
}

/// The mathematical value of a [`Driver`].
pub ghost struct DriverModel {
    pub params: ParamsModel,
    pub stage: Stage,
    /// The schema's text once it has been read, empty before.
    pub schema_text: Seq<char>,
}

impl DeepView for Driver {
    type V = DriverModel;

    closed spec fn deep_view(&self) -> DriverModel {
        DriverModel {
            params: self.params.deep_view(),
            stage: self.stage,
            schema_text: self.schema_text@,
        }
    }
}

/// What a driver answers to an event.
#[derive(Debug)]
pub enum Step {
    /// The run goes on from this state.
    Continue(Driver),
    /// The run is over: the findings of the validation, or the failure.
    Finish(Result<Vec<Finding>, Failure>),
}

/// How a run ends.
pub ghost enum Ending {
    /// With this failure.
    Fails(FailureModel),
    /// With the validation of the layout text against the schema text.
    Validates { schema_text: Seq<char>, layout_text: Seq<char> },
}

/// What a driver decides on an event: the state from which the run goes on,
/// or how it ends.
pub ghost enum StepModel {
    Continue(DriverModel),
    Finish(Ending),
}

/// What validation returned, if the outcome of a run is one of validation.
pub open spec fn validation_of(outcome: Result<Seq<FindingModel>, FailureModel>) -> Option<
    Result<Seq<FindingModel>, ValidateErrorModel>,
> {
    match outcome {
        Ok(findings) => Some(Ok(findings)),
        Err(FailureModel::Invalid(error)) => Some(Err(error)),
        Err(_) => None,
    }
}

/// Whether a run that ends in the given way may have the given outcome.
pub open spec fn ends_with(
    ending: Ending,
    outcome: Result<Seq<FindingModel>, FailureModel>,
) -> bool {
    match ending {
        Ending::Fails(failure) => outcome == Err::<Seq<FindingModel>, FailureModel>(failure),
        Ending::Validates { schema_text, layout_text } => {
            &&& validation_of(outcome) is Some
            &&& validates_to(schema_text, layout_text, validation_of(outcome)->Some_0)
        },
    }
}

impl Step {
    /// Whether this step is what the driver decided: the same next state,
    /// or an outcome that the decided ending admits.
    pub open spec fn matches(self, decision: StepModel) -> bool {
        match self {
            Step::Continue(driver) => decision == StepModel::Continue(driver.deep_view()),
            Step::Finish(outcome) => decision is Finish && ends_with(
                decision->Finish_0,
                outcome_model(outcome),
            ),
        }
    }
}

/// The state in which every run begins.
pub open spec fn start_model(params: ParamsModel) -> DriverModel {
    DriverModel { params, stage: Stage::SchemaStatus, schema_text: Seq::empty() }
}

/// The request that is pending in a stage.
pub open spec fn request_of(stage: Stage) -> Request {
    match stage {
        Stage::SchemaStatus => Request::Inspect(Role::Schema),
        Stage::LayoutStatus => Request::Inspect(Role::Layout),
        Stage::SchemaText => Request::Load(Role::Schema),
        Stage::LayoutText => Request::Load(Role::Layout),
    }
}

/// The verdict on an inspected path: the stage that follows if it is a
/// regular file, else the failure that ends the run.
pub open spec fn after_inspection(
    driver: DriverModel,
    role: Role,
    status: PathStatus,
    next: Stage,
) -> StepModel {
    match status {
        PathStatus::File => StepModel::Continue(DriverModel { stage: next, ..driver }),
        PathStatus::NotAFile => StepModel::Finish(
            Ending::Fails(FailureModel::NotAFile { role, path: driver.params.path(role) }),
        ),
        PathStatus::Unavailable(cause) => StepModel::Finish(
            Ending::Fails(
                FailureModel::PathUnavailable { role, path: driver.params.path(role), cause },
            ),
        ),
    }
}

/// The failure for a file that could not be read.
pub open spec fn unreadable(driver: DriverModel, role: Role, cause: IoFailure) -> StepModel {
    StepModel::Finish(
        Ending::Fails(FailureModel::Unreadable { role, path: driver.params.path(role), cause }),
    )
}

/// What a driver decides on an event. An event that does not answer the
/// pending request changes nothing.
pub open spec fn step_model(driver: DriverModel, event: EventModel) -> StepModel {
    match (driver.stage, event) {
        (Stage::SchemaStatus, EventModel::Status(status)) => after_inspection(
            driver,
            Role::Schema,
            status,
            Stage::LayoutStatus,
        ),
        (Stage::LayoutStatus, EventModel::Status(status)) => after_inspection(
            driver,
            Role::Layout,
            status,
            Stage::SchemaText,
        ),
        (Stage::SchemaText, EventModel::Loaded(text)) => StepModel::Continue(
            DriverModel { stage: Stage::LayoutText, schema_text: text, ..driver },
        ),
        (Stage::SchemaText, EventModel::LoadFailed(cause)) => unreadable(
            driver,
            Role::Schema,
            cause,
        ),
        (Stage::LayoutText, EventModel::Loaded(text)) => StepModel::Finish(
            Ending::Validates { schema_text: driver.schema_text, layout_text: text },
        ),
        (Stage::LayoutText, EventModel::LoadFailed(cause)) => unreadable(
            driver,
            Role::Layout,
            cause,
        ),
        _ => StepModel::Continue(driver),
    }
}

/// Where a run stands after a sequence of events. Once the run is over,
/// later events are not looked at.
pub open spec fn run(driver: DriverModel, events: Seq<EventModel>) -> StepModel
    decreases events.len(),
{
    if events.len() == 0 {
        StepModel::Continue(driver)
    } else {
        match step_model(driver, events[0]) {
            StepModel::Continue(next) => run(next, events.drop_first()),
            StepModel::Finish(ending) => StepModel::Finish(ending),
        }
    }
}

/// How many of the events report a regular file.
pub open spec fn regular_files(events: Seq<EventModel>) -> nat
    decreases events.len(),
{
    if events.len() == 0 {
        0
    } else if events[0] == EventModel::Status(PathStatus::File) {
        1 + regular_files(events.drop_first())
    } else {
        regular_files(events.drop_first())
    }
}

/// How many paths a run in this stage has yet to find to be regular files
/// before it reads anything.
pub open spec fn inspections_left(stage: Stage) -> nat {
    match stage {
        Stage::SchemaStatus => 2,
        Stage::LayoutStatus => 1,
        Stage::SchemaText => 0,
        Stage::LayoutText => 0,
    }
}

impl Driver {
    /// Begins a run on the given paths.
    pub fn start(params: Params) -> (driver: Driver)
        ensures
            driver.deep_view() == start_model(params.deep_view()),
    {
        Driver { params, stage: Stage::SchemaStatus, schema_text: String::new() }
    }

    /// What the driver is waiting for.
    pub fn stage(&self) -> (stage: Stage)
        ensures
            stage == self.deep_view().stage,
    {
        self.stage
    }

    /// The request that the caller is to serve next.
    pub fn request(&self) -> (request: Request)
        ensures
            request == request_of(self.deep_view().stage),
    {
        match self.stage {
            Stage::SchemaStatus => Request::Inspect(Role::Schema),
            Stage::LayoutStatus => Request::Inspect(Role::Layout),
            Stage::SchemaText => Request::Load(Role::Schema),
            Stage::LayoutText => Request::Load(Role::Layout),
        }
    }

    /// The path of the file with the given role.
    pub fn path(&self, role: Role) -> (path: &String)
        ensures
            path@ == self.deep_view().params.path(role),
    {
        self.params.path(role)
    }

    /// Decides on an inspected path.
    fn inspected(self, role: Role, status: PathStatus, next: Stage) -> (step: Step)
        ensures
            step.matches(after_inspection(self.deep_view(), role, status, next)),
    {
        match status {
            PathStatus::File => Step::Continue(
                Driver { params: self.params, stage: next, schema_text: self.schema_text },
            ),
            PathStatus::NotAFile => Step::Finish(
                Err(Failure::NotAFile { role, path: self.params.path(role).clone() }),
            ),
            PathStatus::Unavailable(cause) => Step::Finish(
                Err(Failure::PathUnavailable { role, path: self.params.path(role).clone(), cause }),
            ),
        }
    }

    /// Ends the run on a file that could not be read.
    fn load_failed(self, role: Role, cause: IoFailure) -> (step: Step)
        ensures
            step.matches(unreadable(self.deep_view(), role, cause)),
    {
        Step::Finish(Err(Failure::Unreadable { role, path: self.params.path(role).clone(), cause }))
    }

    /// Ends the run by validating the layout text against the schema text.
    fn validated(self, layout_text: String) -> (step: Step)
        ensures
            step.matches(
                StepModel::Finish(
                    Ending::Validates {
                        schema_text: self.deep_view().schema_text,
                        layout_text: layout_text@,
                    },
                ),
            ),
    {
        match validate_json(self.schema_text, layout_text) {
            Ok(findings) => Step::Finish(Ok(findings)),
            Err(error) => Step::Finish(Err(Failure::Invalid(error))),
        }
    }

    /// Takes the caller's report of what happened and answers with the next
    /// state, or with the outcome if the run is over. An event that does not
    /// answer the pending request leaves the driver as it is.
    ///
    /// The next state, and every failure of a path or a file, are fixed by
    /// the state and the event. The outcome of validation is fixed as far as
    /// [`validates_to`] fixes it.
    pub fn step(self, event: Event) -> (step: Step)
        ensures
            step.matches(step_model(self.deep_view(), event.deep_view())),
    {
        match self.stage {
            Stage::SchemaStatus => match event {
                Event::Status(status) => self.inspected(Role::Schema, status, Stage::LayoutStatus),
                _ => Step::Continue(self),
            },
            Stage::LayoutStatus => match event {
                Event::Status(status) => self.inspected(Role::Layout, status, Stage::SchemaText),
                _ => Step::Continue(self),
            },
            Stage::SchemaText => match event {
                Event::Loaded(text) => Step::Continue(
                    Driver { params: self.params, stage: Stage::LayoutText, schema_text: text },
                ),
                Event::LoadFailed(cause) => self.load_failed(Role::Schema, cause),
                _ => Step::Continue(self),
            },
            Stage::LayoutText => match event {
                Event::Loaded(text) => self.validated(text),
                Event::LoadFailed(cause) => self.load_failed(Role::Layout, cause),
                _ => Step::Continue(self),
            },
        }
    }
}

/// Nothing is read before both paths are known to be regular files: if a
/// run that has not ended asks to load a file, the events so far report at
/// least as many regular files as the run had paths left to inspect.
pub proof fn lemma_load_waits_for_inspections(driver: DriverModel, events: Seq<EventModel>)
    requires
        run(driver, events) is Continue,
        request_of(run(driver, events)->Continue_0.stage) is Load,
    ensures
        regular_files(events) >= inspections_left(driver.stage),
    decreases events.len(),
{
    if events.len() > 0 {
        match step_model(driver, events[0]) {
            StepModel::Continue(next) => {
                lemma_load_waits_for_inspections(next, events.drop_first());
            },
            StepModel::Finish(_) => {},
        }
    }
}

/// From its start a run asks to load a file only after two reports of a
/// regular file, whatever the events are.
pub proof fn lemma_no_load_before_two_regular_files(params: ParamsModel, events: Seq<EventModel>)
    requires
        run(start_model(params), events) is Continue,
        request_of(run(start_model(params), events)->Continue_0.stage) is Load,
    ensures
        regular_files(events) >= 2,
{
    lemma_load_waits_for_inspections(start_model(params), events);
}

/// The failure of an inspected path that is no regular file.
pub open spec fn path_failure(role: Role, path: Seq<char>, status: PathStatus) -> FailureModel {
    match status {
        PathStatus::Unavailable(cause) => FailureModel::PathUnavailable { role, path, cause },
        _ => FailureModel::NotAFile { role, path },
    }
}

/// A schema path that is no regular file ends the run with the failure of
/// that path; the layout path is not inspected and nothing is read.
pub proof fn lemma_bad_schema_path_ends_run(params: ParamsModel, status: PathStatus)
    requires
        status != PathStatus::File,
    ensures
        run(start_model(params), seq![EventModel::Status(status)]) == StepModel::Finish(
            Ending::Fails(path_failure(Role::Schema, params.schema_file, status)),
        ),
        path_failure(Role::Schema, params.schema_file, status).is_path_error(),
{
    let events = seq![EventModel::Status(status)];
    assert(events[0] == EventModel::Status(status));
    reveal_with_fuel(run, 2);
}

/// A layout path that is no regular file ends the run with the failure of
/// that path, after the schema path was found to be a regular file and
/// before anything is read.
pub proof fn lemma_bad_layout_path_ends_run(params: ParamsModel, status: PathStatus)
    requires
        status != PathStatus::File,
    ensures
        run(start_model(params), seq![EventModel::Status(PathStatus::File)])
            == StepModel::Continue(
            DriverModel { stage: Stage::LayoutStatus, ..start_model(params) },
        ),
        run(
            start_model(params),
            seq![EventModel::Status(PathStatus::File), EventModel::Status(status)],
        ) == StepModel::Finish(
            Ending::Fails(path_failure(Role::Layout, params.layout_file, status)),
        ),
        path_failure(Role::Layout, params.layout_file, status).is_path_error(),
{
    let first = seq![EventModel::Status(PathStatus::File)];
    let both = seq![EventModel::Status(PathStatus::File), EventModel::Status(status)];
    assert(first[0] == EventModel::Status(PathStatus::File));
    assert(both[0] == EventModel::Status(PathStatus::File));
    assert(both.drop_first() =~= seq![EventModel::Status(status)]);
    assert(both.drop_first()[0] == EventModel::Status(status));
    reveal_with_fuel(run, 3);
}

/// A run in which both paths are regular files and both files are read ends
/// with the validation of the two texts.
pub proof fn lemma_complete_run(params: ParamsModel, schema_text: Seq<char>, layout_text: Seq<char>)
    ensures
        run(
            start_model(params),
            seq![
                EventModel::Status(PathStatus::File),
                EventModel::Status(PathStatus::File),
                EventModel::Loaded(schema_text),
                EventModel::Loaded(layout_text),
            ],
        ) == StepModel::Finish(Ending::Validates { schema_text, layout_text }),
{
    let e0 = seq![
        EventModel::Status(PathStatus::File),
        EventModel::Status(PathStatus::File),
        EventModel::Loaded(schema_text),
        EventModel::Loaded(layout_text),
    ];
    let e1 = e0.drop_first();
    let e2 = e1.drop_first();
    let e3 = e2.drop_first();
    assert(e0[0] == EventModel::Status(PathStatus::File));
    assert(e1[0] == EventModel::Status(PathStatus::File));
    assert(e2[0] == EventModel::Loaded(schema_text));
    assert(e3[0] == EventModel::Loaded(layout_text));
    reveal_with_fuel(run, 5);
}

/// A run that ends with validation has the outcome of that validation: the
/// findings, or the pipeline's error as a failure.
pub proof fn lemma_validated_outcome(
    schema_text: Seq<char>,
    layout_text: Seq<char>,
    outcome: Result<Seq<FindingModel>, FailureModel>,
)
    requires
        ends_with(Ending::Validates { schema_text, layout_text }, outcome),
    ensures
        validation_of(outcome) is Some,
        validates_to(schema_text, layout_text, validation_of(outcome)->Some_0),
        outcome == lift_validation(validation_of(outcome)->Some_0),
{
}

} // verus!
