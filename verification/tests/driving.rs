use jsonvalidate::driver::{Driver, Event, PathStatus, Request, Stage, Step};
use jsonvalidate::failure::{Failure, IoFailure};
use jsonvalidate::finding::{Finding, ValidateError};
use jsonvalidate::params::{Params, Role, DEFAULT_SCHEMA};
use jsonvalidate::report::report;

const PERSON_SCHEMA: &str =
    r#"{"type": "object", "required": ["name"], "properties": {"name": {"type": "string"}}}"#;

fn params() -> Params {
    Params::resolve(
        Some("schema.json".to_string()),
        "layout.json".to_string(),
        DEFAULT_SCHEMA,
    )
}

fn go_on(step: Step) -> Driver {
    match step {
        Step::Continue(driver) => driver,
        Step::Finish(outcome) => panic!("the run ended: {:?}", outcome),
    }
}

fn end(step: Step) -> Result<Vec<Finding>, Failure> {
    match step {
        Step::Finish(outcome) => outcome,
        Step::Continue(driver) => panic!("the run goes on: {:?}", driver),
    }
}

/// Serves every request of a run from the given answers and returns the
/// requests in the order in which they were made, with the outcome.
fn serve(
    params: Params,
    schema: Result<Result<&str, IoFailure>, PathStatus>,
    layout: Result<Result<&str, IoFailure>, PathStatus>,
) -> (Vec<Request>, Result<Vec<Finding>, Failure>) {
    let mut driver = Driver::start(params);
    let mut requests = Vec::new();
    loop {
        let request = driver.request();
        requests.push(request);
        let answer = |role: Role| match role {
            Role::Schema => schema,
            Role::Layout => layout,
        };
        let event = match request {
            Request::Inspect(role) => match answer(role) {
                Ok(_) => Event::Status(PathStatus::File),
                Err(status) => Event::Status(status),
            },
            Request::Load(role) => match answer(role) {
                Ok(Ok(text)) => Event::Loaded(text.to_string()),
                Ok(Err(cause)) => Event::LoadFailed(cause),
                Err(_) => unreachable!(),
            },
        };
        match driver.step(event) {
            Step::Continue(next) => driver = next,
            Step::Finish(outcome) => return (requests, outcome),
        }
    }
}

#[test]
fn default_schema_path() {
    assert_eq!(DEFAULT_SCHEMA, "data/CanWebElmSchema.json");
}

#[test]
fn absent_schema_option_falls_back_to_the_default() {
    let params = Params::resolve(None, "layout.json".to_string(), DEFAULT_SCHEMA);
    assert_eq!(params.schema_file, "data/CanWebElmSchema.json");
    assert_eq!(params.layout_file, "layout.json");
    let params = Params::resolve(None, "layout.json".to_string(), "elsewhere.json");
    assert_eq!(params.schema_file, "elsewhere.json");
}

#[test]
fn given_schema_option_is_kept() {
    let params = Params::resolve(
        Some("mine.json".to_string()),
        "layout.json".to_string(),
        DEFAULT_SCHEMA,
    );
    assert_eq!(params.schema_file, "mine.json");
    assert_eq!(params.layout_file, "layout.json");
    assert_eq!(params.path(Role::Schema), "mine.json");
    assert_eq!(params.path(Role::Layout), "layout.json");
}

#[test]
fn run_begins_by_inspecting_the_schema_path() {
    let driver = Driver::start(params());
    assert_eq!(driver.stage(), Stage::SchemaStatus);
    assert_eq!(driver.request(), Request::Inspect(Role::Schema));
    assert_eq!(driver.path(Role::Schema), "schema.json");
    assert_eq!(driver.path(Role::Layout), "layout.json");
}

#[test]
fn requests_come_in_the_fixed_order() {
    let (requests, outcome) = serve(
        params(),
        Ok(Ok(PERSON_SCHEMA)),
        Ok(Ok(r#"{"name": "Holywell Town"}"#)),
    );
    assert_eq!(
        requests,
        vec![
            Request::Inspect(Role::Schema),
            Request::Inspect(Role::Layout),
            Request::Load(Role::Schema),
            Request::Load(Role::Layout),
        ]
    );
    assert!(outcome.unwrap().is_empty());
}

#[test]
fn default_schema_with_conforming_layout_exits_zero() {
    let params = Params::resolve(None, "layout.json".to_string(), DEFAULT_SCHEMA);
    let driver = Driver::start(params);
    assert_eq!(driver.path(Role::Schema), "data/CanWebElmSchema.json");
    let driver = go_on(driver.step(Event::Status(PathStatus::File)));
    let driver = go_on(driver.step(Event::Status(PathStatus::File)));
    let driver = go_on(driver.step(Event::Loaded(PERSON_SCHEMA.to_string())));
    let outcome = end(driver.step(Event::Loaded(r#"{"name": "Holywell Town"}"#.to_string())));
    let r = report(&outcome);
    assert_eq!(r.exit_code, 0);
    assert!(r.stdout.is_empty());
    assert!(r.stderr.is_empty());
}

#[test]
fn violation_is_printed_and_fails_the_run() {
    let (_, outcome) = serve(params(), Ok(Ok(PERSON_SCHEMA)), Ok(Ok(r#"{"age": 5}"#)));
    let r = report(&outcome);
    assert_eq!(r.exit_code, 1);
    assert_eq!(
        r.stdout,
        vec!["Validation error: \"name\" is a required property".to_string()]
    );
    assert!(r.stderr.is_empty());
}

#[test]
fn schema_path_that_is_a_directory_ends_the_run() {
    let (requests, outcome) = serve(
        params(),
        Err(PathStatus::NotAFile),
        Ok(Ok(r#"{"name": "x"}"#)),
    );
    assert_eq!(requests, vec![Request::Inspect(Role::Schema)]);
    match &outcome {
        Err(Failure::NotAFile { role, path }) => {
            assert_eq!(*role, Role::Schema);
            assert_eq!(path, "schema.json");
        }
        other => panic!("unexpected outcome: {:?}", other),
    }
    let r = report(&outcome);
    assert_ne!(r.exit_code, 0);
    assert_eq!(r.stderr, vec!["schema.json is not a file".to_string()]);
    assert!(r.usage);
    assert!(r.stdout.is_empty());
}

#[test]
fn missing_schema_path_ends_the_run() {
    let (requests, outcome) = serve(
        params(),
        Err(PathStatus::Unavailable(IoFailure::NotFound)),
        Ok(Ok("{}")),
    );
    assert_eq!(requests, vec![Request::Inspect(Role::Schema)]);
    match outcome {
        Err(Failure::PathUnavailable { role, path, cause }) => {
            assert_eq!(role, Role::Schema);
            assert_eq!(path, "schema.json");
            assert_eq!(cause, IoFailure::NotFound);
        }
        other => panic!("unexpected outcome: {:?}", other),
    }
}

#[test]
fn missing_layout_path_ends_the_run_before_anything_is_read() {
    let (requests, outcome) = serve(
        params(),
        Ok(Ok(PERSON_SCHEMA)),
        Err(PathStatus::Unavailable(IoFailure::NotFound)),
    );
    assert_eq!(
        requests,
        vec![Request::Inspect(Role::Schema), Request::Inspect(Role::Layout)]
    );
    match &outcome {
        Err(Failure::PathUnavailable { role, path, cause }) => {
            assert_eq!(*role, Role::Layout);
            assert_eq!(path, "layout.json");
            assert_eq!(*cause, IoFailure::NotFound);
        }
        other => panic!("unexpected outcome: {:?}", other),
    }
    let r = report(&outcome);
    assert_eq!(r.exit_code, 1);
    assert_eq!(
        r.stderr,
        vec!["Problem reading layout file layout.json: not found".to_string()]
    );
    assert!(r.usage);
}

#[test]
fn layout_path_that_is_a_directory_ends_the_run_before_anything_is_read() {
    let (requests, outcome) = serve(params(), Ok(Ok(PERSON_SCHEMA)), Err(PathStatus::NotAFile));
    assert_eq!(
        requests,
        vec![Request::Inspect(Role::Schema), Request::Inspect(Role::Layout)]
    );
    match outcome {
        Err(Failure::NotAFile { role, path }) => {
            assert_eq!(role, Role::Layout);
            assert_eq!(path, "layout.json");
        }
        other => panic!("unexpected outcome: {:?}", other),
    }
}

#[test]
fn schema_path_is_judged_before_the_layout_path() {
    let (requests, outcome) = serve(
        params(),
        Err(PathStatus::NotAFile),
        Err(PathStatus::Unavailable(IoFailure::NotFound)),
    );
    assert_eq!(requests, vec![Request::Inspect(Role::Schema)]);
    assert!(matches!(
        outcome,
        Err(Failure::NotAFile {
            role: Role::Schema,
            ..
        })
    ));
}

#[test]
fn unreadable_schema_ends_the_run() {
    let (requests, outcome) = serve(
        params(),
        Ok(Err(IoFailure::PermissionDenied)),
        Ok(Ok("{}")),
    );
    assert_eq!(
        requests,
        vec![
            Request::Inspect(Role::Schema),
            Request::Inspect(Role::Layout),
            Request::Load(Role::Schema),
        ]
    );
    match outcome {
        Err(Failure::Unreadable { role, path, cause }) => {
            assert_eq!(role, Role::Schema);
            assert_eq!(path, "schema.json");
            assert_eq!(cause, IoFailure::PermissionDenied);
        }
        other => panic!("unexpected outcome: {:?}", other),
    }
}

#[test]
fn unreadable_layout_ends_the_run() {
    let (requests, outcome) = serve(params(), Ok(Ok(PERSON_SCHEMA)), Ok(Err(IoFailure::Other)));
    assert_eq!(requests.len(), 4);
    match &outcome {
        Err(Failure::Unreadable { role, path, cause }) => {
            assert_eq!(*role, Role::Layout);
            assert_eq!(path, "layout.json");
            assert_eq!(*cause, IoFailure::Other);
        }
        other => panic!("unexpected outcome: {:?}", other),
    }
    let r = report(&outcome);
    assert_eq!(
        r.stderr,
        vec!["Cannot read JSON data file layout.json: I/O error".to_string()]
    );
    assert!(!r.usage);
}

#[test]
fn pipeline_error_ends_the_run_as_a_failure() {
    let (_, outcome) = serve(params(), Ok(Ok(PERSON_SCHEMA)), Ok(Ok(r#"{"name": }"#)));
    match outcome {
        Err(Failure::Invalid(ValidateError::MalformedInstance(text))) => {
            assert_eq!(text, "expected value at line 1 column 10");
        }
        other => panic!("unexpected outcome: {:?}", other),
    }
    let (_, outcome) = serve(params(), Ok(Ok("{")), Ok(Ok("{}")));
    assert!(matches!(
        outcome,
        Err(Failure::Invalid(ValidateError::MalformedSchema(_)))
    ));
    let (_, outcome) = serve(
        params(),
        Ok(Ok(r#"{"type": "nonsense-type"}"#)),
        Ok(Ok("{}")),
    );
    assert!(matches!(
        outcome,
        Err(Failure::Invalid(ValidateError::InvalidSchema(_)))
    ));
}

#[test]
fn event_out_of_turn_changes_nothing() {
    let driver = Driver::start(params());
    let driver = go_on(driver.step(Event::Loaded("{}".to_string())));
    assert_eq!(driver.stage(), Stage::SchemaStatus);
    let driver = go_on(driver.step(Event::LoadFailed(IoFailure::Other)));
    assert_eq!(driver.stage(), Stage::SchemaStatus);
    let driver = go_on(driver.step(Event::Status(PathStatus::File)));
    assert_eq!(driver.stage(), Stage::LayoutStatus);
    let driver = go_on(driver.step(Event::Loaded("{}".to_string())));
    assert_eq!(driver.stage(), Stage::LayoutStatus);
    let driver = go_on(driver.step(Event::Status(PathStatus::File)));
    assert_eq!(driver.stage(), Stage::SchemaText);
    assert_eq!(driver.request(), Request::Load(Role::Schema));
    let driver = go_on(driver.step(Event::Status(PathStatus::NotAFile)));
    assert_eq!(driver.stage(), Stage::SchemaText);
    let driver = go_on(driver.step(Event::Loaded(PERSON_SCHEMA.to_string())));
    assert_eq!(driver.stage(), Stage::LayoutText);
    assert_eq!(driver.request(), Request::Load(Role::Layout));
    let driver = go_on(driver.step(Event::Status(PathStatus::Unavailable(IoFailure::NotFound))));
    assert_eq!(driver.stage(), Stage::LayoutText);
    let outcome = end(driver.step(Event::Loaded(r#"{"name": 1}"#.to_string())));
    assert_eq!(outcome.unwrap().len(), 1);
}

#[test]
fn whole_run_repeats() {
    let once = serve(params(), Ok(Ok(PERSON_SCHEMA)), Ok(Ok(r#"{"name": 1, "x": 2}"#)));
    let twice = serve(params(), Ok(Ok(PERSON_SCHEMA)), Ok(Ok(r#"{"name": 1, "x": 2}"#)));
    assert_eq!(once.0, twice.0);
    assert_eq!(format!("{:?}", once.1), format!("{:?}", twice.1));
}
