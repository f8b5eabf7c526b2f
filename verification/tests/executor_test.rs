use ls_oxide::executor::{Command, Executor, Outcome, RunStatus, StepAction, SuiteRun};
use ls_oxide::structs::task_data::TaskData;
use ls_oxide::tasks::validate::{ProbeResult, Validate, ValidateTypes};
use ls_oxide::tasks::{to_task, TaskTypes};
use ls_oxide::value::{Value, ValueMap};

fn s(text: &str) -> Value {
    Value::Str(text.to_string())
}

fn map(entries: Vec<(Value, Value)>) -> ValueMap {
    ValueMap { entries }
}

fn body(entries: Vec<(Value, Value)>) -> Value {
    Value::Mapping(map(entries))
}

fn link_decl(name: &str, url: &str) -> ValueMap {
    map(vec![(s("name"), s(name)), (s("link"), body(vec![(s("url"), s(url))]))])
}

fn click_decl(name: &str, xpath: &str) -> ValueMap {
    map(vec![
        (s("name"), s(name)),
        (
            s("click"),
            body(vec![(s("element"), body(vec![(s("xPath"), s(xpath))]))]),
        ),
    ])
}

fn set_vars_decl(name: &str, pairs: Vec<(&str, &str)>) -> ValueMap {
    let entries = pairs
        .into_iter()
        .map(|(k, v)| (s(k), s(v)))
        .collect::<Vec<(Value, Value)>>();
    map(vec![(s("name"), s(name)), (s("set_vars"), Value::Mapping(map(entries)))])
}

fn doc(tasks: Vec<ValueMap>) -> TaskData {
    TaskData {
        meta_data: map(vec![]),
        tasks,
    }
}

#[test]
fn test_pipeline_appends_close() {
    let data = doc(vec![link_decl("Open wikipedia", "https://wikipedia.org")]);
    let tasks = to_task(&data).unwrap();
    assert_eq!(2, tasks.len());
    assert_eq!(TaskTypes::LINK, tasks[0].get_kind());
    assert_eq!(TaskTypes::CLOSE, tasks[1].get_kind());
    assert_eq!("closing web driver session", tasks[1].get_name());
}

#[test]
fn test_pipeline_keeps_explicit_close() {
    let data = doc(vec![
        link_decl("Open wikipedia", "https://wikipedia.org"),
        map(vec![(s("name"), s("bye")), (s("close"), Value::Bool(true))]),
    ]);
    let tasks = to_task(&data).unwrap();
    assert_eq!(2, tasks.len());
    assert_eq!(TaskTypes::CLOSE, tasks[1].get_kind());
    assert_eq!("bye", tasks[1].get_name());
}

#[test]
fn test_pipeline_first_task_must_be_link() {
    let data = doc(vec![click_decl("Click search button", "//button")]);
    let err = to_task(&data).unwrap_err();
    assert_eq!("First Task should be a Link", err.get_message());
}

#[test]
fn test_pipeline_empty_suite() {
    let data = doc(vec![]);
    let err = to_task(&data).unwrap_err();
    assert_eq!("First Task not found", err.get_message());
}

#[test]
fn test_validate_tasks_builds_executor() {
    let data = doc(vec![link_decl("Open wikipedia", "https://wikipedia.org")]);
    let executor = Executor::validate_tasks(&data).unwrap();
    assert_eq!(0, executor.results.len());
    assert_eq!(2, executor.tasks.len());
}

/// One failing task stops the run after its report, and the driver is
/// released exactly once even though no Close was declared.
#[test]
fn test_failure_stops_run_and_releases_once() {
    let data = doc(vec![
        link_decl("Open wikipedia", "https://wikipedia.org"),
        click_decl("Click search button", "//*[@id=\"missing\"]"),
    ]);
    let executor = Executor::validate_tasks(&data).unwrap();
    assert_eq!(3, executor.tasks.len());

    let mut run = executor.start(vec![]);
    let mut releases = 0;
    let mut quits = 0;

    assert_eq!(RunStatus::Running, run.get_status());
    match run.next_command() {
        Some(Command::Navigate { url }) => assert_eq!("https://wikipedia.org", url),
        other => panic!("unexpected command {:?}", other),
    }
    assert_eq!(StepAction::Continue, run.advance(&Outcome::Completed, 1));

    match run.next_command() {
        Some(Command::ClickElement { element }) => {
            assert_eq!("//*[@id=\"missing\"]", element.value)
        },
        other => panic!("unexpected command {:?}", other),
    }
    let act = run.advance(
        &Outcome::NoElement {
            message: "no such element".to_string(),
        },
        1,
    );
    if act == StepAction::ReleaseAndStop {
        releases += 1;
    }
    if matches!(run.next_command(), Some(Command::Quit)) {
        quits += 1;
    }

    assert_eq!(1, releases + quits);
    assert_eq!(RunStatus::Failed, run.get_status());
    assert_eq!(1, run.results.len());
    assert_eq!("Open wikipedia", run.results[0].name);
    let err = run.error.as_ref().unwrap();
    assert_eq!("no such element", err.get_message());
    assert_eq!(Some(TaskTypes::CLICK), err.task_type);
    assert!(run.next_command().is_none());
}

/// A clean run walks every task, releases through its Close command once,
/// and ends Closed.
#[test]
fn test_clean_run_closes_once() {
    let data = doc(vec![link_decl("Open wikipedia", "https://wikipedia.org")]);
    let executor = Executor::validate_tasks(&data).unwrap();
    let mut run = executor.start(vec![]);
    let mut quits = 0;

    while run.get_status() == RunStatus::Running {
        if matches!(run.next_command(), Some(Command::Quit)) {
            quits += 1;
        }
        run.advance(&Outcome::Completed, 0);
    }

    assert_eq!(RunStatus::Closed, run.get_status());
    assert_eq!(1, quits);
    assert_eq!(2, run.results.len());
}

/// After SetVars binds a name, a later task referencing the placeholder
/// observes the bound value.
#[test]
fn test_set_vars_observed_by_later_task() {
    let data = doc(vec![
        link_decl("Open start", "https://start.example"),
        set_vars_decl("set vars", vec![("name", "N")]),
        link_decl("Open bound", "{name}"),
    ]);
    let executor = Executor::validate_tasks(&data).unwrap();
    let mut run = executor.start(vec![]);

    run.advance(&Outcome::Completed, 0);
    assert!(run.next_command().is_none());
    run.advance(&Outcome::Completed, 0);

    match run.next_command() {
        Some(Command::Navigate { url }) => assert_eq!("N", url),
        other => panic!("unexpected command {:?}", other),
    }
}

/// Caller overrides seed the variables, and SetVars overwrites them.
#[test]
fn test_caller_overrides_seed_variables() {
    let data = doc(vec![
        link_decl("Open bound", "{name}"),
        set_vars_decl("set vars", vec![("name", "later")]),
        link_decl("Open rebound", "{name}"),
    ]);
    let executor = Executor::validate_tasks(&data).unwrap();
    let mut run = executor.start(vec![("name".to_string(), "seeded".to_string())]);

    match run.next_command() {
        Some(Command::Navigate { url }) => assert_eq!("seeded", url),
        other => panic!("unexpected command {:?}", other),
    }
    run.advance(&Outcome::Completed, 0);
    run.advance(&Outcome::Completed, 0);
    match run.next_command() {
        Some(Command::Navigate { url }) => assert_eq!("later", url),
        other => panic!("unexpected command {:?}", other),
    }
}

fn validate_task_with_empty_text() -> Validate {
    let data = map(vec![
        (s("name"), s("Validate Title")),
        (
            s("validate"),
            body(vec![
                (s("element"), body(vec![(s("xPath"), s("//h1"))])),
                (
                    s("expect"),
                    body(vec![
                        (s("text"), s("")),
                        (s("innerHtml"), s("")),
                        (s("css"), body(vec![(s("a"), s("1")), (s("b"), s("2"))])),
                    ]),
                ),
            ]),
        ),
    ]);
    Validate::new(&data).unwrap()
}

/// Empty text and innerHtml clauses emit nothing; a css clause of two keys
/// emits exactly two results.
#[test]
fn test_empty_clauses_emit_no_results() {
    let validate = validate_task_with_empty_text();
    assert_eq!(1, validate.expects.len());
    assert!(matches!(validate.expects[0], ValidateTypes::Css(_)));

    let probes = validate.probes();
    assert_eq!(2, probes.len());
    assert_eq!("a", probes[0].key);
    assert_eq!("b", probes[1].key);

    let outcomes = vec![
        ProbeResult::Found("1".to_string()),
        ProbeResult::Found("0".to_string()),
    ];
    let results = validate.evaluate(&ls_oxide::variables::StrMap::new(), &outcomes);
    assert_eq!(2, results.len());
    assert_eq!("Pass: CSS [a] is [1]", results[0].message);
    assert_eq!("Failed: CSS [b] was [0] expect [2]", results[1].message);
}

fn run_suite_to_end(data: TaskData) -> usize {
    let executor = Executor::validate_tasks(&data).unwrap();
    let mut run = executor.start(vec![]);
    while run.get_status() == RunStatus::Running {
        run.advance(&Outcome::Completed, 0);
    }
    run.results.len()
}

/// Five independent suites complete regardless of the order they are
/// driven in; the total of their reports does not depend on it.
#[test]
fn test_independent_suites_are_order_insensitive() {
    let suite_sizes = [1usize, 2, 3, 4, 5];
    let build = |extra: usize| {
        let mut tasks = vec![link_decl("Open start", "https://start.example")];
        for i in 0..extra {
            tasks.push(click_decl(&format!("step {}", i), "//button"));
        }
        doc(tasks)
    };

    let mut forward_total = 0;
    for size in suite_sizes.iter() {
        forward_total += run_suite_to_end(build(*size));
    }

    let mut backward_total = 0;
    for size in suite_sizes.iter().rev() {
        backward_total += run_suite_to_end(build(*size));
    }

    assert_eq!(forward_total, backward_total);
    assert_eq!((1 + 2) + (2 + 2) + (3 + 2) + (4 + 2) + (5 + 2), forward_total);
}

/// Each failure outcome maps to the message the task reports.
#[test]
fn test_failure_messages_per_kind() {
    let send_key = map(vec![
        (s("name"), s("enter rust in search")),
        (
            s("send_key"),
            body(vec![
                (s("input"), s("Rust")),
                (s("element"), body(vec![(s("xPath"), s("//input"))])),
            ]),
        ),
    ]);
    let data = doc(vec![
        link_decl("Open wikipedia", "https://wikipedia.org"),
        send_key,
    ]);
    let executor = Executor::validate_tasks(&data).unwrap();
    let mut run = executor.start(vec![]);
    run.advance(&Outcome::Completed, 0);
    run.advance(
        &Outcome::NoElement {
            message: "gone".to_string(),
        },
        0,
    );
    let err = run.error.as_ref().unwrap();
    assert_eq!(
        "Unable to find element - Type: XPATH, Value: //input",
        err.get_message()
    );
    assert_eq!(Some(TaskTypes::SENDKEY), err.task_type);
}

#[test]
fn test_link_failure_message() {
    let data = doc(vec![link_decl("Open wikipedia", "https://wikipedia.org")]);
    let executor = Executor::validate_tasks(&data).unwrap();
    let mut run = executor.start(vec![]);
    run.advance(
        &Outcome::ActionFailed {
            message: "driver says no".to_string(),
        },
        0,
    );
    let err = run.error.as_ref().unwrap();
    assert_eq!("Unable to open link", err.get_message());
    assert_eq!(Some(TaskTypes::LINK), err.task_type);
}
