use ls_oxide::element::{Element, ElementType};
use ls_oxide::structs::task_err::TaskErr;
use ls_oxide::tasks::screenshot::Screenshot;
use ls_oxide::tasks::TaskTypes;
use ls_oxide::value::{copy_map, Value, ValueMap};

fn s(text: &str) -> Value {
    Value::Str(text.to_string())
}

fn map(entries: Vec<(Value, Value)>) -> ValueMap {
    ValueMap { entries }
}

fn body(entries: Vec<(Value, Value)>) -> Value {
    Value::Mapping(map(entries))
}

#[test]
fn screenshot_test_empty_task() {
    let screenshot = map(vec![]);
    let result = Screenshot::new(&screenshot);
    let expected = Err(TaskErr::new(
        String::from("Malformed Task"),
        None,
        Some(screenshot),
    ));
    assert_eq!(expected, result)
}

#[test]
fn screenshot_test_missing_task_data() {
    let screenshot = map(vec![(s("name"), s("Take a screenshot"))]);
    let result = Screenshot::new(&screenshot);
    let expected = Err(TaskErr::new(
        String::from("Malformed Task"),
        None,
        Some(screenshot),
    ));
    assert_eq!(expected, result)
}

#[test]
fn screenshot_test_empty_name() {
    let screenshot = map(vec![(s("name"), s("")), (s("screenshot"), Value::Bool(true))]);

    let result = Screenshot::new(&screenshot);
    let expected = Err(TaskErr::new(
        String::from("Task name can`t be empty"),
        None,
        Some(screenshot),
    ));
    assert_eq!(expected, result)
}

#[test]
fn test_task_success_no_element() {
    let screenshot = map(vec![
        (s("name"), s("Take a screenshot")),
        (s("screenshot"), body(vec![(s("path"), s("/tmp/screenshot.png"))])),
    ]);
    let result = Screenshot::new(&screenshot);
    let expected = Ok(Screenshot {
        _task_types: TaskTypes::SCREENSHOT,
        name: "Take a screenshot".to_owned(),
        path: "/tmp/screenshot.png".to_owned(),
        element: None,
    });
    assert_eq!(expected, result)
}

#[test]
fn test_task_success_element() {
    let screenshot = map(vec![
        (s("name"), s("Take a screenshot")),
        (
            s("screenshot"),
            body(vec![
                (s("path"), s("/tmp/screenshot.png")),
                (s("element"), body(vec![(s("xPath"), s("search-form"))])),
            ]),
        ),
    ]);
    let result = Screenshot::new(&screenshot);
    let expected = Ok(Screenshot {
        _task_types: TaskTypes::SCREENSHOT,
        name: "Take a screenshot".to_owned(),
        path: "/tmp/screenshot.png".to_owned(),
        element: Some(Element {
            element_type: ElementType::XPATH,
            value: "search-form".to_owned(),
        }),
    });
    assert_eq!(expected, result)
}

#[test]
fn test_task_malformed_task() {
    let screenshot = map(vec![
        (s("name"), s("Take a screenshot")),
        (s("screenshot"), Value::Bool(true)),
    ]);
    let result = Screenshot::new(&screenshot);
    let expected = Err(TaskErr::new(
        String::from("Task data is Malformed"),
        None,
        Some(screenshot),
    ));
    assert_eq!(expected, result)
}

#[test]
fn test_task_path_not_string() {
    let screenshot = map(vec![
        (s("name"), s("Take a screenshot")),
        (
            s("screenshot"),
            body(vec![
                (s("path"), Value::Number(22)),
                (s("element"), body(vec![(s("xPath"), s("search-form"))])),
            ]),
        ),
    ]);
    let result = Screenshot::new(&screenshot);
    let expected = Err(TaskErr::new(
        String::from("path field is not a string"),
        Some(TaskTypes::SCREENSHOT),
        Some(copy_map(&screenshot)),
    ));
    assert_eq!(expected, result)
}

#[test]
fn test_task_invalid_element() {
    let screenshot = map(vec![
        (s("name"), s("Take a screenshot")),
        (
            s("screenshot"),
            body(vec![
                (s("path"), s("/tmp/screenshot.png")),
                (s("element"), body(vec![(s("foo"), s("search-form"))])),
            ]),
        ),
    ]);
    let result = Screenshot::new(&screenshot);
    let expected = Ok(Screenshot {
        _task_types: TaskTypes::SCREENSHOT,
        name: "Take a screenshot".to_owned(),
        path: "/tmp/screenshot.png".to_owned(),
        element: None,
    });
    assert_eq!(expected, result)
}
