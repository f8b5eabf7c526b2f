use ls_oxide::element::{Element, ElementType};
use ls_oxide::structs::task_err::TaskErr;
use ls_oxide::tasks::wait::Wait;
use ls_oxide::tasks::TaskTypes;
use ls_oxide::value::{copy_map, Value, ValueMap};

fn s(text: &str) -> Value {
    Value::Str(text.to_string())
}

fn map(entries: Vec<(Value, Value)>) -> ValueMap {
    ValueMap { entries }
}

fn body(entries: Vec<(Value, Value)>) -> Value {
    Value::Mapping(map(entries))
}

#[test]
fn wait_test_empty_task() {
    let wait = map(vec![]);
    let result = Wait::new(&wait);
    let expected = Err(TaskErr::new(
        String::from("Malformed Task"),
        None,
        Some(wait),
    ));
    assert_eq!(expected, result)
}

#[test]
fn wait_test_missing_task_data() {
    let wait = map(vec![(s("name"), s("wait 4 sec"))]);
    let result = Wait::new(&wait);
    let expected = Err(TaskErr::new(
        String::from("Malformed Task"),
        None,
        Some(wait),
    ));
    assert_eq!(expected, result)
}

#[test]
fn wait_test_empty_name() {
    let wait = map(vec![
        (s("name"), s("")),
        (s("wait"), body(vec![(s("duration_ms"), Value::Number(4))])),
    ]);

    let result = Wait::new(&wait);
    let expected = Err(TaskErr::new(
        String::from("Task name can`t be empty"),
        None,
        Some(wait),
    ));
    assert_eq!(expected, result)
}

#[test]
fn wait_test_task_success() {
    let wait = map(vec![
        (s("name"), s("wait 4 sec")),
        (s("wait"), body(vec![(s("duration_ms"), Value::Number(4))])),
    ]);
    let result = Wait::new(&wait);
    let expected = Ok(Wait {
        _task_types: TaskTypes::WAIT,
        name: "wait 4 sec".to_owned(),
        duration_ms: Some(4),
        element: None,
    });
    assert_eq!(expected, result)
}

#[test]
fn test_task_success_element_x_path() {
    let wait = map(vec![
        (s("name"), s("wait 4 sec")),
        (
            s("wait"),
            body(vec![(s("element"), body(vec![(s("xPath"), s("search-form"))]))]),
        ),
    ]);
    let result = Wait::new(&wait);
    let expected = Ok(Wait {
        _task_types: TaskTypes::WAIT,
        name: "wait 4 sec".to_owned(),
        duration_ms: None,
        element: Some(Element {
            element_type: ElementType::XPATH,
            value: "search-form".to_owned(),
        }),
    });
    assert_eq!(expected, result)
}

#[test]
fn test_task_success_element_id() {
    let wait = map(vec![
        (s("name"), s("wait 4 sec")),
        (
            s("wait"),
            body(vec![(s("element"), body(vec![(s("id"), s("search-form"))]))]),
        ),
    ]);
    let result = Wait::new(&wait);
    let expected = Ok(Wait {
        _task_types: TaskTypes::WAIT,
        name: "wait 4 sec".to_owned(),
        duration_ms: None,
        element: Some(Element {
            element_type: ElementType::ID,
            value: "search-form".to_owned(),
        }),
    });
    assert_eq!(expected, result)
}

#[test]
fn test_wait_duration_not_number() {
    let wait = map(vec![
        (s("name"), s("wait a bit")),
        (s("wait"), body(vec![(s("duration_ms"), s("soon"))])),
    ]);
    let result = Wait::new(&wait);
    let expected = Err(TaskErr::new(
        String::from("Wait field is not a number"),
        Some(TaskTypes::WAIT),
        Some(copy_map(&wait)),
    ));
    assert_eq!(expected, result)
}

#[test]
fn test_wait_bare_number_is_duration() {
    let wait = map(vec![(s("name"), s("wait 4 sec")), (s("wait"), Value::Number(4))]);
    let result = Wait::new(&wait);
    let expected = Ok(Wait {
        _task_types: TaskTypes::WAIT,
        name: "wait 4 sec".to_owned(),
        duration_ms: Some(4),
        element: None,
    });
    assert_eq!(expected, result)
}
