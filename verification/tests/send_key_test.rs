use ls_oxide::element::{Element, ElementType};
use ls_oxide::structs::task_err::TaskErr;
use ls_oxide::tasks::send_key::SendKey;
use ls_oxide::tasks::TaskTypes;
use ls_oxide::value::{copy_map, Value, ValueMap};

fn s(text: &str) -> Value {
    Value::Str(text.to_string())
}

fn map(entries: Vec<(Value, Value)>) -> ValueMap {
    ValueMap { entries }
}

fn body(entries: Vec<(Value, Value)>) -> Value {
    Value::Mapping(map(entries))
}

#[test]
fn send_key_test_empty_task() {
    let send_key = map(vec![]);
    let result = SendKey::new(&send_key);
    let expected = Err(TaskErr::new(
        String::from("Malformed Task"),
        None,
        Some(send_key),
    ));
    assert_eq!(expected, result)
}

#[test]
fn send_key_test_invalid_task_data() {
    let send_key = map(vec![
        (s("name"), s("enter rust in search")),
        (s("send_key"), Value::Number(2)),
    ]);
    let result = SendKey::new(&send_key);
    let expected = Err(TaskErr::new(
        String::from("Task data is Malformed"),
        None,
        Some(send_key),
    ));
    assert_eq!(expected, result)
}

#[test]
fn send_key_test_missing_task_data() {
    let send_key = map(vec![(s("name"), s("enter rust in search"))]);
    let result = SendKey::new(&send_key);
    let expected = Err(TaskErr::new(
        String::from("Malformed Task"),
        None,
        Some(send_key),
    ));
    assert_eq!(expected, result)
}

#[test]
fn send_key_test_empty_name() {
    let send_key = map(vec![
        (s("name"), s("")),
        (
            s("send_key"),
            body(vec![
                (s("input"), s("Rust")),
                (
                    s("element"),
                    body(vec![(s("xPath"), s("//*[@id=\"searchInput\"]"))]),
                ),
            ]),
        ),
    ]);
    let result = SendKey::new(&send_key);
    let expected = Err(TaskErr::new(
        String::from("Task name can`t be empty"),
        None,
        Some(send_key),
    ));
    assert_eq!(expected, result)
}

#[test]
fn send_key_test_invalid_name() {
    let send_key = map(vec![
        (s("name"), Value::Number(2)),
        (
            s("send_key"),
            body(vec![
                (s("input"), s("Rust")),
                (
                    s("element"),
                    body(vec![(s("xPath"), s("//*[@id=\"searchInput\"]"))]),
                ),
            ]),
        ),
    ]);
    let result = SendKey::new(&send_key);
    let expected = Err(TaskErr::new(
        String::from("Task name is not a string"),
        None,
        Some(send_key),
    ));
    assert_eq!(expected, result)
}

#[test]
fn send_key_test_invalid_element() {
    let send_key = map(vec![
        (s("name"), s("enter rust in search")),
        (
            s("send_key"),
            body(vec![
                (s("input"), s("Rust")),
                (
                    s("element"),
                    body(vec![(s("foo"), s("//*[@id=\"searchInput\"]"))]),
                ),
            ]),
        ),
    ]);
    let result = SendKey::new(&send_key);
    let expected = Err(TaskErr::new(
        String::from("Unknow Element Type: \"foo\""),
        Some(TaskTypes::SENDKEY),
        Some(copy_map(&send_key)),
    ));
    assert_eq!(expected, result)
}

#[test]
fn send_key_test_invalid_element_value() {
    let send_key = map(vec![
        (s("name"), s("enter rust in search")),
        (
            s("send_key"),
            body(vec![
                (s("input"), s("Rust")),
                (s("element"), body(vec![(s("xPath"), Value::Number(2))])),
            ]),
        ),
    ]);
    let result = SendKey::new(&send_key);
    let expected = Err(TaskErr::new(
        String::from("Element: Value is not a string"),
        Some(TaskTypes::SENDKEY),
        Some(copy_map(&send_key)),
    ));
    assert_eq!(expected, result)
}

#[test]
fn send_key_test_invalid_input() {
    let send_key = map(vec![
        (s("name"), s("enter rust in search")),
        (
            s("send_key"),
            body(vec![
                (s("input"), Value::Number(2)),
                (
                    s("element"),
                    body(vec![(s("xPath"), s("//*[@id=\"searchInput\"]"))]),
                ),
            ]),
        ),
    ]);
    let result = SendKey::new(&send_key);
    let expected = Err(TaskErr::new(
        String::from("input is not a string"),
        Some(TaskTypes::SENDKEY),
        Some(copy_map(&send_key)),
    ));
    assert_eq!(expected, result)
}

#[test]
fn send_key_test_missing_input() {
    let send_key = map(vec![
        (s("name"), s("enter rust in search")),
        (
            s("send_key"),
            body(vec![(
                s("element"),
                body(vec![(s("xPath"), s("//*[@id=\"searchInput\"]"))]),
            )]),
        ),
    ]);
    let result = SendKey::new(&send_key);
    let expected = Err(TaskErr::new(
        String::from("input field not found"),
        Some(TaskTypes::SENDKEY),
        Some(copy_map(&send_key)),
    ));
    assert_eq!(expected, result)
}

#[test]
fn send_key_test_missing_element() {
    let send_key = map(vec![
        (s("name"), s("enter rust in search")),
        (s("send_key"), body(vec![(s("input"), s("Rust"))])),
    ]);
    let result = SendKey::new(&send_key);
    let expected = Err(TaskErr::new(
        String::from("No element found"),
        Some(TaskTypes::SENDKEY),
        Some(copy_map(&send_key)),
    ));
    assert_eq!(expected, result)
}

#[test]
fn send_key_test_task_success() {
    let send_key = map(vec![
        (s("name"), s("enter rust in search")),
        (
            s("send_key"),
            body(vec![
                (s("input"), s("Rust")),
                (
                    s("element"),
                    body(vec![(s("xPath"), s("//*[@id=\"searchInput\"]"))]),
                ),
            ]),
        ),
    ]);
    let result = SendKey::new(&send_key);
    let expected = Ok(SendKey {
        _task_types: TaskTypes::SENDKEY,
        name: "enter rust in search".to_owned(),
        element: Element {
            element_type: ElementType::XPATH,
            value: "//*[@id=\"searchInput\"]".to_owned(),
        },
        input: "Rust".to_owned(),
    });
    assert_eq!(expected, result)
}

#[test]
fn send_key_test_task() {
    let send_key = map(vec![
        (s("name"), s("enter rust in search")),
        (
            s("send_key"),
            body(vec![
                (s("input"), s("Rust")),
                (s("element"), body(vec![(s("id"), s("searchInput"))])),
            ]),
        ),
    ]);
    let result = SendKey::new(&send_key);
    let expected = Ok(SendKey {
        _task_types: TaskTypes::SENDKEY,
        name: "enter rust in search".to_owned(),
        element: Element {
            element_type: ElementType::ID,
            value: "searchInput".to_owned(),
        },
        input: "Rust".to_owned(),
    });
    assert_eq!(expected, result)
}
