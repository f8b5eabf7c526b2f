use ls_oxide::structs::task_data::TaskData;
use ls_oxide::structs::task_err::TaskErr;
use ls_oxide::tasks::{
    get_task, get_task_name, get_task_type, is_last_task_close, validate_first_task, TaskTypes,
};
use ls_oxide::value::{Value, ValueMap};

fn s(text: &str) -> Value {
    Value::Str(text.to_string())
}

fn map(entries: Vec<(Value, Value)>) -> ValueMap {
    ValueMap { entries }
}

fn body(entries: Vec<(Value, Value)>) -> Value {
    Value::Mapping(map(entries))
}

fn copy(m: &ValueMap) -> ValueMap {
    ls_oxide::value::copy_map(m)
}

#[test]
fn test_get_task_name_error() {
    let task = map(vec![]);

    let result = get_task_name(&task);
    let expected = Err(TaskErr::new(
        String::from("Malformed Task"),
        None,
        Some(copy(&task)),
    ));
    assert_eq!(expected, result)
}

#[test]
fn test_get_task_name_empty() {
    let task = map(vec![(s("name"), s(""))]);

    let result = get_task_name(&task);
    let expected = Err(TaskErr::new(
        String::from("Task name can`t be empty"),
        None,
        Some(copy(&task)),
    ));
    assert_eq!(expected, result)
}

#[test]
fn test_get_task_name_not_string() {
    let task = map(vec![(s("name"), Value::Number(0))]);

    let result = get_task_name(&task);
    let expected = Err(TaskErr::new(
        String::from("Task name is not a string"),
        None,
        Some(copy(&task)),
    ));
    assert_eq!(expected, result)
}

#[test]
fn test_get_task_error() {
    let task = map(vec![(s("name"), Value::Number(0))]);

    let result = get_task(&task, "");
    let expected = Err(TaskErr::new(
        String::from("Malformed Task"),
        None,
        Some(copy(&task)),
    ));
    assert_eq!(expected, result)
}

#[test]
fn test_get_task_not_mapping() {
    let task = map(vec![(s("name"), s("foo")), (s("send_key"), s(""))]);

    let result = get_task(&task, "send_key");
    let expected = Err(TaskErr::new(
        String::from("Task data is Malformed"),
        None,
        Some(copy(&task)),
    ));
    assert_eq!(expected, result)
}

#[test]
fn test_get_task_empty() {
    let task = map(vec![(s("name"), s("foo")), (s("send_key"), body(vec![]))]);

    let result = get_task(&task, "send_key");
    let expected = Err(TaskErr::new(
        String::from("Task data is empty"),
        None,
        Some(copy(&task)),
    ));
    assert_eq!(expected, result)
}

fn four_task_doc(last_close: bool) -> TaskData {
    let mut tasks = vec![
        map(vec![
            (s("name"), s("Open link")),
            (s("link"), body(vec![(s("url"), s("link"))])),
        ]),
        map(vec![
            (s("name"), s("enter rust in search")),
            (
                s("send_key"),
                body(vec![
                    (s("input"), s("Rust")),
                    (s("element"), body(vec![(s("xPath"), s("foo"))])),
                ]),
            ),
        ]),
        map(vec![
            (s("name"), s("press enter key")),
            (
                s("send_key"),
                body(vec![
                    (s("input"), s("\u{E007}")),
                    (s("element"), body(vec![(s("xPath"), s("bar"))])),
                ]),
            ),
        ]),
    ];
    if last_close {
        tasks.push(map(vec![
            (s("name"), s("closing web driver session")),
            (s("close"), Value::Bool(true)),
        ]));
    }
    TaskData {
        meta_data: map(vec![]),
        tasks,
    }
}

#[test]
fn test_is_last_task_close_true() {
    let task = four_task_doc(true);
    let is_last = is_last_task_close(&task).unwrap();
    assert!(is_last);
}

#[test]
fn test_is_last_task_close_false() {
    let task = four_task_doc(false);
    let is_last = is_last_task_close(&task).unwrap();
    assert!(!is_last);
}

#[test]
fn test_validate_first_task() {
    let task = four_task_doc(false);
    let is_valid = validate_first_task(&task);
    assert!(is_valid.is_ok())
}

#[test]
fn test_validate_first_task_error() {
    let task = TaskData {
        meta_data: map(vec![]),
        tasks: vec![
            map(vec![
                (s("name"), s("enter rust in search")),
                (
                    s("send_key"),
                    body(vec![
                        (s("input"), s("Rust")),
                        (s("element"), body(vec![(s("xPath"), s("foo"))])),
                    ]),
                ),
            ]),
            map(vec![
                (s("name"), s("press enter key")),
                (
                    s("send_key"),
                    body(vec![
                        (s("input"), s("\u{E007}")),
                        (s("element"), body(vec![(s("xPath"), s("bar"))])),
                    ]),
                ),
            ]),
        ],
    };
    let result = validate_first_task(&task);
    let expected = Err(TaskErr::new(
        String::from("First Task should be a Link"),
        None,
        None,
    ));
    assert_eq!(expected, result)
}

#[test]
fn test_get_task_type_send_key() {
    let task = map(vec![(s("name"), s("foo")), (s("send_key"), body(vec![]))]);

    let task_type = get_task_type(&task).unwrap();
    assert_eq!(TaskTypes::SENDKEY, task_type)
}

#[test]
fn test_get_task_type_click() {
    let task = map(vec![(s("name"), s("foo")), (s("click"), body(vec![]))]);

    let task_type = get_task_type(&task).unwrap();
    assert_eq!(TaskTypes::CLICK, task_type)
}

#[test]
fn test_get_task_type_unknow() {
    let task = map(vec![(s("name"), s("foo")), (s("foo"), body(vec![]))]);

    let result = get_task_type(&task);
    let expected = Err(TaskErr::new(
        String::from("Unknow Task Type: \"foo\""),
        None,
        Some(copy(&task)),
    ));
    assert_eq!(expected, result)
}

#[test]
fn test_get_task_type_error() {
    let task = map(vec![(s("name"), s("foo"))]);

    let result = get_task_type(&task);
    let expected = Err(TaskErr::new(
        String::from("Task data is Malformed"),
        None,
        Some(copy(&task)),
    ));
    assert_eq!(expected, result)
}
