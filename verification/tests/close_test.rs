use ls_oxide::structs::task_err::TaskErr;
use ls_oxide::tasks::close::Close;
use ls_oxide::tasks::TaskTypes;
use ls_oxide::value::{copy_map, Value, ValueMap};

fn s(text: &str) -> Value {
    Value::Str(text.to_string())
}

fn map(entries: Vec<(Value, Value)>) -> ValueMap {
    ValueMap { entries }
}

#[test]
fn close_test_empty_task() {
    let close = map(vec![]);
    let result = Close::new(&close);
    let expected = Err(TaskErr::new(
        String::from("Malformed Task"),
        None,
        Some(close),
    ));
    assert_eq!(expected, result)
}

#[test]
fn close_test_missing_task_data() {
    let close = map(vec![(s("name"), s("closing web driver session"))]);
    let result = Close::new(&close);
    let expected = Err(TaskErr::new(
        String::from("Malformed Task"),
        Some(TaskTypes::CLOSE),
        Some(copy_map(&close)),
    ));
    assert_eq!(expected, result)
}

#[test]
fn close_test_empty_name() {
    let close = map(vec![(s("name"), s("")), (s("close"), Value::Bool(true))]);

    let result = Close::new(&close);
    let expected = Err(TaskErr::new(
        String::from("Task name can`t be empty"),
        None,
        Some(close),
    ));
    assert_eq!(expected, result)
}

#[test]
fn close_test_task_success() {
    let close = map(vec![
        (s("name"), s("closing web driver session")),
        (s("close"), Value::Bool(true)),
    ]);
    let result = Close::new(&close);
    let expected = Ok(Close {
        _task_types: TaskTypes::CLOSE,
        name: "closing web driver session".to_owned(),
    });
    assert_eq!(expected, result)
}

#[test]
fn close_test_task_string() {
    let close = map(vec![
        (s("name"), s("closing web driver session")),
        (s("close"), s("does not matter what it is")),
    ]);
    let result = Close::new(&close);
    let expected = Ok(Close {
        _task_types: TaskTypes::CLOSE,
        name: "closing web driver session".to_owned(),
    });
    assert_eq!(expected, result)
}

#[test]
fn close_test_task_mapping() {
    let close = map(vec![
        (s("name"), s("closing web driver session")),
        (s("close"), Value::Mapping(map(vec![]))),
    ]);
    let result = Close::new(&close);
    let expected = Ok(Close {
        _task_types: TaskTypes::CLOSE,
        name: "closing web driver session".to_owned(),
    });
    assert_eq!(expected, result)
}
