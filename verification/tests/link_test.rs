use ls_oxide::structs::task_err::TaskErr;
use ls_oxide::tasks::link::Link;
use ls_oxide::tasks::TaskTypes;
use ls_oxide::value::{copy_map, Value, ValueMap};

fn s(text: &str) -> Value {
    Value::Str(text.to_string())
}

fn map(entries: Vec<(Value, Value)>) -> ValueMap {
    ValueMap { entries }
}

fn body(entries: Vec<(Value, Value)>) -> Value {
    Value::Mapping(map(entries))
}

#[test]
fn link_test_empty_task() {
    let link = map(vec![]);
    let result = Link::new(&link);
    let expected = Err(TaskErr::new(
        String::from("Malformed Task"),
        None,
        Some(link),
    ));
    assert_eq!(expected, result)
}

#[test]
fn link_test_missing_task_data() {
    let link = map(vec![(s("name"), s("Open wikipedia"))]);
    let result = Link::new(&link);
    let expected = Err(TaskErr::new(
        String::from("Malformed Task"),
        None,
        Some(link),
    ));
    assert_eq!(expected, result)
}

#[test]
fn test_missing_url() {
    let link = map(vec![
        (s("name"), s("Open wikipedia")),
        (s("link"), body(vec![(s("foo"), s(""))])),
    ]);
    let result = Link::new(&link);
    let expected = Err(TaskErr::new(
        String::from("url field not found"),
        Some(TaskTypes::LINK),
        Some(copy_map(&link)),
    ));
    assert_eq!(expected, result)
}

#[test]
fn test_invaild_link_task() {
    let link = map(vec![(s("name"), s("Open wikipedia")), (s("link"), s("foo"))]);
    let result = Link::new(&link);
    let expected = Err(TaskErr::new(
        String::from("Task data is Malformed"),
        None,
        Some(link),
    ));
    assert_eq!(expected, result)
}

#[test]
fn test_empty_url() {
    let link = map(vec![
        (s("name"), s("Open wikipedia")),
        (s("link"), body(vec![(s("url"), s(""))])),
    ]);
    let result = Link::new(&link);
    let expected = Err(TaskErr::new(
        String::from("Url is empty"),
        Some(TaskTypes::LINK),
        Some(copy_map(&link)),
    ));
    assert_eq!(expected, result)
}

#[test]
fn test_invalid_url() {
    let link = map(vec![
        (s("name"), s("Open wikipedia")),
        (s("link"), body(vec![(s("url"), Value::Number(2))])),
    ]);
    let result = Link::new(&link);
    let expected = Err(TaskErr::new(
        String::from("Url is not a string"),
        Some(TaskTypes::LINK),
        Some(copy_map(&link)),
    ));
    assert_eq!(expected, result)
}

#[test]
fn link_test_empty_name() {
    let link = map(vec![
        (s("name"), s("")),
        (s("link"), body(vec![(s("url"), s("https://wikipedia.org"))])),
    ]);

    let result = Link::new(&link);
    let expected = Err(TaskErr::new(
        String::from("Task name can`t be empty"),
        None,
        Some(link),
    ));
    assert_eq!(expected, result)
}

#[test]
fn link_test_task() {
    let link = map(vec![
        (s("name"), s("Open wikipedia")),
        (s("link"), body(vec![(s("url"), s("https://wikipedia.org"))])),
    ]);
    let result = Link::new(&link);
    let expected = Ok(Link {
        _task_types: TaskTypes::LINK,
        name: "Open wikipedia".to_owned(),
        url: "https://wikipedia.org".to_owned(),
    });
    assert_eq!(expected, result)
}
