use ls_oxide::structs::task_err::TaskErr;
use ls_oxide::tasks::cookie::Cookie;
use ls_oxide::tasks::TaskTypes;
use ls_oxide::value::{copy_map, Value, ValueMap};

fn s(text: &str) -> Value {
    Value::Str(text.to_string())
}

fn map(entries: Vec<(Value, Value)>) -> ValueMap {
    ValueMap { entries }
}

fn body(entries: Vec<(Value, Value)>) -> Value {
    Value::Mapping(map(entries))
}

#[test]
fn cookie_test_empty_task() {
    let cookie = map(vec![]);
    let result = Cookie::new(&cookie);
    let expected = Err(TaskErr::new(
        String::from("Malformed Task"),
        None,
        Some(cookie),
    ));
    assert_eq!(expected, result)
}

#[test]
fn cookie_test_missing_task_data() {
    let cookie = map(vec![(s("name"), s("Add cookie"))]);
    let result = Cookie::new(&cookie);
    let expected = Err(TaskErr::new(
        String::from("Malformed Task"),
        Some(TaskTypes::COOKIE),
        Some(copy_map(&cookie)),
    ));
    assert_eq!(expected, result)
}

#[test]
fn test_missing_task_key() {
    let cookie = map(vec![
        (s("name"), s("Add cookie")),
        (s("cookie"), body(vec![(s("value"), s("fuu"))])),
    ]);
    let result = Cookie::new(&cookie);
    let expected = Err(TaskErr::new(
        String::from("cookie_key field not found"),
        Some(TaskTypes::COOKIE),
        Some(copy_map(&cookie)),
    ));
    assert_eq!(expected, result)
}

#[test]
fn test_missing_task_value() {
    let cookie = map(vec![
        (s("name"), s("Add cookie")),
        (s("cookie"), body(vec![(s("cookie_key"), s("foo"))])),
    ]);
    let result = Cookie::new(&cookie);
    let expected = Err(TaskErr::new(
        String::from("cookie_value field not found"),
        Some(TaskTypes::COOKIE),
        Some(copy_map(&cookie)),
    ));
    assert_eq!(expected, result)
}

#[test]
fn cookie_test_task_success() {
    let cookie = map(vec![
        (s("name"), s("Add cookie")),
        (
            s("cookie"),
            body(vec![
                (s("cookie_key"), s("foo")),
                (s("cookie_value"), s("bar")),
                (s("path"), s("bar/bar")),
                (s("domain"), s("boo.bar")),
            ]),
        ),
    ]);
    let result = Cookie::new(&cookie);
    let expected = Ok(Cookie {
        _task_types: TaskTypes::COOKIE,
        name: "Add cookie".to_owned(),
        cookie_key: "foo".to_owned(),
        cookie_value: "bar".to_owned(),
        domain: "boo.bar".to_owned(),
        path: "bar/bar".to_owned(),
    });
    assert_eq!(expected, result)
}
