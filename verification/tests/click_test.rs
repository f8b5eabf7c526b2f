use ls_oxide::element::{Element, ElementType};
use ls_oxide::structs::task_err::TaskErr;
use ls_oxide::tasks::click::Click;
use ls_oxide::tasks::TaskTypes;
use ls_oxide::value::{copy_map, Value, ValueMap};

fn s(text: &str) -> Value {
    Value::Str(text.to_string())
}

fn map(entries: Vec<(Value, Value)>) -> ValueMap {
    ValueMap { entries }
}

fn body(entries: Vec<(Value, Value)>) -> Value {
    Value::Mapping(map(entries))
}

#[test]
fn click_test_empty_task() {
    let click_map_empty = map(vec![]);
    let result = Click::new(&click_map_empty);
    let expected = Err(TaskErr::new(
        String::from("Malformed Task"),
        None,
        Some(click_map_empty),
    ));
    assert_eq!(expected, result)
}

#[test]
fn click_test_invalid_task_data() {
    let click = map(vec![(s("name"), s("Click search button")), (s("click"), s("2"))]);
    let result = Click::new(&click);
    let expected = Err(TaskErr::new(
        String::from("Task data is Malformed"),
        None,
        Some(click),
    ));
    assert_eq!(expected, result)
}

#[test]
fn click_test_missing_task_data() {
    let click = map(vec![(s("name"), s("Click search button"))]);
    let result = Click::new(&click);
    let expected = Err(TaskErr::new(
        String::from("Malformed Task"),
        None,
        Some(click),
    ));
    assert_eq!(expected, result)
}

#[test]
fn click_test_empty_name() {
    let click = map(vec![
        (s("name"), s("")),
        (
            s("click"),
            body(vec![(
                s("element"),
                body(vec![(s("xPath"), s("//*[@id=\"search-form\"]/fieldset/button"))]),
            )]),
        ),
    ]);

    let result = Click::new(&click);
    let expected = Err(TaskErr::new(
        String::from("Task name can`t be empty"),
        None,
        Some(click),
    ));
    assert_eq!(expected, result)
}

#[test]
fn click_test_invalid_name() {
    let click = map(vec![
        (s("name"), Value::Number(2)),
        (
            s("click"),
            body(vec![(
                s("element"),
                body(vec![(s("xPath"), s("//*[@id=\"search-form\"]/fieldset/button"))]),
            )]),
        ),
    ]);

    let result = Click::new(&click);

    let expected = Err(TaskErr::new(
        String::from("Task name is not a string"),
        None,
        Some(click),
    ));
    assert_eq!(expected, result)
}

#[test]
fn click_test_invalid_element() {
    let click = map(vec![
        (s("name"), s("Click search button")),
        (
            s("click"),
            body(vec![(
                s("element"),
                body(vec![(s("foo"), s("//*[@id=\"search-form\"]/fieldset/button"))]),
            )]),
        ),
    ]);

    let result = Click::new(&click);
    let expected = Err(TaskErr::new(
        String::from("Unknow Element Type: \"foo\""),
        Some(TaskTypes::CLICK),
        Some(copy_map(&click)),
    ));
    assert_eq!(expected, result)
}

#[test]
fn click_test_invalid_element_value() {
    let click = map(vec![
        (s("name"), s("Click search button")),
        (
            s("click"),
            body(vec![(s("element"), body(vec![(s("xPath"), Value::Number(2))]))]),
        ),
    ]);
    let result = Click::new(&click);

    let expected = Err(TaskErr::new(
        String::from("Element: Value is not a string"),
        Some(TaskTypes::CLICK),
        Some(copy_map(&click)),
    ));

    assert_eq!(expected, result)
}

#[test]
fn click_test_missing_element() {
    let click = map(vec![
        (s("name"), s("Click search button")),
        (s("click"), body(vec![(s("foo"), s("bar"))])),
    ]);
    let result = Click::new(&click);
    let expected = Err(TaskErr::new(
        String::from("No element found"),
        Some(TaskTypes::CLICK),
        Some(copy_map(&click)),
    ));
    assert_eq!(expected, result)
}

#[test]
fn click_test_task_success() {
    let click = map(vec![
        (s("name"), s("Click search button")),
        (
            s("click"),
            body(vec![(
                s("element"),
                body(vec![(s("xPath"), s("//*[@id=\"search-form\"]/fieldset/button"))]),
            )]),
        ),
    ]);
    let result = Click::new(&click);
    let expected = Ok(Click {
        _task_types: TaskTypes::CLICK,
        name: "Click search button".to_owned(),
        element: Element {
            element_type: ElementType::XPATH,
            value: "//*[@id=\"search-form\"]/fieldset/button".to_owned(),
        },
    });

    assert_eq!(expected, result)
}

#[test]
fn click_test_task() {
    let click = map(vec![
        (s("name"), s("Click search button")),
        (
            s("click"),
            body(vec![(s("element"), body(vec![(s("id"), s("search-form"))]))]),
        ),
    ]);
    let result = Click::new(&click);
    let expected = Ok(Click {
        _task_types: TaskTypes::CLICK,
        name: "Click search button".to_owned(),
        element: Element {
            element_type: ElementType::ID,
            value: "search-form".to_owned(),
        },
    });
    assert_eq!(expected, result)
}
