use ls_oxide::element::{Element, ElementType};
use ls_oxide::structs::task_err::TaskErr;
use ls_oxide::tasks::validate::{Validate, ValidateTypes};
use ls_oxide::tasks::TaskTypes;
use ls_oxide::value::{copy_map, Value, ValueMap};
use ls_oxide::variables::StrMap;

fn s(text: &str) -> Value {
    Value::Str(text.to_string())
}

fn map(entries: Vec<(Value, Value)>) -> ValueMap {
    ValueMap { entries }
}

fn body(entries: Vec<(Value, Value)>) -> Value {
    Value::Mapping(map(entries))
}

fn xpath_element() -> (Value, Value) {
    (
        s("element"),
        body(vec![(s("xPath"), s("//*[@id=\"search-form\"]/fieldset/button"))]),
    )
}

fn expected_element() -> Element {
    Element {
        element_type: ElementType::XPATH,
        value: "//*[@id=\"search-form\"]/fieldset/button".to_owned(),
    }
}

fn css_clause() -> (Value, Value) {
    (
        s("css"),
        body(vec![
            (s("color"), s("rgba(0, 0, 0, 0)")),
            (s("text-indent"), s("-10000px")),
        ]),
    )
}

fn expected_css() -> ValidateTypes {
    let mut css_map = StrMap::new();
    css_map.add_variable("color", "rgba(0, 0, 0, 0)");
    css_map.add_variable("text-indent", "-10000px");
    ValidateTypes::Css(css_map)
}

fn property_clause() -> (Value, Value) {
    (s("property"), body(vec![(s("name"), s("foo"))]))
}

fn expected_property() -> ValidateTypes {
    let mut property_map = StrMap::new();
    property_map.add_variable("name", "foo");
    ValidateTypes::Property(property_map)
}

#[test]
fn validate_test_empty_task() {
    let validate = map(vec![]);
    let result = Validate::new(&validate);
    let expected = Err(TaskErr::new(
        String::from("Malformed Task"),
        None,
        Some(validate),
    ));
    assert_eq!(expected, result)
}

#[test]
fn test_task_expect() {
    let data = map(vec![
        (s("name"), s("validate")),
        (
            s("validate"),
            body(vec![
                xpath_element(),
                (
                    s("expect"),
                    body(vec![
                        css_clause(),
                        property_clause(),
                        (s("text"), s("Text")),
                        (s("innerHtml"), s("InnerHtml")),
                    ]),
                ),
            ]),
        ),
    ]);

    let expect_vec = vec![
        ValidateTypes::Text("Text".to_string()),
        ValidateTypes::InnerHtml("InnerHtml".to_string()),
        expected_css(),
        expected_property(),
    ];

    let result = Validate::new(&data);
    let expected = Ok(Validate {
        _task_types: TaskTypes::VALIDATE,
        name: "validate".to_string(),
        element: expected_element(),
        expects: expect_vec,
    });
    assert_eq!(expected, result)
}

#[test]
fn test_task_expect_css_property() {
    let data = map(vec![
        (s("name"), s("validate")),
        (
            s("validate"),
            body(vec![
                xpath_element(),
                (
                    s("expect"),
                    body(vec![
                        css_clause(),
                        property_clause(),
                        (s("text"), s("")),
                        (s("innerHtml"), s("")),
                    ]),
                ),
            ]),
        ),
    ]);

    let expect_vec = vec![expected_css(), expected_property()];

    let result = Validate::new(&data);
    let expected = Ok(Validate {
        _task_types: TaskTypes::VALIDATE,
        name: "validate".to_string(),
        element: expected_element(),
        expects: expect_vec,
    });
    assert_eq!(expected, result)
}

#[test]
fn test_task_expect_property() {
    let data = map(vec![
        (s("name"), s("validate")),
        (
            s("validate"),
            body(vec![
                xpath_element(),
                (
                    s("expect"),
                    body(vec![
                        property_clause(),
                        (s("text"), s("")),
                        (s("innerHtml"), s("")),
                    ]),
                ),
            ]),
        ),
    ]);

    let expect_vec = vec![expected_property()];

    let result = Validate::new(&data);
    let expected = Ok(Validate {
        _task_types: TaskTypes::VALIDATE,
        name: "validate".to_string(),
        element: expected_element(),
        expects: expect_vec,
    });
    assert_eq!(expected, result)
}

#[test]
fn test_task_expect_css() {
    let data = map(vec![
        (s("name"), s("validate")),
        (
            s("validate"),
            body(vec![
                xpath_element(),
                (
                    s("expect"),
                    body(vec![css_clause(), (s("text"), s("")), (s("innerHtml"), s(""))]),
                ),
            ]),
        ),
    ]);

    let expect_vec = vec![expected_css()];

    let result = Validate::new(&data);
    let expected = Ok(Validate {
        _task_types: TaskTypes::VALIDATE,
        name: "validate".to_string(),
        element: expected_element(),
        expects: expect_vec,
    });
    assert_eq!(expected, result)
}

#[test]
fn test_task_expect_css_empty_property() {
    let data = map(vec![
        (s("name"), s("validate")),
        (
            s("validate"),
            body(vec![
                xpath_element(),
                (
                    s("expect"),
                    body(vec![
                        css_clause(),
                        (s("property"), body(vec![])),
                        (s("text"), s("")),
                        (s("innerHtml"), s("")),
                    ]),
                ),
            ]),
        ),
    ]);

    let expect_vec = vec![expected_css()];

    let result = Validate::new(&data);
    let expected = Ok(Validate {
        _task_types: TaskTypes::VALIDATE,
        name: "validate".to_string(),
        element: expected_element(),
        expects: expect_vec,
    });
    assert_eq!(expected, result)
}

#[test]
fn test_task_expect_property_empty_css() {
    let data = map(vec![
        (s("name"), s("validate")),
        (
            s("validate"),
            body(vec![
                xpath_element(),
                (
                    s("expect"),
                    body(vec![
                        property_clause(),
                        (s("css"), body(vec![])),
                        (s("text"), s("")),
                        (s("innerHtml"), s("")),
                    ]),
                ),
            ]),
        ),
    ]);

    let expect_vec = vec![expected_property()];

    let result = Validate::new(&data);
    let expected = Ok(Validate {
        _task_types: TaskTypes::VALIDATE,
        name: "validate".to_string(),
        element: expected_element(),
        expects: expect_vec,
    });
    assert_eq!(expected, result)
}

#[test]
fn test_task_expect_property_not_map() {
    let data = map(vec![
        (s("name"), s("validate")),
        (
            s("validate"),
            body(vec![
                xpath_element(),
                (s("expect"), body(vec![(s("property"), Value::Number(2))])),
            ]),
        ),
    ]);

    let result = Validate::new(&data);
    let expected = Err(TaskErr::new(
        String::from("property value is not a map"),
        Some(TaskTypes::VALIDATE),
        Some(copy_map(&data)),
    ));
    assert_eq!(expected, result)
}

#[test]
fn test_task_expect_css_not_map() {
    let data = map(vec![
        (s("name"), s("validate")),
        (
            s("validate"),
            body(vec![
                xpath_element(),
                (s("expect"), body(vec![(s("css"), Value::Number(2))])),
            ]),
        ),
    ]);

    let result = Validate::new(&data);
    let expected = Err(TaskErr::new(
        String::from("css value is not a map"),
        Some(TaskTypes::VALIDATE),
        Some(copy_map(&data)),
    ));
    assert_eq!(expected, result)
}

#[test]
fn test_task_expect_css_key_not_str() {
    let data = map(vec![
        (s("name"), s("validate")),
        (
            s("validate"),
            body(vec![
                xpath_element(),
                (
                    s("expect"),
                    body(vec![(s("css"), body(vec![(Value::Number(2), s("foo"))]))]),
                ),
            ]),
        ),
    ]);

    let result = Validate::new(&data);
    let expected = Err(TaskErr::new(
        String::from("Key: Number(2) is not a string"),
        Some(TaskTypes::VALIDATE),
        Some(copy_map(&data)),
    ));
    assert_eq!(expected, result)
}

#[test]
fn test_task_expect_css_value_not_str() {
    let data = map(vec![
        (s("name"), s("validate")),
        (
            s("validate"),
            body(vec![
                xpath_element(),
                (
                    s("expect"),
                    body(vec![(s("css"), body(vec![(s("foo"), Value::Number(2))]))]),
                ),
            ]),
        ),
    ]);

    let result = Validate::new(&data);
    let expected = Err(TaskErr::new(
        String::from("Value: Number(2) is not a string"),
        Some(TaskTypes::VALIDATE),
        Some(copy_map(&data)),
    ));
    assert_eq!(expected, result)
}

#[test]
fn test_task_expect_text_not_str() {
    let data = map(vec![
        (s("name"), s("validate")),
        (
            s("validate"),
            body(vec![
                xpath_element(),
                (s("expect"), body(vec![(s("text"), Value::Number(2))])),
            ]),
        ),
    ]);

    let result = Validate::new(&data);
    let expected = Err(TaskErr::new(
        String::from("text - value is not a string"),
        Some(TaskTypes::VALIDATE),
        Some(copy_map(&data)),
    ));
    assert_eq!(expected, result)
}

#[test]
fn test_task_expect_inner_html_not_str() {
    let data = map(vec![
        (s("name"), s("validate")),
        (
            s("validate"),
            body(vec![
                xpath_element(),
                (s("expect"), body(vec![(s("innerHtml"), Value::Number(2))])),
            ]),
        ),
    ]);

    let result = Validate::new(&data);
    let expected = Err(TaskErr::new(
        String::from("innerHtml - value is not a string"),
        Some(TaskTypes::VALIDATE),
        Some(copy_map(&data)),
    ));
    assert_eq!(expected, result)
}
