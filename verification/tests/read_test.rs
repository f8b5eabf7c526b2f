use ls_oxide::element::{Element, ElementType};
use ls_oxide::tasks::read::{Fields, Property, Read};
use ls_oxide::tasks::TaskTypes;
use ls_oxide::value::{Value, ValueMap};

fn s(text: &str) -> Value {
    Value::Str(text.to_string())
}

fn map(entries: Vec<(Value, Value)>) -> ValueMap {
    ValueMap { entries }
}

fn body(entries: Vec<(Value, Value)>) -> Value {
    Value::Mapping(map(entries))
}

#[test]
fn read_test_task() {
    let read = map(vec![
        (s("name"), s("read data")),
        (
            s("read"),
            body(vec![
                (s("element"), body(vec![(s("id"), s("search-form"))])),
                (
                    s("fields"),
                    Value::Sequence(vec![
                        body(vec![
                            (s("element"), body(vec![(s("id"), s("foo"))])),
                            (s("key"), s("bar")),
                            (s("property"), s("text")),
                        ]),
                        body(vec![
                            (s("element"), body(vec![(s("id"), s("bob"))])),
                            (s("key"), s("foo")),
                            (s("property"), s("text")),
                        ]),
                    ]),
                ),
            ]),
        ),
    ]);

    let fields = vec![
        Fields {
            element: Element {
                element_type: ElementType::ID,
                value: "foo".to_string(),
            },
            key: "bar".to_string(),
            property: Property::TEXT,
        },
        Fields {
            element: Element {
                element_type: ElementType::ID,
                value: "bob".to_string(),
            },
            key: "foo".to_string(),
            property: Property::TEXT,
        },
    ];

    let expected = Ok(Read {
        _task_types: TaskTypes::READ,
        name: "read data".to_owned(),
        element: Element {
            element_type: ElementType::ID,
            value: "search-form".to_owned(),
        },
        fields,
    });

    assert_eq!(expected, Read::new(&read))
}
