use ls_oxide::cli_argument::parse_key_val;
use ls_oxide::variables::{resolve_variables, StrMap};

fn vars_of(pairs: &[(&str, &str)]) -> StrMap {
    let mut vars = StrMap::new();
    for (name, value) in pairs {
        vars.add_variable(name, value);
    }
    vars
}

#[test]
fn test_resolve_variables() {
    let text: &str = "Hi, {name} {surname} \nHow are you {name}";

    let vars = vars_of(&[("name", "Foo"), ("surname", "Bar")]);

    let result = resolve_variables(text, &vars);
    let expected = "Hi, Foo Bar \nHow are you Foo".to_string();

    assert_eq!(expected, result)
}

#[test]
fn test_resolve_variables_no_vars() {
    let text: &str = "Hi, {name} {surname} \nHow are you {name}";

    let result = resolve_variables(text, &StrMap::new());

    assert_eq!(text, result)
}

#[test]
fn test_resolve_variables_missing_var() {
    let text: &str = "Hi, {name} {surname} \nHow are you {name}";

    let vars = vars_of(&[("name", "Foo")]);

    let result = resolve_variables(text, &vars);
    let expected = "Hi, Foo {surname} \nHow are you Foo".to_string();

    assert_eq!(expected, result)
}

#[test]
fn test_resolve_variables_with_underscore() {
    let text: &str = "Hi, {first_name}";

    let vars = vars_of(&[("first_name", "Foo")]);

    let result = resolve_variables(text, &vars);
    let expected = "Hi, Foo".to_string();

    assert_eq!(expected, result)
}

#[test]
fn test_resolve_variables_with_default() {
    let text: &str = "Hi, {first_name|Foo}";

    let vars = StrMap::new();

    let result = resolve_variables(text, &vars);
    let expected = "Hi, Foo".to_string();

    assert_eq!(expected, result)
}

#[test]
fn test_resolve_variables_with_multiple_default() {
    let text: &str =
        "Hi, {first_name|Foo} {surname}\nHow are you {first_name|Foo}\nNo default {first_name}\n{age}";

    let vars = vars_of(&[("surname", "Bar")]);

    let result = resolve_variables(text, &vars);
    let expected = "Hi, Foo Bar\nHow are you Foo\nNo default {first_name}\n{age}".to_string();

    assert_eq!(expected, result)
}

#[test]
fn test_resolve_simple_and_default_forms() {
    let vars = vars_of(&[("x", "A")]);
    assert_eq!("A", resolve_variables("{x}", &vars));
    assert_eq!("D", resolve_variables("{x|D}", &StrMap::new()));
    assert_eq!("A", resolve_variables("{x|D}", &vars));
}

#[test]
fn test_resolve_leaves_plain_text() {
    let vars = vars_of(&[("x", "A")]);
    assert_eq!("plain text, no braces", resolve_variables("plain text, no braces", &vars));
    assert_eq!("half {open", resolve_variables("half {open", &vars));
    assert_eq!("{1digit}", resolve_variables("{1digit}", &vars));
}

#[test]
fn test_parse_key_val_splits_at_first_equals() {
    assert_eq!(
        Ok(("key".to_string(), "value".to_string())),
        parse_key_val("key=value")
    );
    assert_eq!(
        Ok(("a".to_string(), "b=c".to_string())),
        parse_key_val("a=b=c")
    );
}

#[test]
fn test_parse_key_val_without_equals() {
    assert_eq!(
        Err("invalid KEY=value: no `=` found in `novalue`".to_string()),
        parse_key_val("novalue")
    );
}

#[test]
fn test_variables_later_binding_overrides() {
    let mut vars = StrMap::new();
    vars.add_variable("name", "first");
    vars.add_variable("name", "second");
    assert_eq!("second", resolve_variables("{name}", &vars));
}
