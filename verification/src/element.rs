//! Locators: the way a task names the page element it acts on.

use vstd::prelude::*;
use vstd::string::*;
use crate::strutil::str_eq;
use crate::value::{Value, ValueMap};
use crate::variables::{resolve_spec, resolve_variables, StrMap};

verus! {

/// How an element is looked up on the page.
#[derive(Debug, Clone, Copy, PartialEq, Eq, Structural)]
pub enum ElementType {
    ID,
    XPATH,
    CLASSNAME,
}

/// A locator: a lookup kind and the text it matches.
#[derive(Debug, Clone, PartialEq, Eq)]
pub struct Element {
    pub element_type: ElementType,
    pub value: String,
}

/// Which locator kind a key names; any other key is refused with a message
/// naming it.
pub open spec fn spec_element_type(s: Seq<char>) -> Result<ElementType, Seq<char>> {
    if s == "id"@ {
        Ok(ElementType::ID)
    } else if s == "xPath"@ {
        Ok(ElementType::XPATH)
    } else if s == "className"@ {
        Ok(ElementType::CLASSNAME)
    } else {
        Err("Unknow Element Type: \""@ + s + "\""@)
    }
}

impl ElementType {
    /// Parses a locator kind from its key.
    pub fn parse(input: &str) -> (r: Result<ElementType, String>)
        ensures
            match r {
                Ok(t) => spec_element_type(input@) == Ok::<ElementType, Seq<char>>(t),
                Err(m) => spec_element_type(input@) matches Err(e) && m@ == e,
            },
    {
        if str_eq(input, "id") {
            Ok(ElementType::ID)
        } else if str_eq(input, "xPath") {
            Ok(ElementType::XPATH)
        } else if str_eq(input, "className") {
            Ok(ElementType::CLASSNAME)
        } else {
            let mut m = String::new();
            m.append("Unknow Element Type: \"");
            m.append(input);
            m.append("\"");
            proof {
                assert(m@ =~= "Unknow Element Type: \""@ + input@ + "\""@);
            }
            Err(m)
        }
    }

    /// The name of the kind, as error messages print it.
    pub fn kind_label(&self) -> (r: &'static str)
        ensures
            r@ == self.spec_kind_label(),
    {
        match self {
            ElementType::ID => "ID",
            ElementType::XPATH => "XPATH",
            ElementType::CLASSNAME => "CLASSNAME",
        }
    }

    pub open spec fn spec_kind_label(&self) -> Seq<char> {
        match self {
            ElementType::ID => "ID"@,
            ElementType::XPATH => "XPATH"@,
            ElementType::CLASSNAME => "CLASSNAME"@,
        }
    }
}

/// What building a locator from a task body yields: the kind and the value
/// text, or the message refusing the body.
pub open spec fn spec_element(task: ValueMap) -> Result<(ElementType, Seq<char>), Seq<char>> {
    match task.spec_get("element"@) {
        Option::None => Err("No element found"@),
        Option::Some(v) => match v {
            Value::Mapping(em) => {
                if em.entries@.len() == 1 {
                    let key = em.entries@[0].0;
                    let val = em.entries@[0].1;
                    match val {
                        Value::Str(vs) => {
                            if vs@.len() == 0 {
                                Err("Element: Value can`t be empty"@)
                            } else {
                                match key {
                                    Value::Str(ks) => {
                                        if ks@.len() == 0 {
                                            Err("Element: Key can`t be empty"@)
                                        } else {
                                            match spec_element_type(ks@) {
                                                Ok(t) => Ok((t, vs@)),
                                                Err(e) => Err(e),
                                            }
                                        }
                                    },
                                    _ => Err("Element: Key is not a string"@),
                                }
                            }
                        },
                        _ => Err("Element: Value is not a string"@),
                    }
                } else {
                    Err("Multiple elements are not supported"@)
                }
            },
            _ => Err("Invalid element structure"@),
        },
    }
}

impl Element {
    /// Builds the locator named by the `element` entry of a task body.
    pub fn new(task: &ValueMap) -> (r: Result<Element, String>)
        ensures
            match r {
                Ok(el) => spec_element(*task) matches Ok(p) && p.0 == el.element_type && p.1
                    == el.value@,
                Err(m) => spec_element(*task) matches Err(e) && m@ == e,
            },
    {
        let element_value = match task.get("element") {
            Some(v) => v,
            None => {
                return Err(String::from_str("No element found"));
            },
        };
        let element_map = match element_value.as_mapping() {
            Some(m) => m,
            None => {
                return Err(String::from_str("Invalid element structure"));
            },
        };
        if element_map.len() != 1 {
            return Err(String::from_str("Multiple elements are not supported"));
        }
        let entry_key = &element_map.entries[0].0;
        let entry_value = &element_map.entries[0].1;
        let value_text = match entry_value.as_str() {
            Some(s) => s,
            None => {
                return Err(String::from_str("Element: Value is not a string"));
            },
        };
        if value_text.as_str().is_empty() {
            return Err(String::from_str("Element: Value can`t be empty"));
        }
        let key_text = match entry_key.as_str() {
            Some(s) => s,
            None => {
                return Err(String::from_str("Element: Key is not a string"));
            },
        };
        if key_text.as_str().is_empty() {
            return Err(String::from_str("Element: Key can`t be empty"));
        }
        let element_type = match ElementType::parse(key_text.as_str()) {
            Ok(t) => t,
            Err(m) => {
                return Err(m);
            },
        };
        Ok(Element { element_type, value: value_text.clone() })
    }

    /// The locator text with its placeholders substituted.
    pub fn resolve_value(&self, vars: &StrMap) -> (r: String)
        ensures
            r@ == resolve_spec(self.value@, vars@),
    {
        resolve_variables(self.value.as_str(), vars)
    }
}

} // verus!
