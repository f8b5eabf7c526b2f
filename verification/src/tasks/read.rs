//! The Read task: names elements whose properties are to be read out.

use vstd::prelude::*;
use vstd::string::*;
use crate::element::{spec_element, Element, ElementType};
use crate::strutil::str_eq;
use crate::structs::task_err::TaskErr;
use crate::tasks::{get_task_name, get_task, spec_get_task, spec_task_name, TaskTypes};
use crate::value::{copy_map, map_veq, Value, ValueMap};

verus! {

/// Which property of an element a field reads.
#[derive(Debug, Clone, Copy, PartialEq, Eq, Structural)]
pub enum Property {
    TEXT,
    INNERHTML,
    VALUE,
}

/// Which property a key names; any other key is refused with a message
/// naming it.
pub open spec fn spec_property(s: Seq<char>) -> Result<Property, Seq<char>> {
    if s == "text"@ {
        Ok(Property::TEXT)
    } else if s == "innerHtml"@ {
        Ok(Property::INNERHTML)
    } else if s == "value"@ {
        Ok(Property::VALUE)
    } else {
        Err("Unknow Element Type: \""@ + s + "\""@)
    }
}

impl Property {
    /// Parses a property name.
    pub fn parse(input: &str) -> (r: Result<Property, String>)
        ensures
            match r {
                Ok(t) => spec_property(input@) == Ok::<Property, Seq<char>>(t),
                Err(m) => spec_property(input@) matches Err(e) && m@ == e,
            },
    {
        if str_eq(input, "text") {
            Ok(Property::TEXT)
        } else if str_eq(input, "innerHtml") {
            Ok(Property::INNERHTML)
        } else if str_eq(input, "value") {
            Ok(Property::VALUE)
        } else {
            let mut m = String::new();
            m.append("Unknow Element Type: \"");
            m.append(input);
            m.append("\"");
            proof {
                assert(m@ =~= "Unknow Element Type: \""@ + input@ + "\""@);
            }
            Err(m)
        }
    }
}

/// One field to read: the element, the key the value is stored under, and
/// the property to read.
#[derive(Debug, Clone, PartialEq, Eq)]
pub struct Fields {
    pub element: Element,
    pub key: String,
    pub property: Property,
}

/// What building one read field from its mapping yields.
pub open spec fn spec_field(m: ValueMap) -> Result<
    (ElementType, Seq<char>, Seq<char>, Property),
    Seq<char>,
> {
    match spec_element(m) {
        Err(e) => Err(e),
        Ok(el) => match m.spec_get("key"@) {
            Option::None => Err("Key not found"@),
            Option::Some(kv) => match kv {
                Value::Str(k) => match m.spec_get("property"@) {
                    Option::None => Err("property not found"@),
                    Option::Some(pv) => match pv {
                        Value::Str(p) => match spec_property(p@) {
                            Err(e) => Err(e),
                            Ok(prop) => Ok((el.0, el.1, k@, prop)),
                        },
                        _ => Err("property is not a sting"@),
                    },
                },
                _ => Err("Key is not a sting"@),
            },
        },
    }
}

impl Fields {
    /// Builds one read field from its mapping.
    pub fn from(mapping: &ValueMap) -> (r: Result<Fields, String>)
        ensures
            match r {
                Ok(f) => spec_field(*mapping) matches Ok(p) && f.element.element_type == p.0
                    && f.element.value@ == p.1 && f.key@ == p.2 && f.property == p.3,
                Err(m) => spec_field(*mapping) matches Err(e) && m@ == e,
            },
    {
        let element = match Element::new(mapping) {
            Ok(el) => el,
            Err(m) => {
                return Err(m);
            },
        };
        let key_value = match mapping.get("key") {
            Some(v) => v,
            None => {
                return Err(String::from_str("Key not found"));
            },
        };
        let key = match key_value.as_str() {
            Some(k) => k.clone(),
            None => {
                return Err(String::from_str("Key is not a sting"));
            },
        };
        let property_value = match mapping.get("property") {
            Some(v) => v,
            None => {
                return Err(String::from_str("property not found"));
            },
        };
        let property_text = match property_value.as_str() {
            Some(p) => p,
            None => {
                return Err(String::from_str("property is not a sting"));
            },
        };
        let property = match Property::parse(property_text.as_str()) {
            Ok(p) => p,
            Err(m) => {
                return Err(m);
            },
        };
        Ok(Fields { element, key, property })
    }
}

/// What building the field list of a read body yields.
pub open spec fn spec_read_fields(items: Seq<Value>) -> Result<
    Seq<(ElementType, Seq<char>, Seq<char>, Property)>,
    Seq<char>,
>
    decreases items.len(),
{
    if items.len() == 0 {
        Ok(Seq::empty())
    } else {
        match items[0] {
            Value::Mapping(m) => match spec_field(m) {
                Err(e) => Err(e),
                Ok(f) => match spec_read_fields(items.drop_first()) {
                    Err(e) => Err(e),
                    Ok(rest) => Ok(seq![f] + rest),
                },
            },
            _ => Err("Fields propery not found"@),
        }
    }
}

proof fn lemma_read_fields_split(items: Seq<Value>, i: int)
    requires
        0 <= i <= items.len(),
        forall|j: int|
            0 <= j < i ==> items[j] is Mapping && spec_field(items[j]->Mapping_0) is Ok,
    ensures
        spec_read_fields(items) == match spec_read_fields(items.skip(i)) {
            Ok(rest) => Ok::<_, Seq<char>>(
                items.take(i).map_values(|v: Value| spec_field(v->Mapping_0)->Ok_0) + rest,
            ),
            Err(e) => Err(e),
        },
    decreases i,
{
    if i == 0 {
        assert(items.skip(0) =~= items);
        match spec_read_fields(items) {
            Ok(rest) => {
                assert(items.take(0).map_values(|v: Value| spec_field(v->Mapping_0)->Ok_0) + rest
                    =~= rest);
            },
            Err(_) => {},
        }
    } else {
        lemma_read_fields_split(items, i - 1);
        let t = items.skip(i - 1);
        assert(t[0] == items[i - 1]);
        assert(t.drop_first() =~= items.skip(i));
        match spec_read_fields(items.skip(i)) {
            Ok(rest) => {
                assert(items.take(i - 1).map_values(|v: Value| spec_field(v->Mapping_0)->Ok_0)
                    + (seq![spec_field(items[i - 1]->Mapping_0)->Ok_0] + rest) =~= items.take(
                    i,
                ).map_values(|v: Value| spec_field(v->Mapping_0)->Ok_0) + rest);
            },
            Err(_) => {},
        }
    }
}

/// What reading the `fields` list of a read body yields.
pub open spec fn spec_properties(body: ValueMap) -> Result<
    Seq<(ElementType, Seq<char>, Seq<char>, Property)>,
    Seq<char>,
> {
    match body.spec_get("fields"@) {
        Option::None => Err("Fields propery not found"@),
        Option::Some(v) => match v {
            Value::Sequence(items) => spec_read_fields(items@),
            _ => Err("Fields propery not found"@),
        },
    }
}

fn get_properties(body: &ValueMap) -> (r: Result<Vec<Fields>, String>)
    ensures
        match r {
            Ok(fs) => spec_properties(*body) matches Ok(ps) && fs@.len() == ps.len() && forall|
                i: int,
            |
                0 <= i < ps.len() ==> (#[trigger] fs@[i]).element.element_type == ps[i].0
                    && fs@[i].element.value@ == ps[i].1 && fs@[i].key@ == ps[i].2
                    && fs@[i].property == ps[i].3,
            Err(m) => spec_properties(*body) matches Err(e) && m@ == e,
        },
{
    let items = match body.get("fields") {
        Some(v) => match v.as_sequence() {
            Some(items) => items,
            None => {
                return Err(String::from_str("Fields propery not found"));
            },
        },
        None => {
            return Err(String::from_str("Fields propery not found"));
        },
    };
    let n = items.len();
    let mut out: Vec<Fields> = Vec::new();
    let mut i: usize = 0;
    while i < n
        invariant
            n == items@.len(),
            i <= n,
            out@.len() == i,
            spec_properties(*body) == spec_read_fields(items@),
            forall|j: int|
                0 <= j < i ==> items@[j] is Mapping && spec_field(items@[j]->Mapping_0) is Ok,
            forall|j: int|
                0 <= j < i ==> {
                    let p = spec_field(items@[j]->Mapping_0)->Ok_0;
                    (#[trigger] out@[j]).element.element_type == p.0 && out@[j].element.value@
                        == p.1 && out@[j].key@ == p.2 && out@[j].property == p.3
                },
        decreases n - i,
    {
        let mapping = match items[i].as_mapping() {
            Some(m) => m,
            None => {
                proof {
                    lemma_read_fields_split(items@, i as int);
                }
                return Err(String::from_str("Fields propery not found"));
            },
        };
        let field = match Fields::from(mapping) {
            Ok(f) => f,
            Err(m) => {
                proof {
                    lemma_read_fields_split(items@, i as int);
                }
                return Err(m);
            },
        };
        out.push(field);
        i = i + 1;
    }
    proof {
        lemma_read_fields_split(items@, n as int);
        assert(items@.skip(n as int) =~= Seq::<Value>::empty());
    }
    Ok(out)
}

/// A task that reads properties of elements out of the page.
#[derive(Debug, Clone, PartialEq, Eq)]
pub struct Read {
    pub _task_types: TaskTypes,
    pub name: String,
    pub element: Element,
    pub fields: Vec<Fields>,
}

/// What building a Read task yields: name, locator and fields, or the
/// error.
pub open spec fn spec_read(task: ValueMap) -> Result<
    (Seq<char>, (ElementType, Seq<char>), Seq<(ElementType, Seq<char>, Seq<char>, Property)>),
    (Seq<char>, Option<TaskTypes>),
> {
    match spec_task_name(task) {
        Err(m) => Err((m, None)),
        Ok(name) => match spec_get_task(task, "read"@) {
            Err(m) => Err((m, None)),
            Ok(body) => match spec_element(body) {
                Err(m) => Err((m, Some(TaskTypes::READ))),
                Ok(el) => match spec_properties(body) {
                    Err(m) => Err((m, Some(TaskTypes::READ))),
                    Ok(fs) => Ok((name, el, fs)),
                },
            },
        },
    }
}

impl Read {
    /// Builds a Read task from its declaration.
    pub fn new(task: &ValueMap) -> (r: Result<Read, TaskErr>)
        ensures
            match r {
                Ok(t) => {
                    &&& spec_read(*task) matches Ok(p) && t.name@ == p.0
                        && t.element.element_type == p.1.0 && t.element.value@ == p.1.1
                        && t.fields@.len() == p.2.len() && forall|i: int|
                        0 <= i < p.2.len() ==> (#[trigger] t.fields@[i]).element.element_type
                            == p.2[i].0 && t.fields@[i].element.value@ == p.2[i].1
                            && t.fields@[i].key@ == p.2[i].2 && t.fields@[i].property == p.2[i].3
                    &&& t._task_types == TaskTypes::READ
                },
                Err(e) => {
                    &&& spec_read(*task) matches Err(p) && e.message@ == p.0 && e.task_type == p.1
                    &&& e.task matches Some(t) && map_veq(t, *task)
                },
            },
    {
        let name = match get_task_name(task) {
            Ok(n) => n,
            Err(e) => {
                return Err(e);
            },
        };
        let body = match get_task(task, "read") {
            Ok(b) => b,
            Err(e) => {
                return Err(e);
            },
        };
        let element = match Element::new(body) {
            Ok(el) => el,
            Err(m) => {
                return Err(TaskErr::new(m, Some(TaskTypes::READ), Some(copy_map(task))));
            },
        };
        let fields = match get_properties(body) {
            Ok(fs) => fs,
            Err(m) => {
                return Err(TaskErr::new(m, Some(TaskTypes::READ), Some(copy_map(task))));
            },
        };
        Ok(Read { _task_types: TaskTypes::READ, name, element, fields })
    }
}

} // verus!
