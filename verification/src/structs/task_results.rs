//! A keyed form of task outcomes, convertible to and from validation
//! results.

use vstd::prelude::*;
use vstd::string::*;
use crate::strutil::str_eq;
use crate::variables::StrMap;

verus! {

/// Whether one validation held.
#[derive(Debug, Clone, Copy, PartialEq, Eq, Structural)]
pub enum ValidationResultType {
    SUCCESS,
    FAILED,
}

/// The lower-case name of an outcome, as it is stored in keyed results.
pub open spec fn spec_vrt_label(t: ValidationResultType) -> Seq<char> {
    match t {
        ValidationResultType::SUCCESS => "success"@,
        ValidationResultType::FAILED => "failed"@,
    }
}

/// Which outcome a lower-case name denotes.
pub open spec fn spec_vrt_parse(s: Seq<char>) -> Result<ValidationResultType, Seq<char>> {
    if s == "success"@ {
        Ok(ValidationResultType::SUCCESS)
    } else if s == "failed"@ {
        Ok(ValidationResultType::FAILED)
    } else {
        Err("Unknow Validation Result Type: \""@ + s + "\""@)
    }
}

impl ValidationResultType {
    pub fn label(&self) -> (r: &'static str)
        ensures
            r@ == spec_vrt_label(*self),
    {
        match self {
            ValidationResultType::SUCCESS => "success",
            ValidationResultType::FAILED => "failed",
        }
    }

    pub fn parse(input: &str) -> (r: Result<ValidationResultType, String>)
        ensures
            match r {
                Ok(t) => spec_vrt_parse(input@) == Ok::<ValidationResultType, Seq<char>>(t),
                Err(m) => spec_vrt_parse(input@) matches Err(e) && m@ == e,
            },
    {
        if str_eq(input, "success") {
            Ok(ValidationResultType::SUCCESS)
        } else if str_eq(input, "failed") {
            Ok(ValidationResultType::FAILED)
        } else {
            let mut m = String::new();
            m.append("Unknow Validation Result Type: \"");
            m.append(input);
            m.append("\"");
            proof {
                assert(m@ =~= "Unknow Validation Result Type: \""@ + input@ + "\""@);
            }
            Err(m)
        }
    }
}

/// What kind of record a keyed result holds.
#[derive(Debug, Clone, Copy, PartialEq, Eq, Structural)]
pub enum ResultsType {
    TASk,
    VALIDATE,
    READ,
}

impl ResultsType {
    /// The lower-case name of the record kind.
    pub fn label(&self) -> (r: &'static str)
        ensures
            r@ == match self {
                ResultsType::TASk => "task"@,
                ResultsType::VALIDATE => "validate"@,
                ResultsType::READ => "read"@,
            },
    {
        match self {
            ResultsType::TASk => "task",
            ResultsType::VALIDATE => "validate",
            ResultsType::READ => "read",
        }
    }
}

/// A record of one outcome as named fields.
#[derive(Debug, PartialEq, Eq)]
pub struct TaskResults {
    pub result_type: ResultsType,
    pub results: StrMap,
}

/// One validation outcome with its message.
#[derive(Debug, Clone, PartialEq, Eq)]
pub struct ValidationResult {
    pub validation: ValidationResultType,
    pub message: String,
}

/// The value behind an optional lookup whose presence the caller has
/// already established.
pub fn to_str<'a>(value: Option<&'a String>) -> (r: &'a String)
    requires
        value is Some,
    ensures
        value == Some(r),
{
    match value {
        Some(v) => v,
        None => unreached(),
    }
}

impl TaskResults {
    /// Turns a validation outcome into a keyed record with a `validation`
    /// and a `message` field.
    pub fn from_validation_result(validation_result: ValidationResult) -> (r: TaskResults)
        ensures
            r.result_type == ResultsType::VALIDATE,
            r.results@ == Map::<Seq<char>, Seq<char>>::empty().insert(
                "validation"@,
                spec_vrt_label(validation_result.validation),
            ).insert("message"@, validation_result.message@),
    {
        let mut results = StrMap::new();
        results.add_variable("validation", validation_result.validation.label());
        results.add_variable("message", validation_result.message.as_str());
        TaskResults { result_type: ResultsType::VALIDATE, results }
    }
}

impl ValidationResult {
    /// Reads a validation outcome back out of a keyed record that holds a
    /// well-formed `validation` and a `message` field.
    pub fn from_task_results(task_result: TaskResults) -> (r: ValidationResult)
        requires
            task_result.results@.contains_key("validation"@),
            task_result.results@.contains_key("message"@),
            spec_vrt_parse(task_result.results@["validation"@]) is Ok,
        ensures
            Ok::<ValidationResultType, Seq<char>>(r.validation) == spec_vrt_parse(
                task_result.results@["validation"@],
            ),
            r.message@ == task_result.results@["message"@],
    {
        let validation_text = to_str(task_result.results.get("validation"));
        let validation = match ValidationResultType::parse(validation_text.as_str()) {
            Ok(v) => v,
            Err(_) => unreached(),
        };
        let message = to_str(task_result.results.get("message")).clone();
        ValidationResult { validation, message }
    }
}

} // verus!
