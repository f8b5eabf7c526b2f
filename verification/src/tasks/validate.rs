//! The Validate task: reads live values of one element and compares them
//! with expectation clauses.

use vstd::prelude::*;
use vstd::string::*;
use crate::element::{spec_element, Element, ElementType};
use crate::strutil::str_eq;
use crate::structs::task_err::TaskErr;
use crate::structs::validation_result::{ValidationResult, ValidationReultType};
use crate::tasks::{get_task_name, get_task, spec_get_task, spec_task_name, spec_to_hash, to_hash,
    TaskTypes};
use crate::value::{copy_map, map_veq, Value, ValueMap};
use crate::variables::{resolve_spec, resolve_variables, StrMap};

verus! {

/// The kind of one expectation clause.
#[derive(Debug, Clone, Copy, PartialEq, Eq, Structural)]
pub enum ClauseKind {
    Text,
    InnerHtml,
    Css,
    Property,
}

/// One expectation clause: a text to match, or a mapping of keys to
/// expected values.
#[derive(Debug, PartialEq, Eq)]
pub enum ValidateTypes {
    Text(String),
    InnerHtml(String),
    Css(StrMap),
    Property(StrMap),
}

/// A clause as the specifications see it: its kind, its text (for text
/// clauses) and its pairs (for keyed clauses).
pub open spec fn clause_view(v: ValidateTypes) -> (
    ClauseKind,
    Seq<char>,
    Seq<(Seq<char>, Seq<char>)>,
) {
    match v {
        ValidateTypes::Text(s) => (ClauseKind::Text, s@, Seq::empty()),
        ValidateTypes::InnerHtml(s) => (ClauseKind::InnerHtml, s@, Seq::empty()),
        ValidateTypes::Css(m) => (ClauseKind::Css, Seq::empty(), m.pairs()),
        ValidateTypes::Property(m) => (ClauseKind::Property, Seq::empty(), m.pairs()),
    }
}

/// The clauses as the specifications see them.
pub open spec fn expects_desc(es: Seq<ValidateTypes>) -> Seq<
    (ClauseKind, Seq<char>, Seq<(Seq<char>, Seq<char>)>),
> {
    es.map_values(|v: ValidateTypes| clause_view(v))
}

/// What one text-valued clause contributes: nothing when absent or empty,
/// one clause otherwise; a non-string value is refused with `err_msg`.
pub open spec fn spec_clause_string(
    expect: ValueMap,
    key: Seq<char>,
    kind: ClauseKind,
    err_msg: Seq<char>,
) -> Result<Seq<(ClauseKind, Seq<char>, Seq<(Seq<char>, Seq<char>)>)>, Seq<char>> {
    match expect.spec_get(key) {
        Option::None => Ok(Seq::empty()),
        Option::Some(v) => match v {
            Value::Str(s) => {
                if s@.len() == 0 {
                    Ok(Seq::empty())
                } else {
                    Ok(seq![(kind, s@, Seq::<(Seq<char>, Seq<char>)>::empty())])
                }
            },
            _ => Err(err_msg),
        },
    }
}

/// What one mapping-valued clause contributes: nothing when absent or
/// empty, one clause with its pairs otherwise; a non-mapping value is
/// refused with `err_msg`, and entries that are not strings with the
/// message naming them.
pub open spec fn spec_clause_mapping(
    expect: ValueMap,
    key: Seq<char>,
    kind: ClauseKind,
    err_msg: Seq<char>,
) -> Result<Seq<(ClauseKind, Seq<char>, Seq<(Seq<char>, Seq<char>)>)>, Seq<char>> {
    match expect.spec_get(key) {
        Option::None => Ok(Seq::empty()),
        Option::Some(v) => match v {
            Value::Mapping(m) => {
                if m.entries@.len() == 0 {
                    Ok(Seq::empty())
                } else {
                    match spec_to_hash(m.entries@) {
                        Ok(ps) => Ok(seq![(kind, Seq::<char>::empty(), ps)]),
                        Err(e) => Err(e),
                    }
                }
            },
            _ => Err(err_msg),
        },
    }
}

/// An expectation written as the empty string contributes no clause, so no
/// validation outcome will come of it.
pub proof fn lemma_empty_clause_skipped(
    expect: ValueMap,
    key: Seq<char>,
    kind: ClauseKind,
    err_msg: Seq<char>,
    s: String,
)
    requires
        expect.spec_get(key) == Some(Value::Str(s)),
        s@.len() == 0,
    ensures
        spec_clause_string(expect, key, kind, err_msg) == Ok::<
            Seq<(ClauseKind, Seq<char>, Seq<(Seq<char>, Seq<char>)>)>,
            Seq<char>,
        >(Seq::empty()),
{
}

/// The clauses of an `expect` mapping, read in the fixed order text,
/// innerHtml, css, property; empty clauses contribute nothing.
pub open spec fn spec_clauses(expect: ValueMap) -> Result<
    Seq<(ClauseKind, Seq<char>, Seq<(Seq<char>, Seq<char>)>)>,
    Seq<char>,
> {
    match spec_clause_string(expect, "text"@, ClauseKind::Text, "text - value is not a string"@) {
        Err(e) => Err(e),
        Ok(c1) => match spec_clause_string(
            expect,
            "innerHtml"@,
            ClauseKind::InnerHtml,
            "innerHtml - value is not a string"@,
        ) {
            Err(e) => Err(e),
            Ok(c2) => match spec_clause_mapping(
                expect,
                "css"@,
                ClauseKind::Css,
                "css value is not a map"@,
            ) {
                Err(e) => Err(e),
                Ok(c3) => match spec_clause_mapping(
                    expect,
                    "property"@,
                    ClauseKind::Property,
                    "property value is not a map"@,
                ) {
                    Err(e) => Err(e),
                    Ok(c4) => Ok(c1 + c2 + c3 + c4),
                },
            },
        },
    }
}

/// What building a Validate task yields: name, locator and at least one
/// clause, or the error.
pub open spec fn spec_validate(task: ValueMap) -> Result<
    (Seq<char>, (ElementType, Seq<char>), Seq<(ClauseKind, Seq<char>, Seq<(Seq<char>, Seq<char>)>)>),
    (Seq<char>, Option<TaskTypes>),
> {
    match spec_task_name(task) {
        Err(m) => Err((m, None)),
        Ok(name) => match spec_get_task(task, "validate"@) {
            Err(m) => Err((m, None)),
            Ok(body) => match spec_element(body) {
                Err(m) => Err((m, Some(TaskTypes::CLICK))),
                Ok(el) => match body.spec_get("expect"@) {
                    Option::None => Err(("Validate Task is Malformed"@, Some(TaskTypes::VALIDATE))),
                    Option::Some(ev) => match ev {
                        Value::Mapping(em) => match spec_clauses(em) {
                            Err(m) => Err((m, Some(TaskTypes::VALIDATE))),
                            Ok(cs) => {
                                if cs.len() == 0 {
                                    Err(("Validate Task is empty"@, Some(TaskTypes::VALIDATE)))
                                } else {
                                    Ok((name, el, cs))
                                }
                            },
                        },
                        _ => Err(("Validate expect is not a map"@, Some(TaskTypes::VALIDATE))),
                    },
                },
            },
        },
    }
}

/// What one probe of the live page handed back: the value read, the word
/// that no such property exists, or the driver's rendered error.
#[derive(Debug, Clone, PartialEq, Eq)]
pub enum ProbeResult {
    Found(String),
    MissingProp,
    ProbeFailed(String),
}

/// The shape of one probe result.
#[derive(Debug, Clone, Copy, PartialEq, Eq, Structural)]
pub enum ProbeShape {
    Found,
    MissingProp,
    ProbeFailed,
}

/// A probe result as the specifications see it: its shape and its text.
pub open spec fn probe_view(p: ProbeResult) -> (ProbeShape, Seq<char>) {
    match p {
        ProbeResult::Found(s) => (ProbeShape::Found, s@),
        ProbeResult::MissingProp => (ProbeShape::MissingProp, Seq::empty()),
        ProbeResult::ProbeFailed(s) => (ProbeShape::ProbeFailed, s@),
    }
}

/// A validation outcome as the specifications see it.
pub open spec fn result_view(r: ValidationResult) -> (ValidationReultType, Seq<char>) {
    (r.validation, r.message@)
}

/// How many live values one clause reads: one for a text clause, one per
/// pair for a keyed clause.
pub open spec fn clause_weight(c: (ClauseKind, Seq<char>, Seq<(Seq<char>, Seq<char>)>)) -> nat {
    match c.0 {
        ClauseKind::Text => 1,
        ClauseKind::InnerHtml => 1,
        ClauseKind::Css => c.2.len(),
        ClauseKind::Property => c.2.len(),
    }
}

/// How many live values a clause list reads.
pub open spec fn expects_weight(cs: Seq<(ClauseKind, Seq<char>, Seq<(Seq<char>, Seq<char>)>)>) -> nat
    decreases cs.len(),
{
    if cs.len() == 0 {
        0
    } else {
        clause_weight(cs[0]) + expects_weight(cs.drop_first())
    }
}

/// The outcome of a text clause on one probe result.
pub open spec fn eval_text(expect: Seq<char>, out: (ProbeShape, Seq<char>), vars: Map<Seq<char>, Seq<char>>) -> (
    ValidationReultType,
    Seq<char>,
) {
    let resolved = resolve_spec(expect, vars);
    match out.0 {
        ProbeShape::Found => {
            if out.1 == resolved {
                (ValidationReultType::SUCCESS, "Pass: Text is "@ + resolved)
            } else {
                (
                    ValidationReultType::FAILED,
                    "Failed: Text expected: ["@ + resolved + "], actual: ["@ + out.1 + "]"@,
                )
            }
        },
        _ => (ValidationReultType::FAILED, out.1),
    }
}

/// The outcome of an innerHtml clause on one probe result; its expectation
/// is compared as written, without substitution.
pub open spec fn eval_inner_html(expect: Seq<char>, out: (ProbeShape, Seq<char>)) -> (
    ValidationReultType,
    Seq<char>,
) {
    match out.0 {
        ProbeShape::Found => {
            if out.1 == expect {
                (ValidationReultType::SUCCESS, "Pass: InnerHtml is "@ + expect)
            } else {
                (
                    ValidationReultType::FAILED,
                    "Failed: InnerHtml expected: ["@ + expect + "], actual: ["@ + out.1 + "]"@,
                )
            }
        },
        _ => (ValidationReultType::FAILED, out.1),
    }
}

/// The outcome of one css key on one probe result.
pub open spec fn eval_css_one(
    key: Seq<char>,
    expect: Seq<char>,
    out: (ProbeShape, Seq<char>),
    vars: Map<Seq<char>, Seq<char>>,
) -> (ValidationReultType, Seq<char>) {
    let resolved = resolve_spec(expect, vars);
    match out.0 {
        ProbeShape::Found => {
            if out.1 == resolved {
                (ValidationReultType::SUCCESS, "Pass: CSS ["@ + key + "] is ["@ + resolved + "]"@)
            } else {
                (
                    ValidationReultType::FAILED,
                    "Failed: CSS ["@ + key + "] was ["@ + out.1 + "] expect ["@ + resolved + "]"@,
                )
            }
        },
        ProbeShape::ProbeFailed => (ValidationReultType::FAILED, "Failed: Css error "@ + out.1),
        ProbeShape::MissingProp => (ValidationReultType::FAILED, Seq::empty()),
    }
}

/// The outcome of one property key on one probe result.
pub open spec fn eval_property_one(
    key: Seq<char>,
    expect: Seq<char>,
    out: (ProbeShape, Seq<char>),
    vars: Map<Seq<char>, Seq<char>>,
) -> (ValidationReultType, Seq<char>) {
    let resolved = resolve_spec(expect, vars);
    match out.0 {
        ProbeShape::Found => {
            if out.1 == resolved {
                (
                    ValidationReultType::SUCCESS,
                    "Pass: property ["@ + out.1 + "] is ["@ + resolved + "]"@,
                )
            } else {
                (
                    ValidationReultType::FAILED,
                    "Failed: property ["@ + key + "] was ["@ + out.1 + "] expected ["@ + resolved
                        + "]"@,
                )
            }
        },
        ProbeShape::MissingProp => (
            ValidationReultType::FAILED,
            "Failed: property ["@ + key + "] not found"@,
        ),
        ProbeShape::ProbeFailed => (
            ValidationReultType::FAILED,
            "Failed: property error "@ + out.1,
        ),
    }
}

/// The outcomes of one clause on its probe results, in the order of its
/// pairs.
pub open spec fn eval_clause(
    c: (ClauseKind, Seq<char>, Seq<(Seq<char>, Seq<char>)>),
    outs: Seq<(ProbeShape, Seq<char>)>,
    vars: Map<Seq<char>, Seq<char>>,
) -> Seq<(ValidationReultType, Seq<char>)> {
    match c.0 {
        ClauseKind::Text => seq![eval_text(c.1, outs[0], vars)],
        ClauseKind::InnerHtml => seq![eval_inner_html(c.1, outs[0])],
        ClauseKind::Css => Seq::new(c.2.len(), |i: int| eval_css_one(c.2[i].0, c.2[i].1, outs[i], vars)),
        ClauseKind::Property => Seq::new(
            c.2.len(),
            |i: int| eval_property_one(c.2[i].0, c.2[i].1, outs[i], vars),
        ),
    }
}

/// The outcomes of a clause list on its probe results: each clause consumes
/// as many results as it reads values, in order.
pub open spec fn eval_all(
    cs: Seq<(ClauseKind, Seq<char>, Seq<(Seq<char>, Seq<char>)>)>,
    outs: Seq<(ProbeShape, Seq<char>)>,
    vars: Map<Seq<char>, Seq<char>>,
) -> Seq<(ValidationReultType, Seq<char>)>
    decreases cs.len(),
{
    if cs.len() == 0 {
        Seq::empty()
    } else {
        eval_clause(cs[0], outs.take(clause_weight(cs[0]) as int), vars) + eval_all(
            cs.drop_first(),
            outs.skip(clause_weight(cs[0]) as int),
            vars,
        )
    }
}

/// Every probe yields exactly one validation outcome.
pub proof fn lemma_eval_len(
    cs: Seq<(ClauseKind, Seq<char>, Seq<(Seq<char>, Seq<char>)>)>,
    outs: Seq<(ProbeShape, Seq<char>)>,
    vars: Map<Seq<char>, Seq<char>>,
)
    requires
        outs.len() == expects_weight(cs),
    ensures
        eval_all(cs, outs, vars).len() == expects_weight(cs),
    decreases cs.len(),
{
    if cs.len() > 0 {
        let w = clause_weight(cs[0]) as int;
        lemma_eval_len(cs.drop_first(), outs.skip(w), vars);
    }
}

proof fn lemma_weight_snoc(
    cs: Seq<(ClauseKind, Seq<char>, Seq<(Seq<char>, Seq<char>)>)>,
    c: (ClauseKind, Seq<char>, Seq<(Seq<char>, Seq<char>)>),
)
    ensures
        expects_weight(cs.push(c)) == expects_weight(cs) + clause_weight(c),
    decreases cs.len(),
{
    let p = cs.push(c);
    assert(p.len() == cs.len() + 1);
    if cs.len() == 0 {
        assert(p[0] == c);
        assert(p.drop_first() =~= Seq::<(ClauseKind, Seq<char>, Seq<(Seq<char>, Seq<char>)>)>::empty());
        assert(expects_weight(p) == clause_weight(p[0]) + expects_weight(p.drop_first()));
    } else {
        assert(p[0] == cs[0]);
        assert(p.drop_first() =~= cs.drop_first().push(c));
        assert(expects_weight(p) == clause_weight(p[0]) + expects_weight(p.drop_first()));
        lemma_weight_snoc(cs.drop_first(), c);
    }
}

proof fn lemma_eval_snoc(
    cs: Seq<(ClauseKind, Seq<char>, Seq<(Seq<char>, Seq<char>)>)>,
    c: (ClauseKind, Seq<char>, Seq<(Seq<char>, Seq<char>)>),
    outs: Seq<(ProbeShape, Seq<char>)>,
    vars: Map<Seq<char>, Seq<char>>,
)
    requires
        outs.len() == expects_weight(cs) + clause_weight(c),
    ensures
        eval_all(cs.push(c), outs, vars) == eval_all(
            cs,
            outs.take(expects_weight(cs) as int),
            vars,
        ) + eval_clause(c, outs.skip(expects_weight(cs) as int), vars),
    decreases cs.len(),
{
    if cs.len() == 0 {
        assert(cs.push(c)[0] == c);
        assert(cs.push(c).drop_first() =~= Seq::empty());
        assert(outs.take(clause_weight(c) as int) =~= outs);
        assert(outs.skip(0) =~= outs);
        assert(eval_clause(c, outs, vars) + eval_all(
            Seq::empty(),
            outs.skip(clause_weight(c) as int),
            vars,
        ) =~= eval_clause(c, outs, vars));
        assert(eval_all(cs, outs.take(0), vars) + eval_clause(c, outs, vars) =~= eval_clause(
            c,
            outs,
            vars,
        ));
    } else {
        let w0 = clause_weight(cs[0]) as int;
        let wrest = expects_weight(cs.drop_first()) as int;
        assert(cs.push(c)[0] == cs[0]);
        assert(cs.push(c).drop_first() =~= cs.drop_first().push(c));
        lemma_eval_snoc(cs.drop_first(), c, outs.skip(w0), vars);
        let total = expects_weight(cs) as int;
        assert(total == w0 + wrest);
        assert(outs.skip(w0).take(wrest) =~= outs.take(total).skip(w0));
        assert(outs.skip(w0).skip(wrest) =~= outs.skip(total));
        assert(outs.take(total).take(w0) =~= outs.take(w0));
        assert(eval_clause(cs[0], outs.take(w0), vars) + (eval_all(
            cs.drop_first(),
            outs.skip(w0).take(wrest),
            vars,
        ) + eval_clause(c, outs.skip(total), vars)) =~= (eval_clause(cs[0], outs.take(w0), vars)
            + eval_all(cs.drop_first(), outs.skip(w0).take(wrest), vars)) + eval_clause(
            c,
            outs.skip(total),
            vars,
        ));
    }
}

/// One live value to read: which property, and for keyed clauses which key.
#[derive(Debug, Clone, PartialEq, Eq)]
pub struct Probe {
    pub kind: ClauseKind,
    pub key: String,
}

/// The probes of one clause, in the order of its pairs.
pub open spec fn clause_probes(c: (ClauseKind, Seq<char>, Seq<(Seq<char>, Seq<char>)>)) -> Seq<
    (ClauseKind, Seq<char>),
> {
    match c.0 {
        ClauseKind::Text => seq![(ClauseKind::Text, Seq::<char>::empty())],
        ClauseKind::InnerHtml => seq![(ClauseKind::InnerHtml, Seq::<char>::empty())],
        ClauseKind::Css => Seq::new(c.2.len(), |i: int| (ClauseKind::Css, c.2[i].0)),
        ClauseKind::Property => Seq::new(c.2.len(), |i: int| (ClauseKind::Property, c.2[i].0)),
    }
}

/// The probes of a clause list, clause by clause.
pub open spec fn spec_probes(cs: Seq<(ClauseKind, Seq<char>, Seq<(Seq<char>, Seq<char>)>)>) -> Seq<
    (ClauseKind, Seq<char>),
>
    decreases cs.len(),
{
    if cs.len() == 0 {
        Seq::empty()
    } else {
        clause_probes(cs[0]) + spec_probes(cs.drop_first())
    }
}

proof fn lemma_probes_snoc(
    cs: Seq<(ClauseKind, Seq<char>, Seq<(Seq<char>, Seq<char>)>)>,
    c: (ClauseKind, Seq<char>, Seq<(Seq<char>, Seq<char>)>),
)
    ensures
        spec_probes(cs.push(c)) == spec_probes(cs) + clause_probes(c),
    decreases cs.len(),
{
    let p = cs.push(c);
    assert(p.len() == cs.len() + 1);
    if cs.len() == 0 {
        assert(p[0] == c);
        assert(p.drop_first() =~= Seq::<(ClauseKind, Seq<char>, Seq<(Seq<char>, Seq<char>)>)>::empty());
        assert(spec_probes(p) == clause_probes(c) + spec_probes(p.drop_first()));
        assert(clause_probes(c) + Seq::<(ClauseKind, Seq<char>)>::empty() =~= clause_probes(c));
        assert(spec_probes(cs) + clause_probes(c) =~= clause_probes(c));
    } else {
        assert(p[0] == cs[0]);
        assert(p.drop_first() =~= cs.drop_first().push(c));
        assert(spec_probes(p) == clause_probes(cs[0]) + spec_probes(p.drop_first()));
        lemma_probes_snoc(cs.drop_first(), c);
        assert(clause_probes(cs[0]) + (spec_probes(cs.drop_first()) + clause_probes(c))
            =~= (clause_probes(cs[0]) + spec_probes(cs.drop_first())) + clause_probes(c));
    }
}

/// The probes of a list, as the contracts see them.
pub open spec fn probes_view(ps: Seq<Probe>) -> Seq<(ClauseKind, Seq<char>)> {
    ps.map_values(|p: Probe| (p.kind, p.key@))
}

/// The probe results of a list, as the contracts see them.
pub open spec fn outcomes_view(os: Seq<ProbeResult>) -> Seq<(ProbeShape, Seq<char>)> {
    os.map_values(|p: ProbeResult| probe_view(p))
}

/// The validation outcomes of a list, as the contracts see them.
pub open spec fn results_view(rs: Seq<ValidationResult>) -> Seq<(ValidationReultType, Seq<char>)> {
    rs.map_values(|r: ValidationResult| result_view(r))
}

proof fn lemma_weight_parts(
    cs: Seq<(ClauseKind, Seq<char>, Seq<(Seq<char>, Seq<char>)>)>,
    i: int,
)
    requires
        0 <= i <= cs.len(),
    ensures
        expects_weight(cs) == expects_weight(cs.take(i)) + expects_weight(cs.skip(i)),
    decreases i,
{
    if i == 0 {
        assert(cs.take(0) =~= Seq::<(ClauseKind, Seq<char>, Seq<(Seq<char>, Seq<char>)>)>::empty());
        assert(cs.skip(0) =~= cs);
    } else {
        lemma_weight_parts(cs, i - 1);
        assert(cs.take(i) =~= cs.take(i - 1).push(cs[i - 1]));
        lemma_weight_snoc(cs.take(i - 1), cs[i - 1]);
        let t = cs.skip(i - 1);
        assert(t.len() > 0);
        assert(t[0] == cs[i - 1]);
        assert(t.drop_first() =~= cs.skip(i));
        assert(expects_weight(t) == clause_weight(t[0]) + expects_weight(t.drop_first()));
    }
}

/// As many probes as the clause list weighs.
pub proof fn lemma_probes_len(cs: Seq<(ClauseKind, Seq<char>, Seq<(Seq<char>, Seq<char>)>)>)
    ensures
        spec_probes(cs).len() == expects_weight(cs),
    decreases cs.len(),
{
    if cs.len() > 0 {
        lemma_probes_len(cs.drop_first());
    }
}

/// A task that validates live values of one element against expectations.
#[derive(Debug, PartialEq, Eq)]
pub struct Validate {
    pub _task_types: TaskTypes,
    pub name: String,
    pub element: Element,
    pub expects: Vec<ValidateTypes>,
}

impl Validate {
    /// The live values the task reads, in the order their outcomes come
    /// back.
    pub fn probes(&self) -> (ps: Vec<Probe>)
        ensures
            probes_view(ps@) == spec_probes(expects_desc(self.expects@)),
            ps@.len() == expects_weight(expects_desc(self.expects@)),
    {
        let ghost descs = expects_desc(self.expects@);
        let n = self.expects.len();
        let mut ps: Vec<Probe> = Vec::new();
        let mut ci: usize = 0;
        proof {
            assert(descs.take(0) =~= Seq::empty());
            assert(probes_view(ps@) =~= spec_probes(descs.take(0)));
        }
        while ci < n
            invariant
                n == self.expects@.len(),
                ci <= n,
                descs == expects_desc(self.expects@),
                descs.len() == n,
                probes_view(ps@) == spec_probes(descs.take(ci as int)),
            decreases n - ci,
        {
            let ghost c = descs[ci as int];
            proof {
                assert(descs.take(ci + 1) =~= descs.take(ci as int).push(c));
                lemma_probes_snoc(descs.take(ci as int), c);
            }
            match &self.expects[ci] {
                ValidateTypes::Text(_) => {
                    ps.push(Probe { kind: ClauseKind::Text, key: String::new() });
                    proof {
                        assert(probes_view(ps@) =~= spec_probes(
                            descs.take(ci + 1),
                        ));
                    }
                },
                ValidateTypes::InnerHtml(_) => {
                    ps.push(Probe { kind: ClauseKind::InnerHtml, key: String::new() });
                    proof {
                        assert(probes_view(ps@) =~= spec_probes(
                            descs.take(ci + 1),
                        ));
                    }
                },
                ValidateTypes::Css(m) => {
                    let w = m.len();
                    let mut k: usize = 0;
                    while k < w
                        invariant
                            w == m.pairs().len(),
                            k <= w,
                            c == (ClauseKind::Css, Seq::<char>::empty(), m.pairs()),
                            probes_view(ps@) == spec_probes(
                                descs.take(ci as int),
                            ) + clause_probes(c).take(k as int),
                        decreases w - k,
                    {
                        let ghost prev = ps@;
                        let (key, _) = m.pair_at(k);
                        ps.push(Probe { kind: ClauseKind::Css, key: key.clone() });
                        proof {
                            assert(clause_probes(c)[k as int] == (ClauseKind::Css, key@));
                            assert(probes_view(ps@) =~= probes_view(prev).push(
                                (ClauseKind::Css, key@),
                            ));
                            assert(clause_probes(c).take(k + 1) =~= clause_probes(c).take(
                                k as int,
                            ).push((ClauseKind::Css, key@)));
                            assert(probes_view(ps@) =~= spec_probes(
                                descs.take(ci as int),
                            ) + clause_probes(c).take(k + 1));
                        }
                        k = k + 1;
                    }
                    proof {
                        assert(clause_probes(c).take(w as int) =~= clause_probes(c));
                    }
                },
                ValidateTypes::Property(m) => {
                    let w = m.len();
                    let mut k: usize = 0;
                    while k < w
                        invariant
                            w == m.pairs().len(),
                            k <= w,
                            c == (ClauseKind::Property, Seq::<char>::empty(), m.pairs()),
                            probes_view(ps@) == spec_probes(
                                descs.take(ci as int),
                            ) + clause_probes(c).take(k as int),
                        decreases w - k,
                    {
                        let ghost prev = ps@;
                        let (key, _) = m.pair_at(k);
                        ps.push(Probe { kind: ClauseKind::Property, key: key.clone() });
                        proof {
                            assert(clause_probes(c)[k as int] == (ClauseKind::Property, key@));
                            assert(probes_view(ps@) =~= probes_view(prev).push(
                                (ClauseKind::Property, key@),
                            ));
                            assert(clause_probes(c).take(k + 1) =~= clause_probes(c).take(
                                k as int,
                            ).push((ClauseKind::Property, key@)));
                            assert(probes_view(ps@) =~= spec_probes(
                                descs.take(ci as int),
                            ) + clause_probes(c).take(k + 1));
                        }
                        k = k + 1;
                    }
                    proof {
                        assert(clause_probes(c).take(w as int) =~= clause_probes(c));
                    }
                },
            }
            ci = ci + 1;
        }
        proof {
            assert(descs.take(n as int) =~= descs);
            lemma_probes_len(descs);
        }
        ps
    }
}

fn build_clauses(expect: &ValueMap) -> (r: Result<Vec<ValidateTypes>, String>)
    ensures
        match r {
            Ok(es) => spec_clauses(*expect) matches Ok(cs) && expects_desc(es@) == cs,
            Err(m) => spec_clauses(*expect) matches Err(e) && m@ == e,
        },
{
    let mut out: Vec<ValidateTypes> = Vec::new();
    match expect.get("text") {
        None => {},
        Some(v) => match v.as_str() {
            Some(s) => {
                if !s.as_str().is_empty() {
                    out.push(ValidateTypes::Text(s.clone()));
                }
            },
            None => {
                return Err(String::from_str("text - value is not a string"));
            },
        },
    }
    match expect.get("innerHtml") {
        None => {},
        Some(v) => match v.as_str() {
            Some(s) => {
                if !s.as_str().is_empty() {
                    out.push(ValidateTypes::InnerHtml(s.clone()));
                }
            },
            None => {
                return Err(String::from_str("innerHtml - value is not a string"));
            },
        },
    }
    match expect.get("css") {
        None => {},
        Some(v) => match v.as_mapping() {
            Some(m) => {
                if !m.is_empty() {
                    match to_hash(m) {
                        Ok(sm) => out.push(ValidateTypes::Css(sm)),
                        Err(e) => {
                            return Err(e);
                        },
                    }
                }
            },
            None => {
                return Err(String::from_str("css value is not a map"));
            },
        },
    }
    match expect.get("property") {
        None => {},
        Some(v) => match v.as_mapping() {
            Some(m) => {
                if !m.is_empty() {
                    match to_hash(m) {
                        Ok(sm) => out.push(ValidateTypes::Property(sm)),
                        Err(e) => {
                            return Err(e);
                        },
                    }
                }
            },
            None => {
                return Err(String::from_str("property value is not a map"));
            },
        },
    }
    proof {
        let c1 = spec_clause_string(
            *expect,
            "text"@,
            ClauseKind::Text,
            "text - value is not a string"@,
        )->Ok_0;
        let c2 = spec_clause_string(
            *expect,
            "innerHtml"@,
            ClauseKind::InnerHtml,
            "innerHtml - value is not a string"@,
        )->Ok_0;
        let c3 = spec_clause_mapping(*expect, "css"@, ClauseKind::Css, "css value is not a map"@)
            ->Ok_0;
        let c4 = spec_clause_mapping(
            *expect,
            "property"@,
            ClauseKind::Property,
            "property value is not a map"@,
        )->Ok_0;
        assert(expects_desc(out@) =~= c1 + c2 + c3 + c4);
    }
    Ok(out)
}

impl Validate {
    /// Builds a Validate task from its declaration.
    pub fn new(task: &ValueMap) -> (r: Result<Validate, TaskErr>)
        ensures
            match r {
                Ok(v) => {
                    &&& spec_validate(*task) matches Ok(p) && v.name@ == p.0
                        && v.element.element_type == p.1.0 && v.element.value@ == p.1.1
                        && expects_desc(v.expects@) == p.2
                    &&& v._task_types == TaskTypes::VALIDATE
                },
                Err(e) => {
                    &&& spec_validate(*task) matches Err(p) && e.message@ == p.0 && e.task_type
                        == p.1
                    &&& e.task matches Some(t) && map_veq(t, *task)
                },
            },
    {
        let name = match get_task_name(task) {
            Ok(n) => n,
            Err(e) => {
                return Err(e);
            },
        };
        let body = match get_task(task, "validate") {
            Ok(b) => b,
            Err(e) => {
                return Err(e);
            },
        };
        let element = match Element::new(body) {
            Ok(el) => el,
            Err(m) => {
                return Err(TaskErr::new(m, Some(TaskTypes::CLICK), Some(copy_map(task))));
            },
        };
        let expect_value = match body.get("expect") {
            Some(v) => v,
            None => {
                return Err(
                    TaskErr::new(
                        String::from_str("Validate Task is Malformed"),
                        Some(TaskTypes::VALIDATE),
                        Some(copy_map(task)),
                    ),
                );
            },
        };
        let expect = match expect_value.as_mapping() {
            Some(m) => m,
            None => {
                return Err(
                    TaskErr::new(
                        String::from_str("Validate expect is not a map"),
                        Some(TaskTypes::VALIDATE),
                        Some(copy_map(task)),
                    ),
                );
            },
        };
        let expects = match build_clauses(expect) {
            Ok(es) => es,
            Err(m) => {
                return Err(TaskErr::new(m, Some(TaskTypes::VALIDATE), Some(copy_map(task))));
            },
        };
        if expects.len() == 0 {
            return Err(
                TaskErr::new(
                    String::from_str("Validate Task is empty"),
                    Some(TaskTypes::VALIDATE),
                    Some(copy_map(task)),
                ),
            );
        }
        Ok(Validate { _task_types: TaskTypes::VALIDATE, name, element, expects })
    }

    /// Compares the live values read from the page with the expectations,
    /// one validation outcome per probe, in clause order.
    pub fn evaluate(&self, vars: &StrMap, outcomes: &Vec<ProbeResult>) -> (rs: Vec<
        ValidationResult,
    >)
        requires
            outcomes@.len() == expects_weight(expects_desc(self.expects@)),
        ensures
            results_view(rs@) == eval_all(
                expects_desc(self.expects@),
                outcomes_view(outcomes@),
                vars@,
            ),
            rs@.len() == outcomes@.len(),
    {
        let ghost descs = expects_desc(self.expects@);
        let ghost pouts = outcomes_view(outcomes@);
        let n = self.expects.len();
        let mut rs: Vec<ValidationResult> = Vec::new();
        let mut ci: usize = 0;
        let mut used: usize = 0;
        let outcome_count = outcomes.len();
        proof {
            assert(outcomes@.len() == outcome_count);
            assert(descs.take(0) =~= Seq::<
                (ClauseKind, Seq<char>, Seq<(Seq<char>, Seq<char>)>),
            >::empty());
            assert(pouts.take(0) =~= Seq::<(ProbeShape, Seq<char>)>::empty());
            assert(results_view(rs@) =~= eval_all(descs.take(0), pouts.take(0), vars@));
        }
        while ci < n
            invariant
                n == self.expects@.len(),
                descs == expects_desc(self.expects@),
                descs.len() == n,
                pouts == outcomes_view(outcomes@),
                pouts.len() == outcomes@.len(),
                outcomes@.len() == expects_weight(descs),
                outcomes@.len() <= usize::MAX,
                ci <= n,
                used == expects_weight(descs.take(ci as int)),
                used <= outcomes@.len(),
                results_view(rs@) == eval_all(descs.take(ci as int), pouts.take(used as int), vars@),
            decreases n - ci,
        {
            let ghost c = descs[ci as int];
            let ghost base = eval_all(descs.take(ci as int), pouts.take(used as int), vars@);
            proof {
                assert(descs.take(ci + 1) =~= descs.take(ci as int).push(c));
                lemma_weight_snoc(descs.take(ci as int), c);
                lemma_weight_parts(descs, ci + 1);
            }
            match &self.expects[ci] {
                ValidateTypes::Text(s) => {
                    let resolved = resolve_variables(s.as_str(), vars);
                    let ghost prevrs = rs@;
                    match &outcomes[used] {
                        ProbeResult::Found(actual) => {
                            if str_eq(actual.as_str(), resolved.as_str()) {
                                let mut msg = String::new();
                                msg.append("Pass: Text is ");
                                msg.append(resolved.as_str());
                                rs.push(
                                    ValidationResult {
                                        validation: ValidationReultType::SUCCESS,
                                        message: msg,
                                    },
                                );
                            } else {
                                let mut msg = String::new();
                                msg.append("Failed: Text expected: [");
                                msg.append(resolved.as_str());
                                msg.append("], actual: [");
                                msg.append(actual.as_str());
                                msg.append("]");
                                rs.push(
                                    ValidationResult {
                                        validation: ValidationReultType::FAILED,
                                        message: msg,
                                    },
                                );
                            }
                        },
                        ProbeResult::MissingProp => {
                            rs.push(
                                ValidationResult {
                                    validation: ValidationReultType::FAILED,
                                    message: String::new(),
                                },
                            );
                        },
                        ProbeResult::ProbeFailed(m) => {
                            rs.push(
                                ValidationResult {
                                    validation: ValidationReultType::FAILED,
                                    message: m.clone(),
                                },
                            );
                        },
                    }
                    proof {
                        let x = pouts[used as int];
                        assert(x == probe_view(outcomes@[used as int]));
                        assert(result_view(rs@[prevrs.len() as int]) == eval_text(s@, x, vars@));
                        lemma_eval_snoc(descs.take(ci as int), c, pouts.take(used + 1), vars@);
                        assert(pouts.take(used + 1).take(used as int) =~= pouts.take(used as int));
                        let xs = pouts.take(used + 1).skip(used as int);
                        assert(xs.len() == 1 && xs[0] == x);
                        assert(eval_clause(c, xs, vars@) =~= seq![eval_text(s@, x, vars@)]);
                        assert(results_view(rs@) =~= base + seq![eval_text(s@, x, vars@)]);
                        assert(results_view(rs@) =~= eval_all(
                            descs.take(ci + 1),
                            pouts.take(used + 1),
                            vars@,
                        ));
                        assert(clause_weight(c) == 1);
                        assert(used + 1 <= outcomes@.len());
                    }
                    used = used + 1;
                },
                ValidateTypes::InnerHtml(s) => {
                    let ghost prevrs = rs@;
                    match &outcomes[used] {
                        ProbeResult::Found(actual) => {
                            if str_eq(actual.as_str(), s.as_str()) {
                                let mut msg = String::new();
                                msg.append("Pass: InnerHtml is ");
                                msg.append(s.as_str());
                                rs.push(
                                    ValidationResult {
                                        validation: ValidationReultType::SUCCESS,
                                        message: msg,
                                    },
                                );
                            } else {
                                let mut msg = String::new();
                                msg.append("Failed: InnerHtml expected: [");
                                msg.append(s.as_str());
                                msg.append("], actual: [");
                                msg.append(actual.as_str());
                                msg.append("]");
                                rs.push(
                                    ValidationResult {
                                        validation: ValidationReultType::FAILED,
                                        message: msg,
                                    },
                                );
                            }
                        },
                        ProbeResult::MissingProp => {
                            rs.push(
                                ValidationResult {
                                    validation: ValidationReultType::FAILED,
                                    message: String::new(),
                                },
                            );
                        },
                        ProbeResult::ProbeFailed(m) => {
                            rs.push(
                                ValidationResult {
                                    validation: ValidationReultType::FAILED,
                                    message: m.clone(),
                                },
                            );
                        },
                    }
                    proof {
                        let x = pouts[used as int];
                        assert(x == probe_view(outcomes@[used as int]));
                        assert(result_view(rs@[prevrs.len() as int]) == eval_inner_html(s@, x));
                        lemma_eval_snoc(descs.take(ci as int), c, pouts.take(used + 1), vars@);
                        assert(pouts.take(used + 1).take(used as int) =~= pouts.take(used as int));
                        let xs = pouts.take(used + 1).skip(used as int);
                        assert(xs.len() == 1 && xs[0] == x);
                        assert(eval_clause(c, xs, vars@) =~= seq![eval_inner_html(s@, x)]);
                        assert(results_view(rs@) =~= base + seq![eval_inner_html(s@, x)]);
                        assert(results_view(rs@) =~= eval_all(
                            descs.take(ci + 1),
                            pouts.take(used + 1),
                            vars@,
                        ));
                        assert(clause_weight(c) == 1);
                        assert(used + 1 <= outcomes@.len());
                    }
                    used = used + 1;
                },
                ValidateTypes::Css(m) => {
                    let w = m.len();
                    proof {
                        assert(clause_weight(c) == m.pairs().len());
                        assert(used + w <= outcomes@.len());
                    }
                    let mut k: usize = 0;
                    while k < w
                        invariant
                            w == m.pairs().len(),
                            k <= w,
                            c == (ClauseKind::Css, Seq::<char>::empty(), m.pairs()),
                            pouts == outcomes_view(outcomes@),
                            pouts.len() == outcomes@.len(),
                            outcomes@.len() <= usize::MAX,
                            used + w <= outcomes@.len(),
                            results_view(rs@) == base + Seq::new(
                                k as nat,
                                |i: int|
                                    eval_css_one(
                                        m.pairs()[i].0,
                                        m.pairs()[i].1,
                                        pouts[used + i],
                                        vars@,
                                    ),
                            ),
                        decreases w - k,
                    {
                        let ghost prevrs = rs@;
                        let (key, expect) = m.pair_at(k);
                        let resolved = resolve_variables(expect.as_str(), vars);
                        match &outcomes[used + k] {
                            ProbeResult::Found(actual) => {
                                if str_eq(actual.as_str(), resolved.as_str()) {
                                    let mut msg = String::new();
                                    msg.append("Pass: CSS [");
                                    msg.append(key.as_str());
                                    msg.append("] is [");
                                    msg.append(resolved.as_str());
                                    msg.append("]");
                                    rs.push(
                                        ValidationResult {
                                            validation: ValidationReultType::SUCCESS,
                                            message: msg,
                                        },
                                    );
                                } else {
                                    let mut msg = String::new();
                                    msg.append("Failed: CSS [");
                                    msg.append(key.as_str());
                                    msg.append("] was [");
                                    msg.append(actual.as_str());
                                    msg.append("] expect [");
                                    msg.append(resolved.as_str());
                                    msg.append("]");
                                    rs.push(
                                        ValidationResult {
                                            validation: ValidationReultType::FAILED,
                                            message: msg,
                                        },
                                    );
                                }
                            },
                            ProbeResult::MissingProp => {
                                rs.push(
                                    ValidationResult {
                                        validation: ValidationReultType::FAILED,
                                        message: String::new(),
                                    },
                                );
                            },
                            ProbeResult::ProbeFailed(e) => {
                                let mut msg = String::new();
                                msg.append("Failed: Css error ");
                                msg.append(e.as_str());
                                rs.push(
                                    ValidationResult {
                                        validation: ValidationReultType::FAILED,
                                        message: msg,
                                    },
                                );
                            },
                        }
                        proof {
                            let x = pouts[used + k];
                            assert(x == probe_view(outcomes@[used + k]));
                            let v = eval_css_one(m.pairs()[k as int].0, m.pairs()[k as int].1, x, vars@);
                            assert(result_view(rs@[prevrs.len() as int]) == v);
                            assert(results_view(rs@) =~= results_view(prevrs).push(v));
                            assert(Seq::new(
                                (k + 1) as nat,
                                |i: int|
                                    eval_css_one(
                                        m.pairs()[i].0,
                                        m.pairs()[i].1,
                                        pouts[used + i],
                                        vars@,
                                    ),
                            ) =~= Seq::new(
                                k as nat,
                                |i: int|
                                    eval_css_one(
                                        m.pairs()[i].0,
                                        m.pairs()[i].1,
                                        pouts[used + i],
                                        vars@,
                                    ),
                            ).push(v));
                            assert(results_view(rs@) =~= base + Seq::new(
                                (k + 1) as nat,
                                |i: int|
                                    eval_css_one(
                                        m.pairs()[i].0,
                                        m.pairs()[i].1,
                                        pouts[used + i],
                                        vars@,
                                    ),
                            ));
                        }
                        k = k + 1;
                    }
                    proof {
                        lemma_eval_snoc(descs.take(ci as int), c, pouts.take(used + w), vars@);
                        assert(pouts.take(used + w).take(used as int) =~= pouts.take(used as int));
                        let xs = pouts.take(used + w).skip(used as int);
                        assert(xs.len() == w);
                        assert(forall|i: int| 0 <= i < w ==> xs[i] == pouts[used + i]);
                        assert(eval_clause(c, xs, vars@) =~= Seq::new(
                            w as nat,
                            |i: int|
                                eval_css_one(
                                    m.pairs()[i].0,
                                    m.pairs()[i].1,
                                    pouts[used + i],
                                    vars@,
                                ),
                        ));
                        assert(results_view(rs@) =~= eval_all(
                            descs.take(ci + 1),
                            pouts.take(used + w),
                            vars@,
                        ));
                    }
                    used = used + w;
                },
                ValidateTypes::Property(m) => {
                    let w = m.len();
                    proof {
                        assert(clause_weight(c) == m.pairs().len());
                        assert(used + w <= outcomes@.len());
                    }
                    let mut k: usize = 0;
                    while k < w
                        invariant
                            w == m.pairs().len(),
                            k <= w,
                            c == (ClauseKind::Property, Seq::<char>::empty(), m.pairs()),
                            pouts == outcomes_view(outcomes@),
                            pouts.len() == outcomes@.len(),
                            outcomes@.len() <= usize::MAX,
                            used + w <= outcomes@.len(),
                            results_view(rs@) == base + Seq::new(
                                k as nat,
                                |i: int|
                                    eval_property_one(
                                        m.pairs()[i].0,
                                        m.pairs()[i].1,
                                        pouts[used + i],
                                        vars@,
                                    ),
                            ),
                        decreases w - k,
                    {
                        let ghost prevrs = rs@;
                        let (key, expect) = m.pair_at(k);
                        let resolved = resolve_variables(expect.as_str(), vars);
                        match &outcomes[used + k] {
                            ProbeResult::Found(actual) => {
                                if str_eq(actual.as_str(), resolved.as_str()) {
                                    let mut msg = String::new();
                                    msg.append("Pass: property [");
                                    msg.append(actual.as_str());
                                    msg.append("] is [");
                                    msg.append(resolved.as_str());
                                    msg.append("]");
                                    rs.push(
                                        ValidationResult {
                                            validation: ValidationReultType::SUCCESS,
                                            message: msg,
                                        },
                                    );
                                } else {
                                    let mut msg = String::new();
                                    msg.append("Failed: property [");
                                    msg.append(key.as_str());
                                    msg.append("] was [");
                                    msg.append(actual.as_str());
                                    msg.append("] expected [");
                                    msg.append(resolved.as_str());
                                    msg.append("]");
                                    rs.push(
                                        ValidationResult {
                                            validation: ValidationReultType::FAILED,
                                            message: msg,
                                        },
                                    );
                                }
                            },
                            ProbeResult::MissingProp => {
                                let mut msg = String::new();
                                msg.append("Failed: property [");
                                msg.append(key.as_str());
                                msg.append("] not found");
                                rs.push(
                                    ValidationResult {
                                        validation: ValidationReultType::FAILED,
                                        message: msg,
                                    },
                                );
                            },
                            ProbeResult::ProbeFailed(e) => {
                                let mut msg = String::new();
                                msg.append("Failed: property error ");
                                msg.append(e.as_str());
                                rs.push(
                                    ValidationResult {
                                        validation: ValidationReultType::FAILED,
                                        message: msg,
                                    },
                                );
                            },
                        }
                        proof {
                            let x = pouts[used + k];
                            assert(x == probe_view(outcomes@[used + k]));
                            let v = eval_property_one(
                                m.pairs()[k as int].0,
                                m.pairs()[k as int].1,
                                x,
                                vars@,
                            );
                            assert(result_view(rs@[prevrs.len() as int]) == v);
                            assert(results_view(rs@) =~= results_view(prevrs).push(v));
                            assert(Seq::new(
                                (k + 1) as nat,
                                |i: int|
                                    eval_property_one(
                                        m.pairs()[i].0,
                                        m.pairs()[i].1,
                                        pouts[used + i],
                                        vars@,
                                    ),
                            ) =~= Seq::new(
                                k as nat,
                                |i: int|
                                    eval_property_one(
                                        m.pairs()[i].0,
                                        m.pairs()[i].1,
                                        pouts[used + i],
                                        vars@,
                                    ),
                            ).push(v));
                            assert(results_view(rs@) =~= base + Seq::new(
                                (k + 1) as nat,
                                |i: int|
                                    eval_property_one(
                                        m.pairs()[i].0,
                                        m.pairs()[i].1,
                                        pouts[used + i],
                                        vars@,
                                    ),
                            ));
                        }
                        k = k + 1;
                    }
                    proof {
                        lemma_eval_snoc(descs.take(ci as int), c, pouts.take(used + w), vars@);
                        assert(pouts.take(used + w).take(used as int) =~= pouts.take(used as int));
                        let xs = pouts.take(used + w).skip(used as int);
                        assert(xs.len() == w);
                        assert(forall|i: int| 0 <= i < w ==> xs[i] == pouts[used + i]);
                        assert(eval_clause(c, xs, vars@) =~= Seq::new(
                            w as nat,
                            |i: int|
                                eval_property_one(
                                    m.pairs()[i].0,
                                    m.pairs()[i].1,
                                    pouts[used + i],
                                    vars@,
                                ),
                        ));
                        assert(results_view(rs@) =~= eval_all(
                            descs.take(ci + 1),
                            pouts.take(used + w),
                            vars@,
                        ));
                    }
                    used = used + w;
                },
            }
            ci = ci + 1;
        }
        proof {
            assert(descs.take(n as int) =~= descs);
            assert(pouts.take(used as int) =~= pouts);
            lemma_eval_len(descs, pouts, vars@);
        }
        rs
    }
}

} // verus!
