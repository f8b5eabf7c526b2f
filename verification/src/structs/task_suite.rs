//! The summary of one suite file's run: where it came from, its validation
//! outcomes or its failure, and how long it took.

use vstd::prelude::*;
use vstd::string::*;
use crate::strutil::{dec_str, u64_to_string};
use crate::structs::validation_result::{ValidationResult, ValidationReultType};

verus! {

/// The validation outcomes that failed, in order.
pub open spec fn failed_of(rs: Seq<ValidationResult>) -> Seq<ValidationResult> {
    rs.filter(|x: ValidationResult| x.validation == ValidationReultType::FAILED)
}

/// How many validation outcomes succeeded.
pub open spec fn successes_of(rs: Seq<ValidationResult>) -> Seq<ValidationResult> {
    rs.filter(|x: ValidationResult| x.validation == ValidationReultType::SUCCESS)
}

/// The counts of a suite's validation outcomes with the failing ones kept.
#[derive(Debug)]
pub struct TaskSuiteResult {
    pub success: usize,
    pub failed: (usize, Vec<ValidationResult>),
    pub results: Vec<ValidationResult>,
}

impl TaskSuiteResult {
    /// Counts the successes among the outcomes.
    pub fn get_success_count(results: &Vec<ValidationResult>) -> (r: usize)
        ensures
            r == successes_of(results@).len(),
    {
        let n = results.len();
        let mut count: usize = 0;
        let mut i: usize = 0;
        proof {
            reveal(Seq::filter);
            assert(results@.take(0) =~= Seq::<ValidationResult>::empty());
        }
        while i < n
            invariant
                n == results@.len(),
                i <= n,
                count == successes_of(results@.take(i as int)).len(),
                count <= i,
            decreases n - i,
        {
            let ghost prefix = results@.take(i as int);
            if matches!(results[i].validation, ValidationReultType::SUCCESS) {
                count = count + 1;
            }
            proof {
                reveal(Seq::filter);
                let whole = results@.take(i + 1);
                assert(whole.drop_last() =~= prefix);
                assert(whole.last() == results@[i as int]);
                assert(successes_of(whole) == if whole.last().validation
                    == ValidationReultType::SUCCESS {
                    successes_of(prefix).push(whole.last())
                } else {
                    successes_of(prefix)
                });
            }
            i = i + 1;
        }
        proof {
            assert(results@.take(n as int) =~= results@);
        }
        count
    }

    /// Counts the failures among the outcomes and keeps them, in order.
    pub fn get_failed_count(results: &Vec<ValidationResult>) -> (r: (usize, Vec<ValidationResult>))
        ensures
            r.1@ == failed_of(results@),
            r.0 == failed_of(results@).len(),
    {
        let n = results.len();
        let mut kept: Vec<ValidationResult> = Vec::new();
        let mut i: usize = 0;
        proof {
            reveal(Seq::filter);
            assert(results@.take(0) =~= Seq::<ValidationResult>::empty());
            assert(kept@ =~= failed_of(results@.take(0)));
        }
        while i < n
            invariant
                n == results@.len(),
                i <= n,
                kept@ == failed_of(results@.take(i as int)),
            decreases n - i,
        {
            let ghost prefix = results@.take(i as int);
            if matches!(results[i].validation, ValidationReultType::FAILED) {
                let copied = ValidationResult {
                    validation: results[i].validation,
                    message: results[i].message.clone(),
                };
                proof {
                    assert(copied == results@[i as int]);
                }
                kept.push(copied);
            }
            proof {
                reveal(Seq::filter);
                let whole = results@.take(i + 1);
                assert(whole.drop_last() =~= prefix);
                assert(whole.last() == results@[i as int]);
                assert(failed_of(whole) == if whole.last().validation
                    == ValidationReultType::FAILED {
                    failed_of(prefix).push(whole.last())
                } else {
                    failed_of(prefix)
                });
            }
            i = i + 1;
        }
        proof {
            assert(results@.take(n as int) =~= results@);
        }
        let count = kept.len();
        (count, kept)
    }

    /// Gathers the counts of a run's validation outcomes.
    pub fn new(results: Vec<ValidationResult>) -> (r: TaskSuiteResult)
        ensures
            r.success == successes_of(results@).len(),
            r.failed.0 == failed_of(results@).len(),
            r.failed.1@ == failed_of(results@),
            r.results == results,
    {
        let success = Self::get_success_count(&results);
        let failed = Self::get_failed_count(&results);
        TaskSuiteResult { success, failed, results }
    }
}

/// The position of the last path separator in a path, if any.
pub open spec fn last_slash(s: Seq<char>) -> Option<nat>
    decreases s.len(),
{
    if s.len() == 0 {
        None
    } else if s[s.len() - 1] == '/' {
        Some((s.len() - 1) as nat)
    } else {
        last_slash(s.drop_last())
    }
}

proof fn lemma_last_slash_at(s: Seq<char>, p: int)
    requires
        0 <= p < s.len(),
        s[p] == '/',
        forall|j: int| p < j < s.len() ==> s[j] != '/',
    ensures
        last_slash(s) == Some(p as nat),
    decreases s.len(),
{
    if p < s.len() - 1 {
        assert(forall|j: int| 0 <= j < s.drop_last().len() ==> s.drop_last()[j] == s[j]);
        lemma_last_slash_at(s.drop_last(), p);
    }
}

proof fn lemma_last_slash_none(s: Seq<char>)
    requires
        forall|j: int| 0 <= j < s.len() ==> s[j] != '/',
    ensures
        last_slash(s) is None,
    decreases s.len(),
{
    if s.len() > 0 {
        assert(forall|j: int| 0 <= j < s.drop_last().len() ==> s.drop_last()[j] == s[j]);
        lemma_last_slash_none(s.drop_last());
    }
}

/// The text before the last separator: the suite file's directory.
pub open spec fn dir_of(s: Seq<char>) -> Seq<char> {
    match last_slash(s) {
        Some(p) => s.take(p as int),
        None => Seq::empty(),
    }
}

/// The text after the last separator: the suite file's name.
pub open spec fn file_name_of(s: Seq<char>) -> Seq<char> {
    match last_slash(s) {
        Some(p) => s.skip(p as int + 1),
        None => s,
    }
}

/// One line per failing outcome, each indented with a dash.
pub open spec fn error_lines(rs: Seq<ValidationResult>) -> Seq<char>
    decreases rs.len(),
{
    if rs.len() == 0 {
        Seq::empty()
    } else {
        " - "@ + rs[0].message@ + "\n"@ + error_lines(rs.drop_first())
    }
}

proof fn lemma_error_lines_snoc(rs: Seq<ValidationResult>, x: ValidationResult)
    ensures
        error_lines(rs.push(x)) == error_lines(rs) + (" - "@ + x.message@ + "\n"@),
    decreases rs.len(),
{
    let p = rs.push(x);
    let hx = " - "@ + x.message@ + "\n"@;
    assert(p.len() == rs.len() + 1);
    if rs.len() == 0 {
        assert(p[0] == x);
        assert(p.drop_first() =~= Seq::<ValidationResult>::empty());
        assert(error_lines(p) == " - "@ + p[0].message@ + "\n"@ + error_lines(p.drop_first()));
        assert(hx + Seq::<char>::empty() =~= hx);
        assert(error_lines(rs) + hx =~= hx);
    } else {
        assert(p[0] == rs[0]);
        assert(p.drop_first() =~= rs.drop_first().push(x));
        assert(error_lines(p) == " - "@ + p[0].message@ + "\n"@ + error_lines(p.drop_first()));
        lemma_error_lines_snoc(rs.drop_first(), x);
        let h0 = " - "@ + rs[0].message@ + "\n"@;
        assert(error_lines(rs) == h0 + error_lines(rs.drop_first()));
        assert(h0 + (error_lines(rs.drop_first()) + hx) =~= (h0 + error_lines(rs.drop_first()))
            + hx);
    }
}

/// Renders the failing outcomes, one indented line each.
pub fn error_results_to_string(results: &Vec<ValidationResult>) -> (r: String)
    ensures
        r@ == error_lines(results@),
{
    let n = results.len();
    let mut out = String::new();
    let mut i: usize = 0;
    proof {
        assert(results@.take(0) =~= Seq::<ValidationResult>::empty());
        assert(out@ =~= error_lines(results@.take(0)));
    }
    while i < n
        invariant
            n == results@.len(),
            i <= n,
            out@ == error_lines(results@.take(i as int)),
        decreases n - i,
    {
        out.append(" - ");
        out.append(results[i].message.as_str());
        out.append("\n");
        proof {
            assert(results@.take(i + 1) =~= results@.take(i as int).push(results@[i as int]));
            lemma_error_lines_snoc(results@.take(i as int), results@[i as int]);
            assert(out@ =~= error_lines(results@.take(i + 1)));
        }
        i = i + 1;
    }
    proof {
        assert(results@.take(n as int) =~= results@);
    }
    out
}

/// One suite file's summary: its place, its outcomes or its failure, and
/// its duration.
#[derive(Debug)]
pub struct TaskSuite {
    pub directory: String,
    pub path: String,
    pub file_name: String,
    pub results: Option<TaskSuiteResult>,
    pub error: Option<String>,
    pub duration: u64,
}

impl TaskSuite {
    /// Opens a summary for the suite at `path`, splitting the path at its
    /// last separator into directory and file name.
    pub fn new(path: &str) -> (r: TaskSuite)
        ensures
            r.path@ == path@,
            r.directory@ == dir_of(path@),
            r.file_name@ == file_name_of(path@),
            r.results is None,
            r.error is None,
            r.duration == 0,
    {
        let len = path.unicode_len();
        let mut i: usize = len;
        while i > 0
            invariant
                len == path@.len(),
                i <= len,
                forall|j: int| i <= j < len ==> path@[j] != '/',
            decreases i,
        {
            i = i - 1;
            if path.get_char(i) == '/' {
                proof {
                    lemma_last_slash_at(path@, i as int);
                }
                let directory = path.substring_char(0, i);
                let file_name = path.substring_char(i + 1, len);
                return TaskSuite {
                    directory: String::from_str(directory),
                    path: String::from_str(path),
                    file_name: String::from_str(file_name),
                    results: None,
                    error: None,
                    duration: 0,
                };
            }
        }
        proof {
            lemma_last_slash_none(path@);
        }
        TaskSuite {
            directory: String::new(),
            path: String::from_str(path),
            file_name: String::from_str(path),
            results: None,
            error: None,
            duration: 0,
        }
    }

    /// Records the run's validation outcomes, counted.
    pub fn add_results(&mut self, results: Vec<ValidationResult>)
        ensures
            final(self).results matches Some(r) && r.success == successes_of(results@).len()
                && r.failed.0 == failed_of(results@).len() && r.failed.1@ == failed_of(results@)
                && r.results == results,
            final(self).directory == old(self).directory,
            final(self).path == old(self).path,
            final(self).file_name == old(self).file_name,
            final(self).error == old(self).error,
            final(self).duration == old(self).duration,
    {
        self.results = Some(TaskSuiteResult::new(results));
    }

    /// Records the failure that ended the run.
    pub fn set_error(&mut self, error: String)
        ensures
            final(self).error == Some(error),
            final(self).directory == old(self).directory,
            final(self).path == old(self).path,
            final(self).file_name == old(self).file_name,
            final(self).results == old(self).results,
            final(self).duration == old(self).duration,
    {
        self.error = Some(error);
    }

    /// Records how long the run took.
    pub fn set_duration(&mut self, duration: u64)
        ensures
            final(self).duration == duration,
            final(self).directory == old(self).directory,
            final(self).path == old(self).path,
            final(self).file_name == old(self).file_name,
            final(self).results == old(self).results,
            final(self).error == old(self).error,
    {
        self.duration = duration;
    }

    /// The summary as one report: counts and failing lines when the run
    /// produced outcomes, the failure when it stopped, a note otherwise.
    pub fn summary_string(&self) -> (r: String)
        ensures
            r@ == match self.results {
                Some(res) => "Test results: "@ + self.path@ + ", Success: "@ + dec_str(
                    res.success as nat,
                ) + ", Failed: "@ + dec_str(res.failed.0 as nat) + ", Duration: "@ + dec_str(
                    self.duration as nat,
                ) + "\n"@ + error_lines(res.failed.1@),
                None => match self.error {
                    Some(e) => "Test results: "@ + self.path@ + ", Reason: "@ + e@,
                    None => "Test no results found results: "@ + self.path@,
                },
            },
    {
        match &self.results {
            Some(res) => {
                let mut out = String::new();
                out.append("Test results: ");
                out.append(self.path.as_str());
                out.append(", Success: ");
                let success_text = u64_to_string(res.success as u64);
                out.append(success_text.as_str());
                out.append(", Failed: ");
                let failed_text = u64_to_string(res.failed.0 as u64);
                out.append(failed_text.as_str());
                out.append(", Duration: ");
                let duration_text = u64_to_string(self.duration);
                out.append(duration_text.as_str());
                out.append("\n");
                let lines = error_results_to_string(&res.failed.1);
                out.append(lines.as_str());
                out
            },
            None => match &self.error {
                Some(e) => {
                    let mut out = String::new();
                    out.append("Test results: ");
                    out.append(self.path.as_str());
                    out.append(", Reason: ");
                    out.append(e.as_str());
                    out
                },
                None => {
                    let mut out = String::new();
                    out.append("Test no results found results: ");
                    out.append(self.path.as_str());
                    out
                },
            },
        }
    }
}

} // verus!
