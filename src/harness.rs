//! Test results reported by a kernel, their summary, and the report text.
use vstd::prelude::*;

use crate::config::ShowOutput;
use crate::runner::{CapturedOutput, RunResult};
use crate::text::{decimal, join2, nat_text};

verus! {

/// Whether one reported test passed.
#[derive(Debug, Clone, Copy, PartialEq, Eq, Structural)]
pub enum TestCaseStatus {
    Passed,
    Failed,
}

/// One test reported in a kernel's output.
#[derive(Debug, Clone)]
pub struct TestCaseResult {
    pub name: String,
    pub status: TestCaseStatus,
}

/// The tests of one run, counted, with the run's overall verdict.
#[derive(Debug)]
pub struct TestOutput {
    /// The reported tests, in order.
    pub cases: Vec<TestCaseResult>,
    /// How many passed.
    pub passed: usize,
    /// How many failed.
    pub failed: usize,
    /// Whether the run timed out.
    pub timed_out: bool,
    /// No test failed, no time-out, and the run itself succeeded.
    pub overall_success: bool,
}

/// How many of `cases` have status `s`.
pub open spec fn count_status(cases: Seq<TestCaseResult>, s: TestCaseStatus) -> nat
    decreases cases.len(),
{
    if cases.len() == 0 {
        0
    } else {
        count_status(cases.drop_last(), s) + if cases.last().status == s { 1nat } else { 0nat }
    }
}

proof fn lemma_count_le(cases: Seq<TestCaseResult>, s: TestCaseStatus)
    ensures
        count_status(cases, s) <= cases.len(),
    decreases cases.len(),
{
    if cases.len() > 0 {
        lemma_count_le(cases.drop_last(), s);
    }
}

impl TestOutput {
    /// Counts the reported tests of a run and gives the overall verdict.
    pub fn summarize(cases: Vec<TestCaseResult>, result: &RunResult) -> (r: TestOutput)
        ensures
            r.cases@ == cases@,
            r.passed == count_status(cases@, TestCaseStatus::Passed),
            r.failed == count_status(cases@, TestCaseStatus::Failed),
            r.timed_out == result.timed_out,
            r.overall_success == (r.failed == 0 && !result.timed_out && result.success),
    {
        let mut passed: usize = 0;
        let mut failed: usize = 0;
        let mut i: usize = 0;
        while i < cases.len()
            invariant
                i <= cases@.len(),
                passed == count_status(cases@.subrange(0, i as int), TestCaseStatus::Passed),
                failed == count_status(cases@.subrange(0, i as int), TestCaseStatus::Failed),
            decreases cases@.len() - i,
        {
            proof {
                assert(cases@.subrange(0, i + 1).drop_last() =~= cases@.subrange(0, i as int));
                lemma_count_le(cases@.subrange(0, i as int), TestCaseStatus::Passed);
                lemma_count_le(cases@.subrange(0, i as int), TestCaseStatus::Failed);
            }
            match cases[i].status {
                TestCaseStatus::Passed => passed = passed + 1,
                TestCaseStatus::Failed => failed = failed + 1,
            }
            i = i + 1;
        }
        assert(cases@.subrange(0, cases@.len() as int) =~= cases@);
        let timed_out = result.timed_out;
        TestOutput {
            cases,
            passed,
            failed,
            timed_out,
            overall_success: failed == 0 && !timed_out && result.success,
        }
    }
}

/// The report line of one test.
pub open spec fn case_line(c: TestCaseResult) -> Seq<char> {
    "["@ + (if c.status == TestCaseStatus::Passed { "PASS"@ } else { "FAIL"@ }) + "] "@ + c.name@
        + "\n"@
}

/// The report lines of all tests, in order.
pub open spec fn cases_text(cases: Seq<TestCaseResult>) -> Seq<char>
    decreases cases.len(),
{
    if cases.len() == 0 {
        Seq::empty()
    } else {
        cases_text(cases.drop_last()) + case_line(cases.last())
    }
}

/// Whether captured output is shown under a policy, given the verdict.
pub open spec fn shows_output(policy: ShowOutput, overall_success: bool) -> bool {
    match policy {
        ShowOutput::Always => true,
        ShowOutput::Never => false,
        ShowOutput::OnFailure => !overall_success,
    }
}

/// One captured stream, framed; nothing when the stream is empty.
pub open spec fn stream_section(label: Seq<char>, text: Seq<char>) -> Seq<char> {
    if text.len() == 0 {
        Seq::empty()
    } else {
        "\n--- captured "@ + label + " ---\n"@ + text + (if text.last() == '\n' {
            Seq::empty()
        } else {
            "\n"@
        }) + "--- end "@ + label + " ---\n"@
    }
}

/// The captured-output part of a report.
pub open spec fn captured_text(policy: ShowOutput, out: TestOutput, captured: Option<CapturedOutput>) -> Seq<char> {
    match captured {
        Some(c) => if shows_output(policy, out.overall_success) {
            stream_section("stdout"@, c.stdout@) + stream_section("stderr"@, c.stderr@)
        } else {
            Seq::empty()
        },
        None => Seq::empty(),
    }
}

/// The summary line of a report.
pub open spec fn summary_text(out: TestOutput) -> Seq<char> {
    "\ntest result: "@ + (if out.overall_success { "ok"@ } else { "FAILED"@ }) + ". "@ + decimal(
        out.passed as nat,
    ) + " passed, "@ + decimal(out.failed as nat) + " failed"@ + (if out.timed_out {
        " (timed out)"@
    } else {
        Seq::empty()
    }) + "\n"@
}

/// The whole report: test lines, captured output, summary.
pub open spec fn report_text(policy: ShowOutput, out: TestOutput, captured: Option<CapturedOutput>) -> Seq<char> {
    cases_text(out.cases@) + captured_text(policy, out, captured) + summary_text(out)
}

/// Lays out test results for the terminal.
#[derive(Debug, Clone, Copy)]
pub struct ResultFormatter {
    show_output: ShowOutput,
}

impl ResultFormatter {
    /// A formatter with the given policy for captured output.
    pub fn new(show_output: ShowOutput) -> (r: ResultFormatter)
        ensures
            r.policy() == show_output,
    {
        ResultFormatter { show_output }
    }

    /// The policy for captured output.
    pub closed spec fn policy(&self) -> ShowOutput {
        self.show_output
    }

    /// The policy for captured output.
    pub fn show_output(&self) -> (r: ShowOutput)
        ensures
            r == self.policy(),
    {
        self.show_output
    }

    /// The report text: one line per test, the captured output when the
    /// policy shows it, and the summary line.
    pub fn report(&self, output: &TestOutput, captured: Option<&CapturedOutput>) -> (r: String)
        ensures
            r@ == report_text(
                self.policy(),
                *output,
                match captured {
                    Some(c) => Some(*c),
                    None => None,
                },
            ),
    {
        let cases = cases_block(&output.cases);
        let shown = match self.show_output {
            ShowOutput::Always => true,
            ShowOutput::Never => false,
            ShowOutput::OnFailure => !output.overall_success,
        };
        let middle = match captured {
            Some(c) => {
                if shown {
                    let s = stream_block("stdout", c.stdout.as_str());
                    let e = stream_block("stderr", c.stderr.as_str());
                    join2(s.as_str(), e.as_str())
                } else {
                    String::new()
                }
            },
            None => String::new(),
        };
        let summary = summary_block(output);
        let head = join2(cases.as_str(), middle.as_str());
        join2(head.as_str(), summary.as_str())
    }
}

/// [`cases_text`] as text.
fn cases_block(cases: &Vec<TestCaseResult>) -> (r: String)
    ensures
        r@ == cases_text(cases@),
{
    let mut text = String::new();
    let mut i: usize = 0;
    while i < cases.len()
        invariant
            i <= cases@.len(),
            text@ == cases_text(cases@.subrange(0, i as int)),
        decreases cases@.len() - i,
    {
        let case = &cases[i];
        let marker = match case.status {
            TestCaseStatus::Passed => "PASS",
            TestCaseStatus::Failed => "FAIL",
        };
        let a = join2(text.as_str(), "[");
        let b = join2(a.as_str(), marker);
        let c = join2(b.as_str(), "] ");
        let d = join2(c.as_str(), case.name.as_str());
        text = join2(d.as_str(), "\n");
        assert(cases@.subrange(0, i + 1).drop_last() =~= cases@.subrange(0, i as int));
        i = i + 1;
    }
    assert(cases@.subrange(0, cases@.len() as int) =~= cases@);
    text
}

/// [`summary_text`] as text.
fn summary_block(output: &TestOutput) -> (r: String)
    ensures
        r@ == summary_text(*output),
{
    let verdict = if output.overall_success { "ok" } else { "FAILED" };
    let a = join2("\ntest result: ", verdict);
    let c = join2(a.as_str(), ". ");
    let d = join2(c.as_str(), nat_text(output.passed as u64).as_str());
    let e = join2(d.as_str(), " passed, ");
    let f = join2(e.as_str(), nat_text(output.failed as u64).as_str());
    let g = join2(f.as_str(), " failed");
    let h = if output.timed_out {
        join2(g.as_str(), " (timed out)")
    } else {
        g
    };
    join2(h.as_str(), "\n")
}

/// [`stream_section`] as text.
fn stream_block(label: &str, text: &str) -> (r: String)
    ensures
        r@ == stream_section(label@, text@),
{
    if text.is_empty() {
        return String::new();
    }
    let a = join2("\n--- captured ", label);
    let b = join2(a.as_str(), " ---\n");
    let mut c = join2(b.as_str(), text);
    let chars = crate::text::chars_of(text);
    if chars[chars.len() - 1] != '\n' {
        c = join2(c.as_str(), "\n");
    } else {
        assert(c@ =~= c@ + Seq::<char>::empty());
    }
    let d = join2(c.as_str(), "--- end ");
    let e = join2(d.as_str(), label);
    join2(e.as_str(), " ---\n")
}

} // verus!
