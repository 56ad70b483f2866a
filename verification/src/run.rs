//! The run over the accounts: what is reported of each account, and when
//! the run ends before its time.
//!
//! Accounts are processed one after the other. An account that fails for its
//! configuration, or for the protocol, is reported and passed over. One
//! failure ends the whole run with a status that is not zero: a negative
//! response of the server. So does a failure to load the settings.

use crate::error::ConnectionError;
use crate::error::ConnectionErrorView;
use crate::error::ImapFailure;
use crate::error::ImapFailureView;
use crate::source::ConfigError;
use crate::source::ConfigErrorView;
use crate::text::debug_format;
use crate::text::debug_text;
use vstd::prelude::*;
use vstd::string::StringExecFns;

verus! {

/// The status with which a run ends before its time.
pub const FAILURE_STATUS: i32 = 1;

/// What is said on a negative response of the server.
pub const NEGATIVE_RESPONSE_MESSAGE: &'static str = "Invalid 0";

/// What a report holds.
pub struct ReportView {
    pub stdout: Seq<char>,
    pub stderr: Seq<char>,
    pub exit: Option<i32>,
}

/// What the caller is to write, and whether the process is to end: first
/// `stdout` to the standard output, then `stderr` to the standard error,
/// then, where `exit` holds a status, the exit with it.
#[derive(Debug, Clone, PartialEq, Eq)]
pub struct Report {
    pub stdout: String,
    pub stderr: String,
    pub exit: Option<i32>,
}

impl View for Report {
    type V = ReportView;

    open spec fn view(&self) -> ReportView {
        ReportView { stdout: self.stdout@, stderr: self.stderr@, exit: self.exit }
    }
}

/// How an account ended, as mathematical values.
pub open spec fn outcome_view(result: Result<(), ConnectionError>) -> Result<
    (),
    ConnectionErrorView,
> {
    match result {
        Ok(_) => Ok(()),
        Err(error) => Err(error@),
    }
}

/// Whether an outcome ends the run: only a negative response does.
pub open spec fn is_fatal(outcome: Result<(), ConnectionErrorView>) -> bool {
    outcome matches Err(error) && error.is_negative_response()
}

/// The line that reports a fatal condition; `quoted_message` is its message
/// as `{:?}` writes it.
pub open spec fn fatal_line(quoted_message: Seq<char>) -> Seq<char> {
    "ERROR: "@ + quoted_message + "\n"@
}

/// The line that reports a failure of the configuration; `quoted_message`
/// is its message as `{:?}` writes it.
pub open spec fn config_line(quoted_message: Seq<char>) -> Seq<char> {
    "CONFIG: "@ + quoted_message + "\n"@
}

/// What is reported of an account. Success is marked on the standard
/// output; every failure is described on the standard error; a negative
/// response moreover ends the process with `FAILURE_STATUS`.
pub open spec fn account_report(outcome: Result<(), ConnectionErrorView>) -> ReportView {
    match outcome {
        Ok(_) => ReportView { stdout: "---\nDone.\n"@, stderr: Seq::empty(), exit: None },
        Err(ConnectionErrorView::ImapError(ImapFailureView::No(_))) => ReportView {
            stdout: Seq::empty(),
            stderr: fatal_line(debug_text(NEGATIVE_RESPONSE_MESSAGE@)),
            exit: Some(FAILURE_STATUS),
        },
        Err(ConnectionErrorView::ImapError(ImapFailureView::Other(description))) => ReportView {
            stdout: Seq::empty(),
            stderr: description + "\n"@,
            exit: None,
        },
        Err(ConnectionErrorView::ConfigError(message)) => ReportView {
            stdout: Seq::empty(),
            stderr: config_line(debug_text(message)),
            exit: None,
        },
        Err(ConnectionErrorView::EncodingError(description)) => ReportView {
            stdout: Seq::empty(),
            stderr: "Encoding: "@ + description + "\n"@,
            exit: None,
        },
    }
}

/// Renders the line that reports a fatal condition; `quoted_message` is its
/// message as `{:?}` writes it.
pub fn render_fatal_line(quoted_message: &str) -> (line: String)
    ensures
        line@ == fatal_line(quoted_message@),
{
    let mut line = String::from_str("ERROR: ");
    line.append(quoted_message);
    line.append("\n");
    line
}

/// Renders the line that reports a failure of the configuration;
/// `quoted_message` is its message as `{:?}` writes it.
pub fn render_config_line(quoted_message: &str) -> (line: String)
    ensures
        line@ == config_line(quoted_message@),
{
    let mut line = String::from_str("CONFIG: ");
    line.append(quoted_message);
    line.append("\n");
    line
}

/// Reports how an account ended.
pub fn report_account(result: &Result<(), ConnectionError>) -> (report: Report)
    ensures
        report@ == account_report(outcome_view(*result)),
        report@.exit is Some <==> is_fatal(outcome_view(*result)),
        report@.exit matches Some(status) ==> status != 0,
{
    match result {
        Ok(_) => Report {
            stdout: String::from_str("---\nDone.\n"),
            stderr: String::new(),
            exit: None,
        },
        Err(ConnectionError::ImapError(ImapFailure::No(_))) => {
            let quoted = debug_format(NEGATIVE_RESPONSE_MESSAGE);
            Report {
                stdout: String::new(),
                stderr: render_fatal_line(quoted.as_str()),
                exit: Some(FAILURE_STATUS),
            }
        },
        Err(ConnectionError::ImapError(ImapFailure::Other(description))) => {
            let mut stderr = description.clone();
            stderr.append("\n");
            Report { stdout: String::new(), stderr, exit: None }
        },
        Err(ConnectionError::ConfigError(message)) => {
            let quoted = debug_format(message.as_str());
            Report {
                stdout: String::new(),
                stderr: render_config_line(quoted.as_str()),
                exit: None,
            }
        },
        Err(ConnectionError::EncodingError(description)) => {
            let mut stderr = String::from_str("Encoding: ");
            stderr.append(description.as_str());
            stderr.append("\n");
            Report { stdout: String::new(), stderr, exit: None }
        },
    }
}

/// The sample configuration as it is shown when the settings cannot be
/// loaded: the sample and a line feed on the standard output where there is
/// a sample, the reason on the standard error where there is none.
pub open spec fn sample_report(sample: Result<Seq<char>, Seq<char>>) -> ReportView {
    match sample {
        Ok(text) => ReportView { stdout: text + "\n"@, stderr: Seq::empty(), exit: None },
        Err(reason) => ReportView {
            stdout: Seq::empty(),
            stderr: "ERR: "@ + reason + "\n"@,
            exit: None,
        },
    }
}

/// What is reported when the settings cannot be loaded: the sample
/// configuration, then the failure in words, and the process ends with
/// `FAILURE_STATUS`.
pub open spec fn load_failure_report(
    error: ConfigErrorView,
    sample: Result<Seq<char>, Seq<char>>,
) -> ReportView {
    ReportView {
        stdout: sample_report(sample).stdout,
        stderr: sample_report(sample).stderr + fatal_line(debug_text(error.message())),
        exit: Some(FAILURE_STATUS),
    }
}

/// The view of a sample that was rendered or not.
pub open spec fn sample_view(sample: Result<String, String>) -> Result<Seq<char>, Seq<char>> {
    match sample {
        Ok(text) => Ok(text@),
        Err(reason) => Err(reason@),
    }
}

/// Reports that the settings could not be loaded. `sample` is the sample
/// configuration as text, or why it could not be rendered.
pub fn report_load_failure(error: &ConfigError, sample: &Result<String, String>) -> (report: Report)
    ensures
        report@ == load_failure_report(error@, sample_view(*sample)),
        report@.exit matches Some(status) && status != 0,
{
    let mut stdout = String::new();
    let mut stderr = String::new();
    match sample {
        Ok(text) => {
            stdout.append(text.as_str());
            stdout.append("\n");
        },
        Err(reason) => {
            stderr.append("ERR: ");
            stderr.append(reason.as_str());
            stderr.append("\n");
        },
    }
    let message = error.message();
    let quoted = debug_format(message.as_str());
    let line = render_fatal_line(quoted.as_str());
    stderr.append(line.as_str());
    Report { stdout, stderr, exit: Some(FAILURE_STATUS) }
}

/// The state of a run over `total` accounts: how many of them have been
/// processed, and whether the run was ended before its time.
#[derive(Debug, Clone, Copy, PartialEq, Eq, Structural)]
pub struct Run {
    pub total: usize,
    pub processed: usize,
    pub halted: bool,
}

impl Run {
    /// Whether an account is still to be processed.
    pub open spec fn pending(self) -> bool {
        !self.halted && self.processed < self.total
    }

    /// The run after its next account ended, fatally or not. A run without
    /// a pending account stays as it is.
    pub open spec fn recorded(self, fatal: bool) -> Run {
        if self.pending() {
            Run { total: self.total, processed: (self.processed + 1) as usize, halted: fatal }
        } else {
            self
        }
    }

    /// The run after the next accounts ended as `outcomes` say, in turn.
    pub open spec fn run_through(self, outcomes: Seq<Result<(), ConnectionErrorView>>) -> Run
        decreases outcomes.len(),
    {
        if outcomes.len() == 0 {
            self
        } else {
            self.run_through(outcomes.drop_last()).recorded(is_fatal(outcomes.last()))
        }
    }

    /// The status with which the process ends after this run.
    pub open spec fn status(self) -> i32 {
        if self.halted {
            FAILURE_STATUS
        } else {
            0
        }
    }

    /// A run over `total` accounts, none of them processed yet.
    pub fn new(total: usize) -> (run: Run)
        ensures
            run == (Run { total, processed: 0, halted: false }),
    {
        Run { total, processed: 0, halted: false }
    }

    /// The position of the account to process next: none once every account
    /// was processed or the run was ended.
    pub fn next_account(&self) -> (next: Option<usize>)
        ensures
            next is Some == self.pending(),
            next matches Some(position) ==> position == self.processed,
    {
        if !self.halted && self.processed < self.total {
            Some(self.processed)
        } else {
            None
        }
    }

    /// Records how the next account ended, and reports it.
    pub fn record(&mut self, result: &Result<(), ConnectionError>) -> (report: Report)
        ensures
            *final(self) == old(self).recorded(is_fatal(outcome_view(*result))),
            report@ == account_report(outcome_view(*result)),
    {
        let report = report_account(result);
        if !self.halted && self.processed < self.total {
            self.processed = self.processed + 1;
            self.halted = report.exit.is_some();
        }
        report
    }

    /// The status with which the process ends after this run: zero unless
    /// the run was ended before its time.
    pub fn exit_status(&self) -> (status: i32)
        ensures
            status == self.status(),
            status != 0 <==> self.halted,
    {
        if self.halted {
            FAILURE_STATUS
        } else {
            0
        }
    }
}

/// Failures that are not fatal stop nothing: where none of the accounts
/// ends in a negative response, whatever else they end in, every one of
/// them is processed and the run ends with status zero.
pub proof fn lemma_other_failures_do_not_stop_the_run(
    total: usize,
    outcomes: Seq<Result<(), ConnectionErrorView>>,
)
    requires
        outcomes.len() <= total,
        forall|i: int| 0 <= i < outcomes.len() ==> !is_fatal(#[trigger] outcomes[i]),
    ensures
        (Run { total, processed: 0, halted: false }).run_through(outcomes) == (Run {
            total,
            processed: outcomes.len() as usize,
            halted: false,
        }),
        (Run { total, processed: 0, halted: false }).run_through(outcomes).status() == 0,
    decreases outcomes.len(),
{
    if outcomes.len() > 0 {
        lemma_other_failures_do_not_stop_the_run(total, outcomes.drop_last());
    }
}

/// A negative response ends the run: where account `first` is the first to
/// end in one, the accounts up to it are processed, none after it is, and
/// the run ends with a status that is not zero.
pub proof fn lemma_a_negative_response_halts_the_run(
    total: usize,
    outcomes: Seq<Result<(), ConnectionErrorView>>,
    first: int,
)
    requires
        outcomes.len() <= total,
        0 <= first < outcomes.len(),
        is_fatal(outcomes[first]),
        forall|i: int| 0 <= i < first ==> !is_fatal(#[trigger] outcomes[i]),
    ensures
        (Run { total, processed: 0, halted: false }).run_through(outcomes) == (Run {
            total,
            processed: (first + 1) as usize,
            halted: true,
        }),
        (Run { total, processed: 0, halted: false }).run_through(outcomes).status() != 0,
    decreases outcomes.len(),
{
    let earlier = outcomes.drop_last();
    if first == outcomes.len() - 1 {
        lemma_other_failures_do_not_stop_the_run(total, earlier);
    } else {
        lemma_a_negative_response_halts_the_run(total, earlier, first);
    }
}

} // verus!
