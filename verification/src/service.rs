//! A run of the service, from the command line to the exit code.
//!
//! A run captures the `qbw.exe` processes of the session, lets a worker thread query QuickBooks
//! under a watchdog, terminates whatever QuickBooks launched meanwhile, and only then, with
//! QuickBooks fully released, pushes the values to the spreadsheets. Where the capture fails, what
//! was launched cannot be told from what was there, and nothing is terminated.

use vstd::pervasive::unreached;
use vstd::prelude::*;
use vstd::string::*;

use crate::config::RunPlan;
use crate::listing;
use crate::listing::ListingView;
use crate::logging;
use crate::logging::{Level, LogRecord};
use crate::process;
use crate::text;

verus! {

/// What became of the worker thread. `E` is the error of the QuickBooks exchange.
#[derive(Debug)]
pub enum WorkerOutcome<E> {
    /// The response XML.
    Xml(String),
    /// The exchange failed; `text` is how its error reads.
    Failed { error: E, text: String },
    /// The thread ended without an answer.
    Lost,
    /// The watchdog timeout elapsed first.
    TimedOut,
}

/// Why a run fails.
#[derive(Debug)]
pub enum RunError<E> {
    /// The QuickBooks exchange failed.
    Worker(E),
    /// The worker thread ended without an answer.
    WorkerLost,
    /// The watchdog timeout, in seconds, elapsed first.
    TimedOut(u64),
}

/// A line for the error stream.
#[derive(Debug)]
pub enum RunReport {
    AccessFailed(String),
    TimedOut(u64),
    ProcessingFailed(String),
    ProcessingSucceeded,
}

/// A piece of outside work.
#[derive(Debug)]
pub enum RunCall {
    /// Capture the `qbw.exe` processes of the session that the run must spare.
    CaptureQbwPids,
    /// List the `qbw.exe` processes that run in the session now.
    ListQbwPids,
    /// Run the QuickBooks exchange on a thread of its own, and wait no longer than the timeout.
    FetchAccountXml { company_file: String, app_name: String, timeout_secs: u64 },
    /// Terminate processes.
    TerminatePids(Vec<u32>),
    /// Push what the response holds to the spreadsheets.
    ProcessQbxml { response_xml: String },
}

/// What a piece of outside work came back with.
#[derive(Debug)]
pub enum RunReply<E> {
    /// The processes to spare, where they could be captured.
    Captured(Option<Vec<u32>>),
    Pids(Vec<u32>),
    Fetched(WorkerOutcome<E>),
    Terminated,
    /// Pushing succeeded, or how its error reads.
    Processed(Result<(), String>),
}

/// Where a run stands: the work whose reply is awaited, and what comes later needs.
#[derive(Debug)]
pub enum RunStage<E> {
    /// The processes from before the run are being captured.
    Capturing { plan: RunPlan },
    Fetching { pre_pids: Option<Vec<u32>>, timeout_secs: u64 },
    /// The processes from after the exchange are being listed.
    Cleaning { pre_pids: Option<Vec<u32>>, fetched: Result<String, RunError<E>> },
    Terminating { fetched: Result<String, RunError<E>> },
    Processing,
}

/// What to do next: print the report, where there is one, and then go on.
#[derive(Debug)]
pub enum RunStep<E> {
    /// Do `call`, and come back in `stage` with its reply.
    Call { report: Option<RunReport>, stage: RunStage<E>, call: RunCall },
    /// The run is over.
    Return { report: Option<RunReport>, result: Result<(), RunError<E>> },
}

/// `RunCall`, with the processes to terminate as a sequence.
pub enum RunCallView {
    CaptureQbwPids,
    ListQbwPids,
    FetchAccountXml { company_file: String, app_name: String, timeout_secs: u64 },
    TerminatePids(Seq<u32>),
    ProcessQbxml { response_xml: String },
}

/// `RunStep`, with the call taken by its view.
pub enum RunStepView<E> {
    Call { report: Option<RunReport>, stage: RunStage<E>, call: RunCallView },
    Return { report: Option<RunReport>, result: Result<(), RunError<E>> },
}

impl View for RunCall {
    type V = RunCallView;

    open spec fn view(&self) -> RunCallView {
        match *self {
            RunCall::CaptureQbwPids => RunCallView::CaptureQbwPids,
            RunCall::ListQbwPids => RunCallView::ListQbwPids,
            RunCall::FetchAccountXml { company_file, app_name, timeout_secs } => {
                RunCallView::FetchAccountXml { company_file, app_name, timeout_secs }
            },
            RunCall::TerminatePids(pids) => RunCallView::TerminatePids(pids@),
            RunCall::ProcessQbxml { response_xml } => RunCallView::ProcessQbxml { response_xml },
        }
    }
}

impl<E> View for RunStep<E> {
    type V = RunStepView<E>;

    open spec fn view(&self) -> RunStepView<E> {
        match *self {
            RunStep::Call { report, stage, call } => RunStepView::Call {
                report,
                stage,
                call: call@,
            },
            RunStep::Return { report, result } => RunStepView::Return { report, result },
        }
    }
}

impl<E> RunStage<E> {
    /// Whether `reply` answers the work that this stage awaits.
    pub open spec fn awaits(self, reply: RunReply<E>) -> bool {
        match self {
            RunStage::Capturing { .. } => reply is Captured,
            RunStage::Fetching { .. } => reply is Fetched,
            RunStage::Cleaning { .. } => reply is Pids,
            RunStage::Terminating { .. } => reply is Terminated,
            RunStage::Processing => reply is Processed,
        }
    }

    /// An upper bound on the pieces of outside work left, the awaited one included.
    pub open spec fn calls_left(self) -> nat {
        match self {
            RunStage::Capturing { .. } => 5,
            RunStage::Fetching { .. } => 4,
            RunStage::Cleaning { .. } => 3,
            RunStage::Terminating { .. } => 2,
            RunStage::Processing => 1,
        }
    }
}

impl RunCallView {
    /// Whether `reply` is of the kind that this work gets.
    pub open spec fn answered_by<E>(self, reply: RunReply<E>) -> bool {
        match self {
            RunCallView::CaptureQbwPids => reply is Captured,
            RunCallView::ListQbwPids => reply is Pids,
            RunCallView::FetchAccountXml { .. } => reply is Fetched,
            RunCallView::TerminatePids(_) => reply is Terminated,
            RunCallView::ProcessQbxml { .. } => reply is Processed,
        }
    }
}

impl<E> RunStepView<E> {
    /// The stage awaits whatever the work may be answered by.
    pub open spec fn is_paired(self) -> bool {
        match self {
            RunStepView::Call { stage, call, .. } => forall|reply: RunReply<E>|
                #[trigger] call.answered_by(reply) <==> stage.awaits(reply),
            RunStepView::Return { .. } => true,
        }
    }

    /// An upper bound on the pieces of outside work still to do.
    pub open spec fn calls_left(self) -> nat {
        match self {
            RunStepView::Call { stage, .. } => stage.calls_left(),
            RunStepView::Return { .. } => 0,
        }
    }
}

/// What the worker's outcome means for the run.
pub open spec fn fetch_result<E>(outcome: WorkerOutcome<E>, timeout_secs: u64) -> Result<
    String,
    RunError<E>,
> {
    match outcome {
        WorkerOutcome::Xml(xml) => Ok(xml),
        WorkerOutcome::Failed { error, .. } => Err(RunError::Worker(error)),
        WorkerOutcome::Lost => Err(RunError::WorkerLost),
        WorkerOutcome::TimedOut => Err(RunError::TimedOut(timeout_secs)),
    }
}

/// What is said about the worker's outcome.
pub open spec fn fetch_report<E>(outcome: WorkerOutcome<E>, timeout_secs: u64) -> Option<
    RunReport,
> {
    match outcome {
        WorkerOutcome::Failed { text, .. } => Some(RunReport::AccessFailed(text)),
        WorkerOutcome::TimedOut => Some(RunReport::TimedOut(timeout_secs)),
        _ => None,
    }
}

/// How a run goes on after cleanup.
pub open spec fn released<E>(fetched: Result<String, RunError<E>>) -> RunStepView<E> {
    match fetched {
        Ok(response_xml) => RunStepView::Call {
            report: None,
            stage: RunStage::Processing,
            call: RunCallView::ProcessQbxml { response_xml },
        },
        Err(error) => RunStepView::Return { report: None, result: Err(error) },
    }
}

/// The step that a run starts with.
pub open spec fn first_step<E>(plan: RunPlan) -> RunStepView<E> {
    RunStepView::Call {
        report: None,
        stage: RunStage::Capturing { plan },
        call: RunCallView::CaptureQbwPids,
    }
}

/// The processes that this run is responsible for, of those in `running`: the ones that were not
/// captured before it, and none at all where the capture failed.
pub open spec fn run_owned(pre_pids: Option<Vec<u32>>, running: Seq<u32>) -> Seq<u32> {
    match pre_pids {
        Some(pre_pids) => process::owned_pids(pre_pids@, running),
        None => Seq::empty(),
    }
}

/// The step that follows `reply` in `stage`.
pub open spec fn next_step<E>(stage: RunStage<E>, reply: RunReply<E>) -> RunStepView<E> {
    match stage {
        RunStage::Capturing { plan } => RunStepView::Call {
            report: None,
            stage: RunStage::Fetching {
                pre_pids: reply->Captured_0,
                timeout_secs: plan.timeout_secs,
            },
            call: RunCallView::FetchAccountXml {
                company_file: plan.company_file,
                app_name: plan.app_name,
                timeout_secs: plan.timeout_secs,
            },
        },
        RunStage::Fetching { pre_pids, timeout_secs } => RunStepView::Call {
            report: fetch_report(reply->Fetched_0, timeout_secs),
            stage: RunStage::Cleaning {
                pre_pids,
                fetched: fetch_result(reply->Fetched_0, timeout_secs),
            },
            call: RunCallView::ListQbwPids,
        },
        RunStage::Cleaning { pre_pids, fetched } => {
            let owned = run_owned(pre_pids, reply->Pids_0@);
            if owned.len() > 0 {
                RunStepView::Call {
                    report: None,
                    stage: RunStage::Terminating { fetched },
                    call: RunCallView::TerminatePids(owned),
                }
            } else {
                released(fetched)
            }
        },
        RunStage::Terminating { fetched } => released(fetched),
        RunStage::Processing => RunStepView::Return {
            report: Some(
                match reply->Processed_0 {
                    Ok(_) => RunReport::ProcessingSucceeded,
                    Err(text) => RunReport::ProcessingFailed(text),
                },
            ),
            result: Ok(()),
        },
    }
}

/// Starts a run.
pub fn start_run<E>(plan: RunPlan) -> (step: RunStep<E>)
    ensures
        step@ == first_step::<E>(plan),
        step@.is_paired(),
{
    RunStep::Call {
        report: None,
        stage: RunStage::Capturing { plan },
        call: RunCall::CaptureQbwPids,
    }
}

/// Goes on after cleanup.
fn go_on_released<E>(fetched: Result<String, RunError<E>>) -> (step: RunStep<E>)
    ensures
        step@ == released(fetched),
{
    match fetched {
        Ok(response_xml) => RunStep::Call {
            report: None,
            stage: RunStage::Processing,
            call: RunCall::ProcessQbxml { response_xml },
        },
        Err(error) => RunStep::Return { report: None, result: Err(error) },
    }
}

/// One step of a run.
///
/// Whatever the worker's outcome, the processes that QuickBooks launched for this run are
/// terminated before anything else happens; where the capture failed, none is. A failed exchange
/// fails the run; failing to push the values is reported and does not.
pub fn run_qbxml<E>(stage: RunStage<E>, reply: RunReply<E>) -> (step: RunStep<E>)
    requires
        stage.awaits(reply),
    ensures
        step@ == next_step(stage, reply),
        step@.is_paired(),
        step@.calls_left() < stage.calls_left(),
{
    match (stage, reply) {
        (RunStage::Capturing { plan }, RunReply::Captured(pre_pids)) => RunStep::Call {
            report: None,
            stage: RunStage::Fetching { pre_pids, timeout_secs: plan.timeout_secs },
            call: RunCall::FetchAccountXml {
                company_file: plan.company_file,
                app_name: plan.app_name,
                timeout_secs: plan.timeout_secs,
            },
        },
        (RunStage::Fetching { pre_pids, timeout_secs }, RunReply::Fetched(outcome)) => {
            let (report, fetched) = match outcome {
                WorkerOutcome::Xml(xml) => (None, Ok(xml)),
                WorkerOutcome::Failed { error, text } => {
                    (Some(RunReport::AccessFailed(text)), Err(RunError::Worker(error)))
                },
                WorkerOutcome::Lost => (None, Err(RunError::WorkerLost)),
                WorkerOutcome::TimedOut => {
                    (Some(RunReport::TimedOut(timeout_secs)), Err(RunError::TimedOut(timeout_secs)))
                },
            };
            RunStep::Call {
                report,
                stage: RunStage::Cleaning { pre_pids, fetched },
                call: RunCall::ListQbwPids,
            }
        },
        (RunStage::Cleaning { pre_pids, fetched }, RunReply::Pids(running)) => {
            let owned = match &pre_pids {
                Some(pre_pids) => {
                    process::cleanup_owned_qbw(pre_pids.as_slice(), running.as_slice())
                },
                None => Vec::new(),
            };
            if owned.len() > 0 {
                RunStep::Call {
                    report: None,
                    stage: RunStage::Terminating { fetched },
                    call: RunCall::TerminatePids(owned),
                }
            } else {
                go_on_released(fetched)
            }
        },
        (RunStage::Terminating { fetched }, _) => go_on_released(fetched),
        (RunStage::Processing, RunReply::Processed(processed)) => {
            let report = match processed {
                Ok(_) => RunReport::ProcessingSucceeded,
                Err(text) => RunReport::ProcessingFailed(text),
            };
            RunStep::Return { report: Some(report), result: Ok(()) }
        },
        _ => unreached(),
    }
}

impl RunReport {
    /// How the line reads.
    pub open spec fn line_text(self) -> Seq<char> {
        match self {
            RunReport::AccessFailed(error) => "[QBXML] QuickBooks access failed: "@ + error@,
            RunReport::TimedOut(secs) => "[QBXML] QuickBooks access timed out after "@
                + text::decimal_digits(secs as nat)
                + "s; terminating this run's QuickBooks instance"@,
            RunReport::ProcessingFailed(error) => "[QBXML] Error processing QBXML: "@ + error@,
            RunReport::ProcessingSucceeded => "[QBXML] Processing succeeded"@,
        }
    }

    /// The line to print.
    pub fn line(&self) -> (r: String)
        ensures
            r@ == self.line_text(),
    {
        match self {
            RunReport::AccessFailed(error) => {
                let mut line = "[QBXML] QuickBooks access failed: ".to_string();
                line.append(error.as_str());
                line
            },
            RunReport::TimedOut(secs) => {
                let mut line = "[QBXML] QuickBooks access timed out after ".to_string();
                line.append(text::decimal(*secs).as_str());
                line.append("s; terminating this run's QuickBooks instance");
                line
            },
            RunReport::ProcessingFailed(error) => {
                let mut line = "[QBXML] Error processing QBXML: ".to_string();
                line.append(error.as_str());
                line
            },
            RunReport::ProcessingSucceeded => "[QBXML] Processing succeeded".to_string(),
        }
    }

    /// What the log says beside the line.
    pub open spec fn record_view(self) -> Option<(Level, Seq<char>)> {
        match self {
            RunReport::TimedOut(secs) => Some(
                (
                    Level::Error,
                    "QuickBooks access timed out after "@ + text::decimal_digits(secs as nat)
                        + "s"@,
                ),
            ),
            _ => None,
        }
    }

    /// The record to log once the line is printed.
    pub fn record(&self) -> (r: Option<LogRecord>)
        ensures
            logging::is_record(r, self.record_view()),
    {
        match self {
            RunReport::TimedOut(secs) => Some(
                LogRecord { level: Level::Error, message: timed_out(*secs) },
            ),
            _ => None,
        }
    }
}

impl RunCall {
    /// What the log says before the work is done.
    pub open spec fn record_view(self) -> Option<(Level, Seq<char>)> {
        match self {
            RunCall::TerminatePids(pids) => Some(
                (
                    Level::Info,
                    "Cleaning up "@ + text::decimal_digits(pids@.len())
                        + " auto-launched qbw.exe instance(s) in this session"@,
                ),
            ),
            _ => None,
        }
    }

    /// The record to log before the work is done.
    pub fn record(&self) -> (r: Option<LogRecord>)
        ensures
            logging::is_record(r, self.record_view()),
    {
        match self {
            RunCall::TerminatePids(pids) => {
                let mut message = "Cleaning up ".to_string();
                message.append(text::decimal(pids.len() as u64).as_str());
                message.append(" auto-launched qbw.exe instance(s) in this session");
                Some(LogRecord { level: Level::Info, message })
            },
            _ => None,
        }
    }
}

impl<E> WorkerOutcome<E> {
    /// What the log says of the outcome.
    pub open spec fn record_view(self) -> Option<(Level, Seq<char>)> {
        match self {
            WorkerOutcome::Xml(_) => Some(
                (Level::Info, "[QBXML] Retrieved account data from QuickBooks"@),
            ),
            _ => None,
        }
    }

    /// The record to log of the outcome.
    pub fn record(&self) -> (r: Option<LogRecord>)
        ensures
            logging::is_record(r, self.record_view()),
    {
        match self {
            WorkerOutcome::Xml(_) => Some(
                LogRecord {
                    level: Level::Info,
                    message: "[QBXML] Retrieved account data from QuickBooks".to_string(),
                },
            ),
            _ => None,
        }
    }
}

/// The message of a timeout.
fn timed_out(secs: u64) -> (r: String)
    ensures
        r@ == "QuickBooks access timed out after "@ + text::decimal_digits(secs as nat) + "s"@,
{
    let mut message = "QuickBooks access timed out after ".to_string();
    message.append(text::decimal(secs).as_str());
    message.append("s");
    message
}

impl<E> RunError<E> {
    /// The message of an error that arose here; an error of the exchange has its own.
    pub open spec fn message_text(self) -> Option<Seq<char>> {
        match self {
            RunError::Worker(_) => None,
            RunError::WorkerLost => Some("QuickBooks worker thread ended unexpectedly"@),
            RunError::TimedOut(secs) => Some(
                "QuickBooks access timed out after "@ + text::decimal_digits(secs as nat) + "s"@,
            ),
        }
    }

    /// The message of an error that arose here; `None` for one of the exchange.
    pub fn message(&self) -> (r: Option<String>)
        ensures
            r is Some == self.message_text() is Some,
            r is Some ==> r->0@ == self.message_text()->0,
    {
        match self {
            RunError::Worker(_) => None,
            RunError::WorkerLost => Some("QuickBooks worker thread ended unexpectedly".to_string()),
            RunError::TimedOut(secs) => Some(timed_out(*secs)),
        }
    }
}

/// Whether an argument asks for verbose output.
pub open spec fn asks_for_verbose(arg: Seq<char>) -> bool {
    arg == "--verbose"@ || arg == "-v"@
}

/// Whether any of the arguments asks for verbose output.
pub fn is_verbose(args: &[String]) -> (r: bool)
    ensures
        r == exists|i: int| 0 <= i < args@.len() && asks_for_verbose(#[trigger] args@[i]@),
        r == exists|i: int|
            0 <= i < args@.len() && (#[trigger] args@[i]@ == "--verbose"@ || args@[i]@ == "-v"@),
{
    let long = "--verbose".to_string();
    let short = "-v".to_string();
    let count: usize = args.len();
    let mut i: usize = 0;
    while i < count
        invariant
            i <= count,
            count == args@.len(),
            long@ == "--verbose"@,
            short@ == "-v"@,
            forall|j: int| 0 <= j < i ==> !asks_for_verbose(#[trigger] args@[j]@),
        decreases count - i,
    {
        if args[i] == long || args[i] == short {
            assert(asks_for_verbose(args@[i as int]@));
            return true;
        }
        i = i + 1;
    }
    false
}

/// The lines of the instructions, which verbose output opens with.
pub open spec fn instruction_lines() -> Seq<&'static str> {
    seq![
        "QuickBooks Account Query Service v5",
        "===================================",
        "",
        "This service reads configuration from config/config.toml and queries",
        "the specified account to retreive its balance from QuickBooks Desktop.",
        "",
        "Prerequisites:",
        "   1. QuickBooks Desktop and the QuickBooks SDK v16 (or higher) must be installed and running",
        "   2. A company file must be open in QuickBooks",
        "   3. The FullName of the account in config.toml must exist in QuickBooks",
        "",
        "Usage: main_account_query [--verbose]",
        "All account sync blocks are now read from config/config.toml; no account_full_name, sheet_name, or cell_address parameter is required.",
        "",
    ]
}

/// The lines of the instructions.
pub fn instructions() -> (lines: Vec<&'static str>)
    ensures
        lines@ == instruction_lines(),
{
    let lines = vec![
        "QuickBooks Account Query Service v5",
        "===================================",
        "",
        "This service reads configuration from config/config.toml and queries",
        "the specified account to retreive its balance from QuickBooks Desktop.",
        "",
        "Prerequisites:",
        "   1. QuickBooks Desktop and the QuickBooks SDK v16 (or higher) must be installed and running",
        "   2. A company file must be open in QuickBooks",
        "   3. The FullName of the account in config.toml must exist in QuickBooks",
        "",
        "Usage: main_account_query [--verbose]",
        "All account sync blocks are now read from config/config.toml; no account_full_name, sheet_name, or cell_address parameter is required.",
        "",
    ];
    assert(lines@ =~= instruction_lines());
    lines
}

/// The line that tells why the process fails.
pub open spec fn failure_text(error: Seq<char>) -> Seq<char> {
    "Error: "@ + error
}

/// The line that tells why the process fails.
pub fn failure_line(error: &str) -> (r: String)
    ensures
        r@ == failure_text(error@),
        r@ == "Error: "@ + error@,
{
    let mut line = "Error: ".to_string();
    line.append(error);
    line
}

/// The exit code of the process: one where the configuration could not be read or the run failed,
/// else zero.
pub fn exit_code<E>(result: &Result<(), E>) -> (code: i32)
    ensures
        code == (if *result is Ok {
            0int
        } else {
            1
        }),
{
    match result {
        Ok(_) => 0,
        Err(_) => 1,
    }
}

/// What the outside work of one run would come back with.
pub struct Replies<E> {
    /// The `qbw.exe` processes to spare, where they could be captured.
    pub pre_pids: Option<Vec<u32>>,
    pub worker: WorkerOutcome<E>,
    /// The `qbw.exe` processes of the session after the exchange.
    pub running: Vec<u32>,
    pub processed: Result<(), String>,
}

impl<E> Replies<E> {
    /// The reply to the work that `stage` awaits.
    pub open spec fn reply(self, stage: RunStage<E>) -> RunReply<E> {
        match stage {
            RunStage::Capturing { .. } => RunReply::Captured(self.pre_pids),
            RunStage::Fetching { .. } => RunReply::Fetched(self.worker),
            RunStage::Cleaning { .. } => RunReply::Pids(self.running),
            RunStage::Terminating { .. } => RunReply::Terminated,
            RunStage::Processing => RunReply::Processed(self.processed),
        }
    }

    /// The processes that QuickBooks launched for this run, as far as that can be told.
    pub open spec fn owned(self) -> Seq<u32> {
        run_owned(self.pre_pids, self.running@)
    }
}

/// The outside work done from `step` to the end of the run, in order.
pub open spec fn calls_made<E>(step: RunStepView<E>, replies: Replies<E>) -> Seq<RunCallView>
    decreases step.calls_left(),
{
    match step {
        RunStepView::Call { stage, call, .. } => seq![call] + calls_made(
            next_step(stage, replies.reply(stage)),
            replies,
        ),
        RunStepView::Return { .. } => Seq::empty(),
    }
}

/// An optional report as a sequence.
pub open spec fn reports(report: Option<RunReport>) -> Seq<RunReport> {
    match report {
        Some(report) => seq![report],
        None => Seq::empty(),
    }
}

/// The reports printed from `step` to the end of the run, in order.
pub open spec fn reports_made<E>(step: RunStepView<E>, replies: Replies<E>) -> Seq<RunReport>
    decreases step.calls_left(),
{
    match step {
        RunStepView::Call { report, stage, .. } => reports(report) + reports_made(
            next_step(stage, replies.reply(stage)),
            replies,
        ),
        RunStepView::Return { report, .. } => reports(report),
    }
}

/// What the run comes to from `step` on.
pub open spec fn outcome<E>(step: RunStepView<E>, replies: Replies<E>) -> Result<(), RunError<E>>
    decreases step.calls_left(),
{
    match step {
        RunStepView::Call { stage, .. } => outcome(next_step(stage, replies.reply(stage)), replies),
        RunStepView::Return { result, .. } => result,
    }
}

/// The outside work of a whole run, told by its replies.
pub open spec fn run_calls<E>(plan: RunPlan, replies: Replies<E>) -> Seq<RunCallView> {
    let cleanup = if replies.owned().len() > 0 {
        seq![RunCallView::TerminatePids(replies.owned())]
    } else {
        Seq::empty()
    };
    let push = match replies.worker {
        WorkerOutcome::Xml(response_xml) => seq![RunCallView::ProcessQbxml { response_xml }],
        _ => Seq::empty(),
    };
    seq![
        RunCallView::CaptureQbwPids,
        RunCallView::FetchAccountXml {
            company_file: plan.company_file,
            app_name: plan.app_name,
            timeout_secs: plan.timeout_secs,
        },
        RunCallView::ListQbwPids,
    ] + cleanup + push
}

/// The reports of a whole run, told by its replies.
pub open spec fn run_reports<E>(plan: RunPlan, replies: Replies<E>) -> Seq<RunReport> {
    match (replies.worker, replies.processed) {
        (WorkerOutcome::Xml(_), Ok(_)) => seq![RunReport::ProcessingSucceeded],
        (WorkerOutcome::Xml(_), Err(error)) => seq![RunReport::ProcessingFailed(error)],
        (worker, _) => reports(fetch_report(worker, plan.timeout_secs)),
    }
}

/// What a whole run comes to, told by its replies.
pub open spec fn run_result<E>(plan: RunPlan, replies: Replies<E>) -> Result<(), RunError<E>> {
    match fetch_result(replies.worker, plan.timeout_secs) {
        Ok(_) => Ok(()),
        Err(error) => Err(error),
    }
}

/// A run does exactly the outside work of `run_calls`, in that order, prints `run_reports`, and
/// comes to `run_result`.
pub proof fn law_run<E>(plan: RunPlan, replies: Replies<E>)
    ensures
        calls_made(first_step::<E>(plan), replies) == run_calls(plan, replies),
        reports_made(first_step::<E>(plan), replies) == run_reports(plan, replies),
        outcome(first_step::<E>(plan), replies) == run_result(plan, replies),
{
    reveal_with_fuel(calls_made, 7);
    reveal_with_fuel(reports_made, 7);
    reveal_with_fuel(outcome, 7);
    assert(calls_made(first_step::<E>(plan), replies) =~= run_calls(plan, replies));
    assert(reports_made(first_step::<E>(plan), replies) =~= run_reports(plan, replies));
}

/// A process is terminated only if the capture before the run succeeded and did not show it, and
/// the listing after the exchange did.
pub proof fn law_only_own_instances_die<E>(plan: RunPlan, replies: Replies<E>, i: int, pid: u32)
    requires
        0 <= i < calls_made(first_step::<E>(plan), replies).len(),
        calls_made(first_step::<E>(plan), replies)[i] matches RunCallView::TerminatePids(pids)
            && pids.contains(pid),
    ensures
        replies.pre_pids is Some,
        !replies.pre_pids->0@.contains(pid),
        replies.running@.contains(pid),
{
    law_run(plan, replies);
    if replies.pre_pids is Some {
        process::law_only_new_pids_are_owned(replies.pre_pids->0@, replies.running@);
    }
}

/// Where the capture before the run failed, nothing is terminated.
pub proof fn law_failed_capture_spares_all<E>(plan: RunPlan, replies: Replies<E>)
    requires
        replies.pre_pids is None,
    ensures
        forall|i: int|
            0 <= i < calls_made(first_step::<E>(plan), replies).len() ==> !(#[trigger] calls_made(
                first_step::<E>(plan),
                replies,
            )[i] is TerminatePids),
{
    law_run(plan, replies);
}

/// However the two listings of a run turned out, complete or not: a process is terminated only if
/// the earlier one was read to its end in a known session and shows no `qbw.exe` under its PID
/// that may have belonged to that session, and the later one shows it as a `qbw.exe` of the
/// session.
pub proof fn law_open_instances_are_spared<E>(
    plan: RunPlan,
    replies: Replies<E>,
    before: ListingView,
    after: ListingView,
    i: int,
    pid: u32,
)
    requires
        replies.pre_pids is Some == before.captured_pids() is Some,
        replies.pre_pids is Some ==> replies.pre_pids->0@ == before.captured_pids()->0,
        replies.running@ == after.running_pids(),
        0 <= i < calls_made(first_step::<E>(plan), replies).len(),
        calls_made(first_step::<E>(plan), replies)[i] matches RunCallView::TerminatePids(pids)
            && pids.contains(pid),
    ensures
        before.complete && before.session is Some && before.rows is Some,
        forall|j: int|
            0 <= j < before.rows->0.len() && (#[trigger] before.rows->0[j]).pid == pid
                ==> !process::may_be_session_qbw(before.rows->0[j], before.session->0),
        after.session is Some && after.rows is Some,
        exists|j: int|
            0 <= j < after.rows->0.len() && (#[trigger] after.rows->0[j]).pid == pid
                && process::is_session_qbw(after.rows->0[j], after.session->0),
{
    law_only_own_instances_die(plan, replies, i, pid);
    process::lemma_possible_qbw_pids(before.rows->0, before.session->0, pid);
    process::lemma_session_qbw_pids(after.rows->0, after.session->0, pid);
}

/// On every path the processes of the session are listed right after the exchange, and all that
/// QuickBooks can be told to have launched for the run, if any, are terminated right after that.
pub proof fn law_every_run_cleans_up<E>(plan: RunPlan, replies: Replies<E>)
    ensures
        ({
            let calls = calls_made(first_step::<E>(plan), replies);
            &&& calls.len() >= 3
            &&& calls[1] is FetchAccountXml
            &&& calls[2] == RunCallView::ListQbwPids
            &&& replies.owned().len() > 0 ==> calls.len() >= 4 && calls[3]
                == RunCallView::TerminatePids(replies.owned())
        }),
{
    law_run(plan, replies);
}

/// The values are pushed exactly where the exchange delivered them, once, and as the last work of
/// the run: the exchange is over, and cleanup done, before any network I/O.
pub proof fn law_release_before_push<E>(plan: RunPlan, replies: Replies<E>)
    ensures
        ({
            let calls = calls_made(first_step::<E>(plan), replies);
            &&& forall|i: int|
                0 <= i < calls.len() && (#[trigger] calls[i] is ProcessQbxml) ==> i == calls.len()
                    - 1
            &&& replies.worker matches WorkerOutcome::Xml(response_xml) ==> calls.last()
                == RunCallView::ProcessQbxml { response_xml }
            &&& !(replies.worker is Xml) ==> !(calls.last() is ProcessQbxml)
        }),
{
    law_run(plan, replies);
}

/// A run succeeds exactly where the exchange delivered the values; how pushing them turns out
/// does not change that.
pub proof fn law_push_does_not_decide<E>(plan: RunPlan, replies: Replies<E>)
    ensures
        outcome(first_step::<E>(plan), replies) is Ok <==> replies.worker is Xml,
{
    law_run(plan, replies);
}

/// The outside work of a run: the processes to spare are captured before anything else, then the
/// exchange runs with what the plan says, then the processes are listed, on every path. What comes
/// after that is the termination of those that only the later list shows, exactly where there is
/// one and the capture succeeded, and last the push, exactly where there is XML to push.
pub proof fn law_course_of_a_run<E>(plan: RunPlan, replies: Replies<E>)
    ensures
        ({
            let calls = calls_made(first_step::<E>(plan), replies);
            let n = calls.len() as int;
            let some_new = replies.pre_pids is Some && exists|pid: u32| #[trigger]
                replies.running@.contains(pid) && !replies.pre_pids->0@.contains(pid);
            &&& n >= 3
            &&& calls[0] == RunCallView::CaptureQbwPids
            &&& calls[1] == (RunCallView::FetchAccountXml {
                company_file: plan.company_file,
                app_name: plan.app_name,
                timeout_secs: plan.timeout_secs,
            })
            &&& calls[2] == RunCallView::ListQbwPids
            &&& n == 3 + (if some_new {
                1int
            } else {
                0
            }) + (if replies.worker is Xml {
                1int
            } else {
                0
            })
            &&& some_new ==> {
                &&& calls[3] is TerminatePids
                &&& calls[3]->TerminatePids_0 == process::owned_pids(
                    replies.pre_pids->0@,
                    replies.running@,
                )
            }
            &&& replies.worker matches WorkerOutcome::Xml(xml) ==> calls[n - 1] == (
            RunCallView::ProcessQbxml { response_xml: xml })
        }),
{
    law_run(plan, replies);
    let running = replies.running@;
    if replies.pre_pids is Some {
        let pre = replies.pre_pids->0@;
        process::law_only_new_pids_are_owned(pre, running);
        let owned = process::owned_pids(pre, running);
        if owned.len() > 0 {
            assert(owned.contains(owned[0]));
            assert(running.contains(owned[0]) && !pre.contains(owned[0]));
        }
        if exists|pid: u32| #[trigger] running.contains(pid) && !pre.contains(pid) {
            let pid = choose|pid: u32| #[trigger] running.contains(pid) && !pre.contains(pid);
            assert(owned.contains(pid));
        }
    }
}

/// The process `pid` is terminated somewhere in `calls`.
pub open spec fn terminates(calls: Seq<RunCallView>, pid: u32) -> bool {
    exists|k: int|
        0 <= k < calls.len() && (#[trigger] calls[k] is TerminatePids)
            && calls[k]->TerminatePids_0.contains(pid)
}

/// A run terminates exactly the processes that run after the exchange and were not captured before
/// it, and none where the capture failed.
pub proof fn law_exactly_new_processes_die<E>(plan: RunPlan, replies: Replies<E>, pid: u32)
    ensures
        terminates(calls_made(first_step::<E>(plan), replies), pid) <==> {
            &&& replies.pre_pids is Some
            &&& replies.running@.contains(pid)
            &&& !replies.pre_pids->0@.contains(pid)
        },
{
    law_run(plan, replies);
    law_course_of_a_run(plan, replies);
    let calls = calls_made(first_step::<E>(plan), replies);
    if replies.pre_pids is Some {
        process::law_only_new_pids_are_owned(replies.pre_pids->0@, replies.running@);
        if replies.running@.contains(pid) && !replies.pre_pids->0@.contains(pid) {
            assert(calls[3] is TerminatePids && calls[3]->TerminatePids_0.contains(pid));
        }
    }
}

/// Over the system calls of the two listings of a run: a process is terminated exactly where the
/// earlier listing was read to its end in a known session and no row of it under that PID names
/// `qbw.exe` and is of the session, or of an unknown one, while a row of the later listing under
/// that PID names `qbw.exe` and is of the session. So where no QuickBooks was open before the run,
/// every one of the session that is open after it is terminated.
pub proof fn law_launched_instances_die<E>(
    plan: RunPlan,
    replies: Replies<E>,
    before: listing::Replies,
    after: listing::Replies,
    pid: u32,
)
    requires
        ({
            let captured = listing::outcome(listing::first_step(), before).captured_pids();
            &&& replies.pre_pids is Some == captured is Some
            &&& captured is Some ==> replies.pre_pids->0@ == captured->0
        }),
        replies.running@ == listing::outcome(listing::first_step(), after).running_pids(),
    ensures
        terminates(calls_made(first_step::<E>(plan), replies), pid) <==> {
            &&& before.own_session is Some && before.taken && before.ends && before.rows.len() > 0
            &&& forall|i: int|
                0 <= i < before.rows.len() && (#[trigger] before.rows[i]).1 == pid
                    && process::names_qbw(before.rows[i].0@) ==> (before.sessions)(i) is Some && (
                before.sessions)(i) != before.own_session
            &&& after.own_session is Some && after.taken
            &&& exists|j: int|
                0 <= j < after.rows.len() && (#[trigger] after.rows[j]).1 == pid
                    && process::names_qbw(after.rows[j].0@) && (after.sessions)(j)
                    == after.own_session
        },
{
    law_exactly_new_processes_die(plan, replies, pid);
    listing::law_good_calls_capture(before, pid);
    listing::law_listing_keeps_what_was_seen(after);
    let later = listing::outcome(listing::first_step(), after);
    listing::law_listing_shows_running(later, pid);
    if later.running_pids().contains(pid) {
        let j = choose|j: int|
            0 <= j < later.rows->0.len() && (#[trigger] later.rows->0[j]).pid == pid
                && process::names_qbw(later.rows->0[j].exe_file@) && later.rows->0[j].session
                == later.session;
        assert(after.rows[j].1 == pid);
    }
    if after.own_session is Some && after.taken && exists|j: int|
        0 <= j < after.rows.len() && (#[trigger] after.rows[j]).1 == pid && process::names_qbw(
            after.rows[j].0@,
        ) && (after.sessions)(j) == after.own_session {
        let j = choose|j: int|
            0 <= j < after.rows.len() && (#[trigger] after.rows[j]).1 == pid && process::names_qbw(
                after.rows[j].0@,
            ) && (after.sessions)(j) == after.own_session;
        assert(later.rows->0[j].pid == pid);
    }
}

/// A run comes to what the worker comes to: success for any XML, and else its failure.
pub proof fn law_worker_decides<E>(plan: RunPlan, replies: Replies<E>)
    ensures
        match replies.worker {
            WorkerOutcome::Xml(_) => outcome(first_step::<E>(plan), replies) is Ok,
            WorkerOutcome::Failed { error, .. } => outcome(first_step::<E>(plan), replies) == Err::<
                (),
                RunError<E>,
            >(RunError::Worker(error)),
            WorkerOutcome::Lost => outcome(first_step::<E>(plan), replies) == Err::<
                (),
                RunError<E>,
            >(RunError::WorkerLost),
            WorkerOutcome::TimedOut => outcome(first_step::<E>(plan), replies) == Err::<
                (),
                RunError<E>,
            >(RunError::TimedOut(plan.timeout_secs)),
        },
{
    reveal_with_fuel(outcome, 7);
}

/// Something that happens in a run.
pub enum RunEvent {
    Said(RunReport),
    Did(RunCallView),
}

/// A report that is made, as events.
pub open spec fn said(report: Option<RunReport>) -> Seq<RunEvent> {
    match report {
        Some(report) => seq![RunEvent::Said(report)],
        None => Seq::empty(),
    }
}

/// What happens from `step` to the end of the run, in order.
pub open spec fn events<E>(step: RunStepView<E>, replies: Replies<E>) -> Seq<RunEvent>
    decreases step.calls_left(),
{
    match step {
        RunStepView::Call { report, stage, call } => said(report) + seq![RunEvent::Did(call)]
            + events(next_step(stage, replies.reply(stage)), replies),
        RunStepView::Return { report, .. } => said(report),
    }
}

/// What a run says, and when. A failed or timed-out exchange is reported right after it, before
/// the processes are listed; a lost worker is not. How the push went is said last. Nothing else is.
pub proof fn law_what_is_said_and_when<E>(plan: RunPlan, replies: Replies<E>)
    ensures
        ({
            let events = events(first_step::<E>(plan), replies);
            let n = events.len() as int;
            &&& n >= 3
            &&& events[0] is Did && events[1] is Did
            &&& match replies.worker {
                WorkerOutcome::Xml(_) => {
                    &&& events[n - 1] == RunEvent::Said(
                        match replies.processed {
                            Ok(_) => RunReport::ProcessingSucceeded,
                            Err(error) => RunReport::ProcessingFailed(error),
                        },
                    )
                    &&& forall|i: int| 0 <= i < n - 1 ==> #[trigger] events[i] is Did
                },
                WorkerOutcome::Failed { text, .. } => {
                    &&& events[2] == RunEvent::Said(RunReport::AccessFailed(text))
                    &&& forall|i: int| 3 <= i < n ==> #[trigger] events[i] is Did
                },
                WorkerOutcome::Lost => forall|i: int| 0 <= i < n ==> #[trigger] events[i] is Did,
                WorkerOutcome::TimedOut => {
                    &&& events[2] == RunEvent::Said(RunReport::TimedOut(plan.timeout_secs))
                    &&& forall|i: int| 3 <= i < n ==> #[trigger] events[i] is Did
                },
            }
        }),
{
    reveal_with_fuel(events, 7);
}

/// The lines of the reports, with the whole text of an error and the seconds of a timeout.
pub proof fn law_report_lines(report: RunReport)
    ensures
        match report {
            RunReport::AccessFailed(error) => report.line_text()
                == "[QBXML] QuickBooks access failed: "@ + error@,
            RunReport::TimedOut(secs) => report.line_text()
                == "[QBXML] QuickBooks access timed out after "@ + text::decimal_digits(secs as nat)
                + "s; terminating this run's QuickBooks instance"@,
            RunReport::ProcessingFailed(error) => report.line_text()
                == "[QBXML] Error processing QBXML: "@ + error@,
            RunReport::ProcessingSucceeded => report.line_text() == "[QBXML] Processing succeeded"@,
        },
{
}

/// The messages of the errors of a run: the timeout with its seconds, the lost worker, and none for
/// an error of the exchange, which has its own. Whatever fails the process is told whole.
pub proof fn law_run_error_messages<E>(error: RunError<E>, told: Seq<char>)
    ensures
        match error {
            RunError::Worker(_) => error.message_text() is None,
            RunError::WorkerLost => error.message_text() == Some(
                "QuickBooks worker thread ended unexpectedly"@,
            ),
            RunError::TimedOut(secs) => error.message_text() == Some(
                "QuickBooks access timed out after "@ + text::decimal_digits(secs as nat) + "s"@,
            ),
        },
        failure_text(told) == "Error: "@ + told,
{
}

/// What the log tells of a run: the number of processes that cleanup takes, that the account data
/// was retrieved, and that the exchange timed out.
pub proof fn law_run_is_told<E>(call: RunCall, report: RunReport, worker: WorkerOutcome<E>)
    ensures
        match call {
            RunCall::TerminatePids(pids) => call.record_view() == Some(
                (
                    Level::Info,
                    "Cleaning up "@ + text::decimal_digits(pids@.len())
                        + " auto-launched qbw.exe instance(s) in this session"@,
                ),
            ),
            _ => call.record_view() is None,
        },
        match report {
            RunReport::TimedOut(secs) => report.record_view() == Some(
                (
                    Level::Error,
                    "QuickBooks access timed out after "@ + text::decimal_digits(secs as nat)
                        + "s"@,
                ),
            ),
            _ => report.record_view() is None,
        },
        worker is Xml ==> worker.record_view() == Some(
            (Level::Info, "[QBXML] Retrieved account data from QuickBooks"@),
        ),
        !(worker is Xml) ==> worker.record_view() is None,
{
}

/// Verbose output is asked for by either of two arguments, letter for letter.
pub proof fn law_verbose_arguments(arg: Seq<char>)
    ensures
        asks_for_verbose(arg) <==> arg == "--verbose"@ || arg == "-v"@,
{
}

/// The instructions, line by line.
pub proof fn law_instructions(lines: Seq<&'static str>)
    requires
        lines == instruction_lines(),
    ensures
        lines.len() == 14,
        lines[0]@ == "QuickBooks Account Query Service v5"@,
        lines[1]@ == "==================================="@,
        lines[2]@ == ""@,
        lines[3]@ == "This service reads configuration from config/config.toml and queries"@,
        lines[4]@ == "the specified account to retreive its balance from QuickBooks Desktop."@,
        lines[5]@ == ""@,
        lines[6]@ == "Prerequisites:"@,
        lines[7]@
            == "   1. QuickBooks Desktop and the QuickBooks SDK v16 (or higher) must be installed and running"@,
        lines[8]@ == "   2. A company file must be open in QuickBooks"@,
        lines[9]@ == "   3. The FullName of the account in config.toml must exist in QuickBooks"@,
        lines[10]@ == ""@,
        lines[11]@ == "Usage: main_account_query [--verbose]"@,
        lines[12]@
            == "All account sync blocks are now read from config/config.toml; no account_full_name, sheet_name, or cell_address parameter is required."@,
        lines[13]@ == ""@,
{
}

/// Every reply from `step` on is one that the stage it comes to accepts.
pub open spec fn accepts_all<E>(step: RunStepView<E>, replies: Replies<E>) -> bool
    decreases step.calls_left(),
{
    match step {
        RunStepView::Call { stage, .. } => stage.awaits(replies.reply(stage)) && accepts_all(
            next_step(stage, replies.reply(stage)),
            replies,
        ),
        RunStepView::Return { .. } => true,
    }
}

/// Whatever the outside work comes back with, the run goes on to its end.
pub proof fn law_run_accepts_every_reply<E>(step: RunStepView<E>, replies: Replies<E>)
    ensures
        accepts_all(step, replies),
    decreases step.calls_left(),
{
    match step {
        RunStepView::Call { stage, .. } => {
            law_run_accepts_every_reply(next_step(stage, replies.reply(stage)), replies);
        },
        RunStepView::Return { .. } => {},
    }
}

/// The views of the work and of the steps leave nothing out.
pub proof fn law_views_are_whole<E>(call: RunCall, step: RunStep<E>)
    ensures
        match call {
            RunCall::CaptureQbwPids => call@ is CaptureQbwPids,
            RunCall::ListQbwPids => call@ is ListQbwPids,
            RunCall::FetchAccountXml { company_file, app_name, timeout_secs } => call@ == (
            RunCallView::FetchAccountXml { company_file, app_name, timeout_secs }),
            RunCall::TerminatePids(pids) => call@ == RunCallView::TerminatePids(pids@),
            RunCall::ProcessQbxml { response_xml } => call@ == (RunCallView::ProcessQbxml {
                response_xml,
            }),
        },
        match step {
            RunStep::Call { report, stage, call } => step@ == (RunStepView::Call {
                report,
                stage,
                call: call@,
            }),
            RunStep::Return { report, result } => step@ == (RunStepView::Return { report, result }),
        },
{
}

} // verus!
