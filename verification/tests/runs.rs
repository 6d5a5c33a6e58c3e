use qb_sync::config::RunPlan;
use qb_sync::listing::Listing;
use qb_sync::logging::{Level, LogRecord};
use qb_sync::process::ProcessEntry;
use qb_sync::service::{
    exit_code, failure_line, instructions, is_verbose, run_qbxml, start_run, RunCall, RunError,
    RunReply, RunReport, RunStep, WorkerOutcome,
};

fn plan() -> RunPlan {
    RunPlan {
        company_file: "C:\\books.qbw".to_string(),
        app_name: "Nightly".to_string(),
        timeout_secs: 90,
        notice: None,
    }
}

fn drive(
    pre: Option<Vec<u32>>,
    worker: WorkerOutcome<u8>,
    running: Vec<u32>,
    processed: Result<(), String>,
) -> (Vec<String>, Result<(), RunError<u8>>) {
    let mut trace = Vec::new();
    let mut pre = Some(pre);
    let mut running = Some(running);
    let mut worker = Some(worker);
    let mut processed = Some(processed);
    let mut step = start_run::<u8>(plan());
    loop {
        match step {
            RunStep::Return { report, result } => {
                if let Some(report) = report {
                    trace.push(report.line());
                }
                return (trace, result);
            }
            RunStep::Call { report, stage, call } => {
                if let Some(report) = report {
                    trace.push(report.line());
                }
                let reply = match call {
                    RunCall::CaptureQbwPids => {
                        trace.push("capture".to_string());
                        RunReply::Captured(pre.take().unwrap())
                    }
                    RunCall::ListQbwPids => {
                        trace.push("list".to_string());
                        RunReply::Pids(running.take().unwrap())
                    }
                    RunCall::FetchAccountXml { company_file, app_name, timeout_secs } => {
                        trace.push(format!("fetch {} {} {}", company_file, app_name, timeout_secs));
                        RunReply::Fetched(worker.take().unwrap())
                    }
                    RunCall::TerminatePids(pids) => {
                        trace.push(format!("terminate {:?}", pids));
                        RunReply::Terminated
                    }
                    RunCall::ProcessQbxml { response_xml } => {
                        trace.push(format!("push {}", response_xml));
                        RunReply::Processed(processed.take().unwrap())
                    }
                };
                step = run_qbxml(stage, reply);
            }
        }
    }
}

const FETCH: &str = "fetch C:\\books.qbw Nightly 90";

#[test]
fn quickbooks_is_gone_before_the_push() {
    let (trace, result) = drive(
        Some(vec![3]),
        WorkerOutcome::Xml("<xml/>".to_string()),
        vec![3, 8, 9],
        Ok(()),
    );
    assert_eq!(
        trace,
        ["capture", FETCH, "list", "terminate [8, 9]", "push <xml/>", "[QBXML] Processing succeeded"]
    );
    assert!(result.is_ok());
}

#[test]
fn nothing_launched_nothing_terminated() {
    let (trace, result) = drive(
        Some(vec![3, 4]),
        WorkerOutcome::Xml("<xml/>".to_string()),
        vec![4],
        Err("no network".to_string()),
    );
    assert_eq!(
        trace,
        ["capture", FETCH, "list", "push <xml/>", "[QBXML] Error processing QBXML: no network"]
    );
    assert!(result.is_ok());
}

#[test]
fn failed_exchange_cleans_up_and_fails() {
    let (trace, result) = drive(
        Some(vec![]),
        WorkerOutcome::Failed { error: 7, text: "no file".to_string() },
        vec![5],
        Ok(()),
    );
    assert_eq!(
        trace,
        ["capture", FETCH, "[QBXML] QuickBooks access failed: no file", "list", "terminate [5]"]
    );
    let error = result.unwrap_err();
    assert!(matches!(error, RunError::Worker(7)));
    assert!(error.message().is_none());
}

#[test]
fn lost_worker_cleans_up_and_fails() {
    let (trace, result) = drive(Some(vec![5]), WorkerOutcome::Lost, vec![5], Ok(()));
    assert_eq!(trace, ["capture", FETCH, "list"]);
    let error = result.unwrap_err();
    assert!(matches!(error, RunError::WorkerLost));
    assert_eq!(error.message().unwrap(), "QuickBooks worker thread ended unexpectedly");
}

#[test]
fn timeout_cleans_up_and_fails() {
    let (trace, result) = drive(Some(vec![1]), WorkerOutcome::TimedOut, vec![2, 1], Ok(()));
    assert_eq!(
        trace,
        [
            "capture",
            FETCH,
            "[QBXML] QuickBooks access timed out after 90s; terminating this run's QuickBooks instance",
            "list",
            "terminate [2]"
        ]
    );
    let error = result.unwrap_err();
    assert!(matches!(error, RunError::TimedOut(90)));
    assert_eq!(error.message().unwrap(), "QuickBooks access timed out after 90s");
}

#[test]
fn failed_capture_terminates_nothing() {
    let (trace, result) = drive(
        None,
        WorkerOutcome::Xml("<xml/>".to_string()),
        vec![100],
        Ok(()),
    );
    assert_eq!(
        trace,
        ["capture", FETCH, "list", "push <xml/>", "[QBXML] Processing succeeded"]
    );
    assert!(result.is_ok());

    let (trace, result) = drive(None, WorkerOutcome::Lost, vec![100], Ok(()));
    assert_eq!(trace, ["capture", FETCH, "list"]);
    assert!(matches!(result, Err(RunError::WorkerLost)));

    let (trace, result) = drive(None, WorkerOutcome::TimedOut, vec![100], Ok(()));
    assert_eq!(trace.len(), 4);
    assert_eq!(trace[3], "list");
    assert!(matches!(result, Err(RunError::TimedOut(90))));
}

#[test]
fn instances_open_before_a_bad_capture_survive() {
    let row = |pid: u32, session: Option<u32>| ProcessEntry {
        exe_file: "qbw.exe".encode_utf16().collect(),
        pid,
        session,
    };
    let after = Listing {
        session: Some(1),
        rows: Some(vec![row(100, Some(1)), row(101, Some(1))]),
        complete: true,
    };
    let trace_after = |before: Listing| {
        let (trace, _) = drive(before.captured(), WorkerOutcome::Lost, after.running(), Ok(()));
        trace
    };
    let spared = ["capture", FETCH, "list"];
    assert_eq!(trace_after(Listing { session: None, rows: None, complete: false }), spared);
    assert_eq!(trace_after(Listing { session: Some(1), rows: None, complete: false }), spared);
    assert_eq!(
        trace_after(Listing { session: Some(1), rows: Some(vec![]), complete: false }),
        spared
    );
    assert_eq!(
        trace_after(Listing {
            session: Some(1),
            rows: Some(vec![row(100, None), row(7, Some(2))]),
            complete: true,
        }),
        ["capture", FETCH, "list", "terminate [101]"]
    );
}

fn logged(record: Option<LogRecord>) -> Option<(Level, String)> {
    record.map(|record| (record.level, record.message))
}

#[test]
fn run_records() {
    assert_eq!(
        logged(RunCall::TerminatePids(vec![8, 9]).record()),
        Some((
            Level::Info,
            "Cleaning up 2 auto-launched qbw.exe instance(s) in this session".to_string()
        ))
    );
    assert_eq!(logged(RunCall::CaptureQbwPids.record()), None);
    assert_eq!(logged(RunCall::ListQbwPids.record()), None);
    assert_eq!(
        logged(RunReport::TimedOut(90).record()),
        Some((Level::Error, "QuickBooks access timed out after 90s".to_string()))
    );
    assert_eq!(logged(RunReport::ProcessingSucceeded.record()), None);
    assert_eq!(logged(RunReport::AccessFailed("x".to_string()).record()), None);
    assert_eq!(
        logged(WorkerOutcome::<u8>::Xml("<xml/>".to_string()).record()),
        Some((Level::Info, "[QBXML] Retrieved account data from QuickBooks".to_string()))
    );
    assert_eq!(logged(WorkerOutcome::<u8>::Lost.record()), None);
    assert_eq!(logged(WorkerOutcome::<u8>::TimedOut.record()), None);
}

#[test]
fn seconds_read_as_decimal() {
    for secs in [0u64, 7, 10, 99, 100, 120, 4294967295, u64::MAX] {
        assert_eq!(
            RunError::<u8>::TimedOut(secs).message().unwrap(),
            format!("QuickBooks access timed out after {}s", secs)
        );
    }
}

#[test]
fn report_lines() {
    assert_eq!(
        RunReport::AccessFailed("x".to_string()).line(),
        "[QBXML] QuickBooks access failed: x"
    );
    assert_eq!(
        RunReport::ProcessingFailed("y".to_string()).line(),
        "[QBXML] Error processing QBXML: y"
    );
}

#[test]
fn verbose_flags() {
    let args = |list: &[&str]| list.iter().map(|a| a.to_string()).collect::<Vec<String>>();
    assert!(is_verbose(&args(&["main", "--verbose"])));
    assert!(is_verbose(&args(&["main", "x", "-v", "y"])));
    assert!(is_verbose(&args(&["-v"])));
    assert!(!is_verbose(&args(&["main", "-V", "--verbos", "verbose", ""])));
    assert!(!is_verbose(&args(&[])));
}

#[test]
fn instructions_read_as_published() {
    let lines = instructions();
    assert_eq!(lines.len(), 14);
    assert_eq!(lines[0], "QuickBooks Account Query Service v5");
    assert_eq!(lines[1], "===================================");
    assert_eq!(lines[2], "");
    assert_eq!(lines[11], "Usage: main_account_query [--verbose]");
    assert_eq!(lines[13], "");
}

#[test]
fn exit_codes() {
    assert_eq!(exit_code::<u8>(&Ok(())), 0);
    assert_eq!(exit_code::<u8>(&Err(1)), 1);
    assert_eq!(failure_line("no config"), "Error: no config");
}
