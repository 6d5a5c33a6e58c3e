use qb_sync::logging::Level;
use qb_sync::worker::{
    fetch_account_xml, start_fetch, FetchCall, FetchError, FetchReply, FetchStep, FileMode,
};

struct Answers {
    init: i32,
    create: Result<(), u8>,
    open: Result<(), u8>,
    begin: Result<&'static str, u8>,
    query: Result<Option<&'static str>, u8>,
    end: Result<(), u8>,
    close: Result<(), u8>,
}

fn all_well() -> Answers {
    Answers {
        init: 0,
        create: Ok(()),
        open: Ok(()),
        begin: Ok("ticket-1"),
        query: Ok(Some("<xml/>")),
        end: Ok(()),
        close: Ok(()),
    }
}

fn describe(call: &FetchCall) -> String {
    match call {
        FetchCall::Initialize { flags } => format!("initialize {}", flags),
        FetchCall::CreateProcessor => "create".to_string(),
        FetchCall::OpenConnection { app_id, app_name } => format!("open {:?} {:?}", app_id, app_name),
        FetchCall::BeginSession { company_file, mode } => {
            assert_eq!(*mode, FileMode::DoNotCare);
            format!("begin {:?}", company_file)
        }
        FetchCall::GetAccountXml { ticket } => format!("query {}", ticket),
        FetchCall::EndSession { ticket } => format!("end {}", ticket),
        FetchCall::CloseConnection => "close".to_string(),
        FetchCall::ReleaseProcessor => "release".to_string(),
        FetchCall::Uninitialize => "uninitialize".to_string(),
    }
}

fn drive(answers: Answers) -> (Vec<String>, Result<String, FetchError<u8>>) {
    let mut calls = Vec::new();
    let mut step = start_fetch::<u8>("C:\\books.qbw".to_string(), "Sync".to_string());
    loop {
        match step {
            FetchStep::Return(result) => return (calls, result),
            FetchStep::Call { stage, call } => {
                calls.push(describe(&call));
                let reply = match call {
                    FetchCall::Initialize { .. } => FetchReply::Initialized(answers.init),
                    FetchCall::CreateProcessor => FetchReply::Created(answers.create),
                    FetchCall::OpenConnection { .. } => FetchReply::Opened(answers.open),
                    FetchCall::BeginSession { .. } => {
                        FetchReply::Begun(answers.begin.map(|t| t.to_string()))
                    }
                    FetchCall::GetAccountXml { .. } => {
                        FetchReply::Answered(answers.query.map(|x| x.map(|x| x.to_string())))
                    }
                    FetchCall::EndSession { .. } => FetchReply::Ended(answers.end),
                    FetchCall::CloseConnection => FetchReply::Closed(answers.close),
                    FetchCall::ReleaseProcessor => FetchReply::Released,
                    FetchCall::Uninitialize => FetchReply::Uninitialized,
                };
                step = fetch_account_xml(stage, reply);
            }
        }
    }
}

const FULL: [&str; 9] = [
    "initialize 2",
    "create",
    "open \"\" \"Sync\"",
    "begin \"C:\\\\books.qbw\"",
    "query ticket-1",
    "end ticket-1",
    "close",
    "release",
    "uninitialize",
];

#[test]
fn a_good_exchange_yields_the_xml() {
    let (calls, result) = drive(all_well());
    assert_eq!(calls, FULL);
    assert_eq!(result.unwrap(), "<xml/>");
}

#[test]
fn positive_hresult_counts_as_initialised() {
    let (calls, result) = drive(Answers { init: 1, ..all_well() });
    assert_eq!(calls, FULL);
    assert!(result.is_ok());
}

#[test]
fn failed_initialisation_makes_no_other_call() {
    let (calls, result) = drive(Answers { init: -2147417850, ..all_well() });
    assert_eq!(calls, ["initialize 2"]);
    let error = result.unwrap_err();
    assert!(matches!(error, FetchError::ComInit(-2147417850)));
    assert_eq!(
        error.message().unwrap(),
        "Failed to initialize COM system: HRESULT=0x80010106"
    );
}

#[test]
fn hresult_is_padded_to_eight_digits() {
    assert_eq!(
        FetchError::<u8>::ComInit(0xBEEF).message().unwrap(),
        "Failed to initialize COM system: HRESULT=0x0000BEEF"
    );
    assert_eq!(
        FetchError::<u8>::ComInit(-1).message().unwrap(),
        format!("Failed to initialize COM system: HRESULT=0x{:08X}", -1i32)
    );
    assert_eq!(
        FetchError::<u8>::ComInit(i32::MIN).message().unwrap(),
        format!("Failed to initialize COM system: HRESULT=0x{:08X}", i32::MIN)
    );
}

#[test]
fn early_failures_still_uninitialise() {
    let (calls, result) = drive(Answers { create: Err(3), ..all_well() });
    assert_eq!(calls, ["initialize 2", "create", "uninitialize"]);
    assert!(matches!(result, Err(FetchError::Processor(3))));

    let (calls, result) = drive(Answers { open: Err(4), ..all_well() });
    assert_eq!(calls, ["initialize 2", "create", FULL[2], "release", "uninitialize"]);
    assert!(matches!(result, Err(FetchError::Processor(4))));

    let (calls, result) = drive(Answers { begin: Err(5), ..all_well() });
    assert_eq!(
        calls,
        ["initialize 2", "create", FULL[2], FULL[3], "release", "uninitialize"]
    );
    assert!(matches!(result, Err(FetchError::Processor(5))));
}

#[test]
fn failed_query_still_tears_down() {
    let (calls, result) = drive(Answers { query: Err(6), ..all_well() });
    assert_eq!(calls, FULL);
    let error = result.unwrap_err();
    assert!(matches!(error, FetchError::Processor(6)));
    assert!(error.message().is_none());
}

#[test]
fn empty_answer_is_an_error() {
    let (calls, result) = drive(Answers { query: Ok(None), ..all_well() });
    assert_eq!(calls, FULL);
    let error = result.unwrap_err();
    assert!(matches!(error, FetchError::NoResponse));
    assert_eq!(
        error.message().unwrap(),
        "No response XML received from QuickBooks (ticket likely invalid)"
    );
}

#[test]
fn teardown_failures_are_ignored() {
    let (calls, result) = drive(Answers { end: Err(7), close: Err(8), ..all_well() });
    assert_eq!(calls, FULL);
    assert_eq!(result.unwrap(), "<xml/>");
}

#[test]
fn teardown_failures_are_logged() {
    let record = FetchReply::<u8>::Ended(Err(7)).record("gone").unwrap();
    assert_eq!(record.level, Level::Warn);
    assert_eq!(record.message, "end_session errored: gone");
    let record = FetchReply::<u8>::Closed(Err(8)).record("still gone").unwrap();
    assert_eq!(record.level, Level::Warn);
    assert_eq!(record.message, "close_connection errored: still gone");
    assert!(FetchReply::<u8>::Ended(Ok(())).record("").is_none());
    assert!(FetchReply::<u8>::Closed(Ok(())).record("").is_none());
    assert!(FetchReply::<u8>::Opened(Err(4)).record("no").is_none());
    assert!(FetchReply::<u8>::Answered(Err(6)).record("no").is_none());
}
