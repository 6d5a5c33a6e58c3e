use chrono::Local;
use qb_sync::clock::LocalTime;
use qb_sync::config::{
    plan_run, AccountSyncConfig, Config, GoogleSheetsConfig, QuickBooksConfig, TimestampConfig,
};
use qb_sync::logging::Level;
use qb_sync::sheets::{
    process_qbxml, process_sync_blocks, process_timestamp_blocks, start_push, sync_jobs,
    sync_outcome, timestamp_jobs, timestamp_update, AccountData, PushRound, PushStep, SyncAction,
};

fn config(company_file: &str, name: Option<&str>, timeout: Option<u32>) -> Config {
    Config {
        quickbooks: QuickBooksConfig {
            company_file: company_file.to_string(),
            application_name: name.map(|n| n.to_string()),
            connection_timeout: timeout,
        },
        google_sheets: GoogleSheetsConfig {
            webapp_url: "https://example.test/exec".to_string(),
            api_key: "key".to_string(),
        },
        sync_blocks: vec![account_block()],
        timestamp_blocks: vec![stamp_block()],
    }
}

fn account_block() -> AccountSyncConfig {
    AccountSyncConfig {
        account_full_name: "Assets:Checking".to_string(),
        spreadsheet_id: "sheet-1".to_string(),
        sheet_name: "Balances".to_string(),
        cell_address: "B2".to_string(),
    }
}

fn stamp_block() -> TimestampConfig {
    TimestampConfig {
        spreadsheet_id: "sheet-2".to_string(),
        sheet_name: "Status".to_string(),
        cell_address: "A1".to_string(),
    }
}

#[test]
fn auto_company_file_is_empty() {
    let plan = plan_run(&config("AUTO", None, None));
    assert_eq!(plan.company_file, "");
    assert_eq!(plan.notice, None);
    assert_eq!(plan.app_name, "QuickBooks Sync Service");
    assert_eq!(plan.timeout_secs, 120);
}

#[test]
fn given_company_file_is_announced() {
    let plan = plan_run(&config("C:\\books.qbw", Some("Nightly"), Some(45)));
    assert_eq!(plan.company_file, "C:\\books.qbw");
    assert_eq!(plan.notice.unwrap(), "[DEBUG] Company file: C:\\books.qbw");
    assert_eq!(plan.app_name, "Nightly");
    assert_eq!(plan.timeout_secs, 45);
}

#[test]
fn company_file_auto_is_case_sensitive() {
    let plan = plan_run(&config("auto", None, Some(0)));
    assert_eq!(plan.company_file, "auto");
    assert!(plan.notice.is_some());
    assert_eq!(plan.timeout_secs, 0);
}

#[test]
fn balance_goes_to_its_cell() {
    let config = config("AUTO", None, None);
    match process_sync_blocks(Ok(Some(12.5f64)), &config.sync_blocks[0], &config) {
        SyncAction::SendBalance(update) => {
            assert_eq!(update.webapp_url, "https://example.test/exec");
            assert_eq!(update.api_key, "key");
            assert_eq!(update.spreadsheet_id, "sheet-1");
            assert_eq!(update.value, 12.5);
            assert_eq!(update.sheet_name, "Balances");
            assert_eq!(update.cell_address, "B2");
        }
        other => panic!("{:?}", other),
    }
}

#[test]
fn missing_balance_sends_nothing() {
    let config = config("AUTO", None, None);
    let action = process_sync_blocks::<f64>(Ok(None), &config.sync_blocks[0], &config);
    assert!(matches!(action, SyncAction::NoBalance));
}

#[test]
fn unreadable_balance_is_reported() {
    let config = config("AUTO", None, None);
    let lookup: Result<Option<f64>, String> = Err("not a number".to_string());
    match process_sync_blocks(lookup, &config.sync_blocks[0], &config) {
        SyncAction::ReportError(line) => assert_eq!(
            line,
            "[QBXML] Error parsing balance for 'Assets:Checking': not a number"
        ),
        other => panic!("{:?}", other),
    }
}

#[test]
fn account_data_holds_a_float_balance() {
    let account = AccountData {
        account_full_name: "Assets:Checking".to_string(),
        number: "1000".to_string(),
        account_type: "Bank".to_string(),
        balance: -3.25f64,
    };
    let copy = account.clone();
    assert_eq!(copy.balance, -3.25);
    assert_eq!(copy.account_full_name, "Assets:Checking");
}

#[test]
fn timestamp_goes_to_its_cell() {
    let config = config("AUTO", None, None);
    let now = LocalTime { year: 2025, month: 7, day: 4, hour: 9, minute: 5, second: 59 };
    let update = timestamp_update(&config.timestamp_blocks[0], &config, &now);
    assert_eq!(update.webapp_url, "https://example.test/exec");
    assert_eq!(update.api_key, "key");
    assert_eq!(update.spreadsheet_id, "sheet-2");
    assert_eq!(update.value, "04-07-2025:09:05");
    assert_eq!(update.sheet_name, "Status");
    assert_eq!(update.cell_address, "A1");
}

#[test]
fn timestamp_is_the_local_time() {
    let config = config("AUTO", None, None);
    let before = Local::now().format("%d-%m-%Y:%H:%M").to_string();
    let update = process_timestamp_blocks(&config.timestamp_blocks[0], &config);
    let after = Local::now().format("%d-%m-%Y:%H:%M").to_string();
    assert!(update.value == before || update.value == after);
    assert_eq!(update.cell_address, "A1");
}

fn config_with(sync_blocks: usize, timestamp_blocks: usize) -> Config {
    let mut config = config("AUTO", None, None);
    config.sync_blocks = (0..sync_blocks).map(|_| account_block()).collect();
    config.timestamp_blocks = (0..timestamp_blocks).map(|_| stamp_block()).collect();
    config
}

#[test]
fn timestamps_follow_good_balances() {
    let config = config_with(3, 2);
    let sent: Vec<Result<(), u8>> = vec![Ok(()), Ok(()), Ok(())];
    match process_qbxml(PushRound::Balances, &config, sent) {
        PushStep::SendTimestamps(jobs) => assert_eq!(jobs.len(), 2),
        other => panic!("{:?}", other),
    }
    let config = config_with(0, 0);
    match process_qbxml::<u8>(PushRound::Balances, &config, Vec::new()) {
        PushStep::SendTimestamps(jobs) => assert!(jobs.is_empty()),
        other => panic!("{:?}", other),
    }
}

#[test]
fn first_failed_block_decides() {
    let config = config_with(5, 2);
    let sent = vec![Ok(()), Ok(()), Err(4u8), Err(5u8), Ok(())];
    assert!(matches!(
        process_qbxml(PushRound::Balances, &config, sent),
        PushStep::Finish(Err(4))
    ));
    let sent = vec![Ok(()), Err(6u8)];
    assert!(matches!(
        process_qbxml(PushRound::Timestamps, &config, sent),
        PushStep::Finish(Err(6))
    ));
    let sent: Vec<Result<(), u8>> = vec![Ok(()), Ok(())];
    assert!(matches!(
        process_qbxml(PushRound::Timestamps, &config, sent),
        PushStep::Finish(Ok(()))
    ));
}

fn push(
    config: &Config,
    balances: Vec<Result<(), u8>>,
    stamped: Vec<Result<(), u8>>,
) -> (Vec<String>, Result<(), u8>) {
    let mut jobs_done = Vec::new();
    let mut step = start_push::<u8>(config);
    loop {
        step = match step {
            PushStep::SendBalances(jobs) => {
                for job in jobs {
                    jobs_done.push(format!("{} {}", job.account_full_name, job.block.cell_address));
                }
                process_qbxml(PushRound::Balances, config, balances.clone())
            }
            PushStep::SendTimestamps(blocks) => {
                for block in blocks {
                    jobs_done.push(format!("time {}", block.cell_address));
                }
                process_qbxml(PushRound::Timestamps, config, stamped.clone())
            }
            PushStep::Finish(result) => return (jobs_done, result),
        };
    }
}

#[test]
fn a_push_does_every_job_once() {
    let mut config = config_with(2, 2);
    config.sync_blocks[1].account_full_name = "Assets:Savings".to_string();
    config.sync_blocks[1].cell_address = "B3".to_string();
    config.timestamp_blocks[1].cell_address = "A2".to_string();
    let balances = ["Assets:Checking B2", "Assets:Savings B3"];
    let all = [balances[0], balances[1], "time A1", "time A2"];

    let (done, result) = push(&config, vec![Ok(()), Ok(())], vec![Ok(()), Ok(())]);
    assert_eq!(done, all);
    assert_eq!(result, Ok(()));

    let (done, result) = push(&config, vec![Ok(()), Err(2)], vec![Ok(()), Ok(())]);
    assert_eq!(done, balances);
    assert_eq!(result, Err(2));

    let (done, result) = push(&config, vec![Ok(()), Ok(())], vec![Err(3), Err(4)]);
    assert_eq!(done, all);
    assert_eq!(result, Err(3));
}

#[test]
fn one_job_per_block_in_order() {
    let mut config = config("AUTO", None, None);
    let mut second = account_block();
    second.account_full_name = "Assets:Savings".to_string();
    second.cell_address = "B3".to_string();
    config.sync_blocks.push(second);
    let mut late = stamp_block();
    late.cell_address = "A2".to_string();
    config.timestamp_blocks.push(late);

    let jobs = sync_jobs(&config);
    assert_eq!(jobs.len(), 2);
    assert_eq!(jobs[0].account_full_name, "Assets:Checking");
    assert_eq!(jobs[0].block.cell_address, "B2");
    assert_eq!(jobs[1].account_full_name, "Assets:Savings");
    assert_eq!(jobs[1].block.cell_address, "B3");

    let jobs = timestamp_jobs(&config);
    assert_eq!(jobs.len(), 2);
    assert_eq!(jobs[0].cell_address, "A1");
    assert_eq!(jobs[1].cell_address, "A2");

    config.sync_blocks.clear();
    config.timestamp_blocks.clear();
    assert!(sync_jobs(&config).is_empty());
    assert!(timestamp_jobs(&config).is_empty());
}

#[test]
fn only_a_failed_send_fails_the_block() {
    let config = config("AUTO", None, None);
    let block = &config.sync_blocks[0];
    let action = process_sync_blocks(Ok(Some(1.5f64)), block, &config);
    assert_eq!(sync_outcome::<f64, u8>(&action, Some(Err(3))), Err(3));
    assert_eq!(sync_outcome::<f64, u8>(&action, Some(Ok(()))), Ok(()));
    let action = process_sync_blocks::<f64>(Ok(None), block, &config);
    assert_eq!(sync_outcome::<f64, u8>(&action, None), Ok(()));
    let action = process_sync_blocks::<f64>(Err("bad".to_string()), block, &config);
    assert_eq!(sync_outcome::<f64, u8>(&action, None), Ok(()));
}

#[test]
fn balance_records() {
    let config = config("AUTO", None, None);
    let block = &config.sync_blocks[0];
    let record = process_sync_blocks(Ok(Some(12.5f64)), block, &config)
        .record("Assets:Checking", "12.5")
        .unwrap();
    assert_eq!(record.level, Level::Info);
    assert_eq!(record.message, "[QBXML] Account 'Assets:Checking' balance is: 12.5");
    let record = process_sync_blocks::<f64>(Ok(None), block, &config)
        .record("Assets:Checking", "")
        .unwrap();
    assert_eq!(record.level, Level::Info);
    assert_eq!(record.message, "[QBXML] No valid balance for account 'Assets:Checking'.");
    let action = process_sync_blocks::<f64>(Err("bad".to_string()), block, &config);
    assert!(action.record("Assets:Checking", "").is_none());
}
