//! The configuration of the service, and what a run takes from it.

use vstd::prelude::*;
use vstd::string::*;

verus! {

/// How to reach QuickBooks.
#[derive(Debug)]
pub struct QuickBooksConfig {
    /// The path of the company file, or `AUTO` for the file that QuickBooks has open.
    pub company_file: String,
    pub application_name: Option<String>,
    /// The watchdog timeout of the QuickBooks exchange, in seconds.
    pub connection_timeout: Option<u32>,
}

/// How to reach the web application that writes to the spreadsheets.
#[derive(Debug)]
pub struct GoogleSheetsConfig {
    pub webapp_url: String,
    pub api_key: String,
}

/// An account, and the cell that its balance goes to.
#[derive(Debug)]
pub struct AccountSyncConfig {
    pub account_full_name: String,
    pub spreadsheet_id: String,
    pub sheet_name: String,
    pub cell_address: String,
}

/// A cell that the time of the run goes to.
#[derive(Debug)]
pub struct TimestampConfig {
    pub spreadsheet_id: String,
    pub sheet_name: String,
    pub cell_address: String,
}

/// The whole configuration.
#[derive(Debug)]
pub struct Config {
    pub quickbooks: QuickBooksConfig,
    pub google_sheets: GoogleSheetsConfig,
    pub sync_blocks: Vec<AccountSyncConfig>,
    pub timestamp_blocks: Vec<TimestampConfig>,
}

/// What a run asks of QuickBooks.
#[derive(Debug)]
pub struct RunPlan {
    /// The company file, empty to let QuickBooks use the open or hosted file.
    pub company_file: String,
    pub app_name: String,
    /// How long to wait for the whole QuickBooks exchange.
    pub timeout_secs: u64,
    /// A line to print before anything else.
    pub notice: Option<String>,
}

impl QuickBooksConfig {
    /// The company file is left to QuickBooks.
    pub open spec fn is_auto(self) -> bool {
        self.company_file@ == "AUTO"@
    }
}

/// Whether `plan` is what a run on `config` asks of QuickBooks.
pub open spec fn is_plan(config: Config, plan: RunPlan) -> bool {
    let quickbooks = config.quickbooks;
    &&& plan.company_file@ == (if quickbooks.is_auto() {
        Seq::<char>::empty()
    } else {
        quickbooks.company_file@
    })
    &&& plan.notice is Some == !quickbooks.is_auto()
    &&& plan.notice is Some ==> plan.notice->0@ == "[DEBUG] Company file: "@
        + quickbooks.company_file@
    &&& plan.app_name@ == (match quickbooks.application_name {
        Some(name) => name@,
        None => "QuickBooks Sync Service"@,
    })
    &&& plan.timeout_secs == (match quickbooks.connection_timeout {
        Some(secs) => secs as u64,
        None => 120,
    })
}

/// Settles what a run asks of QuickBooks.
///
/// A company file of `AUTO` becomes the empty string, and any other is used as it is and
/// announced. Without an application name it is `QuickBooks Sync Service`, and without a timeout
/// two minutes.
pub fn plan_run(config: &Config) -> (plan: RunPlan)
    ensures
        is_plan(*config, plan),
        config.quickbooks.is_auto() <==> config.quickbooks.company_file@ == "AUTO"@,
        config.quickbooks.is_auto() ==> {
            &&& plan.company_file@ == Seq::<char>::empty()
            &&& plan.notice is None
        },
        !config.quickbooks.is_auto() ==> {
            &&& plan.company_file == config.quickbooks.company_file
            &&& plan.notice is Some
            &&& plan.notice->0@ == "[DEBUG] Company file: "@ + config.quickbooks.company_file@
        },
        plan.app_name@ == (match config.quickbooks.application_name {
            Some(name) => name@,
            None => "QuickBooks Sync Service"@,
        }),
        plan.timeout_secs == (match config.quickbooks.connection_timeout {
            Some(secs) => secs as u64,
            None => 120,
        }),
{
    let (company_file, notice) = if config.quickbooks.company_file == "AUTO".to_string() {
        (String::new(), None)
    } else {
        let mut notice = "[DEBUG] Company file: ".to_string();
        notice.append(config.quickbooks.company_file.as_str());
        (config.quickbooks.company_file.clone(), Some(notice))
    };
    let app_name = match &config.quickbooks.application_name {
        Some(name) => name.clone(),
        None => "QuickBooks Sync Service".to_string(),
    };
    let timeout_secs: u64 = match config.quickbooks.connection_timeout {
        Some(secs) => secs as u64,
        None => 120,
    };
    RunPlan { company_file, app_name, timeout_secs, notice }
}

/// Where the configuration says `AUTO` a plan names no company file and announces none. Anything
/// else is asked for, and announced, as it is written.
pub proof fn law_company_file(config: Config, plan: RunPlan)
    requires
        is_plan(config, plan),
    ensures
        ({
            let file = config.quickbooks.company_file@;
            &&& file == "AUTO"@ ==> plan.company_file@.len() == 0 && plan.notice is None
            &&& file != "AUTO"@ ==> {
                &&& plan.company_file@ == file
                &&& plan.notice is Some
                &&& plan.notice->0@ == "[DEBUG] Company file: "@ + file
            }
        }),
{
}

/// A name or a timeout that is configured is used as it is, whatever it is; one that is not is the
/// same for every configuration: the name of the service, and two minutes.
pub proof fn law_name_and_timeout(config: Config, plan: RunPlan)
    requires
        is_plan(config, plan),
    ensures
        config.quickbooks.application_name is Some ==> plan.app_name@
            == config.quickbooks.application_name->0@,
        config.quickbooks.application_name is None ==> plan.app_name@ == "QuickBooks Sync Service"@,
        config.quickbooks.connection_timeout is Some ==> plan.timeout_secs
            == config.quickbooks.connection_timeout->0,
        config.quickbooks.connection_timeout is None ==> plan.timeout_secs == 120,
{
}

/// What a run asks of QuickBooks rests on the QuickBooks settings alone, and each part of it on its
/// own setting.
pub proof fn law_settings_are_independent(a: Config, b: Config, plan: RunPlan, other: RunPlan)
    requires
        is_plan(a, plan),
        is_plan(b, other),
    ensures
        a.quickbooks.company_file@ == b.quickbooks.company_file@ ==> plan.company_file@
            == other.company_file@ && plan.notice is Some == other.notice is Some,
        a.quickbooks.application_name == b.quickbooks.application_name ==> plan.app_name@
            == other.app_name@,
        a.quickbooks.connection_timeout == b.quickbooks.connection_timeout ==> plan.timeout_secs
            == other.timeout_secs,
{
}

} // verus!
