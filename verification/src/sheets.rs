//! What is written to the spreadsheets, and what that comes to.

use vstd::prelude::*;
use vstd::string::*;

use crate::clock;
use crate::clock::LocalTime;
use crate::config::{AccountSyncConfig, Config, TimestampConfig};
use crate::logging;
use crate::logging::{Level, LogRecord};

verus! {

/// An account as QuickBooks lists it. `B` is the type of a balance.
#[derive(Debug, Clone)]
pub struct AccountData<B> {
    pub account_full_name: String,
    pub number: String,
    pub account_type: String,
    pub balance: B,
}

/// A value for one cell of a spreadsheet, and the web application that writes it.
#[derive(Debug)]
pub struct SheetUpdate<V> {
    pub webapp_url: String,
    pub api_key: String,
    pub spreadsheet_id: String,
    pub value: V,
    pub sheet_name: String,
    pub cell_address: String,
}

/// What is done for one account: look its balance up, and send what is found.
#[derive(Debug)]
pub struct SyncJob<'a> {
    /// The account to look up in the response.
    pub account_full_name: &'a String,
    pub block: &'a AccountSyncConfig,
}

/// The job of a block: its own account, and its own cell.
pub open spec fn sync_job<'a>(block: &'a AccountSyncConfig) -> SyncJob<'a> {
    SyncJob { account_full_name: &block.account_full_name, block }
}

/// The jobs of the round of balances: one for each block, in order.
pub open spec fn sync_job_list<'a>(config: &'a Config) -> Seq<SyncJob<'a>> {
    Seq::new(config.sync_blocks@.len(), |i: int| sync_job(&config.sync_blocks@[i]))
}

/// The jobs of the round of timestamps: one for each block, in order.
pub open spec fn timestamp_job_list<'a>(config: &'a Config) -> Seq<&'a TimestampConfig> {
    Seq::new(config.timestamp_blocks@.len(), |i: int| &config.timestamp_blocks@[i])
}

/// The jobs of the round of balances: one for each block, in order.
pub fn sync_jobs<'a>(config: &'a Config) -> (jobs: Vec<SyncJob<'a>>)
    ensures
        jobs@ == sync_job_list(config),
{
    let mut jobs: Vec<SyncJob<'a>> = Vec::new();
    let count: usize = config.sync_blocks.len();
    let mut i: usize = 0;
    while i < count
        invariant
            i <= count,
            count == config.sync_blocks@.len(),
            jobs@.len() == i,
            jobs@ =~= sync_job_list(config).take(i as int),
        decreases count - i,
    {
        let block = &config.sync_blocks[i];
        jobs.push(SyncJob { account_full_name: &block.account_full_name, block });
        i = i + 1;
    }
    jobs
}

/// The jobs of the round of timestamps: one for each block, in order.
pub fn timestamp_jobs<'a>(config: &'a Config) -> (jobs: Vec<&'a TimestampConfig>)
    ensures
        jobs@ == timestamp_job_list(config),
{
    let mut jobs: Vec<&'a TimestampConfig> = Vec::new();
    let count: usize = config.timestamp_blocks.len();
    let mut i: usize = 0;
    while i < count
        invariant
            i <= count,
            count == config.timestamp_blocks@.len(),
            jobs@.len() == i,
            jobs@ =~= timestamp_job_list(config).take(i as int),
        decreases count - i,
    {
        jobs.push(&config.timestamp_blocks[i]);
        i = i + 1;
    }
    jobs
}

/// What to do for one account.
#[derive(Debug)]
pub enum SyncAction<B> {
    /// Send the balance; the block fails if that fails.
    SendBalance(SheetUpdate<B>),
    /// Send nothing: the account has no valid balance.
    NoBalance,
    /// Send nothing, and print the line.
    ReportError(String),
}

/// The update that puts `balance` into the cell of `block`.
pub open spec fn balance_update<B>(
    balance: B,
    block: AccountSyncConfig,
    config: Config,
) -> SheetUpdate<B> {
    SheetUpdate {
        webapp_url: config.google_sheets.webapp_url,
        api_key: config.google_sheets.api_key,
        spreadsheet_id: block.spreadsheet_id,
        value: balance,
        sheet_name: block.sheet_name,
        cell_address: block.cell_address,
    }
}

/// The line printed where the balance of an account could not be read.
pub open spec fn parse_error_text(account: Seq<char>, error: Seq<char>) -> Seq<char> {
    "[QBXML] Error parsing balance for '"@ + account + "': "@ + error
}

/// Whether `action` is what `lookup` asks for on `block`.
pub open spec fn is_action<B>(
    action: SyncAction<B>,
    lookup: Result<Option<B>, String>,
    block: AccountSyncConfig,
    config: Config,
) -> bool {
    match lookup {
        Ok(Some(balance)) => action == SyncAction::SendBalance(
            balance_update(balance, block, config),
        ),
        Ok(None) => action == SyncAction::<B>::NoBalance,
        Err(error) => action is ReportError && action->ReportError_0@ == parse_error_text(
            block.account_full_name@,
            error@,
        ),
    }
}

/// Decides what to do for one account, from what the response holds on its balance (or from the
/// text of the error, where that could not be read).
///
/// A balance goes to the cell of the block. A missing balance and an unreadable one send nothing.
pub fn process_sync_blocks<B>(
    lookup: Result<Option<B>, String>,
    block: &AccountSyncConfig,
    config: &Config,
) -> (action: SyncAction<B>)
    ensures
        is_action(action, lookup, *block, *config),
        action is SendBalance <==> lookup matches Ok(Some(_)),
        lookup matches Ok(Some(balance)) ==> {
            let update = action->SendBalance_0;
            &&& update.value == balance
            &&& update.webapp_url@ == config.google_sheets.webapp_url@
            &&& update.api_key@ == config.google_sheets.api_key@
            &&& update.spreadsheet_id@ == block.spreadsheet_id@
            &&& update.sheet_name@ == block.sheet_name@
            &&& update.cell_address@ == block.cell_address@
        },
        action is NoBalance <==> lookup matches Ok(None),
        action is ReportError <==> lookup is Err,
{
    match lookup {
        Ok(Some(balance)) => SyncAction::SendBalance(
            SheetUpdate {
                webapp_url: config.google_sheets.webapp_url.clone(),
                api_key: config.google_sheets.api_key.clone(),
                spreadsheet_id: block.spreadsheet_id.clone(),
                value: balance,
                sheet_name: block.sheet_name.clone(),
                cell_address: block.cell_address.clone(),
            },
        ),
        Ok(None) => SyncAction::NoBalance,
        Err(error) => {
            let mut line = "[QBXML] Error parsing balance for '".to_string();
            line.append(block.account_full_name.as_str());
            line.append("': ");
            line.append(error.as_str());
            SyncAction::ReportError(line)
        },
    }
}

/// What a block comes to: the result of sending the balance, and success where nothing was to be
/// sent.
pub open spec fn action_result<B, E>(action: SyncAction<B>, sent: Option<Result<(), E>>) -> Result<
    (),
    E,
> {
    if action is SendBalance {
        sent->0
    } else {
        Ok(())
    }
}

/// What the block of an account comes to, once its action is done: the result of sending the
/// balance, and success where nothing was to be sent.
pub fn sync_outcome<B, E>(action: &SyncAction<B>, sent: Option<Result<(), E>>) -> (result: Result<
    (),
    E,
>)
    requires
        sent is Some == *action is SendBalance,
    ensures
        result == action_result(*action, sent),
        result is Err <==> sent matches Some(Err(_)),
        sent is Some ==> result == sent->0,
{
    match sent {
        Some(result) => result,
        None => Ok(()),
    }
}

impl<B> SyncAction<B> {
    /// What the log says of the action for `account`; `balance` is how its balance reads, if it
    /// has one.
    pub open spec fn record_view(self, account: Seq<char>, balance: Seq<char>) -> Option<
        (Level, Seq<char>),
    > {
        match self {
            SyncAction::SendBalance(_) => Some(
                (Level::Info, "[QBXML] Account '"@ + account + "' balance is: "@ + balance),
            ),
            SyncAction::NoBalance => Some(
                (Level::Info, "[QBXML] No valid balance for account '"@ + account + "'."@),
            ),
            SyncAction::ReportError(_) => None,
        }
    }

    /// The record to log of the action for `account`; `balance` is how its balance reads, if it
    /// has one.
    pub fn record(&self, account: &str, balance: &str) -> (r: Option<LogRecord>)
        ensures
            logging::is_record(r, self.record_view(account@, balance@)),
            r is None <==> *self is ReportError,
    {
        match self {
            SyncAction::SendBalance(_) => {
                let mut message = "[QBXML] Account '".to_string();
                message.append(account);
                message.append("' balance is: ");
                message.append(balance);
                Some(LogRecord { level: Level::Info, message })
            },
            SyncAction::NoBalance => {
                let mut message = "[QBXML] No valid balance for account '".to_string();
                message.append(account);
                message.append("'.");
                Some(LogRecord { level: Level::Info, message })
            },
            SyncAction::ReportError(_) => None,
        }
    }
}

/// Whether `update` puts the time `now` into the cell of `block`.
pub open spec fn stamps(
    update: SheetUpdate<String>,
    now: LocalTime,
    block: TimestampConfig,
    config: Config,
) -> bool {
    &&& update.webapp_url == config.google_sheets.webapp_url
    &&& update.api_key == config.google_sheets.api_key
    &&& update.spreadsheet_id == block.spreadsheet_id
    &&& update.value@ == clock::cell_stamp_text(now)
    &&& update.sheet_name == block.sheet_name
    &&& update.cell_address == block.cell_address
}

/// The update that puts the time `now` into the cell of `block`.
pub fn timestamp_update(block: &TimestampConfig, config: &Config, now: &LocalTime) -> (update:
    SheetUpdate<String>)
    requires
        now.wf(),
    ensures
        stamps(update, *now, *block, *config),
        update.webapp_url@ == config.google_sheets.webapp_url@,
        update.api_key@ == config.google_sheets.api_key@,
        update.spreadsheet_id@ == block.spreadsheet_id@,
        update.value@ == clock::cell_stamp_text(*now),
        update.sheet_name@ == block.sheet_name@,
        update.cell_address@ == block.cell_address@,
{
    SheetUpdate {
        webapp_url: config.google_sheets.webapp_url.clone(),
        api_key: config.google_sheets.api_key.clone(),
        spreadsheet_id: block.spreadsheet_id.clone(),
        value: clock::cell_stamp(now),
        sheet_name: block.sheet_name.clone(),
        cell_address: block.cell_address.clone(),
    }
}

/// The update that puts the current local time into the cell of `block`.
pub fn process_timestamp_blocks(block: &TimestampConfig, config: &Config) -> (update: SheetUpdate<
    String,
>)
    ensures
        exists|now: LocalTime| now.wf() && #[trigger] stamps(update, now, *block, *config),
        update.webapp_url@ == config.google_sheets.webapp_url@,
        update.api_key@ == config.google_sheets.api_key@,
        update.spreadsheet_id@ == block.spreadsheet_id@,
        update.sheet_name@ == block.sheet_name@,
        update.cell_address@ == block.cell_address@,
{
    let now = clock::local_now();
    timestamp_update(block, config, &now)
}

/// Which of the two rounds of updates came back.
#[derive(Debug, Clone, Copy, PartialEq, Eq, Structural)]
pub enum PushRound {
    Balances,
    Timestamps,
}

impl PushRound {
    /// The number of jobs in this round: one for each block.
    pub open spec fn job_count(self, config: Config) -> nat {
        match self {
            PushRound::Balances => config.sync_blocks@.len(),
            PushRound::Timestamps => config.timestamp_blocks@.len(),
        }
    }
}

/// What to do next. `E` is the error of sending an update.
#[derive(Debug)]
pub enum PushStep<'a, E> {
    /// Do the round of balances.
    SendBalances(Vec<SyncJob<'a>>),
    /// Do the round of timestamps.
    SendTimestamps(Vec<&'a TimestampConfig>),
    /// All is done.
    Finish(Result<(), E>),
}

/// `PushStep`, with the jobs as a sequence.
pub enum PushStepView<'a, E> {
    SendBalances(Seq<SyncJob<'a>>),
    SendTimestamps(Seq<&'a TimestampConfig>),
    Finish(Result<(), E>),
}

impl<'a, E> View for PushStep<'a, E> {
    type V = PushStepView<'a, E>;

    open spec fn view(&self) -> PushStepView<'a, E> {
        match *self {
            PushStep::SendBalances(jobs) => PushStepView::SendBalances(jobs@),
            PushStep::SendTimestamps(jobs) => PushStepView::SendTimestamps(jobs@),
            PushStep::Finish(result) => PushStepView::Finish(result),
        }
    }
}

impl<'a, E> PushStepView<'a, E> {
    /// The number of rounds left.
    pub open spec fn rounds_left(self) -> nat {
        match self {
            PushStepView::SendBalances(_) => 2,
            PushStepView::SendTimestamps(_) => 1,
            PushStepView::Finish(_) => 0,
        }
    }
}

/// The first failure among what the blocks of a round came to, in block order.
pub open spec fn first_error<E>(sent: Seq<Result<(), E>>) -> Option<E>
    decreases sent.len(),
{
    if sent.len() == 0 {
        None
    } else {
        match sent[0] {
            Err(error) => Some(error),
            Ok(_) => first_error(sent.skip(1)),
        }
    }
}

/// The result that an optional failure makes.
pub open spec fn failed<E>(error: Option<E>) -> Result<(), E> {
    match error {
        Some(error) => Err(error),
        None => Ok(()),
    }
}

/// The first failure is at the first index that holds one.
proof fn lemma_first_error_at<E>(sent: Seq<Result<(), E>>, n: int)
    requires
        0 <= n <= sent.len(),
        forall|i: int| 0 <= i < n ==> !(#[trigger] sent[i] is Err),
    ensures
        n < sent.len() ==> (sent[n] is Err ==> first_error(sent) == Some(sent[n]->Err_0)),
        n == sent.len() ==> first_error(sent) is None,
    decreases n,
{
    if n > 0 {
        assert(!(sent[0] is Err));
        let rest = sent.skip(1);
        assert forall|i: int| 0 <= i < n - 1 implies !(#[trigger] rest[i] is Err) by {
            assert(rest[i] == sent[i + 1]);
        }
        lemma_first_error_at(rest, n - 1);
        if n < sent.len() {
            assert(rest[n - 1] == sent[n]);
        }
    }
}

/// The result of a round: that of its first failing block, if one failed.
fn round_result<E>(sent: Vec<Result<(), E>>) -> (result: Result<(), E>)
    ensures
        result == failed(first_error(sent@)),
{
    let mut blocks = sent;
    let count: usize = blocks.len();
    let mut i: usize = 0;
    while i < count
        invariant
            i <= count,
            count == blocks@.len(),
            blocks@ == sent@,
            forall|j: int| 0 <= j < i ==> !(#[trigger] sent@[j] is Err),
        decreases count - i,
    {
        if blocks[i].is_err() {
            proof {
                lemma_first_error_at(sent@, i as int);
            }
            return blocks.swap_remove(i);
        }
        i = i + 1;
    }
    proof {
        lemma_first_error_at(sent@, count as int);
    }
    Ok(())
}

/// Pushing starts with the round of balances.
pub open spec fn first_push_step<'a, E>(config: &'a Config) -> PushStepView<'a, E> {
    PushStepView::SendBalances(sync_job_list(config))
}

/// What follows a round whose blocks came to `sent`.
pub open spec fn push_step<'a, E>(
    round: PushRound,
    config: &'a Config,
    sent: Seq<Result<(), E>>,
) -> PushStepView<'a, E> {
    match (round, first_error(sent)) {
        (PushRound::Balances, None) => PushStepView::SendTimestamps(timestamp_job_list(config)),
        (_, error) => PushStepView::Finish(failed(error)),
    }
}

/// Starts pushing the values.
pub fn start_push<'a, E>(config: &'a Config) -> (step: PushStep<'a, E>)
    ensures
        step@ == first_push_step::<E>(config),
{
    PushStep::SendBalances(sync_jobs(config))
}

/// Goes on after a round of updates, given what each of its blocks came to, in block order. All
/// blocks of a round have come back before its first failure counts.
///
/// The timestamps are sent once no balance has failed.
pub fn process_qbxml<'a, E>(
    round: PushRound,
    config: &'a Config,
    sent: Vec<Result<(), E>>,
) -> (step: PushStep<'a, E>)
    requires
        sent@.len() == round.job_count(*config),
    ensures
        step@ == push_step(round, config, sent@),
{
    match round {
        PushRound::Balances => match round_result(sent) {
            Ok(_) => PushStep::SendTimestamps(timestamp_jobs(config)),
            Err(error) => PushStep::Finish(Err(error)),
        },
        PushRound::Timestamps => PushStep::Finish(round_result(sent)),
    }
}

/// What the outside work of one push would come back with, by block.
pub struct PushReplies<B, E> {
    /// What the response holds on the balance.
    pub lookups: Seq<Result<Option<B>, String>>,
    /// What is done about it.
    pub actions: Seq<SyncAction<B>>,
    /// What sending the balance comes to, where it is sent.
    pub sent: Seq<Option<Result<(), E>>>,
    /// What sending the timestamp comes to.
    pub stamped: Seq<Result<(), E>>,
}

impl<B, E> PushReplies<B, E> {
    /// There is a reply for every block; each action is what the lookup asks for, and exactly what
    /// is to be sent is sent.
    pub open spec fn fits(self, config: Config) -> bool {
        &&& self.lookups.len() == config.sync_blocks@.len()
        &&& self.actions.len() == config.sync_blocks@.len()
        &&& self.sent.len() == config.sync_blocks@.len()
        &&& self.stamped.len() == config.timestamp_blocks@.len()
        &&& forall|i: int|
            0 <= i < self.actions.len() ==> is_action(
                #[trigger] self.actions[i],
                self.lookups[i],
                config.sync_blocks@[i],
                config,
            ) && (self.sent[i] is Some <==> self.actions[i] is SendBalance)
    }

    /// What the round of balances comes to, by block.
    pub open spec fn balances(self) -> Seq<Result<(), E>> {
        Seq::new(self.actions.len(), |i: int| action_result(self.actions[i], self.sent[i]))
    }
}

/// A job of either round.
pub enum PushJob<'a> {
    Balance(SyncJob<'a>),
    Timestamp(&'a TimestampConfig),
}

/// A job, and what it came to.
pub struct DoneJob<'a, E> {
    pub job: PushJob<'a>,
    pub result: Result<(), E>,
}

/// The jobs done from `step` to the end of the push, in order.
pub open spec fn jobs_done<'a, B, E>(
    step: PushStepView<'a, E>,
    config: &'a Config,
    replies: PushReplies<B, E>,
) -> Seq<DoneJob<'a, E>>
    decreases step.rounds_left(),
{
    match step {
        PushStepView::SendBalances(jobs) => Seq::new(
            jobs.len(),
            |i: int| DoneJob { job: PushJob::Balance(jobs[i]), result: replies.balances()[i] },
        ) + jobs_done(
            push_step(PushRound::Balances, config, replies.balances()),
            config,
            replies,
        ),
        PushStepView::SendTimestamps(jobs) => Seq::new(
            jobs.len(),
            |i: int| DoneJob { job: PushJob::Timestamp(jobs[i]), result: replies.stamped[i] },
        ) + jobs_done(
            push_step(PushRound::Timestamps, config, replies.stamped),
            config,
            replies,
        ),
        PushStepView::Finish(_) => Seq::empty(),
    }
}

/// What the push comes to from `step` on.
pub open spec fn push_outcome<'a, B, E>(
    step: PushStepView<'a, E>,
    config: &'a Config,
    replies: PushReplies<B, E>,
) -> Result<(), E>
    decreases step.rounds_left(),
{
    match step {
        PushStepView::SendBalances(_) => push_outcome(
            push_step(PushRound::Balances, config, replies.balances()),
            config,
            replies,
        ),
        PushStepView::SendTimestamps(_) => push_outcome(
            push_step(PushRound::Timestamps, config, replies.stamped),
            config,
            replies,
        ),
        PushStepView::Finish(result) => result,
    }
}

/// Every sync block makes exactly one job, in block order, on its own account and with one result:
/// that of sending the balance where the response holds one, and else success. Exactly where all
/// of those succeed every timestamp block makes one job after them, in block order; otherwise none
/// does.
pub proof fn law_push<'a, B, E>(config: &'a Config, replies: PushReplies<B, E>)
    requires
        replies.fits(*config),
    ensures
        ({
            let done = jobs_done(first_push_step::<E>(config), config, replies);
            let n = config.sync_blocks@.len() as int;
            let all_sent = forall|i: int| 0 <= i < n ==> #[trigger] done[i].result is Ok;
            &&& done.len() == n + (if all_sent {
                config.timestamp_blocks@.len() as int
            } else {
                0
            })
            &&& forall|i: int|
                #![trigger done[i]]
                0 <= i < n ==> {
                    &&& done[i].job == PushJob::Balance(sync_job(&config.sync_blocks@[i]))
                    &&& done[i].result == (match replies.lookups[i] {
                        Ok(Some(_)) => replies.sent[i]->0,
                        _ => Ok(()),
                    })
                }
            &&& forall|i: int|
                #![trigger done[i]]
                n <= i < done.len() ==> {
                    &&& done[i].job == PushJob::Timestamp(&config.timestamp_blocks@[i - n])
                    &&& done[i].result == replies.stamped[i - n]
                }
        }),
{
    let done = jobs_done(first_push_step::<E>(config), config, replies);
    let balances = replies.balances();
    reveal_with_fuel(jobs_done, 4);
    lemma_no_error(balances);
    assert forall|i: int| 0 <= i < balances.len() implies #[trigger] done[i].result
        == balances[i] by {
        assert(is_action(
            replies.actions[i],
            replies.lookups[i],
            config.sync_blocks@[i],
            *config,
        ));
    }
    if first_error(balances) is Some {
        let i = choose|i: int| 0 <= i < balances.len() && #[trigger] balances[i] is Err;
        assert(done[i].result is Err);
    }
}

/// Pushing succeeds exactly where no job failed; otherwise it comes to the first failure, balances
/// before timestamps and each in block order.
pub proof fn law_first_failure_wins<'a, B, E>(config: &'a Config, replies: PushReplies<B, E>)
    requires
        replies.fits(*config),
    ensures
        ({
            let done = jobs_done(first_push_step::<E>(config), config, replies);
            push_outcome(first_push_step::<E>(config), config, replies) == failed(
                first_error(done.map_values(|job: DoneJob<'a, E>| job.result)),
            )
        }),
{
    let done = jobs_done(first_push_step::<E>(config), config, replies);
    let results = done.map_values(|job: DoneJob<'a, E>| job.result);
    let balances = replies.balances();
    reveal_with_fuel(jobs_done, 4);
    reveal_with_fuel(push_outcome, 4);
    if first_error(balances) is Some {
        assert(results =~= balances);
    } else {
        assert(results =~= balances + replies.stamped);
        lemma_first_error_append(balances, replies.stamped);
    }
}

proof fn lemma_no_error<E>(sent: Seq<Result<(), E>>)
    ensures
        first_error(sent) is None <==> (forall|i: int|
            0 <= i < sent.len() ==> !(#[trigger] sent[i] is Err)),
    decreases sent.len(),
{
    if sent.len() > 0 {
        let rest = sent.skip(1);
        lemma_no_error(rest);
        if first_error(sent) is None {
            assert forall|i: int| 0 <= i < sent.len() implies !(#[trigger] sent[i] is Err) by {
                if i > 0 {
                    assert(rest[i - 1] == sent[i]);
                }
            }
        } else if forall|i: int| 0 <= i < sent.len() ==> !(#[trigger] sent[i] is Err) {
            assert(!(sent[0] is Err));
            assert forall|i: int| 0 <= i < rest.len() implies !(#[trigger] rest[i] is Err) by {
                assert(rest[i] == sent[i + 1]);
            }
        }
    }
}

proof fn lemma_first_error_append<E>(a: Seq<Result<(), E>>, b: Seq<Result<(), E>>)
    ensures
        first_error(a + b) == (if first_error(a) is Some {
            first_error(a)
        } else {
            first_error(b)
        }),
    decreases a.len(),
{
    if a.len() == 0 {
        assert(a + b =~= b);
    } else {
        assert((a + b)[0] == a[0]);
        assert((a + b).skip(1) =~= a.skip(1) + b);
        lemma_first_error_append(a.skip(1), b);
    }
}

/// A balance that the response holds is sent, whatever it is, and goes to the spreadsheet, the sheet
/// and the cell of the very block it was looked up for, through the configured web application.
/// Where there is no valid balance nothing is sent; where it cannot be read that is reported, with
/// the account and the whole text of the error.
pub proof fn law_balance_goes_to_its_own_cell<B>(
    action: SyncAction<B>,
    lookup: Result<Option<B>, String>,
    block: AccountSyncConfig,
    config: Config,
)
    requires
        is_action(action, lookup, block, config),
    ensures
        match lookup {
            Ok(Some(balance)) => {
                &&& action is SendBalance
                &&& action->SendBalance_0.value == balance
                &&& action->SendBalance_0.spreadsheet_id == block.spreadsheet_id
                &&& action->SendBalance_0.sheet_name == block.sheet_name
                &&& action->SendBalance_0.cell_address == block.cell_address
                &&& action->SendBalance_0.webapp_url == config.google_sheets.webapp_url
                &&& action->SendBalance_0.api_key == config.google_sheets.api_key
            },
            Ok(None) => action is NoBalance,
            Err(error) => {
                &&& action is ReportError
                &&& action->ReportError_0@ == "[QBXML] Error parsing balance for '"@
                    + block.account_full_name@ + "': "@ + error@
            },
        },
{
}

/// Which other blocks the configuration holds, and how it reaches QuickBooks, makes no difference
/// to what is sent for a block.
pub proof fn law_other_blocks_do_not_matter<B>(
    balance: B,
    block: AccountSyncConfig,
    a: Config,
    b: Config,
    first: SyncAction<B>,
    second: SyncAction<B>,
)
    requires
        a.google_sheets == b.google_sheets,
        is_action(first, Ok(Some(balance)), block, a),
        is_action(second, Ok(Some(balance)), block, b),
    ensures
        first == second,
{
}

/// The balances of two blocks go to the same cell only where the blocks name the same cell.
pub proof fn law_different_cells_stay_different<B>(
    first: SyncAction<B>,
    second: SyncAction<B>,
    x: B,
    y: B,
    a: AccountSyncConfig,
    b: AccountSyncConfig,
    config: Config,
)
    requires
        is_action(first, Ok(Some(x)), a, config),
        is_action(second, Ok(Some(y)), b, config),
    ensures
        first->SendBalance_0.spreadsheet_id == second->SendBalance_0.spreadsheet_id
            <==> a.spreadsheet_id == b.spreadsheet_id,
        first->SendBalance_0.sheet_name == second->SendBalance_0.sheet_name <==> a.sheet_name
            == b.sheet_name,
        first->SendBalance_0.cell_address == second->SendBalance_0.cell_address
            <==> a.cell_address == b.cell_address,
        first->SendBalance_0.value == second->SendBalance_0.value <==> x == y,
{
}

/// A timestamp goes to the spreadsheet, the sheet and the cell of the very block it is for, through
/// the configured web application, and is the time written for a cell.
pub proof fn law_timestamp_goes_to_its_own_cell(
    update: SheetUpdate<String>,
    now: LocalTime,
    block: TimestampConfig,
    config: Config,
)
    requires
        stamps(update, now, block, config),
    ensures
        update.spreadsheet_id == block.spreadsheet_id,
        update.sheet_name == block.sheet_name,
        update.cell_address == block.cell_address,
        update.webapp_url == config.google_sheets.webapp_url,
        update.api_key == config.google_sheets.api_key,
        update.value@ == clock::cell_stamp_text(now),
{
}

/// Which other blocks the configuration holds makes no difference to the timestamp of a block: an
/// update that is right in one configuration is right in any other with the same web application.
pub proof fn law_other_timestamps_do_not_matter(
    update: SheetUpdate<String>,
    now: LocalTime,
    block: TimestampConfig,
    a: Config,
    b: Config,
)
    requires
        a.google_sheets == b.google_sheets,
    ensures
        stamps(update, now, block, a) <==> stamps(update, now, block, b),
{
}

/// The timestamps of two blocks go to the same cell only where the blocks name the same cell.
pub proof fn law_different_timestamp_cells_stay_different(
    first: SheetUpdate<String>,
    second: SheetUpdate<String>,
    x: LocalTime,
    y: LocalTime,
    a: TimestampConfig,
    b: TimestampConfig,
    config: Config,
)
    requires
        stamps(first, x, a, config),
        stamps(second, y, b, config),
    ensures
        first.spreadsheet_id == second.spreadsheet_id <==> a.spreadsheet_id == b.spreadsheet_id,
        first.sheet_name == second.sheet_name <==> a.sheet_name == b.sheet_name,
        first.cell_address == second.cell_address <==> a.cell_address == b.cell_address,
{
}

/// There is a job for every block and none besides; the job of a block is on the account of that
/// block, and on that block.
pub proof fn law_jobs_are_of_their_blocks<'a>(config: &'a Config, i: int)
    ensures
        sync_job_list(config).len() == config.sync_blocks@.len(),
        timestamp_job_list(config).len() == config.timestamp_blocks@.len(),
        0 <= i < config.sync_blocks@.len() ==> {
            &&& *sync_job_list(config)[i].account_full_name
                == config.sync_blocks@[i].account_full_name
            &&& *sync_job_list(config)[i].block == config.sync_blocks@[i]
        },
        0 <= i < config.timestamp_blocks@.len() ==> *timestamp_job_list(config)[i]
            == config.timestamp_blocks@[i],
        PushRound::Balances.job_count(*config) == config.sync_blocks@.len(),
        PushRound::Timestamps.job_count(*config) == config.timestamp_blocks@.len(),
{
}

/// A block fails exactly where a balance was to be sent and sending it failed, and then with the
/// error of that.
pub proof fn law_only_a_failed_send_fails<B, E>(
    action: SyncAction<B>,
    sent: Option<Result<(), E>>,
    error: E,
)
    requires
        sent is Some <==> action is SendBalance,
    ensures
        action_result(action, sent) == Err::<(), E>(error) <==> sent == Some(Err::<(), E>(error)),
        action_result(action, sent) is Ok <==> !(sent matches Some(Err(_))),
{
}

/// The log tells of a balance that is sent, with the account and how the balance reads, and of an
/// account without a valid one; a balance that cannot be read is not told there.
pub proof fn law_balance_is_told<B>(action: SyncAction<B>, account: Seq<char>, balance: Seq<char>)
    ensures
        match action {
            SyncAction::SendBalance(_) => action.record_view(account, balance) == Some(
                (Level::Info, "[QBXML] Account '"@ + account + "' balance is: "@ + balance),
            ),
            SyncAction::NoBalance => action.record_view(account, balance) == Some(
                (Level::Info, "[QBXML] No valid balance for account '"@ + account + "'."@),
            ),
            SyncAction::ReportError(_) => action.record_view(account, balance) is None,
        },
{
}

/// Pushing succeeds exactly where every job that was done succeeded. It fails with the error of a
/// job before which no other failed.
pub proof fn law_push_fails_as_its_first_failing_job<'a, B, E>(
    config: &'a Config,
    replies: PushReplies<B, E>,
)
    requires
        replies.fits(*config),
    ensures
        ({
            let done = jobs_done(first_push_step::<E>(config), config, replies);
            let result = push_outcome(first_push_step::<E>(config), config, replies);
            &&& result is Ok <==> forall|i: int|
                0 <= i < done.len() ==> #[trigger] done[i].result is Ok
            &&& result is Err ==> exists|i: int|
                0 <= i < done.len() && (#[trigger] done[i]).result == result && forall|j: int|
                    0 <= j < i ==> #[trigger] done[j].result is Ok
        }),
{
    law_first_failure_wins(config, replies);
    let done = jobs_done(first_push_step::<E>(config), config, replies);
    let results = done.map_values(|job: DoneJob<'a, E>| job.result);
    lemma_no_error(results);
    assert forall|i: int| 0 <= i < done.len() implies #[trigger] done[i].result
        == results[i] by {}
    if first_error(results) is Some {
        lemma_first_error_exists(results);
        let i = choose|i: int|
            0 <= i < results.len() && #[trigger] results[i] == Err::<(), E>(first_error(results)->0)
                && forall|j: int| 0 <= j < i ==> !(#[trigger] results[j] is Err);
        assert(done[i].result == results[i]);
        assert forall|j: int| 0 <= j < i implies #[trigger] done[j].result is Ok by {
            assert(!(results[j] is Err));
        }
    } else {
        assert forall|i: int| 0 <= i < done.len() implies #[trigger] done[i].result is Ok by {
            assert(!(results[i] is Err));
        }
    }
}

proof fn lemma_first_error_exists<E>(sent: Seq<Result<(), E>>)
    requires
        first_error(sent) is Some,
    ensures
        exists|i: int|
            0 <= i < sent.len() && #[trigger] sent[i] == Err::<(), E>(first_error(sent)->0)
                && forall|j: int| 0 <= j < i ==> !(#[trigger] sent[j] is Err),
    decreases sent.len(),
{
    if sent[0] is Err {
        assert(sent[0] == Err::<(), E>(first_error(sent)->0));
    } else {
        let rest = sent.skip(1);
        lemma_first_error_exists(rest);
        let k = choose|i: int|
            0 <= i < rest.len() && #[trigger] rest[i] == Err::<(), E>(first_error(rest)->0)
                && forall|j: int| 0 <= j < i ==> !(#[trigger] rest[j] is Err);
        assert(sent[k + 1] == rest[k]);
        assert forall|j: int| 0 <= j < k + 1 implies !(#[trigger] sent[j] is Err) by {
            if j > 0 {
                assert(rest[j - 1] == sent[j]);
            }
        }
    }
}

/// The jobs that are done are those of the blocks, on the blocks' own accounts, and come with the
/// results of the blocks: told of each job by itself.
pub proof fn law_done_jobs_are_of_their_blocks<'a, B, E>(
    config: &'a Config,
    replies: PushReplies<B, E>,
    i: int,
)
    requires
        replies.fits(*config),
        0 <= i < config.sync_blocks@.len(),
    ensures
        ({
            let done = jobs_done(first_push_step::<E>(config), config, replies);
            &&& i < done.len()
            &&& done[i].job is Balance
            &&& *done[i].job->Balance_0.account_full_name
                == config.sync_blocks@[i].account_full_name
            &&& *done[i].job->Balance_0.block == config.sync_blocks@[i]
            &&& done[i].result is Err <==> (replies.lookups[i] matches Ok(Some(_)))
                && replies.sent[i]->0 is Err
        }),
{
    law_push(config, replies);
    let done = jobs_done(first_push_step::<E>(config), config, replies);
    assert(done[i].job is Balance);
}

/// The view of a step leaves nothing out.
pub proof fn law_views_are_whole<'a, E>(step: PushStep<'a, E>)
    ensures
        match step {
            PushStep::SendBalances(jobs) => step@ == PushStepView::<'a, E>::SendBalances(jobs@),
            PushStep::SendTimestamps(jobs) => step@ == PushStepView::<'a, E>::SendTimestamps(jobs@),
            PushStep::Finish(result) => step@ == PushStepView::<'a, E>::Finish(result),
        },
{
}

} // verus!
