//! The QuickBooks exchange: which COM call comes next, and what the exchange yields.
//!
//! The worker thread makes the calls; each reply is handed back to `fetch_account_xml`, which
//! decides how to go on. Whatever goes wrong, a session that was begun is ended and its connection
//! closed, a request processor that was created is released, and after that an initialised COM
//! library is uninitialised again.

use vstd::pervasive::unreached;
use vstd::prelude::*;
use vstd::string::*;

use crate::logging;
use crate::logging::{Level, LogRecord};
use crate::text;

verus! {

/// How a session opens the company file.
#[derive(Debug, Clone, Copy, PartialEq, Eq, Structural)]
pub enum FileMode {
    SingleUser,
    MultiUser,
    DoNotCare,
}

/// Selects a single-threaded apartment (`COINIT_APARTMENTTHREADED`).
pub const APARTMENT_THREADED: u32 = 2;

/// A call that the worker thread makes.
#[derive(Debug)]
pub enum FetchCall {
    /// Initialise COM on the thread, in the concurrency model that `flags` selects.
    Initialize { flags: u32 },
    /// Create the request processor.
    CreateProcessor,
    OpenConnection { app_id: &'static str, app_name: String },
    BeginSession { company_file: String, mode: FileMode },
    /// Query the accounts in the session that `ticket` stands for.
    GetAccountXml { ticket: String },
    EndSession { ticket: String },
    CloseConnection,
    /// Release the request processor, which is a COM object.
    ReleaseProcessor,
    /// Uninitialise COM on the thread.
    Uninitialize,
}

/// What a call came back with. `E` is the error of the request processor.
#[derive(Debug)]
pub enum FetchReply<E> {
    /// The HRESULT of the initialisation.
    Initialized(i32),
    Created(Result<(), E>),
    Opened(Result<(), E>),
    /// The ticket of the session.
    Begun(Result<String, E>),
    /// The response XML, where there is one.
    Answered(Result<Option<String>, E>),
    Ended(Result<(), E>),
    Closed(Result<(), E>),
    Released,
    Uninitialized,
}

/// Why an exchange yields no XML.
#[derive(Debug)]
pub enum FetchError<E> {
    /// COM could not be initialised; the HRESULT says why.
    ComInit(i32),
    /// QuickBooks answered the query with nothing.
    NoResponse,
    /// A call on the request processor failed.
    Processor(E),
}

/// Where an exchange stands: the call whose reply is awaited, and what later calls need.
#[derive(Debug)]
pub enum FetchStage<E> {
    Initializing { company_file: String, app_name: String },
    Creating { company_file: String, app_name: String },
    Opening { company_file: String },
    Beginning,
    Querying { ticket: String },
    Ending { answer: Result<Option<String>, E> },
    Closing { answer: Result<Option<String>, E> },
    Releasing { result: Result<String, FetchError<E>> },
    Uninitializing { result: Result<String, FetchError<E>> },
}

/// What to do next.
#[derive(Debug)]
pub enum FetchStep<E> {
    /// Make `call`, and come back in `stage` with its reply.
    Call { stage: FetchStage<E>, call: FetchCall },
    /// The exchange is over.
    Return(Result<String, FetchError<E>>),
}

impl FetchCall {
    /// Whether `reply` is of the kind that this call gets.
    pub open spec fn answered_by<E>(self, reply: FetchReply<E>) -> bool {
        match self {
            FetchCall::Initialize { .. } => reply is Initialized,
            FetchCall::CreateProcessor => reply is Created,
            FetchCall::OpenConnection { .. } => reply is Opened,
            FetchCall::BeginSession { .. } => reply is Begun,
            FetchCall::GetAccountXml { .. } => reply is Answered,
            FetchCall::EndSession { .. } => reply is Ended,
            FetchCall::CloseConnection => reply is Closed,
            FetchCall::ReleaseProcessor => reply is Released,
            FetchCall::Uninitialize => reply is Uninitialized,
        }
    }
}

impl<E> FetchStage<E> {
    /// Whether `reply` answers the call that this stage awaits.
    pub open spec fn awaits(self, reply: FetchReply<E>) -> bool {
        match self {
            FetchStage::Initializing { .. } => reply is Initialized,
            FetchStage::Creating { .. } => reply is Created,
            FetchStage::Opening { .. } => reply is Opened,
            FetchStage::Beginning => reply is Begun,
            FetchStage::Querying { .. } => reply is Answered,
            FetchStage::Ending { .. } => reply is Ended,
            FetchStage::Closing { .. } => reply is Closed,
            FetchStage::Releasing { .. } => reply is Released,
            FetchStage::Uninitializing { .. } => reply is Uninitialized,
        }
    }

    /// An upper bound on the calls left, the awaited one included.
    pub open spec fn calls_left(self) -> nat {
        match self {
            FetchStage::Initializing { .. } => 9,
            FetchStage::Creating { .. } => 8,
            FetchStage::Opening { .. } => 7,
            FetchStage::Beginning => 6,
            FetchStage::Querying { .. } => 5,
            FetchStage::Ending { .. } => 4,
            FetchStage::Closing { .. } => 3,
            FetchStage::Releasing { .. } => 2,
            FetchStage::Uninitializing { .. } => 1,
        }
    }
}

impl<E> FetchStep<E> {
    /// The stage awaits whatever the call may be answered by.
    pub open spec fn is_paired(self) -> bool {
        match self {
            FetchStep::Call { stage, call } => forall|reply: FetchReply<E>|
                #[trigger] call.answered_by(reply) <==> stage.awaits(reply),
            FetchStep::Return(_) => true,
        }
    }

    /// An upper bound on the calls still to make.
    pub open spec fn calls_left(self) -> nat {
        match self {
            FetchStep::Call { stage, .. } => stage.calls_left(),
            FetchStep::Return(_) => 0,
        }
    }
}

/// Uninitialise COM, with the outcome of the exchange settled.
pub open spec fn uninitialize<E>(result: Result<String, FetchError<E>>) -> FetchStep<E> {
    FetchStep::Call {
        stage: FetchStage::Uninitializing { result },
        call: FetchCall::Uninitialize,
    }
}

/// Release the request processor, with the outcome of the exchange settled.
pub open spec fn release<E>(result: Result<String, FetchError<E>>) -> FetchStep<E> {
    FetchStep::Call {
        stage: FetchStage::Releasing { result },
        call: FetchCall::ReleaseProcessor,
    }
}

/// What an answer to the query yields.
pub open spec fn answer_result<E>(answer: Result<Option<String>, E>) -> Result<
    String,
    FetchError<E>,
> {
    match answer {
        Ok(Some(xml)) => Ok(xml),
        Ok(None) => Err(FetchError::NoResponse),
        Err(error) => Err(FetchError::Processor(error)),
    }
}

/// The step that an exchange starts with.
pub open spec fn first_step<E>(company_file: String, app_name: String) -> FetchStep<E> {
    FetchStep::Call {
        stage: FetchStage::Initializing { company_file, app_name },
        call: FetchCall::Initialize { flags: APARTMENT_THREADED },
    }
}

/// The step that follows `reply` in `stage`.
pub open spec fn next_step<E>(stage: FetchStage<E>, reply: FetchReply<E>) -> FetchStep<E> {
    match stage {
        FetchStage::Initializing { company_file, app_name } => {
            let hr = reply->Initialized_0;
            if hr < 0 {
                FetchStep::Return(Err(FetchError::ComInit(hr)))
            } else {
                FetchStep::Call {
                    stage: FetchStage::Creating { company_file, app_name },
                    call: FetchCall::CreateProcessor,
                }
            }
        },
        FetchStage::Creating { company_file, app_name } => match reply->Created_0 {
            Ok(_) => FetchStep::Call {
                stage: FetchStage::Opening { company_file },
                call: FetchCall::OpenConnection { app_id: "", app_name },
            },
            Err(error) => uninitialize(Err(FetchError::Processor(error))),
        },
        FetchStage::Opening { company_file } => match reply->Opened_0 {
            Ok(_) => FetchStep::Call {
                stage: FetchStage::Beginning,
                call: FetchCall::BeginSession { company_file, mode: FileMode::DoNotCare },
            },
            Err(error) => release(Err(FetchError::Processor(error))),
        },
        FetchStage::Beginning => match reply->Begun_0 {
            Ok(ticket) => FetchStep::Call {
                stage: FetchStage::Querying { ticket },
                call: FetchCall::GetAccountXml { ticket },
            },
            Err(error) => release(Err(FetchError::Processor(error))),
        },
        FetchStage::Querying { ticket } => FetchStep::Call {
            stage: FetchStage::Ending { answer: reply->Answered_0 },
            call: FetchCall::EndSession { ticket },
        },
        FetchStage::Ending { answer } => FetchStep::Call {
            stage: FetchStage::Closing { answer },
            call: FetchCall::CloseConnection,
        },
        FetchStage::Closing { answer } => release(answer_result(answer)),
        FetchStage::Releasing { result } => uninitialize(result),
        FetchStage::Uninitializing { result } => FetchStep::Return(result),
    }
}

/// Starts an exchange on `company_file` (empty for the file that QuickBooks has open).
pub fn start_fetch<E>(company_file: String, app_name: String) -> (step: FetchStep<E>)
    ensures
        step == first_step::<E>(company_file, app_name),
        step.is_paired(),
{
    FetchStep::Call {
        stage: FetchStage::Initializing { company_file, app_name },
        call: FetchCall::Initialize { flags: APARTMENT_THREADED },
    }
}

/// Settles the exchange, and lets the request processor go.
fn let_processor_go<E>(result: Result<String, FetchError<E>>) -> (step: FetchStep<E>)
    ensures
        step == release(result),
{
    FetchStep::Call {
        stage: FetchStage::Releasing { result },
        call: FetchCall::ReleaseProcessor,
    }
}

/// Settles the exchange, and lets COM go.
fn let_com_go<E>(result: Result<String, FetchError<E>>) -> (step: FetchStep<E>)
    ensures
        step == uninitialize(result),
{
    FetchStep::Call {
        stage: FetchStage::Uninitializing { result },
        call: FetchCall::Uninitialize,
    }
}

/// One step of the full QuickBooks exchange (initialise, connect, begin a session, query the
/// accounts, end the session, close the connection, release the processor, uninitialise).
///
/// QBXML does not use an application ID, so the connection is opened with an empty one. Once a
/// session has begun it is ended and the connection closed whatever the query came to, and the
/// outcomes of those two calls do not matter.
pub fn fetch_account_xml<E>(stage: FetchStage<E>, reply: FetchReply<E>) -> (step: FetchStep<E>)
    requires
        stage.awaits(reply),
    ensures
        step == next_step(stage, reply),
        step.is_paired(),
        step.calls_left() < stage.calls_left(),
{
    match (stage, reply) {
        (FetchStage::Initializing { company_file, app_name }, FetchReply::Initialized(hr)) => if hr
            < 0 {
            FetchStep::Return(Err(FetchError::ComInit(hr)))
        } else {
            FetchStep::Call {
                stage: FetchStage::Creating { company_file, app_name },
                call: FetchCall::CreateProcessor,
            }
        },
        (FetchStage::Creating { company_file, app_name }, FetchReply::Created(created)) => {
            match created {
                Ok(_) => FetchStep::Call {
                    stage: FetchStage::Opening { company_file },
                    call: FetchCall::OpenConnection { app_id: "", app_name },
                },
                Err(error) => let_com_go(Err(FetchError::Processor(error))),
            }
        },
        (FetchStage::Opening { company_file }, FetchReply::Opened(opened)) => match opened {
            Ok(_) => FetchStep::Call {
                stage: FetchStage::Beginning,
                call: FetchCall::BeginSession { company_file, mode: FileMode::DoNotCare },
            },
            Err(error) => let_processor_go(Err(FetchError::Processor(error))),
        },
        (FetchStage::Beginning, FetchReply::Begun(begun)) => match begun {
            Ok(ticket) => {
                let query = FetchCall::GetAccountXml { ticket: ticket.clone() };
                FetchStep::Call { stage: FetchStage::Querying { ticket }, call: query }
            },
            Err(error) => let_processor_go(Err(FetchError::Processor(error))),
        },
        (FetchStage::Querying { ticket }, FetchReply::Answered(answer)) => FetchStep::Call {
            stage: FetchStage::Ending { answer },
            call: FetchCall::EndSession { ticket },
        },
        (FetchStage::Ending { answer }, _) => FetchStep::Call {
            stage: FetchStage::Closing { answer },
            call: FetchCall::CloseConnection,
        },
        (FetchStage::Closing { answer }, _) => {
            let result = match answer {
                Ok(Some(xml)) => Ok(xml),
                Ok(None) => Err(FetchError::NoResponse),
                Err(error) => Err(FetchError::Processor(error)),
            };
            let_processor_go(result)
        },
        (FetchStage::Releasing { result }, _) => let_com_go(result),
        (FetchStage::Uninitializing { result }, _) => FetchStep::Return(result),
        _ => unreached(),
    }
}

impl<E> FetchReply<E> {
    /// What the log says of a reply; `error` is how its error reads, if it holds one. Errors that
    /// end the exchange are told by its result, those of the teardown by the log alone.
    pub open spec fn record_view(self, error: Seq<char>) -> Option<(Level, Seq<char>)> {
        match self {
            FetchReply::Ended(Err(_)) => Some((Level::Warn, "end_session errored: "@ + error)),
            FetchReply::Closed(Err(_)) => Some(
                (Level::Warn, "close_connection errored: "@ + error),
            ),
            _ => None,
        }
    }

    /// The record to log of a reply; `error` is how its error reads, if it holds one.
    pub fn record(&self, error: &str) -> (r: Option<LogRecord>)
        ensures
            logging::is_record(r, self.record_view(error@)),
            r is Some <==> self matches FetchReply::Ended(Err(_)) || self matches FetchReply::Closed(
                Err(_),
            ),
    {
        match self {
            FetchReply::Ended(Err(_)) => {
                let mut message = "end_session errored: ".to_string();
                message.append(error);
                Some(LogRecord { level: Level::Warn, message })
            },
            FetchReply::Closed(Err(_)) => {
                let mut message = "close_connection errored: ".to_string();
                message.append(error);
                Some(LogRecord { level: Level::Warn, message })
            },
            _ => None,
        }
    }
}

/// A negative HRESULT as the unsigned 32-bit word that has the same bits.
pub open spec fn hresult_word(hr: int) -> nat {
    if hr < 0 {
        (hr + 0x1_0000_0000) as nat
    } else {
        hr as nat
    }
}

impl<E> FetchError<E> {
    /// The message of an error that arose here; an error of the request processor has its own.
    pub open spec fn message_text(self) -> Option<Seq<char>> {
        match self {
            FetchError::ComInit(hr) => Some(
                "Failed to initialize COM system: HRESULT=0x"@ + text::padded_hex(
                    hresult_word(hr as int),
                    8,
                ),
            ),
            FetchError::NoResponse => Some(
                "No response XML received from QuickBooks (ticket likely invalid)"@,
            ),
            FetchError::Processor(_) => None,
        }
    }

    /// The message of an error that arose here; `None` for one of the request processor.
    pub fn message(&self) -> (r: Option<String>)
        ensures
            r is Some == self.message_text() is Some,
            r is Some ==> r->0@ == self.message_text()->0,
    {
        match self {
            FetchError::ComInit(hr) => {
                let hr: i64 = *hr as i64;
                let word: u32 = if hr < 0 {
                    (hr + 0x1_0000_0000) as u32
                } else {
                    hr as u32
                };
                let mut message = "Failed to initialize COM system: HRESULT=0x".to_string();
                message.append(text::hex_word(word).as_str());
                Some(message)
            },
            FetchError::NoResponse => Some(
                "No response XML received from QuickBooks (ticket likely invalid)".to_string(),
            ),
            FetchError::Processor(_) => None,
        }
    }
}

/// The replies that the calls of one exchange would get.
pub struct Replies<E> {
    pub initialized: i32,
    pub created: Result<(), E>,
    pub opened: Result<(), E>,
    pub begun: Result<String, E>,
    pub answered: Result<Option<String>, E>,
    pub ended: Result<(), E>,
    pub closed: Result<(), E>,
}

impl<E> Replies<E> {
    /// The reply to the call that `stage` awaits.
    pub open spec fn reply(self, stage: FetchStage<E>) -> FetchReply<E> {
        match stage {
            FetchStage::Initializing { .. } => FetchReply::Initialized(self.initialized),
            FetchStage::Creating { .. } => FetchReply::Created(self.created),
            FetchStage::Opening { .. } => FetchReply::Opened(self.opened),
            FetchStage::Beginning => FetchReply::Begun(self.begun),
            FetchStage::Querying { .. } => FetchReply::Answered(self.answered),
            FetchStage::Ending { .. } => FetchReply::Ended(self.ended),
            FetchStage::Closing { .. } => FetchReply::Closed(self.closed),
            FetchStage::Releasing { .. } => FetchReply::Released,
            FetchStage::Uninitializing { .. } => FetchReply::Uninitialized,
        }
    }

    /// COM is initialised.
    pub open spec fn com_up(self) -> bool {
        self.initialized >= 0
    }

    /// There is a request processor.
    pub open spec fn processor_exists(self) -> bool {
        self.com_up() && self.created is Ok
    }

    /// A session begins.
    pub open spec fn session_begins(self) -> bool {
        self.processor_exists() && self.opened is Ok && self.begun is Ok
    }
}

/// The calls made from `step` to the end of the exchange, in order.
pub open spec fn calls_made<E>(step: FetchStep<E>, replies: Replies<E>) -> Seq<FetchCall>
    decreases step.calls_left(),
{
    match step {
        FetchStep::Call { stage, call } => seq![call] + calls_made(
            next_step(stage, replies.reply(stage)),
            replies,
        ),
        FetchStep::Return(_) => Seq::empty(),
    }
}

/// What the exchange comes to from `step` on.
pub open spec fn outcome<E>(step: FetchStep<E>, replies: Replies<E>) -> Result<
    String,
    FetchError<E>,
>
    decreases step.calls_left(),
{
    match step {
        FetchStep::Call { stage, .. } => outcome(next_step(stage, replies.reply(stage)), replies),
        FetchStep::Return(result) => result,
    }
}

/// The calls of a whole exchange, told by what succeeds.
pub open spec fn exchange_calls<E>(
    company_file: String,
    app_name: String,
    replies: Replies<E>,
) -> Seq<FetchCall> {
    let session = if replies.begun is Ok {
        let ticket = replies.begun->Ok_0;
        seq![
            FetchCall::GetAccountXml { ticket },
            FetchCall::EndSession { ticket },
            FetchCall::CloseConnection,
        ]
    } else {
        Seq::empty()
    };
    let connection = if replies.opened is Ok {
        seq![FetchCall::BeginSession { company_file, mode: FileMode::DoNotCare }] + session
    } else {
        Seq::empty()
    };
    let processor = if replies.created is Ok {
        seq![FetchCall::OpenConnection { app_id: "", app_name }] + connection + seq![
            FetchCall::ReleaseProcessor,
        ]
    } else {
        Seq::empty()
    };
    let initialize = FetchCall::Initialize { flags: APARTMENT_THREADED };
    if replies.com_up() {
        seq![initialize, FetchCall::CreateProcessor] + processor + seq![FetchCall::Uninitialize]
    } else {
        seq![initialize]
    }
}

/// What a whole exchange comes to: the first failure on the way to the answer, or the answer.
pub open spec fn exchange_result<E>(replies: Replies<E>) -> Result<String, FetchError<E>> {
    if !replies.com_up() {
        Err(FetchError::ComInit(replies.initialized))
    } else if replies.created is Err {
        Err(FetchError::Processor(replies.created->Err_0))
    } else if replies.opened is Err {
        Err(FetchError::Processor(replies.opened->Err_0))
    } else if replies.begun is Err {
        Err(FetchError::Processor(replies.begun->Err_0))
    } else {
        answer_result(replies.answered)
    }
}

/// An exchange makes exactly the calls of `exchange_calls`, in that order, and comes to
/// `exchange_result`.
pub proof fn law_exchange<E>(company_file: String, app_name: String, replies: Replies<E>)
    ensures
        calls_made(first_step::<E>(company_file, app_name), replies) == exchange_calls(
            company_file,
            app_name,
            replies,
        ),
        outcome(first_step::<E>(company_file, app_name), replies) == exchange_result(replies),
{
    reveal_with_fuel(calls_made, 11);
    reveal_with_fuel(outcome, 11);
    assert(calls_made(first_step::<E>(company_file, app_name), replies) =~= exchange_calls(
        company_file,
        app_name,
        replies,
    ));
}

/// COM is initialised once, as a single-threaded apartment and as the first call. It is
/// uninitialised on every path on which that succeeded, once and as the last call, and on no other
/// path.
pub proof fn law_com_is_balanced<E>(company_file: String, app_name: String, replies: Replies<E>)
    ensures
        ({
            let calls = calls_made(first_step::<E>(company_file, app_name), replies);
            &&& calls.len() > 0
            &&& calls[0] == FetchCall::Initialize { flags: APARTMENT_THREADED }
            &&& forall|i: int|
                0 <= i < calls.len() && (#[trigger] calls[i] is Initialize) ==> i == 0
            &&& replies.com_up() <==> calls.contains(FetchCall::Uninitialize)
            &&& forall|i: int|
                0 <= i < calls.len() && #[trigger] calls[i] == FetchCall::Uninitialize ==> i
                    == calls.len() - 1
        }),
{
    law_exchange(company_file, app_name, replies);
    let calls = exchange_calls(company_file, app_name, replies);
    if replies.com_up() {
        assert(calls.last() == FetchCall::Uninitialize);
    }
}

impl FetchCall {
    /// The call is made on the request processor.
    pub open spec fn is_on_processor(self) -> bool {
        match self {
            FetchCall::OpenConnection { .. } => true,
            FetchCall::BeginSession { .. } => true,
            FetchCall::GetAccountXml { .. } => true,
            FetchCall::EndSession { .. } => true,
            FetchCall::CloseConnection => true,
            _ => false,
        }
    }
}

/// A request processor that was created is released, once, after every call on it and right before
/// COM is uninitialised; where none was created, none is called and none released.
pub proof fn law_processor_goes_before_com<E>(
    company_file: String,
    app_name: String,
    replies: Replies<E>,
)
    ensures
        ({
            let calls = calls_made(first_step::<E>(company_file, app_name), replies);
            let n = calls.len() as int;
            &&& replies.processor_exists() ==> {
                &&& n >= 4
                &&& calls[1] == FetchCall::CreateProcessor
                &&& calls[n - 2] == FetchCall::ReleaseProcessor
                &&& calls[n - 1] == FetchCall::Uninitialize
            }
            &&& forall|i: int|
                0 <= i < n && #[trigger] calls[i] == FetchCall::ReleaseProcessor
                    ==> replies.processor_exists() && i == n - 2
            &&& forall|i: int|
                0 <= i < n && (#[trigger] calls[i]).is_on_processor() ==> replies.processor_exists()
                    && 1 < i < n - 2
        }),
{
    law_exchange(company_file, app_name, replies);
}

/// A session that was begun is ended, with its own ticket, after the query and before the
/// connection is closed, whatever the query came to; where no session was begun, none is ended.
pub proof fn law_session_is_torn_down<E>(
    company_file: String,
    app_name: String,
    replies: Replies<E>,
)
    ensures
        ({
            let calls = calls_made(first_step::<E>(company_file, app_name), replies);
            let n = calls.len() as int;
            &&& replies.session_begins() ==> {
                let ticket = replies.begun->Ok_0;
                &&& n == 9
                &&& calls[n - 5] == FetchCall::GetAccountXml { ticket }
                &&& calls[n - 4] == FetchCall::EndSession { ticket }
                &&& calls[n - 3] == FetchCall::CloseConnection
            }
            &&& !replies.session_begins() ==> forall|i: int|
                0 <= i < n ==> {
                    &&& !(#[trigger] calls[i] is GetAccountXml)
                    &&& !(calls[i] is EndSession)
                    &&& !(calls[i] is CloseConnection)
                }
        }),
{
    law_exchange(company_file, app_name, replies);
}

/// How ending the session and closing the connection turn out changes neither the calls nor the
/// result.
pub proof fn law_teardown_outcomes_do_not_matter<E>(
    company_file: String,
    app_name: String,
    replies: Replies<E>,
    ended: Result<(), E>,
    closed: Result<(), E>,
)
    ensures
        ({
            let other = Replies { ended, closed, ..replies };
            let start = first_step::<E>(company_file, app_name);
            &&& calls_made(start, replies) == calls_made(start, other)
            &&& outcome(start, replies) == outcome(start, other)
        }),
{
    let other = Replies { ended, closed, ..replies };
    law_exchange(company_file, app_name, replies);
    law_exchange(company_file, app_name, other);
}

/// Once a session has begun, the exchange yields exactly what the query answered: the XML itself,
/// whatever it holds; no response exactly where the answer holds none; and the error of a query
/// that failed.
pub proof fn law_answer_is_returned<E>(
    company_file: String,
    app_name: String,
    replies: Replies<E>,
    xml: String,
)
    requires
        replies.initialized >= 0,
        replies.created is Ok,
        replies.opened is Ok,
        replies.begun is Ok,
    ensures
        ({
            let result = outcome(first_step::<E>(company_file, app_name), replies);
            &&& result == Ok::<String, FetchError<E>>(xml) <==> replies.answered == Ok::<
                Option<String>,
                E,
            >(Some(xml))
            &&& result == Err::<String, FetchError<E>>(FetchError::NoResponse) <==> replies.answered
                == Ok::<Option<String>, E>(None)
            &&& replies.answered is Err ==> result == Err::<String, FetchError<E>>(
                FetchError::Processor(replies.answered->Err_0),
            )
        }),
{
    reveal_with_fuel(outcome, 11);
}

/// A step on the way to the session that fails is what the exchange fails with: the HRESULT of the
/// initialisation where that is negative, and else the error of the first call that failed.
pub proof fn law_first_failure_is_returned<E>(
    company_file: String,
    app_name: String,
    replies: Replies<E>,
)
    ensures
        ({
            let result = outcome(first_step::<E>(company_file, app_name), replies);
            let up = replies.initialized >= 0;
            &&& !up ==> result == Err::<String, FetchError<E>>(
                FetchError::ComInit(replies.initialized),
            )
            &&& up && replies.created is Err ==> result == Err::<String, FetchError<E>>(
                FetchError::Processor(replies.created->Err_0),
            )
            &&& up && replies.created is Ok && replies.opened is Err ==> result == Err::<
                String,
                FetchError<E>,
            >(FetchError::Processor(replies.opened->Err_0))
            &&& up && replies.created is Ok && replies.opened is Ok && replies.begun is Err
                ==> result == Err::<String, FetchError<E>>(
                FetchError::Processor(replies.begun->Err_0),
            )
        }),
{
    reveal_with_fuel(outcome, 11);
}

/// The calls of an exchange, by how far it gets. The connection is opened without an application
/// ID and under the given name, the session begun on the given file in whatever mode it is open,
/// and query and end of session carry the ticket that beginning it gave.
pub proof fn law_calls_by_progress<E>(company_file: String, app_name: String, replies: Replies<E>)
    ensures
        ({
            let calls = calls_made(first_step::<E>(company_file, app_name), replies);
            let initialize = FetchCall::Initialize { flags: 2 };
            let open = FetchCall::OpenConnection { app_id: "", app_name };
            let begin = FetchCall::BeginSession { company_file, mode: FileMode::DoNotCare };
            if replies.initialized < 0 {
                calls == seq![initialize]
            } else if replies.created is Err {
                calls == seq![initialize, FetchCall::CreateProcessor, FetchCall::Uninitialize]
            } else if replies.opened is Err {
                calls == seq![
                    initialize,
                    FetchCall::CreateProcessor,
                    open,
                    FetchCall::ReleaseProcessor,
                    FetchCall::Uninitialize,
                ]
            } else if replies.begun is Err {
                calls == seq![
                    initialize,
                    FetchCall::CreateProcessor,
                    open,
                    begin,
                    FetchCall::ReleaseProcessor,
                    FetchCall::Uninitialize,
                ]
            } else {
                calls == seq![
                    initialize,
                    FetchCall::CreateProcessor,
                    open,
                    begin,
                    FetchCall::GetAccountXml { ticket: replies.begun->Ok_0 },
                    FetchCall::EndSession { ticket: replies.begun->Ok_0 },
                    FetchCall::CloseConnection,
                    FetchCall::ReleaseProcessor,
                    FetchCall::Uninitialize,
                ]
            }
        }),
{
    law_exchange(company_file, app_name, replies);
    let calls = exchange_calls(company_file, app_name, replies);
    let initialize = FetchCall::Initialize { flags: 2 };
    let open = FetchCall::OpenConnection { app_id: "", app_name };
    let begin = FetchCall::BeginSession { company_file, mode: FileMode::DoNotCare };
    if replies.initialized < 0 {
    } else if replies.created is Err {
        assert(calls =~= seq![initialize, FetchCall::CreateProcessor, FetchCall::Uninitialize]);
    } else if replies.opened is Err {
        assert(calls =~= seq![
            initialize,
            FetchCall::CreateProcessor,
            open,
            FetchCall::ReleaseProcessor,
            FetchCall::Uninitialize,
        ]);
    } else if replies.begun is Err {
        assert(calls =~= seq![
            initialize,
            FetchCall::CreateProcessor,
            open,
            begin,
            FetchCall::ReleaseProcessor,
            FetchCall::Uninitialize,
        ]);
    } else {
        assert(calls =~= seq![
            initialize,
            FetchCall::CreateProcessor,
            open,
            begin,
            FetchCall::GetAccountXml { ticket: replies.begun->Ok_0 },
            FetchCall::EndSession { ticket: replies.begun->Ok_0 },
            FetchCall::CloseConnection,
            FetchCall::ReleaseProcessor,
            FetchCall::Uninitialize,
        ]);
    }
}

/// Every reply from `step` on is one that the stage it comes to accepts.
pub open spec fn accepts_all<E>(step: FetchStep<E>, replies: Replies<E>) -> bool
    decreases step.calls_left(),
{
    match step {
        FetchStep::Call { stage, .. } => stage.awaits(replies.reply(stage)) && accepts_all(
            next_step(stage, replies.reply(stage)),
            replies,
        ),
        FetchStep::Return(_) => true,
    }
}

/// Whatever the calls come back with, the exchange goes on to its end.
pub proof fn law_exchange_accepts_every_reply<E>(step: FetchStep<E>, replies: Replies<E>)
    ensures
        accepts_all(step, replies),
    decreases step.calls_left(),
{
    match step {
        FetchStep::Call { stage, .. } => {
            law_exchange_accepts_every_reply(next_step(stage, replies.reply(stage)), replies);
        },
        FetchStep::Return(_) => {},
    }
}

/// The log tells of a failed teardown, with the whole text of the error, and of no other reply.
pub proof fn law_teardown_failures_are_told<E>(reply: FetchReply<E>, error: Seq<char>)
    ensures
        match reply {
            FetchReply::Ended(Err(_)) => reply.record_view(error) == Some(
                (Level::Warn, "end_session errored: "@ + error),
            ),
            FetchReply::Closed(Err(_)) => reply.record_view(error) == Some(
                (Level::Warn, "close_connection errored: "@ + error),
            ),
            _ => reply.record_view(error) is None,
        },
{
}

/// The message of a failed initialisation ends with eight hexadecimal digits that read as the
/// HRESULT, as a word without sign; an answer that holds nothing has a message of its own, and an
/// error of the request processor none.
pub proof fn law_error_messages<E>(error: FetchError<E>)
    ensures
        match error {
            FetchError::ComInit(hr) => {
                let prefix = "Failed to initialize COM system: HRESULT=0x"@;
                let message = error.message_text()->0;
                &&& error.message_text() is Some
                &&& message.len() == prefix.len() + 8
                &&& message.take(prefix.len() as int) == prefix
                &&& text::read_number(message.skip(prefix.len() as int), 16) == (if hr < 0 {
                    hr + 0x1_0000_0000
                } else {
                    hr as int
                })
                &&& forall|i: int|
                    prefix.len() <= i < message.len() ==> '0' <= #[trigger] message[i] <= '9'
                        || 'A' <= message[i] <= 'F'
            },
            FetchError::NoResponse => error.message_text() == Some(
                "No response XML received from QuickBooks (ticket likely invalid)"@,
            ),
            FetchError::Processor(_) => error.message_text() is None,
        },
{
    if let FetchError::ComInit(hr) = error {
        let prefix = "Failed to initialize COM system: HRESULT=0x"@;
        let word = hresult_word(hr as int) as u32;
        let message = error.message_text()->0;
        text::law_hex_word_reads_back(word);
        assert(message.take(prefix.len() as int) =~= prefix);
        assert(message.skip(prefix.len() as int) =~= text::padded_hex(word as nat, 8));
    }
}

} // verus!
