//! Listing the processes of the machine: which system call comes next, and what was seen.
//!
//! A listing is only as good as the calls behind it, so it says whether it is complete. What runs
//! now may be read off any listing; what was running before is known from a complete one alone.

use vstd::pervasive::unreached;
use vstd::prelude::*;

use crate::process;
use crate::process::ProcessEntry;

verus! {

/// Selects the processes of the machine for a snapshot (`TH32CS_SNAPPROCESS`).
pub const SNAPSHOT_PROCESSES: u32 = 2;

/// The error code of a read past the last row of a snapshot (`ERROR_NO_MORE_FILES`).
pub const NO_MORE_ROWS: i32 = 18;

/// A system call of a listing.
#[derive(Debug, Clone, Copy, PartialEq, Eq, Structural)]
pub enum ListingCall {
    /// Look up the login session of this process.
    OwnSession,
    /// Take a snapshot of what `flags` selects.
    TakeSnapshot { flags: u32 },
    /// Read the first row of the snapshot.
    FirstRow,
    /// Read the row after the one that was read last.
    NextRow,
    /// Look up the login session of a process.
    SessionOf { pid: u32 },
    CloseSnapshot,
}

/// What reading a row came to.
#[derive(Debug)]
pub enum RowReply {
    /// A row: the image name in UTF-16, and the PID.
    Row { exe_file: Vec<u16>, pid: u32 },
    /// There are no more rows.
    End,
    /// The row could not be read.
    Failed,
}

/// The end of the snapshot, by the error code of a read that brought no row.
pub open spec fn is_end(error_code: Option<i32>) -> bool {
    error_code == Some(NO_MORE_ROWS)
}

/// What it means that no row could be read, by the error code of the attempt: the end of the
/// snapshot, or a failure.
pub fn no_row(error_code: Option<i32>) -> (reply: RowReply)
    ensures
        reply == (if error_code == Some(NO_MORE_ROWS) {
            RowReply::End
        } else {
            RowReply::Failed
        }),
        reply is End <==> is_end(error_code),
{
    match error_code {
        Some(code) => if code == NO_MORE_ROWS {
            RowReply::End
        } else {
            RowReply::Failed
        },
        None => RowReply::Failed,
    }
}

/// What a call came back with.
#[derive(Debug)]
pub enum ListingReply {
    /// The login session, where it could be looked up.
    Session(Option<u32>),
    /// Whether a snapshot was taken.
    Snapshot(bool),
    Row(RowReply),
    Closed,
}

/// What a listing saw.
#[derive(Debug)]
pub struct Listing {
    /// The login session of this process, where it is known.
    pub session: Option<u32>,
    /// The rows that were read, where a snapshot was taken.
    pub rows: Option<Vec<ProcessEntry>>,
    /// The snapshot was read to its end, and held a row.
    pub complete: bool,
}

/// Where a listing stands: the call whose reply is awaited, and what has been seen.
#[derive(Debug)]
pub enum ListingStage {
    Asking,
    Snapshotting { session: u32 },
    Reading { session: u32, rows: Vec<ProcessEntry> },
    /// The session of the process of the row read last is being looked up.
    LookingUp { session: u32, rows: Vec<ProcessEntry>, exe_file: Vec<u16>, pid: u32 },
    Closing { listing: Listing },
}

/// What to do next.
#[derive(Debug)]
pub enum ListingStep {
    /// Make `call`, and come back in `stage` with its reply.
    Call { stage: ListingStage, call: ListingCall },
    /// The listing is over.
    Return(Listing),
}

/// `Listing`, with the rows as a sequence.
pub struct ListingView {
    pub session: Option<u32>,
    pub rows: Option<Seq<ProcessEntry>>,
    pub complete: bool,
}

/// `ListingStage`, with the rows as a sequence.
pub enum ListingStageView {
    Asking,
    Snapshotting { session: u32 },
    Reading { session: u32, rows: Seq<ProcessEntry> },
    LookingUp { session: u32, rows: Seq<ProcessEntry>, exe_file: Vec<u16>, pid: u32 },
    Closing { listing: ListingView },
}

/// `ListingStep`, with stage and result taken by their views.
pub enum ListingStepView {
    Call { stage: ListingStageView, call: ListingCall },
    Return(ListingView),
}

impl View for Listing {
    type V = ListingView;

    open spec fn view(&self) -> ListingView {
        ListingView {
            session: self.session,
            rows: match self.rows {
                Some(rows) => Some(rows@),
                None => None,
            },
            complete: self.complete,
        }
    }
}

impl View for ListingStage {
    type V = ListingStageView;

    open spec fn view(&self) -> ListingStageView {
        match *self {
            ListingStage::Asking => ListingStageView::Asking,
            ListingStage::Snapshotting { session } => ListingStageView::Snapshotting { session },
            ListingStage::Reading { session, rows } => ListingStageView::Reading {
                session,
                rows: rows@,
            },
            ListingStage::LookingUp { session, rows, exe_file, pid } => {
                ListingStageView::LookingUp { session, rows: rows@, exe_file, pid }
            },
            ListingStage::Closing { listing } => ListingStageView::Closing { listing: listing@ },
        }
    }
}

impl View for ListingStep {
    type V = ListingStepView;

    open spec fn view(&self) -> ListingStepView {
        match *self {
            ListingStep::Call { stage, call } => ListingStepView::Call { stage: stage@, call },
            ListingStep::Return(listing) => ListingStepView::Return(listing@),
        }
    }
}

impl ListingCall {
    /// Whether `reply` is of the kind that this call gets.
    pub open spec fn answered_by(self, reply: ListingReply) -> bool {
        match self {
            ListingCall::OwnSession => reply is Session,
            ListingCall::TakeSnapshot { .. } => reply is Snapshot,
            ListingCall::FirstRow => reply is Row,
            ListingCall::NextRow => reply is Row,
            ListingCall::SessionOf { .. } => reply is Session,
            ListingCall::CloseSnapshot => reply is Closed,
        }
    }
}

impl ListingStageView {
    /// Whether `reply` answers the call that this stage awaits.
    pub open spec fn awaits(self, reply: ListingReply) -> bool {
        match self {
            ListingStageView::Asking => reply is Session,
            ListingStageView::Snapshotting { .. } => reply is Snapshot,
            ListingStageView::Reading { .. } => reply is Row,
            ListingStageView::LookingUp { .. } => reply is Session,
            ListingStageView::Closing { .. } => reply is Closed,
        }
    }
}

impl ListingStepView {
    /// The stage awaits whatever the call may be answered by.
    pub open spec fn is_paired(self) -> bool {
        match self {
            ListingStepView::Call { stage, call } => forall|reply: ListingReply|
                #[trigger] call.answered_by(reply) <==> stage.awaits(reply),
            ListingStepView::Return(_) => true,
        }
    }
}

/// What is known where no snapshot was read.
pub open spec fn nothing_seen(session: Option<u32>) -> ListingView {
    ListingView { session, rows: None, complete: false }
}

/// Close the snapshot, with what it held settled.
pub open spec fn close_with(
    session: u32,
    rows: Seq<ProcessEntry>,
    complete: bool,
) -> ListingStepView {
    ListingStepView::Call {
        stage: ListingStageView::Closing {
            listing: ListingView { session: Some(session), rows: Some(rows), complete },
        },
        call: ListingCall::CloseSnapshot,
    }
}

/// Read on after the rows so far.
pub open spec fn read_on(session: u32, rows: Seq<ProcessEntry>) -> ListingStepView {
    ListingStepView::Call {
        stage: ListingStageView::Reading { session, rows },
        call: ListingCall::NextRow,
    }
}

/// The step that a listing starts with.
pub open spec fn first_step() -> ListingStepView {
    ListingStepView::Call { stage: ListingStageView::Asking, call: ListingCall::OwnSession }
}

/// The step that follows `reply` in `stage`.
pub open spec fn next_step(stage: ListingStageView, reply: ListingReply) -> ListingStepView {
    match stage {
        ListingStageView::Asking => match reply->Session_0 {
            Some(session) => ListingStepView::Call {
                stage: ListingStageView::Snapshotting { session },
                call: ListingCall::TakeSnapshot { flags: SNAPSHOT_PROCESSES },
            },
            None => ListingStepView::Return(nothing_seen(None)),
        },
        ListingStageView::Snapshotting { session } => if reply->Snapshot_0 {
            ListingStepView::Call {
                stage: ListingStageView::Reading { session, rows: Seq::empty() },
                call: ListingCall::FirstRow,
            }
        } else {
            ListingStepView::Return(nothing_seen(Some(session)))
        },
        ListingStageView::Reading { session, rows } => match reply->Row_0 {
            RowReply::Row { exe_file, pid } => if process::names_qbw(exe_file@) {
                ListingStepView::Call {
                    stage: ListingStageView::LookingUp { session, rows, exe_file, pid },
                    call: ListingCall::SessionOf { pid },
                }
            } else {
                read_on(session, rows.push(ProcessEntry { exe_file, pid, session: None }))
            },
            RowReply::End => close_with(session, rows, rows.len() > 0),
            RowReply::Failed => close_with(session, rows, false),
        },
        ListingStageView::LookingUp { session, rows, exe_file, pid } => read_on(
            session,
            rows.push(ProcessEntry { exe_file, pid, session: reply->Session_0 }),
        ),
        ListingStageView::Closing { listing } => ListingStepView::Return(listing),
    }
}

/// Starts a listing.
pub fn start_listing() -> (step: ListingStep)
    ensures
        step@ == first_step(),
        step@.is_paired(),
{
    ListingStep::Call { stage: ListingStage::Asking, call: ListingCall::OwnSession }
}

/// One step of a listing.
///
/// Without a session of its own it takes no snapshot. It looks up the session of `qbw.exe`
/// processes alone. A snapshot that was taken is closed however reading it ends. One without a
/// single row is not complete: at least this very process was running.
pub fn list_processes(stage: ListingStage, reply: ListingReply) -> (step: ListingStep)
    requires
        stage@.awaits(reply),
    ensures
        step@ == next_step(stage@, reply),
        step@.is_paired(),
{
    match (stage, reply) {
        (ListingStage::Asking, ListingReply::Session(session)) => match session {
            Some(session) => ListingStep::Call {
                stage: ListingStage::Snapshotting { session },
                call: ListingCall::TakeSnapshot { flags: SNAPSHOT_PROCESSES },
            },
            None => ListingStep::Return(Listing { session: None, rows: None, complete: false }),
        },
        (ListingStage::Snapshotting { session }, ListingReply::Snapshot(taken)) => if taken {
            ListingStep::Call {
                stage: ListingStage::Reading { session, rows: Vec::new() },
                call: ListingCall::FirstRow,
            }
        } else {
            ListingStep::Return(Listing { session: Some(session), rows: None, complete: false })
        },
        (ListingStage::Reading { session, rows }, ListingReply::Row(row)) => match row {
            RowReply::Row { exe_file, pid } => if process::is_qbw_image(exe_file.as_slice()) {
                ListingStep::Call {
                    stage: ListingStage::LookingUp { session, rows, exe_file, pid },
                    call: ListingCall::SessionOf { pid },
                }
            } else {
                add_row(session, rows, ProcessEntry { exe_file, pid, session: None })
            },
            RowReply::End => {
                let complete = rows.len() > 0;
                close_snapshot(session, rows, complete)
            },
            RowReply::Failed => close_snapshot(session, rows, false),
        },
        (
            ListingStage::LookingUp { session, rows, exe_file, pid },
            ListingReply::Session(found),
        ) => add_row(session, rows, ProcessEntry { exe_file, pid, session: found }),
        (ListingStage::Closing { listing }, _) => ListingStep::Return(listing),
        _ => unreached(),
    }
}

/// Keeps a row, and reads on.
fn add_row(session: u32, rows: Vec<ProcessEntry>, row: ProcessEntry) -> (step: ListingStep)
    ensures
        step@ == read_on(session, rows@.push(row)),
{
    let mut rows = rows;
    rows.push(row);
    ListingStep::Call { stage: ListingStage::Reading { session, rows }, call: ListingCall::NextRow }
}

/// Settles what the snapshot held, and closes it.
fn close_snapshot(session: u32, rows: Vec<ProcessEntry>, complete: bool) -> (step: ListingStep)
    ensures
        step@ == close_with(session, rows@, complete),
{
    let listing = Listing { session: Some(session), rows: Some(rows), complete };
    ListingStep::Call {
        stage: ListingStage::Closing { listing },
        call: ListingCall::CloseSnapshot,
    }
}

impl ListingView {
    /// The processes to spare later on, where the listing knows them all.
    pub open spec fn captured_pids(self) -> Option<Seq<u32>> {
        if self.complete && self.session is Some && self.rows is Some {
            Some(process::possible_qbw_pids(self.rows->0, self.session->0))
        } else {
            None
        }
    }

    /// The `qbw.exe` processes that the listing shows in the session.
    pub open spec fn running_pids(self) -> Seq<u32> {
        if self.session is Some && self.rows is Some {
            process::session_qbw_pids(self.rows->0, self.session->0)
        } else {
            Seq::empty()
        }
    }
}

impl Listing {
    /// The processes to spare later on; `None` unless the listing is complete.
    pub fn captured(&self) -> (pids: Option<Vec<u32>>)
        ensures
            pids is Some == self@.captured_pids() is Some,
            pids is Some ==> pids->0@ == self@.captured_pids()->0,
            pids is Some <==> self.complete && self.session is Some && self.rows is Some,
            pids is Some ==> pids->0@ == process::possible_qbw_pids(
                self.rows->0@,
                self.session->0,
            ),
    {
        if !self.complete {
            return None;
        }
        match &self.rows {
            Some(rows) => process::capture_qbw_pids(self.session, Some(rows.as_slice())),
            None => None,
        }
    }

    /// The PIDs of the `qbw.exe` processes of the session, as far as the listing goes.
    pub fn running(&self) -> (pids: Vec<u32>)
        ensures
            pids@ == self@.running_pids(),
            self.session is Some && self.rows is Some ==> pids@ == process::session_qbw_pids(
                self.rows->0@,
                self.session->0,
            ),
            !(self.session is Some && self.rows is Some) ==> pids@.len() == 0,
    {
        match &self.rows {
            Some(rows) => {
                process::qbw_pids_in_current_session(self.session, Some(rows.as_slice()))
            },
            None => process::qbw_pids_in_current_session(self.session, None),
        }
    }
}

/// What the system calls of one listing would come back with.
pub struct Replies {
    pub own_session: Option<u32>,
    pub taken: bool,
    /// The rows that can be read: image name and PID.
    pub rows: Seq<(Vec<u16>, u32)>,
    /// Whether the snapshot ends after those rows; otherwise reading on fails.
    pub ends: bool,
    /// The session of the process of each row, where it can be looked up.
    pub sessions: spec_fn(int) -> Option<u32>,
}

impl Replies {
    /// Whether the snapshot is read to its end, and holds a row.
    pub open spec fn complete(self) -> bool {
        self.ends && self.rows.len() > 0
    }

    /// The reply to the attempt to read the row at `index`.
    pub open spec fn row_reply(self, index: int) -> RowReply {
        if 0 <= index < self.rows.len() {
            RowReply::Row { exe_file: self.rows[index].0, pid: self.rows[index].1 }
        } else if self.ends {
            RowReply::End
        } else {
            RowReply::Failed
        }
    }

    /// The reply to the call that `stage` awaits.
    pub open spec fn reply(self, stage: ListingStageView) -> ListingReply {
        match stage {
            ListingStageView::Asking => ListingReply::Session(self.own_session),
            ListingStageView::Snapshotting { .. } => ListingReply::Snapshot(self.taken),
            ListingStageView::Reading { rows, .. } => ListingReply::Row(
                self.row_reply(rows.len() as int),
            ),
            ListingStageView::LookingUp { rows, .. } => ListingReply::Session(
                (self.sessions)(rows.len() as int),
            ),
            ListingStageView::Closing { .. } => ListingReply::Closed,
        }
    }

    /// The number of rows left after `seen`.
    pub open spec fn rows_left(self, seen: nat) -> nat {
        if seen <= self.rows.len() {
            (self.rows.len() - seen) as nat
        } else {
            0
        }
    }

    /// An upper bound on the calls still to make from `step` on.
    pub open spec fn calls_left(self, step: ListingStepView) -> nat {
        match step {
            ListingStepView::Call { stage, .. } => match stage {
                ListingStageView::Asking => 2 * self.rows.len() + 4,
                ListingStageView::Snapshotting { .. } => 2 * self.rows.len() + 3,
                ListingStageView::Reading { rows, .. } => 2 * self.rows_left(rows.len()) + 2,
                ListingStageView::LookingUp { rows, .. } => if rows.len() < self.rows.len() {
                    2 * self.rows_left(rows.len()) + 1
                } else {
                    3
                },
                ListingStageView::Closing { .. } => 1,
            },
            ListingStepView::Return(_) => 0,
        }
    }

    /// What is kept of the row at `index`.
    pub open spec fn entry(self, index: int) -> ProcessEntry {
        ProcessEntry {
            exe_file: self.rows[index].0,
            pid: self.rows[index].1,
            session: if process::names_qbw(self.rows[index].0@) {
                (self.sessions)(index)
            } else {
                None
            },
        }
    }
}

/// The calls made from `step` to the end of the listing, in order.
pub open spec fn calls_made(step: ListingStepView, replies: Replies) -> Seq<ListingCall>
    decreases replies.calls_left(step),
{
    match step {
        ListingStepView::Call { stage, call } => seq![call] + calls_made(
            next_step(stage, replies.reply(stage)),
            replies,
        ),
        ListingStepView::Return(_) => Seq::empty(),
    }
}

/// What the listing comes to from `step` on.
pub open spec fn outcome(step: ListingStepView, replies: Replies) -> ListingView
    decreases replies.calls_left(step),
{
    match step {
        ListingStepView::Call { stage, .. } => outcome(
            next_step(stage, replies.reply(stage)),
            replies,
        ),
        ListingStepView::Return(listing) => listing,
    }
}

/// The calls on the rows from `index` on, once that at `index` has been asked for: the session of
/// each `qbw.exe`, and the row after it.
pub open spec fn row_calls(replies: Replies, index: int) -> Seq<ListingCall>
    decreases replies.rows.len() - index,
{
    if 0 <= index < replies.rows.len() {
        (if process::names_qbw(replies.rows[index].0@) {
            seq![ListingCall::SessionOf { pid: replies.rows[index].1 }]
        } else {
            Seq::empty()
        }) + seq![ListingCall::NextRow] + row_calls(replies, index + 1)
    } else {
        Seq::empty()
    }
}

/// The calls of a whole listing, told by its replies.
pub open spec fn listing_calls(replies: Replies) -> Seq<ListingCall> {
    let take = ListingCall::TakeSnapshot { flags: SNAPSHOT_PROCESSES };
    if replies.own_session is None {
        seq![ListingCall::OwnSession]
    } else if !replies.taken {
        seq![ListingCall::OwnSession, take]
    } else {
        seq![ListingCall::OwnSession, take, ListingCall::FirstRow] + row_calls(replies, 0) + seq![
            ListingCall::CloseSnapshot,
        ]
    }
}

/// What a whole listing comes to, told by its replies.
pub open spec fn listing_result(replies: Replies) -> ListingView {
    if replies.own_session is None || !replies.taken {
        nothing_seen(replies.own_session)
    } else {
        ListingView {
            session: replies.own_session,
            rows: Some(Seq::new(replies.rows.len(), |i: int| replies.entry(i))),
            complete: replies.complete(),
        }
    }
}

/// Reading on from the rows kept so far makes the calls on the other rows and closes the snapshot.
proof fn lemma_reading(session: u32, rows: Seq<ProcessEntry>, call: ListingCall, replies: Replies)
    requires
        rows.len() <= replies.rows.len(),
        rows == Seq::new(rows.len(), |i: int| replies.entry(i)),
    ensures
        ({
            let step = ListingStepView::Call {
                stage: ListingStageView::Reading { session, rows },
                call,
            };
            &&& calls_made(step, replies) == seq![call] + row_calls(replies, rows.len() as int)
                + seq![ListingCall::CloseSnapshot]
            &&& outcome(step, replies) == ListingView {
                session: Some(session),
                rows: Some(Seq::new(replies.rows.len(), |i: int| replies.entry(i))),
                complete: replies.complete(),
            }
        }),
    decreases replies.rows.len() - rows.len(),
{
    let stage = ListingStageView::Reading { session, rows };
    let step = ListingStepView::Call { stage, call };
    let k = rows.len() as int;
    let after = next_step(stage, replies.reply(stage));
    assert(calls_made(step, replies) == seq![call] + calls_made(after, replies));
    assert(outcome(step, replies) == outcome(after, replies));
    if k < replies.rows.len() {
        let longer = rows.push(replies.entry(k));
        assert(longer =~= Seq::new(longer.len(), |i: int| replies.entry(i)));
        lemma_reading(session, longer, ListingCall::NextRow, replies);
        let next = read_on(session, longer);
        if process::names_qbw(replies.rows[k].0@) {
            let lookup = after->stage;
            assert(next_step(lookup, replies.reply(lookup)) == next);
            assert(calls_made(after, replies) == seq![after->call] + calls_made(next, replies));
            assert(outcome(after, replies) == outcome(next, replies));
        } else {
            assert(after == next);
        }
        assert(calls_made(step, replies) =~= seq![call] + row_calls(replies, k) + seq![
            ListingCall::CloseSnapshot,
        ]);
    } else {
        let last = ListingStepView::Return(
            ListingView { session: Some(session), rows: Some(rows), complete: replies.complete() },
        );
        assert(after == close_with(session, rows, replies.complete()));
        assert(calls_made(last, replies) =~= Seq::empty());
        assert(calls_made(after, replies) == seq![ListingCall::CloseSnapshot] + calls_made(
            last,
            replies,
        ));
        assert(outcome(after, replies) == outcome(last, replies));
        assert(calls_made(step, replies) =~= seq![call] + row_calls(replies, k) + seq![
            ListingCall::CloseSnapshot,
        ]);
    }
}

/// A listing makes exactly the calls of `listing_calls`, in that order, and comes to
/// `listing_result`: every row that could be read, in order.
pub proof fn law_listing(replies: Replies)
    ensures
        calls_made(first_step(), replies) == listing_calls(replies),
        outcome(first_step(), replies) == listing_result(replies),
{
    reveal_with_fuel(calls_made, 4);
    reveal_with_fuel(outcome, 4);
    if replies.own_session is Some && replies.taken {
        let rows = Seq::<ProcessEntry>::empty();
        assert(rows =~= Seq::new(0, |i: int| replies.entry(i)));
        lemma_reading(replies.own_session->0, rows, ListingCall::FirstRow, replies);
    }
    assert(calls_made(first_step(), replies) =~= listing_calls(replies));
}

/// No snapshot is taken where the own session is unknown; one that was taken is closed once, as
/// the last call, and where none was taken none is closed.
pub proof fn law_snapshot_is_closed(replies: Replies)
    ensures
        ({
            let calls = calls_made(first_step(), replies);
            let take = ListingCall::TakeSnapshot { flags: SNAPSHOT_PROCESSES };
            &&& calls.contains(take) <==> replies.own_session is Some
            &&& calls.contains(ListingCall::CloseSnapshot) <==> replies.own_session is Some
                && replies.taken
            &&& forall|i: int|
                0 <= i < calls.len() && #[trigger] calls[i] == ListingCall::CloseSnapshot ==> i
                    == calls.len() - 1
        }),
{
    law_listing(replies);
    lemma_row_calls(replies, 0);
    let calls = listing_calls(replies);
    if replies.own_session is Some {
        assert(calls[1] == ListingCall::TakeSnapshot { flags: SNAPSHOT_PROCESSES });
        if replies.taken {
            assert(calls.last() == ListingCall::CloseSnapshot);
        }
    }
}

proof fn lemma_row_calls(replies: Replies, index: int)
    requires
        0 <= index,
    ensures
        forall|i: int|
            0 <= i < row_calls(replies, index).len() ==> #[trigger] row_calls(replies, index)[i]
                != ListingCall::CloseSnapshot,
    decreases replies.rows.len() - index,
{
    if index < replies.rows.len() {
        lemma_row_calls(replies, index + 1);
    }
}

/// What a complete listing shows running it also captures, so that cleanup takes nothing where
/// nothing has changed.
pub proof fn law_unchanged_is_spared(listing: ListingView, pid: u32)
    requires
        listing.captured_pids() is Some,
        listing.running_pids().contains(pid),
    ensures
        listing.captured_pids()->0.contains(pid),
        !process::owned_pids(listing.captured_pids()->0, listing.running_pids()).contains(pid),
{
    let rows = listing.rows->0;
    let session = listing.session->0;
    process::lemma_session_qbw_pids(rows, session, pid);
    process::lemma_possible_qbw_pids(rows, session, pid);
    process::law_only_new_pids_are_owned(listing.captured_pids()->0, listing.running_pids());
    let i = choose|i: int|
        0 <= i < rows.len() && (#[trigger] rows[i]).pid == pid && process::is_session_qbw(
            rows[i],
            session,
        );
    assert(rows[i].pid == pid && process::may_be_session_qbw(rows[i], session));
}

/// A read that brought no row is the end of the snapshot for one error code alone.
pub proof fn law_one_code_is_the_end(a: Option<i32>, b: Option<i32>)
    ensures
        is_end(a) <==> a == Some(18i32),
        is_end(a) && is_end(b) ==> a == b,
{
}

/// A listing captures exactly where it is complete, has rows and knows its session, be there a
/// `qbw.exe` among the rows or not. It then holds the PIDs of the rows that name `qbw.exe` and are
/// of the session, or of one that could not be looked up, and no others.
pub proof fn law_complete_listing_captures(listing: ListingView, pid: u32)
    ensures
        listing.captured_pids() is Some <==> listing.complete && listing.session is Some
            && listing.rows is Some,
        listing.captured_pids() is Some ==> (listing.captured_pids()->0.contains(pid)
            <==> exists|i: int|
            0 <= i < listing.rows->0.len() && (#[trigger] listing.rows->0[i]).pid == pid
                && process::names_qbw(listing.rows->0[i].exe_file@) && (
            listing.rows->0[i].session is None || listing.rows->0[i].session == listing.session)),
{
    process::law_captured_pids_by_row(listing.rows->0, listing.session->0, pid);
}

/// What a listing captures grows row by row, at the end, by the PIDs that it is to spare.
pub proof fn law_captured_grows(listing: ListingView, rows: Seq<ProcessEntry>, row: ProcessEntry)
    requires
        listing.complete,
        listing.session is Some,
    ensures
        ({
            let shorter = ListingView { rows: Some(rows), ..listing };
            let longer = ListingView { rows: Some(rows.push(row)), ..listing };
            let none = ListingView { rows: Some(Seq::empty()), ..listing };
            let spare = process::names_qbw(row.exe_file@) && (row.session is None || row.session
                == listing.session);
            &&& none.captured_pids() == Some(Seq::<u32>::empty())
            &&& longer.captured_pids() is Some
            &&& shorter.captured_pids() is Some
            &&& longer.captured_pids()->0 == (if spare {
                shorter.captured_pids()->0.push(row.pid)
            } else {
                shorter.captured_pids()->0
            })
        }),
{
    process::law_captured_pids_row_by_row(rows, row, listing.session->0);
}

/// What a listing shows running are the PIDs of its rows that name `qbw.exe` and are of its
/// session, whether or not it is complete; without rows or session there are none.
pub proof fn law_listing_shows_running(listing: ListingView, pid: u32)
    ensures
        listing.running_pids().contains(pid) <==> {
            &&& listing.session is Some && listing.rows is Some
            &&& exists|i: int|
                0 <= i < listing.rows->0.len() && (#[trigger] listing.rows->0[i]).pid == pid
                    && process::names_qbw(listing.rows->0[i].exe_file@) && listing.rows->0[i].session
                    == listing.session
        },
        !(listing.session is Some && listing.rows is Some) ==> listing.running_pids().len() == 0,
{
    process::law_session_pids_by_row(listing.rows->0, listing.session->0, pid);
}

/// What a listing shows running grows row by row, at the end, by the PIDs that run in the session.
pub proof fn law_running_grows(listing: ListingView, rows: Seq<ProcessEntry>, row: ProcessEntry)
    requires
        listing.session is Some,
    ensures
        ({
            let shorter = ListingView { rows: Some(rows), ..listing };
            let longer = ListingView { rows: Some(rows.push(row)), ..listing };
            let runs = process::names_qbw(row.exe_file@) && row.session == listing.session;
            longer.running_pids() == (if runs {
                shorter.running_pids().push(row.pid)
            } else {
                shorter.running_pids()
            })
        }),
{
    process::law_session_pids_row_by_row(rows, row, listing.session->0);
}

/// What a listing keeps of the system calls: the own session; where a snapshot was taken, every row
/// that could be read, in order, with its name, its PID and, for a `qbw.exe`, the session that was
/// looked up for it. It is complete exactly where the rows came to their end and there was one.
pub proof fn law_listing_keeps_what_was_seen(replies: Replies)
    ensures
        ({
            let listing = outcome(first_step(), replies);
            &&& listing.session == replies.own_session
            &&& listing.rows is Some <==> replies.own_session is Some && replies.taken
            &&& listing.complete <==> replies.own_session is Some && replies.taken && replies.ends
                && replies.rows.len() > 0
            &&& listing.rows is Some ==> {
                &&& listing.rows->0.len() == replies.rows.len()
                &&& forall|i: int|
                    #![trigger listing.rows->0[i]]
                    0 <= i < replies.rows.len() ==> {
                        &&& listing.rows->0[i].exe_file == replies.rows[i].0
                        &&& listing.rows->0[i].pid == replies.rows[i].1
                        &&& process::names_qbw(replies.rows[i].0@) ==> listing.rows->0[i].session
                            == (replies.sessions)(i)
                        &&& !process::names_qbw(replies.rows[i].0@) ==> listing.rows->0[i].session
                            is None
                    }
            }
        }),
{
    law_listing(replies);
}

/// The calls of a listing: the own session first; only where that is known a snapshot of the
/// processes, and only where that was taken its first row. The session of a process is looked up
/// exactly where its row names `qbw.exe`, and reading goes on right after that.
pub proof fn law_listing_call_order(replies: Replies, pid: u32)
    ensures
        ({
            let calls = calls_made(first_step(), replies);
            let known = replies.own_session is Some;
            &&& calls.len() >= 1
            &&& calls[0] == ListingCall::OwnSession
            &&& !known ==> calls.len() == 1
            &&& known ==> calls.len() >= 2 && calls[1] == ListingCall::TakeSnapshot { flags: 2 }
            &&& known && !replies.taken ==> calls.len() == 2
            &&& known && replies.taken ==> {
                &&& calls.len() >= 4 + replies.rows.len()
                &&& calls[2] == ListingCall::FirstRow
                &&& calls.last() == ListingCall::CloseSnapshot
                &&& calls.contains(ListingCall::SessionOf { pid }) <==> exists|i: int|
                    0 <= i < replies.rows.len() && (#[trigger] replies.rows[i]).1 == pid
                        && process::names_qbw(replies.rows[i].0@)
                &&& forall|k: int|
                    #![trigger calls[k]]
                    3 <= k < calls.len() - 1 ==> {
                        ||| calls[k] == ListingCall::NextRow
                        ||| calls[k] is SessionOf && k + 1 < calls.len() - 1 && calls[k + 1]
                            == ListingCall::NextRow
                    }
            }
        }),
{
    law_listing(replies);
    lemma_row_call_order(replies, 0, pid);
    let calls = listing_calls(replies);
    if replies.own_session is Some && replies.taken {
        let inner = row_calls(replies, 0);
        let lookup = ListingCall::SessionOf { pid };
        assert forall|k: int| 3 <= k < calls.len() - 1 implies #[trigger] calls[k] == inner[k
            - 3] by {}
        if inner.contains(lookup) {
            let k = inner.index_of(lookup);
            assert(calls[k + 3] == lookup);
        }
        if calls.contains(lookup) {
            let k = calls.index_of(lookup);
            assert(inner[k - 3] == lookup);
        }
    }
}

proof fn lemma_row_call_order(replies: Replies, index: int, pid: u32)
    requires
        0 <= index <= replies.rows.len(),
    ensures
        ({
            let calls = row_calls(replies, index);
            &&& calls.len() >= replies.rows.len() - index
            &&& calls.contains(ListingCall::SessionOf { pid }) <==> exists|i: int|
                index <= i < replies.rows.len() && (#[trigger] replies.rows[i]).1 == pid
                    && process::names_qbw(replies.rows[i].0@)
            &&& forall|k: int|
                #![trigger calls[k]]
                0 <= k < calls.len() ==> {
                    ||| calls[k] == ListingCall::NextRow
                    ||| calls[k] is SessionOf && k + 1 < calls.len() && calls[k + 1]
                        == ListingCall::NextRow
                }
        }),
    decreases replies.rows.len() - index,
{
    let calls = row_calls(replies, index);
    let lookup = ListingCall::SessionOf { pid };
    if index < replies.rows.len() {
        lemma_row_call_order(replies, index + 1, pid);
        let rest = row_calls(replies, index + 1);
        let row = replies.rows[index];
        let first = if process::names_qbw(row.0@) {
            2int
        } else {
            1
        };
        assert(calls.len() == first + rest.len());
        assert forall|k: int| first <= k < calls.len() implies #[trigger] calls[k] == rest[k
            - first] by {}
        assert(calls[first - 1] == ListingCall::NextRow);
        if process::names_qbw(row.0@) {
            assert(calls[0] == ListingCall::SessionOf { pid: row.1 });
        }
        assert forall|k: int| 0 <= k < calls.len() implies {
            ||| #[trigger] calls[k] == ListingCall::NextRow
            ||| calls[k] is SessionOf && k + 1 < calls.len() && calls[k + 1] == ListingCall::NextRow
        } by {
            if k >= first {
                assert(calls[k] == rest[k - first]);
                if rest[k - first] is SessionOf {
                    assert(calls[k + 1] == rest[k - first + 1]);
                }
            }
        }
        if rest.contains(lookup) {
            let k = rest.index_of(lookup);
            assert(calls[k + first] == lookup);
        }
        if calls.contains(lookup) {
            let k = calls.index_of(lookup);
            if k >= first {
                assert(rest[k - first] == lookup);
            } else {
                assert(replies.rows[index].1 == pid);
            }
        }
    }
}

/// A listing captures exactly where the own session is known, a snapshot was taken, and its rows,
/// of which there is one at least, were read to their end. What it captures is told by those rows.
pub proof fn law_good_calls_capture(replies: Replies, pid: u32)
    ensures
        ({
            let captured = outcome(first_step(), replies).captured_pids();
            &&& captured is Some <==> replies.own_session is Some && replies.taken && replies.ends
                && replies.rows.len() > 0
            &&& captured is Some ==> (captured->0.contains(pid) <==> exists|i: int|
                0 <= i < replies.rows.len() && (#[trigger] replies.rows[i]).1 == pid
                    && process::names_qbw(replies.rows[i].0@) && ((replies.sessions)(i) is None || (
                replies.sessions)(i) == replies.own_session))
        }),
{
    let listing = outcome(first_step(), replies);
    law_listing_keeps_what_was_seen(replies);
    law_complete_listing_captures(listing, pid);
    if listing.captured_pids() is Some {
        let rows = listing.rows->0;
        if exists|i: int|
            0 <= i < replies.rows.len() && (#[trigger] replies.rows[i]).1 == pid
                && process::names_qbw(replies.rows[i].0@) && ((replies.sessions)(i) is None || (
            replies.sessions)(i) == replies.own_session) {
            let i = choose|i: int|
                0 <= i < replies.rows.len() && (#[trigger] replies.rows[i]).1 == pid
                    && process::names_qbw(replies.rows[i].0@) && ((replies.sessions)(i) is None || (
                replies.sessions)(i) == replies.own_session);
            assert(rows[i].pid == pid);
        }
        if listing.captured_pids()->0.contains(pid) {
            let i = choose|i: int|
                0 <= i < rows.len() && (#[trigger] rows[i]).pid == pid && process::names_qbw(
                    rows[i].exe_file@,
                ) && (rows[i].session is None || rows[i].session == listing.session);
            assert(replies.rows[i].1 == pid);
        }
    }
}

/// Every reply from `step` on is one that the stage it comes to accepts.
pub open spec fn accepts_all(step: ListingStepView, replies: Replies) -> bool
    decreases replies.calls_left(step),
{
    match step {
        ListingStepView::Call { stage, .. } => stage.awaits(replies.reply(stage)) && accepts_all(
            next_step(stage, replies.reply(stage)),
            replies,
        ),
        ListingStepView::Return(_) => true,
    }
}

/// Whatever the calls come back with, the listing goes on to its end.
pub proof fn law_listing_accepts_every_reply(step: ListingStepView, replies: Replies)
    ensures
        accepts_all(step, replies),
    decreases replies.calls_left(step),
{
    match step {
        ListingStepView::Call { stage, .. } => {
            law_listing_accepts_every_reply(next_step(stage, replies.reply(stage)), replies);
        },
        ListingStepView::Return(_) => {},
    }
}

/// The views of a listing and of its steps leave nothing out.
pub proof fn law_views_are_whole(listing: Listing, stage: ListingStage, call: ListingCall)
    ensures
        listing@.session == listing.session,
        listing@.complete == listing.complete,
        listing@.rows is Some == listing.rows is Some,
        listing.rows is Some ==> listing@.rows->0 == listing.rows->0@,
        (ListingStep::Return(listing))@ == ListingStepView::Return(listing@),
        (ListingStep::Call { stage, call })@ == (ListingStepView::Call { stage: stage@, call }),
        match stage {
            ListingStage::Asking => stage@ is Asking,
            ListingStage::Snapshotting { session } => stage@ == (ListingStageView::Snapshotting {
                session,
            }),
            ListingStage::Reading { session, rows } => stage@ == (ListingStageView::Reading {
                session,
                rows: rows@,
            }),
            ListingStage::LookingUp { session, rows, exe_file, pid } => stage@ == (
            ListingStageView::LookingUp { session, rows: rows@, exe_file, pid }),
            ListingStage::Closing { listing } => stage@ == (ListingStageView::Closing {
                listing: listing@,
            }),
        },
{
}

} // verus!
