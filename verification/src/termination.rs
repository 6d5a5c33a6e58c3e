//! Terminating a list of processes: one after the other, each opened, terminated and closed.

use vstd::prelude::*;
use vstd::string::*;

use crate::logging;
use crate::logging::{Level, LogRecord};
use crate::text;

verus! {

/// The right to terminate a process (`PROCESS_TERMINATE`).
pub const RIGHT_TO_TERMINATE: u32 = 1;

/// The exit code that a terminated process is given.
pub const TERMINATED_EXIT_CODE: u32 = 1;

/// The step that comes next, on the process at `index` of the list.
#[derive(Debug, Clone, Copy, PartialEq, Eq, Structural)]
pub enum TerminationCall {
    /// Open a handle with the right to terminate.
    Open { index: usize },
    /// Terminate through the open handle.
    Terminate { index: usize },
    /// Close the open handle.
    Close { index: usize },
    /// Every process of the list has had its turn.
    Done,
}

/// A system call, with what is handed to it. The last two go through the handle that the first
/// opened on `pid`.
#[derive(Debug, Clone, Copy, PartialEq, Eq, Structural)]
pub enum ProcessCall {
    /// Open a handle with the rights of `access`; child processes inherit it where `inherit`.
    OpenProcess { access: u32, inherit: bool, pid: u32 },
    /// Terminate the process, which then exits with `exit_code`.
    TerminateProcess { pid: u32, exit_code: u32 },
    CloseHandle { pid: u32 },
}

impl TerminationCall {
    /// The call is on a process of a list of `count`.
    pub open spec fn within(self, count: nat) -> bool {
        match self {
            TerminationCall::Open { index } => index < count,
            TerminationCall::Terminate { index } => index < count,
            TerminationCall::Close { index } => index < count,
            TerminationCall::Done => true,
        }
    }

    /// The system call that this step makes on the list `pids`.
    pub open spec fn made_on(self, pids: Seq<u32>) -> Option<ProcessCall> {
        match self {
            TerminationCall::Open { index } => Some(open_call(pids[index as int])),
            TerminationCall::Terminate { index } => Some(terminate_call(pids[index as int])),
            TerminationCall::Close { index } => Some(
                ProcessCall::CloseHandle { pid: pids[index as int] },
            ),
            TerminationCall::Done => None,
        }
    }

    /// The system call to make for this step on the list `pids`; none once all is done.
    pub fn system_call(self, pids: &[u32]) -> (r: Option<ProcessCall>)
        requires
            self.within(pids@.len()),
        ensures
            r == self.made_on(pids@),
    {
        match self {
            TerminationCall::Open { index } => Some(
                ProcessCall::OpenProcess {
                    access: RIGHT_TO_TERMINATE,
                    inherit: false,
                    pid: pids[index],
                },
            ),
            TerminationCall::Terminate { index } => Some(
                ProcessCall::TerminateProcess {
                    pid: pids[index],
                    exit_code: TERMINATED_EXIT_CODE,
                },
            ),
            TerminationCall::Close { index } => Some(
                ProcessCall::CloseHandle { pid: pids[index] },
            ),
            TerminationCall::Done => None,
        }
    }

    /// An upper bound on the calls left in a list of `count`, this one included.
    pub open spec fn calls_left(self, count: nat) -> int {
        match self {
            TerminationCall::Open { index } => 3 * (count - index),
            TerminationCall::Terminate { index } => 3 * (count - index) - 1,
            TerminationCall::Close { index } => 3 * (count - index) - 2,
            TerminationCall::Done => 0,
        }
    }
}

/// Opening `pid`: with the right to terminate, and not for child processes.
pub open spec fn open_call(pid: u32) -> ProcessCall {
    ProcessCall::OpenProcess { access: RIGHT_TO_TERMINATE, inherit: false, pid }
}

/// Terminating `pid`, with the exit code of a terminated process.
pub open spec fn terminate_call(pid: u32) -> ProcessCall {
    ProcessCall::TerminateProcess { pid, exit_code: TERMINATED_EXIT_CODE }
}

/// The first call on the processes of a list of `count` from `index` on.
pub open spec fn open_from(count: nat, index: int) -> TerminationCall {
    if 0 <= index < count {
        TerminationCall::Open { index: index as usize }
    } else {
        TerminationCall::Done
    }
}

/// What follows a call that succeeded or failed: a process that could not be opened is passed
/// over, a handle that was opened is closed whether or not the process could be terminated.
pub open spec fn next_call(count: nat, call: TerminationCall, succeeded: bool) -> TerminationCall {
    match call {
        TerminationCall::Open { index } => if succeeded {
            TerminationCall::Terminate { index }
        } else {
            open_from(count, index + 1)
        },
        TerminationCall::Terminate { index } => TerminationCall::Close { index },
        TerminationCall::Close { index } => open_from(count, index + 1),
        TerminationCall::Done => TerminationCall::Done,
    }
}

/// The call that starts on a list.
pub fn first_termination(pids: &[u32]) -> (call: TerminationCall)
    ensures
        call == open_from(pids@.len(), 0),
        call.within(pids@.len()),
{
    if pids.len() > 0 {
        TerminationCall::Open { index: 0 }
    } else {
        TerminationCall::Done
    }
}

/// The call that follows `call` on the list `pids`, given whether `call` succeeded.
pub fn terminate_pids(pids: &[u32], call: TerminationCall, succeeded: bool) -> (next:
    TerminationCall)
    requires
        call.within(pids@.len()),
    ensures
        next == next_call(pids@.len(), call, succeeded),
        next.within(pids@.len()),
        call != TerminationCall::Done ==> next.calls_left(pids@.len()) < call.calls_left(
            pids@.len(),
        ),
{
    match call {
        TerminationCall::Open { index } => if succeeded {
            TerminationCall::Terminate { index }
        } else {
            open_after(pids, index)
        },
        TerminationCall::Terminate { index } => TerminationCall::Close { index },
        TerminationCall::Close { index } => open_after(pids, index),
        TerminationCall::Done => TerminationCall::Done,
    }
}

/// What the log says of a call on the list `pids` that succeeded or failed.
pub open spec fn call_record(
    pids: Seq<u32>,
    call: TerminationCall,
    succeeded: bool,
) -> Option<(Level, Seq<char>)> {
    match call {
        TerminationCall::Open { index } => if succeeded {
            None
        } else {
            Some(
                (
                    Level::Warn,
                    "Could not open qbw.exe PID "@ + text::decimal_digits(pids[index as int] as nat)
                        + " for termination"@,
                ),
            )
        },
        TerminationCall::Terminate { index } => if succeeded {
            Some(
                (
                    Level::Info,
                    "Terminated auto-launched qbw.exe PID "@ + text::decimal_digits(
                        pids[index as int] as nat,
                    ) + " (current session)"@,
                ),
            )
        } else {
            Some(
                (
                    Level::Warn,
                    "Failed to terminate qbw.exe PID "@ + text::decimal_digits(
                        pids[index as int] as nat,
                    ),
                ),
            )
        },
        _ => None,
    }
}

/// The record to log once `call` succeeded or failed.
pub fn termination_record(pids: &[u32], call: TerminationCall, succeeded: bool) -> (r: Option<
    LogRecord,
>)
    requires
        call.within(pids@.len()),
    ensures
        logging::is_record(r, call_record(pids@, call, succeeded)),
        r is Some <==> (call is Open && !succeeded) || call is Terminate,
{
    match call {
        TerminationCall::Open { index } => if succeeded {
            None
        } else {
            let mut message = "Could not open qbw.exe PID ".to_string();
            message.append(text::decimal(pids[index] as u64).as_str());
            message.append(" for termination");
            Some(LogRecord { level: Level::Warn, message })
        },
        TerminationCall::Terminate { index } => if succeeded {
            let mut message = "Terminated auto-launched qbw.exe PID ".to_string();
            message.append(text::decimal(pids[index] as u64).as_str());
            message.append(" (current session)");
            Some(LogRecord { level: Level::Info, message })
        } else {
            let mut message = "Failed to terminate qbw.exe PID ".to_string();
            message.append(text::decimal(pids[index] as u64).as_str());
            Some(LogRecord { level: Level::Warn, message })
        },
        _ => None,
    }
}

/// Moves on from the process at `index`.
fn open_after(pids: &[u32], index: usize) -> (next: TerminationCall)
    requires
        index < pids@.len(),
    ensures
        next == open_from(pids@.len(), index + 1),
        next.within(pids@.len()),
        next.calls_left(pids@.len()) == 3 * (pids@.len() - index - 1),
{
    let count: usize = pids.len();
    if index + 1 < count {
        TerminationCall::Open { index: index + 1 }
    } else {
        TerminationCall::Done
    }
}

/// All calls made from `call` on, in order, where `succeeds` tells the outcome of each.
pub open spec fn calls_made(
    count: nat,
    call: TerminationCall,
    succeeds: spec_fn(TerminationCall) -> bool,
) -> Seq<TerminationCall>
    decreases call.calls_left(count),
    when call.within(count) && count <= usize::MAX
{
    if call == TerminationCall::Done {
        Seq::empty()
    } else {
        seq![call] + calls_made(count, next_call(count, call, succeeds(call)), succeeds)
    }
}

/// The calls on one process: an attempt to open it and, where that succeeds, one to terminate it
/// and one to close its handle.
pub open spec fn calls_on(
    index: int,
    succeeds: spec_fn(TerminationCall) -> bool,
) -> Seq<TerminationCall> {
    let open = TerminationCall::Open { index: index as usize };
    if succeeds(open) {
        seq![
            open,
            TerminationCall::Terminate { index: index as usize },
            TerminationCall::Close { index: index as usize },
        ]
    } else {
        seq![open]
    }
}

/// The calls on the processes of a list of `count` from `index` on, one process after the other.
pub open spec fn calls_on_all(
    count: nat,
    index: int,
    succeeds: spec_fn(TerminationCall) -> bool,
) -> Seq<TerminationCall>
    decreases count - index,
{
    if 0 <= index < count {
        calls_on(index, succeeds) + calls_on_all(count, index + 1, succeeds)
    } else {
        Seq::empty()
    }
}

/// Whatever succeeds or fails, each process of the list gets its turn, once and in list order;
/// one that opens is terminated, and every handle that was opened is closed.
pub proof fn law_each_pid_once(
    count: nat,
    index: int,
    succeeds: spec_fn(TerminationCall) -> bool,
)
    requires
        0 <= index <= count <= usize::MAX,
    ensures
        calls_made(count, open_from(count, index), succeeds) == calls_on_all(
            count,
            index,
            succeeds,
        ),
    decreases count - index,
{
    if index < count {
        law_each_pid_once(count, index + 1, succeeds);
        let open = TerminationCall::Open { index: index as usize };
        let terminate = TerminationCall::Terminate { index: index as usize };
        let close = TerminationCall::Close { index: index as usize };
        let rest = calls_made(count, open_from(count, index + 1), succeeds);
        assert(calls_made(count, close, succeeds) == seq![close] + rest);
        assert(calls_made(count, terminate, succeeds) == seq![terminate] + calls_made(
            count,
            close,
            succeeds,
        ));
        assert(calls_made(count, open, succeeds) =~= calls_on(index, succeeds) + rest);
    }
}

/// The system calls of the steps `calls` on the list `pids`.
pub open spec fn system_calls(pids: Seq<u32>, calls: Seq<TerminationCall>) -> Seq<ProcessCall> {
    calls.map_values(|call: TerminationCall| call.made_on(pids)->0)
}

/// The system calls on the processes of `pids` from `index` on, where `opens` tells whether the
/// process at an index can be opened.
pub open spec fn process_calls(pids: Seq<u32>, index: int, opens: spec_fn(int) -> bool) -> Seq<
    ProcessCall,
>
    decreases pids.len() - index,
{
    if 0 <= index < pids.len() {
        let pid = pids[index];
        (if opens(index) {
            seq![open_call(pid), terminate_call(pid), ProcessCall::CloseHandle { pid }]
        } else {
            seq![open_call(pid)]
        }) + process_calls(pids, index + 1, opens)
    } else {
        Seq::empty()
    }
}

/// Every process of the list is opened, once and in list order, with the right to terminate; one
/// that opens is terminated with exit code one, and its handle closed, before the next is opened.
/// Nothing else is done, and no failure changes what is done to the other processes.
pub proof fn law_termination(
    pids: Seq<u32>,
    succeeds: spec_fn(TerminationCall) -> bool,
    opens: spec_fn(int) -> bool,
)
    requires
        pids.len() <= usize::MAX,
        forall|i: int|
            0 <= i < pids.len() ==> #[trigger] opens(i) == succeeds(
                TerminationCall::Open { index: i as usize },
            ),
    ensures
        system_calls(pids, calls_made(pids.len(), open_from(pids.len(), 0), succeeds))
            == process_calls(pids, 0, opens),
{
    law_each_pid_once(pids.len(), 0, succeeds);
    lemma_system_calls(pids, 0, succeeds, opens);
}

proof fn lemma_system_calls(
    pids: Seq<u32>,
    index: int,
    succeeds: spec_fn(TerminationCall) -> bool,
    opens: spec_fn(int) -> bool,
)
    requires
        0 <= index <= pids.len() <= usize::MAX,
        forall|i: int|
            0 <= i < pids.len() ==> #[trigger] opens(i) == succeeds(
                TerminationCall::Open { index: i as usize },
            ),
    ensures
        system_calls(pids, calls_on_all(pids.len(), index, succeeds)) == process_calls(
            pids,
            index,
            opens,
        ),
    decreases pids.len() - index,
{
    if index < pids.len() {
        lemma_system_calls(pids, index + 1, succeeds, opens);
        assert(opens(index) == succeeds(TerminationCall::Open { index: index as usize }));
    }
    assert(system_calls(pids, calls_on_all(pids.len(), index, succeeds)) =~= process_calls(
        pids,
        index,
        opens,
    ));
}

/// Opening asks for the right to terminate the process at its place in the list, and for nothing
/// to inherit; terminating gives that process the exit code one; closing is of its handle. Nothing
/// is called once all is done.
pub proof fn law_system_call_arguments(pids: Seq<u32>, index: usize)
    requires
        index < pids.len(),
    ensures
        (TerminationCall::Open { index }).made_on(pids) == Some(
            (ProcessCall::OpenProcess { access: 1, inherit: false, pid: pids[index as int] }),
        ),
        (TerminationCall::Terminate { index }).made_on(pids) == Some(
            (ProcessCall::TerminateProcess { pid: pids[index as int], exit_code: 1 }),
        ),
        (TerminationCall::Close { index }).made_on(pids) == Some(
            (ProcessCall::CloseHandle { pid: pids[index as int] }),
        ),
        TerminationCall::Done.made_on(pids) is None,
{
}

/// What comes at `k`, once the process before `index` has had its turn: the opening of the process
/// at `index`, and the end of the calls where there is none.
pub open spec fn turn_comes(
    calls: Seq<TerminationCall>,
    k: int,
    count: nat,
    index: int,
) -> bool {
    if index < count {
        k < calls.len() && calls[k] == (TerminationCall::Open { index: index as usize })
    } else {
        k == calls.len()
    }
}

/// What stands around the call at `k`: after a failed opening the next process has its turn; after
/// one that succeeded the process is terminated and its handle closed before that. Terminating
/// comes right after the opening that succeeded, and closing right after terminating.
pub open spec fn call_fits(
    calls: Seq<TerminationCall>,
    k: int,
    count: nat,
    succeeds: spec_fn(TerminationCall) -> bool,
) -> bool {
    match calls[k] {
        TerminationCall::Open { index } => if succeeds(calls[k]) {
            &&& k + 2 < calls.len()
            &&& calls[k + 1] == (TerminationCall::Terminate { index })
            &&& calls[k + 2] == (TerminationCall::Close { index })
            &&& turn_comes(calls, k + 3, count, index + 1)
        } else {
            turn_comes(calls, k + 1, count, index + 1)
        },
        TerminationCall::Terminate { index } => k >= 1 && calls[k - 1] == (TerminationCall::Open {
            index,
        }) && succeeds(calls[k - 1]),
        TerminationCall::Close { index } => k >= 2 && calls[k - 1] == (TerminationCall::Terminate {
            index,
        }),
        TerminationCall::Done => false,
    }
}

/// The calls on a list start with opening its first process. Where opening a process fails the next
/// one has its turn; where it succeeds the process is terminated and then, whether or not that
/// succeeded, its handle closed, before the next one has its turn. Nothing is terminated or closed
/// but what was just opened.
pub proof fn law_turns(count: nat, succeeds: spec_fn(TerminationCall) -> bool, k: int)
    requires
        count <= usize::MAX,
    ensures
        ({
            let calls = calls_made(count, open_from(count, 0), succeeds);
            &&& turn_comes(calls, 0, count, 0)
            &&& 0 <= k < calls.len() ==> call_fits(calls, k, count, succeeds)
        }),
{
    law_each_pid_once(count, 0, succeeds);
    lemma_turns(count, 0, succeeds, k);
}

proof fn lemma_turns(count: nat, first: int, succeeds: spec_fn(TerminationCall) -> bool, k: int)
    requires
        0 <= first <= count <= usize::MAX,
    ensures
        ({
            let calls = calls_on_all(count, first, succeeds);
            &&& turn_comes(calls, 0, count, first)
            &&& 0 <= k < calls.len() ==> call_fits(calls, k, count, succeeds)
        }),
    decreases count - first,
{
    let calls = calls_on_all(count, first, succeeds);
    if first < count {
        let own = calls_on(first, succeeds);
        let rest = calls_on_all(count, first + 1, succeeds);
        let n = own.len() as int;
        lemma_turns(count, first + 1, succeeds, k - n);
        assert(calls == own + rest);
        if n <= k < calls.len() {
            assert(calls[k] == rest[k - n]);
            assert(k + 1 < calls.len() ==> calls[k + 1] == rest[k + 1 - n]);
            assert(k + 2 < calls.len() ==> calls[k + 2] == rest[k + 2 - n]);
            assert(k + 3 < calls.len() ==> calls[k + 3] == rest[k + 3 - n]);
            assert(k - 1 >= n ==> calls[k - 1] == rest[k - 1 - n]);
        } else if 0 <= k < n {
            assert(calls[k] == own[k]);
            assert(rest.len() > 0 ==> calls[n] == rest[0]);
        }
    }
}

/// The log tells of a process that could not be opened, of one that was terminated and of one that
/// could not be, each by its own PID, and of nothing else.
pub proof fn law_termination_is_told(pids: Seq<u32>, index: usize, succeeded: bool)
    requires
        index < pids.len(),
    ensures
        ({
            let pid = text::decimal_digits(pids[index as int] as nat);
            let opening = call_record(pids, TerminationCall::Open { index }, succeeded);
            let terminating = call_record(pids, TerminationCall::Terminate { index }, succeeded);
            &&& opening == (if succeeded {
                None
            } else {
                Some((Level::Warn, "Could not open qbw.exe PID "@ + pid + " for termination"@))
            })
            &&& terminating == (if succeeded {
                Some(
                    (
                        Level::Info,
                        "Terminated auto-launched qbw.exe PID "@ + pid + " (current session)"@,
                    ),
                )
            } else {
                Some((Level::Warn, "Failed to terminate qbw.exe PID "@ + pid))
            })
            &&& call_record(pids, TerminationCall::Close { index }, succeeded) is None
            &&& call_record(pids, TerminationCall::Done, succeeded) is None
        }),
{
}

} // verus!
