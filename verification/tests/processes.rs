use qb_sync::listing::{
    list_processes, no_row, start_listing, Listing, ListingCall, ListingReply, ListingStep,
    RowReply,
};
use qb_sync::logging::{Level, LogRecord};
use qb_sync::process::{
    capture_qbw_pids, cleanup_owned_qbw, is_qbw_image, qbw_pids_in_current_session, ProcessEntry,
};
use qb_sync::termination::{
    first_termination, terminate_pids, termination_record, ProcessCall, TerminationCall,
};

fn wide(name: &str) -> Vec<u16> {
    let mut units: Vec<u16> = name.encode_utf16().collect();
    units.push(0);
    units
}

fn entry(name: &str, pid: u32, session: Option<u32>) -> ProcessEntry {
    ProcessEntry { exe_file: wide(name), pid, session }
}

fn decoded_match(buffer: &[u16]) -> bool {
    let len = buffer.iter().position(|&c| c == 0).unwrap_or(buffer.len());
    String::from_utf16_lossy(&buffer[..len]).eq_ignore_ascii_case("qbw.exe")
}

#[test]
fn image_name_ignores_ascii_case() {
    assert!(is_qbw_image(&wide("qbw.exe")));
    assert!(is_qbw_image(&wide("QBW.EXE")));
    assert!(is_qbw_image(&wide("QbW.eXe")));
}

#[test]
fn image_name_must_match_whole() {
    assert!(!is_qbw_image(&wide("")));
    assert!(!is_qbw_image(&wide("qbw.ex")));
    assert!(!is_qbw_image(&wide("qbw.exe2")));
    assert!(!is_qbw_image(&wide("qbw32.exe")));
    assert!(!is_qbw_image(&wide("qbwxexe")));
    assert!(!is_qbw_image(&[]));
}

#[test]
fn image_name_ends_at_zero_or_at_end_of_buffer() {
    let unterminated: Vec<u16> = "qbw.exe".encode_utf16().collect();
    assert!(is_qbw_image(&unterminated));
    let mut buffer = [0u16; 260];
    for (slot, unit) in buffer.iter_mut().zip("QBW.exe".encode_utf16()) {
        *slot = unit;
    }
    assert!(is_qbw_image(&buffer));
    buffer[9] = 0x41;
    assert!(is_qbw_image(&buffer));
    buffer[7] = 0x41;
    assert!(!is_qbw_image(&buffer));
    buffer[3] = 0;
    assert!(!is_qbw_image(&buffer));
}

#[test]
fn image_name_agrees_with_decoded_text() {
    let base: Vec<u16> = "qbw.exe".encode_utf16().collect();
    let units = [
        0u16, 0x2E, 0x41, 0x45, 0x51, 0x61, 0x65, 0x71, 0x7F, 0x80, 0x212A, 0xD800, 0xDBFF, 0xDC00,
        0xDFFF, 0xE000, 0xFFFD, 0xFFFF,
    ];
    for at in 0..base.len() {
        for &unit in &units {
            for &next in &units {
                let mut buffer = base.clone();
                buffer[at] = unit;
                buffer.insert(at + 1, next);
                assert_eq!(is_qbw_image(&buffer), decoded_match(&buffer));
                buffer.remove(at + 1);
                assert_eq!(is_qbw_image(&buffer), decoded_match(&buffer));
                buffer.push(next);
                assert_eq!(is_qbw_image(&buffer), decoded_match(&buffer));
            }
        }
    }
}

#[test]
fn pids_are_those_of_this_session() {
    let snapshot = vec![
        entry("explorer.exe", 10, Some(2)),
        entry("QBW.EXE", 11, Some(2)),
        entry("qbw.exe", 12, Some(3)),
        entry("qbw.exe", 13, None),
        entry("qbw.exe", 14, Some(2)),
    ];
    assert_eq!(qbw_pids_in_current_session(Some(2), Some(&snapshot[..])), vec![11, 14]);
    assert_eq!(qbw_pids_in_current_session(Some(3), Some(&snapshot[..])), vec![12]);
    assert_eq!(qbw_pids_in_current_session(Some(4), Some(&snapshot[..])), Vec::<u32>::new());
}

#[test]
fn no_session_or_no_snapshot_gives_no_pids() {
    let snapshot = vec![entry("qbw.exe", 11, Some(2))];
    assert_eq!(qbw_pids_in_current_session(None, Some(&snapshot[..])), Vec::<u32>::new());
    assert_eq!(qbw_pids_in_current_session(Some(2), None), Vec::<u32>::new());
    assert_eq!(qbw_pids_in_current_session(Some(2), Some(&[])), Vec::<u32>::new());
}

#[test]
fn cleanup_takes_only_what_appeared() {
    assert_eq!(cleanup_owned_qbw(&[5, 7], &[7, 9, 5, 3]), vec![9, 3]);
    assert_eq!(cleanup_owned_qbw(&[], &[4, 2]), vec![4, 2]);
    assert_eq!(cleanup_owned_qbw(&[4, 2], &[2, 4]), Vec::<u32>::new());
    assert_eq!(cleanup_owned_qbw(&[1], &[]), Vec::<u32>::new());
}

#[test]
fn cleanup_between_snapshots_spares_other_sessions() {
    let before = vec![entry("qbw.exe", 20, Some(1)), entry("qbw.exe", 21, Some(2))];
    let after = vec![
        entry("qbw.exe", 20, Some(1)),
        entry("qbw.exe", 21, Some(2)),
        entry("qbw.exe", 22, Some(1)),
        entry("qbw.exe", 23, Some(2)),
        entry("notepad.exe", 24, Some(1)),
    ];
    let pre = qbw_pids_in_current_session(Some(1), Some(&before[..]));
    let running = qbw_pids_in_current_session(Some(1), Some(&after[..]));
    assert_eq!(cleanup_owned_qbw(&pre, &running), vec![22]);
}

fn terminations(pids: &[u32], succeeds: impl Fn(TerminationCall) -> bool) -> Vec<TerminationCall> {
    let mut made = Vec::new();
    let mut call = first_termination(pids);
    while call != TerminationCall::Done {
        made.push(call);
        call = terminate_pids(pids, call, succeeds(call));
    }
    made
}

#[test]
fn every_opened_process_is_terminated_and_closed() {
    let made = terminations(&[8, 9], |_| true);
    assert_eq!(
        made,
        vec![
            TerminationCall::Open { index: 0 },
            TerminationCall::Terminate { index: 0 },
            TerminationCall::Close { index: 0 },
            TerminationCall::Open { index: 1 },
            TerminationCall::Terminate { index: 1 },
            TerminationCall::Close { index: 1 },
        ]
    );
}

#[test]
fn failures_do_not_stop_the_list() {
    let made = terminations(&[8, 9, 10], |call| {
        !matches!(
            call,
            TerminationCall::Open { index: 0 }
                | TerminationCall::Terminate { index: 1 }
                | TerminationCall::Close { index: 1 }
        )
    });
    assert_eq!(
        made,
        vec![
            TerminationCall::Open { index: 0 },
            TerminationCall::Open { index: 1 },
            TerminationCall::Terminate { index: 1 },
            TerminationCall::Close { index: 1 },
            TerminationCall::Open { index: 2 },
            TerminationCall::Terminate { index: 2 },
            TerminationCall::Close { index: 2 },
        ]
    );
}

#[test]
fn nothing_to_terminate() {
    assert_eq!(first_termination(&[]), TerminationCall::Done);
    assert_eq!(terminate_pids(&[1], TerminationCall::Done, true), TerminationCall::Done);
}

#[test]
fn capture_spares_whatever_may_be_ours() {
    let snapshot = vec![
        entry("explorer.exe", 10, None),
        entry("QBW.EXE", 11, Some(2)),
        entry("qbw.exe", 12, Some(3)),
        entry("qbw.exe", 13, None),
    ];
    assert_eq!(capture_qbw_pids(Some(2), Some(&snapshot[..])), Some(vec![11, 13]));
    assert_eq!(capture_qbw_pids(Some(4), Some(&snapshot[..])), Some(vec![13]));
    assert_eq!(capture_qbw_pids(None, Some(&snapshot[..])), None);
    assert_eq!(capture_qbw_pids(Some(2), None), None);
}

struct Machine {
    own_session: Option<u32>,
    taken: bool,
    rows: Vec<(&'static str, u32)>,
    ends: bool,
    session: Option<u32>,
}

fn list(machine: Machine) -> (Vec<ListingCall>, Listing) {
    let mut made = Vec::new();
    let mut read = 0;
    let mut step = start_listing();
    loop {
        match step {
            ListingStep::Return(listing) => return (made, listing),
            ListingStep::Call { stage, call } => {
                made.push(call);
                let reply = match call {
                    ListingCall::OwnSession => ListingReply::Session(machine.own_session),
                    ListingCall::TakeSnapshot { .. } => ListingReply::Snapshot(machine.taken),
                    ListingCall::FirstRow | ListingCall::NextRow => {
                        let row = match machine.rows.get(read) {
                            Some((name, pid)) => {
                                RowReply::Row { exe_file: wide(name), pid: *pid }
                            }
                            None if machine.ends => RowReply::End,
                            None => RowReply::Failed,
                        };
                        read += 1;
                        ListingReply::Row(row)
                    }
                    ListingCall::SessionOf { .. } => ListingReply::Session(machine.session),
                    ListingCall::CloseSnapshot => ListingReply::Closed,
                };
                step = list_processes(stage, reply);
            }
        }
    }
}

#[test]
fn a_good_listing_reads_all_rows_and_closes() {
    let (made, listing) = list(Machine {
        own_session: Some(1),
        taken: true,
        rows: vec![("explorer.exe", 4), ("qbw.exe", 100)],
        ends: true,
        session: Some(1),
    });
    assert_eq!(
        made,
        vec![
            ListingCall::OwnSession,
            ListingCall::TakeSnapshot { flags: 2 },
            ListingCall::FirstRow,
            ListingCall::NextRow,
            ListingCall::SessionOf { pid: 100 },
            ListingCall::NextRow,
            ListingCall::CloseSnapshot,
        ]
    );
    assert!(listing.complete);
    let rows = listing.rows.as_ref().unwrap();
    assert_eq!(rows.len(), 2);
    assert_eq!((rows[0].pid, rows[0].session), (4, None));
    assert_eq!((rows[1].pid, rows[1].session), (100, Some(1)));
    assert_eq!(listing.captured(), Some(vec![100]));
    assert_eq!(listing.running(), vec![100]);
}

#[test]
fn unknown_session_takes_no_snapshot() {
    let (made, listing) = list(Machine {
        own_session: None,
        taken: true,
        rows: vec![("qbw.exe", 100)],
        ends: true,
        session: Some(1),
    });
    assert_eq!(made, vec![ListingCall::OwnSession]);
    assert_eq!(listing.captured(), None);
    assert_eq!(listing.running(), Vec::<u32>::new());
}

#[test]
fn missing_snapshot_is_not_closed() {
    let (made, listing) = list(Machine {
        own_session: Some(1),
        taken: false,
        rows: vec![],
        ends: true,
        session: None,
    });
    assert_eq!(made, vec![ListingCall::OwnSession, ListingCall::TakeSnapshot { flags: 2 }]);
    assert_eq!(listing.session, Some(1));
    assert_eq!(listing.captured(), None);
    assert_eq!(listing.running(), Vec::<u32>::new());
}

#[test]
fn unreadable_snapshot_is_closed_and_captures_nothing() {
    for ends in [false, true] {
        let (made, listing) = list(Machine {
            own_session: Some(1),
            taken: true,
            rows: vec![],
            ends,
            session: None,
        });
        assert_eq!(
            made,
            vec![
                ListingCall::OwnSession,
                ListingCall::TakeSnapshot { flags: 2 },
                ListingCall::FirstRow,
                ListingCall::CloseSnapshot,
            ]
        );
        assert!(!listing.complete);
        assert_eq!(listing.captured(), None);
    }
    let (made, listing) = list(Machine {
        own_session: Some(1),
        taken: true,
        rows: vec![("qbw.exe", 100)],
        ends: false,
        session: Some(1),
    });
    assert_eq!(made.last(), Some(&ListingCall::CloseSnapshot));
    assert_eq!(listing.captured(), None);
    assert_eq!(listing.running(), vec![100]);
}

#[test]
fn unknown_session_of_a_row_is_spared_but_not_running() {
    let (_, listing) = list(Machine {
        own_session: Some(1),
        taken: true,
        rows: vec![("qbw.exe", 100)],
        ends: true,
        session: None,
    });
    assert_eq!(listing.captured(), Some(vec![100]));
    assert_eq!(listing.running(), Vec::<u32>::new());
}

#[test]
fn termination_records() {
    let logged = |record: Option<LogRecord>| record.map(|r| (r.level, r.message));
    let pids = [8u32, 4294967295];
    let open = TerminationCall::Open { index: 0 };
    let terminate = TerminationCall::Terminate { index: 1 };
    assert_eq!(
        logged(termination_record(&pids, open, false)),
        Some((Level::Warn, "Could not open qbw.exe PID 8 for termination".to_string()))
    );
    assert_eq!(logged(termination_record(&pids, open, true)), None);
    assert_eq!(
        logged(termination_record(&pids, terminate, true)),
        Some((
            Level::Info,
            "Terminated auto-launched qbw.exe PID 4294967295 (current session)".to_string()
        ))
    );
    assert_eq!(
        logged(termination_record(&pids, terminate, false)),
        Some((Level::Warn, "Failed to terminate qbw.exe PID 4294967295".to_string()))
    );
    let close = TerminationCall::Close { index: 1 };
    assert_eq!(logged(termination_record(&pids, close, false)), None);
    assert_eq!(logged(termination_record(&pids, TerminationCall::Done, true)), None);
}

#[test]
fn missing_rows_are_told_apart_by_error_code() {
    assert!(matches!(no_row(Some(18)), RowReply::End));
    for code in [None, Some(0), Some(5), Some(24), Some(-18), Some(i32::MAX)] {
        assert!(matches!(no_row(code), RowReply::Failed));
    }
}

#[test]
fn opened_processes_exit_with_one() {
    let pids = [10, 20, 30];
    let made: Vec<ProcessCall> = terminations(&pids, |call| {
        !matches!(
            call,
            TerminationCall::Open { index: 1 } | TerminationCall::Terminate { index: 0 }
        )
    })
    .into_iter()
    .map(|call| call.system_call(&pids).unwrap())
    .collect();
    assert_eq!(
        made,
        vec![
            ProcessCall::OpenProcess { access: 1, inherit: false, pid: 10 },
            ProcessCall::TerminateProcess { pid: 10, exit_code: 1 },
            ProcessCall::CloseHandle { pid: 10 },
            ProcessCall::OpenProcess { access: 1, inherit: false, pid: 20 },
            ProcessCall::OpenProcess { access: 1, inherit: false, pid: 30 },
            ProcessCall::TerminateProcess { pid: 30, exit_code: 1 },
            ProcessCall::CloseHandle { pid: 30 },
        ]
    );
    assert_eq!(TerminationCall::Done.system_call(&pids), None);
}
