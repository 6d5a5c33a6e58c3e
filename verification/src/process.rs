//! The `qbw.exe` processes of the login session: which they are, which of them this run is
//! responsible for, and how those are terminated.

use vstd::prelude::*;

verus! {

/// One row of a process snapshot.
#[derive(Debug)]
pub struct ProcessEntry {
    /// The image name in UTF-16, up to the first zero unit or to the end of the buffer.
    pub exe_file: Vec<u16>,
    pub pid: u32,
    /// The login session of the process, where it could be looked up.
    pub session: Option<u32>,
}

/// The number of units before the first zero unit, or of all units where none is zero.
pub open spec fn name_len(buffer: Seq<u16>) -> nat
    decreases buffer.len(),
{
    if buffer.len() == 0 || buffer[0] == 0 {
        0
    } else {
        1 + name_len(buffer.skip(1))
    }
}

/// The character that a surrogate pair encodes.
pub open spec fn surrogate_pair(high: u16, low: u16) -> char {
    (0x10000 + (high - 0xD800) * 0x400 + (low - 0xDC00)) as char
}

/// UTF-16 decoded, with U+FFFD for each surrogate that is not part of a pair.
pub open spec fn decode_utf16_lossy(units: Seq<u16>) -> Seq<char>
    decreases units.len(),
{
    if units.len() == 0 {
        Seq::empty()
    } else if !(0xD800 <= units[0] <= 0xDFFF) {
        seq![units[0] as char] + decode_utf16_lossy(units.skip(1))
    } else if units[0] < 0xDC00 && units.len() >= 2 && 0xDC00 <= units[1] <= 0xDFFF {
        seq![surrogate_pair(units[0], units[1])] + decode_utf16_lossy(units.skip(2))
    } else {
        seq!['\u{FFFD}'] + decode_utf16_lossy(units.skip(1))
    }
}

/// An ASCII capital in lower case, and every other character unchanged.
pub open spec fn ascii_lower(c: char) -> char {
    if 'A' <= c <= 'Z' {
        ((c as nat) + 32) as char
    } else {
        c
    }
}

/// Whether two texts are the same but for the case of ASCII letters.
pub open spec fn eq_ignore_ascii_case(a: Seq<char>, b: Seq<char>) -> bool {
    &&& a.len() == b.len()
    &&& forall|i: int| 0 <= i < a.len() ==> ascii_lower(#[trigger] a[i]) == ascii_lower(b[i])
}

/// The image name that a buffer of a process snapshot holds.
pub open spec fn exe_name(buffer: Seq<u16>) -> Seq<char> {
    decode_utf16_lossy(buffer.take(name_len(buffer) as int))
}

/// Whether a buffer names the QuickBooks program.
pub open spec fn names_qbw(buffer: Seq<u16>) -> bool {
    eq_ignore_ascii_case(exe_name(buffer), "qbw.exe"@)
}

/// The name length is the one length with no zero unit before it and a zero unit, or the end, at
/// it.
proof fn lemma_name_len(buffer: Seq<u16>, n: nat)
    requires
        n <= buffer.len(),
        forall|i: int| 0 <= i < n ==> buffer[i] != 0,
        n < buffer.len() ==> buffer[n as int] == 0,
    ensures
        name_len(buffer) == n,
    decreases n,
{
    if n > 0 {
        assert(buffer[0] != 0);
        let rest = buffer.skip(1);
        assert forall|i: int| 0 <= i < n - 1 implies rest[i] != 0 by {
            assert(rest[i] == buffer[i + 1]);
        }
        lemma_name_len(rest, (n - 1) as nat);
    }
}

proof fn lemma_name_len_bounds(buffer: Seq<u16>)
    ensures
        name_len(buffer) <= buffer.len(),
        forall|i: int| 0 <= i < name_len(buffer) ==> buffer[i] != 0,
        name_len(buffer) < buffer.len() ==> buffer[name_len(buffer) as int] == 0,
    decreases buffer.len(),
{
    if buffer.len() > 0 && buffer[0] != 0 {
        let rest = buffer.skip(1);
        lemma_name_len_bounds(rest);
        assert forall|i: int| 0 <= i < name_len(buffer) implies buffer[i] != 0 by {
            if i > 0 {
                assert(rest[i - 1] == buffer[i]);
            }
        }
        if name_len(buffer) < buffer.len() {
            assert(rest[name_len(rest) as int] == buffer[name_len(buffer) as int]);
        }
    }
}

/// Units that are ASCII decode to themselves.
proof fn lemma_decode_ascii(units: Seq<u16>)
    requires
        forall|i: int| 0 <= i < units.len() ==> units[i] < 0x80,
    ensures
        decode_utf16_lossy(units).len() == units.len(),
        forall|i: int|
            0 <= i < units.len() ==> #[trigger] decode_utf16_lossy(units)[i] == units[i] as char,
    decreases units.len(),
{
    if units.len() > 0 {
        let rest = units.skip(1);
        assert forall|i: int| 0 <= i < rest.len() implies rest[i] < 0x80 by {
            assert(rest[i] == units[i + 1]);
        }
        lemma_decode_ascii(rest);
        assert(units[0] < 0x80);
        assert forall|i: int| 0 <= i < units.len() implies #[trigger] decode_utf16_lossy(units)[i]
            == units[i] as char by {
            if i > 0 {
                assert(decode_utf16_lossy(rest)[i - 1] == rest[i - 1] as char);
            }
        }
    }
}

/// Only ASCII units decode to ASCII text.
proof fn lemma_ascii_decoded(units: Seq<u16>)
    requires
        forall|i: int|
            0 <= i < decode_utf16_lossy(units).len() ==> (#[trigger] decode_utf16_lossy(units)[i])
                < '\u{80}',
    ensures
        forall|i: int| 0 <= i < units.len() ==> units[i] < 0x80,
    decreases units.len(),
{
    if units.len() > 0 {
        let decoded = decode_utf16_lossy(units);
        assert(decoded.len() > 0 && decoded[0] < '\u{80}');
        assert(!(0xD800 <= units[0] <= 0xDFFF)) by {
            if 0xD800 <= units[0] <= 0xDFFF {
                if units[0] < 0xDC00 && units.len() >= 2 && 0xDC00 <= units[1] <= 0xDFFF {
                    assert(0x10000 <= 0x10000 + (units[0] - 0xD800) * 0x400 + (units[1] - 0xDC00)
                        <= 0x10FFFF);
                    assert(decoded[0] == surrogate_pair(units[0], units[1]));
                } else {
                    assert(decoded[0] == '\u{FFFD}');
                }
            }
        }
        let rest = units.skip(1);
        assert(decoded[0] == units[0] as char);
        assert forall|i: int| 0 <= i < decode_utf16_lossy(rest).len() implies (
        #[trigger] decode_utf16_lossy(rest)[i]) < '\u{80}' by {
            assert(decode_utf16_lossy(rest)[i] == decoded[i + 1]);
        }
        lemma_ascii_decoded(rest);
        assert forall|i: int| 0 <= i < units.len() implies units[i] < 0x80 by {
            if i > 0 {
                assert(rest[i - 1] == units[i]);
            }
        }
    }
}

/// A buffer names the QuickBooks program exactly where its first seven units are `q`, `b`, `w`,
/// `.`, `e`, `x` and `e`, each letter small or capital, and either end the buffer or are followed
/// by a zero unit. So neither the length of the buffer nor what comes after that unit matters.
pub proof fn law_image_name_units(buffer: Seq<u16>)
    ensures
        names_qbw(buffer) <==> {
            &&& buffer.len() >= 7
            &&& (buffer[0] == 0x71 || buffer[0] == 0x51)
            &&& (buffer[1] == 0x62 || buffer[1] == 0x42)
            &&& (buffer[2] == 0x77 || buffer[2] == 0x57)
            &&& buffer[3] == 0x2E
            &&& (buffer[4] == 0x65 || buffer[4] == 0x45)
            &&& (buffer[5] == 0x78 || buffer[5] == 0x58)
            &&& (buffer[6] == 0x65 || buffer[6] == 0x45)
            &&& (buffer.len() == 7 || buffer[7] == 0)
        },
{
    reveal_strlit("qbw.exe");
    let len = name_len(buffer);
    let units = buffer.take(len as int);
    let name = exe_name(buffer);
    let qbw = "qbw.exe"@;
    let spelled = {
        &&& buffer.len() >= 7
        &&& (buffer[0] == 0x71 || buffer[0] == 0x51)
        &&& (buffer[1] == 0x62 || buffer[1] == 0x42)
        &&& (buffer[2] == 0x77 || buffer[2] == 0x57)
        &&& buffer[3] == 0x2E
        &&& (buffer[4] == 0x65 || buffer[4] == 0x45)
        &&& (buffer[5] == 0x78 || buffer[5] == 0x58)
        &&& (buffer[6] == 0x65 || buffer[6] == 0x45)
        &&& (buffer.len() == 7 || buffer[7] == 0)
    };
    lemma_name_len_bounds(buffer);
    if spelled {
        lemma_name_len(buffer, 7);
        lemma_decode_ascii(units);
        assert forall|i: int| 0 <= i < 7 implies ascii_lower(#[trigger] name[i]) == ascii_lower(
            qbw[i],
        ) by {
            assert(name[i] == units[i] as char);
            assert(i == 0 || i == 1 || i == 2 || i == 3 || i == 4 || i == 5 || i == 6);
        }
    } else if eq_ignore_ascii_case(name, qbw) {
        assert forall|i: int| 0 <= i < name.len() implies (#[trigger] name[i]) < '\u{80}' by {
            assert(ascii_lower(name[i]) == ascii_lower(qbw[i]));
            assert(i == 0 || i == 1 || i == 2 || i == 3 || i == 4 || i == 5 || i == 6);
        }
        lemma_ascii_decoded(units);
        lemma_decode_ascii(units);
        assert(len == 7);
        assert(name[0] == buffer[0] as char && name[1] == buffer[1] as char);
        assert(name[2] == buffer[2] as char && name[3] == buffer[3] as char);
        assert(name[4] == buffer[4] as char && name[5] == buffer[5] as char);
        assert(name[6] == buffer[6] as char);
        assert(false);
    }
}

/// What a buffer holds from a zero unit on makes no difference to whether it names the program,
/// nor does it matter whether the buffer goes on there at all.
pub proof fn law_rest_of_buffer_is_ignored(buffer: Seq<u16>, rest: Seq<u16>, n: int)
    requires
        0 <= n < buffer.len(),
        buffer[n] == 0,
    ensures
        names_qbw(buffer.take(n)) == names_qbw(buffer),
        names_qbw(buffer.take(n + 1) + rest) == names_qbw(buffer),
{
    law_image_name_units(buffer);
    law_image_name_units(buffer.take(n));
    law_image_name_units(buffer.take(n + 1) + rest);
}

/// Whether `unit` is the letter whose small and capital forms are given.
fn is_letter(unit: u16, small: u16, capital: u16) -> (r: bool)
    ensures
        r == (unit == small || unit == capital),
{
    unit == small || unit == capital
}

/// Whether a buffer of a process snapshot names `qbw.exe`, whatever the case of its letters.
pub fn is_qbw_image(exe_file: &[u16]) -> (r: bool)
    ensures
        r == names_qbw(exe_file@),
{
    proof {
        law_image_name_units(exe_file@);
    }
    let n: usize = exe_file.len();
    n >= 7 && is_letter(exe_file[0], 0x71, 0x51) && is_letter(exe_file[1], 0x62, 0x42)
        && is_letter(exe_file[2], 0x77, 0x57) && exe_file[3] == 0x2E && is_letter(
        exe_file[4],
        0x65,
        0x45,
    ) && is_letter(exe_file[5], 0x78, 0x58) && is_letter(exe_file[6], 0x65, 0x45) && (n == 7
        || exe_file[7] == 0)
}

/// Whether a snapshot row is a `qbw.exe` of the login session `session`.
pub open spec fn is_session_qbw(entry: ProcessEntry, session: u32) -> bool {
    names_qbw(entry.exe_file@) && entry.session == Some(session)
}

/// The PIDs of the rows of a snapshot that are a `qbw.exe` of a session, in snapshot order.
pub open spec fn session_qbw_pids(snapshot: Seq<ProcessEntry>, session: u32) -> Seq<u32> {
    snapshot.filter(|entry: ProcessEntry| is_session_qbw(entry, session)).map_values(
        |entry: ProcessEntry| entry.pid,
    )
}

/// Whether a snapshot row may be a `qbw.exe` of the login session `session`: one that is, or one
/// whose session could not be looked up.
pub open spec fn may_be_session_qbw(entry: ProcessEntry, session: u32) -> bool {
    names_qbw(entry.exe_file@) && (entry.session is None || entry.session == Some(session))
}

/// The PIDs of the rows of a snapshot that may be a `qbw.exe` of a session, in snapshot order.
pub open spec fn possible_qbw_pids(snapshot: Seq<ProcessEntry>, session: u32) -> Seq<u32> {
    snapshot.filter(|entry: ProcessEntry| may_be_session_qbw(entry, session)).map_values(
        |entry: ProcessEntry| entry.pid,
    )
}

/// The PIDs of the rows that are a `qbw.exe` of a session, and where `with_unknown` also of those
/// whose session could not be looked up.
fn qbw_pids(entries: &[ProcessEntry], my_session: u32, with_unknown: bool) -> (pids: Vec<u32>)
    ensures
        pids@ == (if with_unknown {
            possible_qbw_pids(entries@, my_session)
        } else {
            session_qbw_pids(entries@, my_session)
        }),
{
    let mut pids: Vec<u32> = Vec::new();
    let ghost keep = if with_unknown {
        |entry: ProcessEntry| may_be_session_qbw(entry, my_session)
    } else {
        |entry: ProcessEntry| is_session_qbw(entry, my_session)
    };
    let ghost pid = |entry: ProcessEntry| entry.pid;
    let count: usize = entries.len();
    let mut i: usize = 0;
    assert(entries@.take(0).filter(keep) =~= Seq::<ProcessEntry>::empty()) by {
        reveal(Seq::filter);
    }
    while i < count
        invariant
            i <= count,
            count == entries@.len(),
            forall|entry: ProcessEntry| #[trigger]
                keep(entry) == (if with_unknown {
                    may_be_session_qbw(entry, my_session)
                } else {
                    is_session_qbw(entry, my_session)
                }),
            pid == (|entry: ProcessEntry| entry.pid),
            pids@ =~= entries@.take(i as int).filter(keep).map_values(pid),
        decreases count - i,
    {
        let entry = &entries[i];
        let counts = match entry.session {
            Some(session) => session == my_session,
            None => with_unknown,
        };
        if is_qbw_image(entry.exe_file.as_slice()) && counts {
            pids.push(entry.pid);
        }
        assert(entries@.take(i + 1).drop_last() =~= entries@.take(i as int));
        assert(entries@.take(i + 1).last() == entry);
        reveal(Seq::filter);
        i = i + 1;
    }
    assert(entries@.take(count as int) =~= entries@);
    pids
}

/// The PIDs of all `qbw.exe` processes running in the current login session.
///
/// There are none where the current session is not known, and none where no snapshot could be
/// taken.
pub fn qbw_pids_in_current_session(
    my_session: Option<u32>,
    snapshot: Option<&[ProcessEntry]>,
) -> (pids: Vec<u32>)
    ensures
        (my_session is None || snapshot is None) ==> pids@ == Seq::<u32>::empty(),
        (my_session is Some && snapshot is Some) ==> pids@ == session_qbw_pids(
            snapshot->0@,
            my_session->0,
        ),
        forall|pid: u32| #[trigger]
            pids@.contains(pid) <==> {
                &&& my_session is Some && snapshot is Some
                &&& exists|i: int|
                    0 <= i < snapshot->0@.len() && (#[trigger] snapshot->0@[i]).pid == pid
                        && names_qbw(snapshot->0@[i].exe_file@) && snapshot->0@[i].session
                        == my_session
            },
{
    proof {
        if my_session is Some && snapshot is Some {
            assert forall|pid: u32| #[trigger]
                session_qbw_pids(snapshot->0@, my_session->0).contains(pid) <==> exists|i: int|
                    0 <= i < snapshot->0@.len() && (#[trigger] snapshot->0@[i]).pid == pid
                        && names_qbw(snapshot->0@[i].exe_file@) && snapshot->0@[i].session
                        == my_session by {
                law_session_pids_by_row(snapshot->0@, my_session->0, pid);
            }
        }
    }
    match (my_session, snapshot) {
        (Some(session), Some(entries)) => qbw_pids(entries, session, false),
        _ => Vec::new(),
    }
}

/// The `qbw.exe` processes to spare later on: all that may be running in the current login session
/// now. A process whose session could not be looked up is spared too.
///
/// `None` where the current session is not known, or where there is no snapshot: then nothing is
/// known of what was running.
pub fn capture_qbw_pids(my_session: Option<u32>, snapshot: Option<&[ProcessEntry]>) -> (pids:
    Option<Vec<u32>>)
    ensures
        pids is Some == (my_session is Some && snapshot is Some),
        pids is Some ==> pids->0@ == possible_qbw_pids(snapshot->0@, my_session->0),
        pids is Some ==> forall|pid: u32| #[trigger]
            pids->0@.contains(pid) <==> exists|i: int|
                0 <= i < snapshot->0@.len() && (#[trigger] snapshot->0@[i]).pid == pid && names_qbw(
                    snapshot->0@[i].exe_file@,
                ) && (snapshot->0@[i].session is None || snapshot->0@[i].session == my_session),
{
    proof {
        if my_session is Some && snapshot is Some {
            assert forall|pid: u32| #[trigger]
                possible_qbw_pids(snapshot->0@, my_session->0).contains(pid) <==> exists|i: int|
                    0 <= i < snapshot->0@.len() && (#[trigger] snapshot->0@[i]).pid == pid
                        && names_qbw(snapshot->0@[i].exe_file@) && (snapshot->0@[i].session is None
                        || snapshot->0@[i].session == my_session) by {
                law_captured_pids_by_row(snapshot->0@, my_session->0, pid);
            }
        }
    }
    match (my_session, snapshot) {
        (Some(session), Some(entries)) => Some(qbw_pids(entries, session, true)),
        _ => None,
    }
}

/// The processes of `running` that were not there before, in the order of `running`.
pub open spec fn owned_pids(pre_pids: Seq<u32>, running: Seq<u32>) -> Seq<u32> {
    running.filter(|pid: u32| !pre_pids.contains(pid))
}

/// Whether `pid` is among `pids`.
fn contains_pid(pids: &[u32], pid: u32) -> (r: bool)
    ensures
        r == pids@.contains(pid),
{
    let count: usize = pids.len();
    let mut i: usize = 0;
    while i < count
        invariant
            i <= count,
            count == pids@.len(),
            forall|j: int| 0 <= j < i ==> pids@[j] != pid,
        decreases count - i,
    {
        if pids[i] == pid {
            assert(pids@[i as int] == pid);
            return true;
        }
        i = i + 1;
    }
    false
}

/// The `qbw.exe` processes to terminate: of those now running in the session, the ones that
/// appeared after `pre_pids` was captured, which is to say the instances that QuickBooks launched
/// for this run. None of `pre_pids` is ever among them.
pub fn cleanup_owned_qbw(pre_pids: &[u32], running: &[u32]) -> (owned: Vec<u32>)
    ensures
        owned@ == owned_pids(pre_pids@, running@),
        forall|pid: u32|
            #![trigger owned@.contains(pid)]
            owned@.contains(pid) <==> running@.contains(pid) && !pre_pids@.contains(pid),
{
    let mut owned: Vec<u32> = Vec::new();
    let ghost is_new = |pid: u32| !pre_pids@.contains(pid);
    let count: usize = running.len();
    let mut i: usize = 0;
    assert(running@.take(0).filter(is_new) =~= Seq::<u32>::empty()) by {
        reveal(Seq::filter);
    }
    while i < count
        invariant
            i <= count,
            count == running@.len(),
            is_new == (|pid: u32| !pre_pids@.contains(pid)),
            owned@ == running@.take(i as int).filter(is_new),
        decreases count - i,
    {
        let pid: u32 = running[i];
        if !contains_pid(pre_pids, pid) {
            owned.push(pid);
        }
        assert(running@.take(i + 1).drop_last() =~= running@.take(i as int));
        reveal(Seq::filter);
        i = i + 1;
    }
    assert(running@.take(count as int) =~= running@);
    proof {
        law_only_new_pids_are_owned(pre_pids@, running@);
    }
    owned
}

/// Cleanup takes exactly the processes that run now and did not run before.
pub proof fn law_only_new_pids_are_owned(pre_pids: Seq<u32>, running: Seq<u32>)
    ensures
        forall|pid: u32|
            #![trigger owned_pids(pre_pids, running).contains(pid)]
            owned_pids(pre_pids, running).contains(pid) <==> running.contains(pid)
                && !pre_pids.contains(pid),
{
    let is_new = |pid: u32| !pre_pids.contains(pid);
    let owned = running.filter(is_new);
    assert forall|pid: u32|
        #![trigger owned.contains(pid)]
        owned.contains(pid) <==> running.contains(pid) && !pre_pids.contains(pid) by {
        if owned.contains(pid) {
            let i = owned.index_of(pid);
            running.lemma_filter_pred(is_new, i);
            running.lemma_filter_contains_rev(is_new, pid);
        } else if running.contains(pid) {
            let i = running.index_of(pid);
            if is_new(running[i]) {
                running.lemma_filter_contains(is_new, i);
            }
        }
    }
}

/// The PIDs of the rows that a predicate keeps are those of the rows that satisfy it.
proof fn lemma_kept_pids(
    snapshot: Seq<ProcessEntry>,
    keep: spec_fn(ProcessEntry) -> bool,
    pid: u32,
)
    ensures
        snapshot.filter(keep).map_values(|entry: ProcessEntry| entry.pid).contains(pid)
            <==> exists|i: int|
            0 <= i < snapshot.len() && (#[trigger] snapshot[i]).pid == pid && keep(snapshot[i]),
{
    let kept = snapshot.filter(keep);
    let pids = kept.map_values(|entry: ProcessEntry| entry.pid);
    if pids.contains(pid) {
        let k = pids.index_of(pid);
        assert(pids[k] == kept[k].pid);
        snapshot.lemma_filter_pred(keep, k);
        assert(kept.contains(kept[k]));
        snapshot.lemma_filter_contains_rev(keep, kept[k]);
        let i = snapshot.index_of(kept[k]);
        assert(snapshot[i].pid == pid && keep(snapshot[i]));
    }
    if exists|i: int|
        0 <= i < snapshot.len() && (#[trigger] snapshot[i]).pid == pid && keep(snapshot[i]) {
        let i = choose|i: int|
            0 <= i < snapshot.len() && (#[trigger] snapshot[i]).pid == pid && keep(snapshot[i]);
        snapshot.lemma_filter_contains(keep, i);
        let k = kept.index_of(snapshot[i]);
        assert(pids[k] == pid);
    }
}

/// The PIDs listed for a session are those of the rows that are a `qbw.exe` of that session.
pub proof fn lemma_session_qbw_pids(snapshot: Seq<ProcessEntry>, session: u32, pid: u32)
    ensures
        session_qbw_pids(snapshot, session).contains(pid) <==> exists|i: int|
            0 <= i < snapshot.len() && (#[trigger] snapshot[i]).pid == pid && is_session_qbw(
                snapshot[i],
                session,
            ),
{
    lemma_kept_pids(snapshot, |entry: ProcessEntry| is_session_qbw(entry, session), pid);
}

/// The PIDs captured for a session are those of the rows that may be a `qbw.exe` of that session.
pub proof fn lemma_possible_qbw_pids(snapshot: Seq<ProcessEntry>, session: u32, pid: u32)
    ensures
        possible_qbw_pids(snapshot, session).contains(pid) <==> exists|i: int|
            0 <= i < snapshot.len() && (#[trigger] snapshot[i]).pid == pid && may_be_session_qbw(
                snapshot[i],
                session,
            ),
{
    lemma_kept_pids(snapshot, |entry: ProcessEntry| may_be_session_qbw(entry, session), pid);
}

/// Cleanup between two snapshots takes a process exactly where the later one shows it as a
/// `qbw.exe` of the session and the earlier one shows no `qbw.exe` under its PID that may have
/// belonged to the session.
pub proof fn law_cleanup_stays_in_session(
    before: Seq<ProcessEntry>,
    after: Seq<ProcessEntry>,
    session: u32,
    pid: u32,
)
    ensures
        owned_pids(possible_qbw_pids(before, session), session_qbw_pids(after, session)).contains(
            pid,
        ) <==> {
            &&& exists|i: int|
                0 <= i < after.len() && (#[trigger] after[i]).pid == pid && is_session_qbw(
                    after[i],
                    session,
                )
            &&& forall|i: int|
                0 <= i < before.len() && (#[trigger] before[i]).pid == pid ==> !may_be_session_qbw(
                    before[i],
                    session,
                )
        },
{
    law_only_new_pids_are_owned(
        possible_qbw_pids(before, session),
        session_qbw_pids(after, session),
    );
    lemma_possible_qbw_pids(before, session, pid);
    lemma_session_qbw_pids(after, session, pid);
}

/// A PID is listed for a session exactly where it is that of a row whose buffer names `qbw.exe` and
/// whose process is in the session.
pub proof fn law_session_pids_by_row(snapshot: Seq<ProcessEntry>, session: u32, pid: u32)
    ensures
        session_qbw_pids(snapshot, session).contains(pid) <==> exists|i: int|
            0 <= i < snapshot.len() && (#[trigger] snapshot[i]).pid == pid && names_qbw(
                snapshot[i].exe_file@,
            ) && snapshot[i].session == Some(session),
{
    lemma_session_qbw_pids(snapshot, session, pid);
    if exists|i: int|
        0 <= i < snapshot.len() && (#[trigger] snapshot[i]).pid == pid && names_qbw(
            snapshot[i].exe_file@,
        ) && snapshot[i].session == Some(session) {
        let i = choose|i: int|
            0 <= i < snapshot.len() && (#[trigger] snapshot[i]).pid == pid && names_qbw(
                snapshot[i].exe_file@,
            ) && snapshot[i].session == Some(session);
        assert(is_session_qbw(snapshot[i], session));
    }
}

/// A PID is captured for a session exactly where it is that of a row whose buffer names `qbw.exe`
/// and whose process is in the session or in one that could not be looked up.
pub proof fn law_captured_pids_by_row(snapshot: Seq<ProcessEntry>, session: u32, pid: u32)
    ensures
        possible_qbw_pids(snapshot, session).contains(pid) <==> exists|i: int|
            0 <= i < snapshot.len() && (#[trigger] snapshot[i]).pid == pid && names_qbw(
                snapshot[i].exe_file@,
            ) && (snapshot[i].session is None || snapshot[i].session == Some(session)),
{
    lemma_possible_qbw_pids(snapshot, session, pid);
    if exists|i: int|
        0 <= i < snapshot.len() && (#[trigger] snapshot[i]).pid == pid && names_qbw(
            snapshot[i].exe_file@,
        ) && (snapshot[i].session is None || snapshot[i].session == Some(session)) {
        let i = choose|i: int|
            0 <= i < snapshot.len() && (#[trigger] snapshot[i]).pid == pid && names_qbw(
                snapshot[i].exe_file@,
            ) && (snapshot[i].session is None || snapshot[i].session == Some(session));
        assert(may_be_session_qbw(snapshot[i], session));
    }
}

/// One more row at the end of a snapshot adds its PID at the end of the list where the row is a
/// `qbw.exe` of the session, and else changes nothing; of no rows there are no PIDs.
pub proof fn law_session_pids_row_by_row(
    snapshot: Seq<ProcessEntry>,
    row: ProcessEntry,
    session: u32,
)
    ensures
        session_qbw_pids(Seq::empty(), session) == Seq::<u32>::empty(),
        session_qbw_pids(snapshot.push(row), session) == (if names_qbw(row.exe_file@)
            && row.session == Some(session) {
            session_qbw_pids(snapshot, session).push(row.pid)
        } else {
            session_qbw_pids(snapshot, session)
        }),
{
    reveal(Seq::filter);
    assert(snapshot.push(row).drop_last() =~= snapshot);
    assert(session_qbw_pids(Seq::empty(), session) =~= Seq::<u32>::empty());
    assert(session_qbw_pids(snapshot.push(row), session) =~= (if is_session_qbw(row, session) {
        session_qbw_pids(snapshot, session).push(row.pid)
    } else {
        session_qbw_pids(snapshot, session)
    }));
}

/// One more row at the end of a snapshot adds its PID at the end of what is captured where the row
/// is a `qbw.exe` of the session or of an unknown one, and else changes nothing; of no rows there
/// are no PIDs.
pub proof fn law_captured_pids_row_by_row(
    snapshot: Seq<ProcessEntry>,
    row: ProcessEntry,
    session: u32,
)
    ensures
        possible_qbw_pids(Seq::empty(), session) == Seq::<u32>::empty(),
        possible_qbw_pids(snapshot.push(row), session) == (if names_qbw(row.exe_file@) && (
        row.session is None || row.session == Some(session)) {
            possible_qbw_pids(snapshot, session).push(row.pid)
        } else {
            possible_qbw_pids(snapshot, session)
        }),
{
    reveal(Seq::filter);
    assert(snapshot.push(row).drop_last() =~= snapshot);
    assert(possible_qbw_pids(Seq::empty(), session) =~= Seq::<u32>::empty());
    assert(possible_qbw_pids(snapshot.push(row), session) =~= (if may_be_session_qbw(row, session) {
        possible_qbw_pids(snapshot, session).push(row.pid)
    } else {
        possible_qbw_pids(snapshot, session)
    }));
}

/// One more process that runs now is one more to terminate, after the others, where it did not run
/// before, and else changes nothing; where nothing runs nothing is terminated.
pub proof fn law_owned_pids_one_by_one(pre_pids: Seq<u32>, running: Seq<u32>, pid: u32)
    ensures
        owned_pids(pre_pids, Seq::empty()) == Seq::<u32>::empty(),
        owned_pids(pre_pids, running.push(pid)) == (if pre_pids.contains(pid) {
            owned_pids(pre_pids, running)
        } else {
            owned_pids(pre_pids, running).push(pid)
        }),
{
    reveal(Seq::filter);
    assert(running.push(pid).drop_last() =~= running);
    assert(owned_pids(pre_pids, Seq::empty()) =~= Seq::<u32>::empty());
}

} // verus!
