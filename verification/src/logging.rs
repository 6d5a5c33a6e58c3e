//! The service's log: which records are written, how a line reads, and where lines go.

use vstd::prelude::*;
use vstd::string::*;

use crate::clock;
use crate::clock::LocalTime;

verus! {

/// How severe a log record is.
#[derive(Debug, Clone, Copy, PartialEq, Eq, Structural)]
pub enum Level {
    Error,
    Warn,
    Info,
    Debug,
    Trace,
}

/// A record for the log.
#[derive(Debug)]
pub struct LogRecord {
    pub level: Level,
    pub message: String,
}

/// Whether `record` is the level and message that `expected` gives, if it gives any.
pub open spec fn is_record(
    record: Option<LogRecord>,
    expected: Option<(Level, Seq<char>)>,
) -> bool {
    match expected {
        Some((level, message)) => record is Some && record->0.level == level
            && record->0.message@ == message,
        None => record is None,
    }
}

/// The least severe level that is written.
#[derive(Debug, Clone, Copy, PartialEq, Eq, Structural)]
pub enum LevelFilter {
    Off,
    Error,
    Warn,
    Info,
    Debug,
    Trace,
}

impl Level {
    /// The verbosity that it takes to see records of this level.
    pub open spec fn verbosity(self) -> nat {
        match self {
            Level::Error => 1,
            Level::Warn => 2,
            Level::Info => 3,
            Level::Debug => 4,
            Level::Trace => 5,
        }
    }

    /// The name of the level in a log line.
    pub open spec fn name_text(self) -> Seq<char> {
        match self {
            Level::Error => "ERROR"@,
            Level::Warn => "WARN"@,
            Level::Info => "INFO"@,
            Level::Debug => "DEBUG"@,
            Level::Trace => "TRACE"@,
        }
    }

    fn rank(self) -> (r: u8)
        ensures
            r == self.verbosity(),
    {
        match self {
            Level::Error => 1,
            Level::Warn => 2,
            Level::Info => 3,
            Level::Debug => 4,
            Level::Trace => 5,
        }
    }

    /// The name of the level in a log line.
    pub fn name(self) -> (r: &'static str)
        ensures
            r@ == self.name_text(),
    {
        match self {
            Level::Error => "ERROR",
            Level::Warn => "WARN",
            Level::Info => "INFO",
            Level::Debug => "DEBUG",
            Level::Trace => "TRACE",
        }
    }
}

impl LevelFilter {
    /// How much is written, from nothing to everything.
    pub open spec fn verbosity(self) -> nat {
        match self {
            LevelFilter::Off => 0,
            LevelFilter::Error => 1,
            LevelFilter::Warn => 2,
            LevelFilter::Info => 3,
            LevelFilter::Debug => 4,
            LevelFilter::Trace => 5,
        }
    }

    fn rank(self) -> (r: u8)
        ensures
            r == self.verbosity(),
    {
        match self {
            LevelFilter::Off => 0,
            LevelFilter::Error => 1,
            LevelFilter::Warn => 2,
            LevelFilter::Info => 3,
            LevelFilter::Debug => 4,
            LevelFilter::Trace => 5,
        }
    }

    /// What a log at this level announces to the logging facade, given whether it was installed
    /// there: its level, and nothing where another log had been installed first.
    pub fn announced(self, installed: bool) -> (r: Option<LevelFilter>)
        ensures
            r == (if installed {
                Some(self)
            } else {
                None
            }),
    {
        if installed {
            Some(self)
        } else {
            None
        }
    }
}

/// A log that writes each line to the error stream and, where it has one, to a file `F`.
#[derive(Debug)]
pub struct DualLogger<F> {
    pub level: LevelFilter,
    pub file: Option<F>,
}

/// A line to write: to the error stream, and to `file` as well where there is one.
#[derive(Debug)]
pub struct LogEntry<'a, F> {
    pub line: String,
    pub file: Option<&'a F>,
}

/// A log line: when, how severe, and what.
pub open spec fn line_text(now: LocalTime, level: Level, message: Seq<char>) -> Seq<char> {
    clock::date_time_text(now) + " ["@ + level.name_text() + "] "@ + message
}

/// The level that a service writes at.
pub open spec fn setup_level(verbose: bool) -> LevelFilter {
    if verbose {
        LevelFilter::Debug
    } else {
        LevelFilter::Info
    }
}

/// Sets up the log: at debug level where `verbose`, else at info level.
pub fn setup_logging<F>(verbose: bool, file: Option<F>) -> (logger: DualLogger<F>)
    ensures
        logger == (DualLogger { level: setup_level(verbose), file }),
{
    let level = if verbose {
        LevelFilter::Debug
    } else {
        LevelFilter::Info
    };
    DualLogger { level, file }
}

impl<F> DualLogger<F> {
    /// Records of `level` are written.
    pub open spec fn admits(self, level: Level) -> bool {
        level.verbosity() <= self.level.verbosity()
    }

    /// Whether records of `level` are written.
    pub fn enabled(&self, level: Level) -> (r: bool)
        ensures
            r == self.admits(level),
    {
        level.rank() <= self.level.rank()
    }

    /// The line for a record made at `now`, or `None` where such records are not written.
    pub fn line_at(&self, level: Level, message: &str, now: &LocalTime) -> (line: Option<String>)
        requires
            now.wf(),
        ensures
            line is Some == self.admits(level),
            line is Some ==> line->0@ == line_text(*now, level, message@),
    {
        if !self.enabled(level) {
            return None;
        }
        let mut line = clock::date_time_stamp(now);
        line.append(" [");
        line.append(level.name());
        line.append("] ");
        line.append(message);
        Some(line)
    }

    /// `file` is the file of this log, and none exactly where the log has none.
    pub open spec fn is_destination(self, file: Option<&F>) -> bool {
        match self.file {
            Some(own) => file is Some && *file->0 == own,
            None => file is None,
        }
    }

    /// What to write for a record made at `now`, or `None` where such records are not written.
    pub fn entry_at(&self, level: Level, message: &str, now: &LocalTime) -> (entry: Option<
        LogEntry<'_, F>,
    >)
        requires
            now.wf(),
        ensures
            entry is Some == self.admits(level),
            entry is Some ==> {
                &&& entry->0.line@ == line_text(*now, level, message@)
                &&& self.is_destination(entry->0.file)
            },
    {
        match self.line_at(level, message, now) {
            Some(line) => Some(LogEntry { line, file: self.file.as_ref() }),
            None => None,
        }
    }

    /// What to write for a record made now, or `None` where such records are not written.
    pub fn log(&self, level: Level, message: &str) -> (entry: Option<LogEntry<'_, F>>)
        ensures
            entry is Some == self.admits(level),
            entry is Some ==> {
                &&& exists|now: LocalTime|
                    now.wf() && entry->0.line@ == #[trigger] line_text(now, level, message@)
                &&& self.is_destination(entry->0.file)
            },
    {
        if !self.enabled(level) {
            return None;
        }
        let now = clock::local_now();
        self.entry_at(level, message, &now)
    }

    /// What there is to flush: the file that lines also go to, where the log has one.
    pub fn flush(&self) -> (file: Option<&F>)
        ensures
            self.is_destination(file),
    {
        self.file.as_ref()
    }
}

/// The name of the log file of the day of `now`.
pub open spec fn file_name_text(now: LocalTime) -> Seq<char> {
    "qb_sync_"@ + clock::date_text(now) + ".log"@
}

/// The name of the log file of the day of `now`, such as `qb_sync_2024-12-31.log`.
pub fn log_file_name(now: &LocalTime) -> (name: String)
    requires
        now.wf(),
    ensures
        name@ == file_name_text(*now),
{
    let mut name = "qb_sync_".to_string();
    name.append(clock::date_stamp(now).as_str());
    name.append(".log");
    name
}

/// Where the directory of the log files is found.
#[derive(Debug)]
pub enum LogBase<P> {
    /// The directory of the executable.
    ExecutableDir(P),
    /// A directory given relative to the working directory.
    Relative(&'static str),
}

/// The directory of the log files: the one called `name` in `base`.
#[derive(Debug)]
pub struct LogDir<P> {
    pub base: LogBase<P>,
    pub name: &'static str,
}

/// Chooses the directory of the log files: `logs` next to the executable, and in the working
/// directory where the directory of the executable is not known. `P` is the type of a path.
pub fn log_dir<P>(exe_dir: Option<P>) -> (dir: LogDir<P>)
    ensures
        dir.name == "logs",
        match exe_dir {
            Some(exe_dir) => dir.base == LogBase::ExecutableDir(exe_dir),
            None => dir.base == LogBase::<P>::Relative("."),
        },
{
    let base = match exe_dir {
        Some(exe_dir) => LogBase::ExecutableDir(exe_dir),
        None => LogBase::Relative("."),
    };
    LogDir { base, name: "logs" }
}

/// How to open a log file.
#[derive(Debug)]
pub struct LogFileOptions {
    pub name: String,
    /// Make the file where it does not exist.
    pub create: bool,
    /// Keep what it holds, and write after that.
    pub append: bool,
}

/// How to open today's log file, given whether the directory of the log files could be made: it is
/// appended to, and made where it is missing. Without the directory there is no log file.
pub fn open_log_file(dir_ready: bool) -> (file: Option<LogFileOptions>)
    ensures
        file is Some == dir_ready,
        file is Some ==> {
            &&& file->0.create
            &&& file->0.append
            &&& exists|now: LocalTime|
                now.wf() && file->0.name@ == #[trigger] file_name_text(now)
        },
{
    if !dir_ready {
        return None;
    }
    let now = clock::local_now();
    Some(LogFileOptions { name: log_file_name(&now), create: true, append: true })
}

/// Errors, warnings and information are always written, debug records only where `verbose`, and
/// trace records never; so whatever is written without `verbose` is written with it.
pub proof fn law_verbose_adds_debug<F>(verbose: bool, file: Option<F>, level: Level)
    ensures
        (DualLogger { level: setup_level(verbose), file }).admits(level) <==> (match level {
            Level::Error => true,
            Level::Warn => true,
            Level::Info => true,
            Level::Debug => verbose,
            Level::Trace => false,
        }),
{
}

/// There is one log file per day: two times name the same file exactly where they are on the same
/// date.
pub proof fn law_one_log_file_per_day(a: LocalTime, b: LocalTime)
    requires
        a.wf(),
        b.wf(),
    ensures
        file_name_text(a) == file_name_text(b) <==> a.year == b.year && a.month == b.month && a.day
            == b.day,
{
    if file_name_text(a) == file_name_text(b) {
        let x = file_name_text(a);
        let from = "qb_sync_"@.len() as int;
        let to = x.len() - ".log"@.len();
        assert(x.subrange(from, to) =~= clock::date_text(a));
        assert(x.subrange(from, to) =~= clock::date_text(b));
        clock::lemma_date_text_injective(a, b);
    }
}

/// A log admits a level exactly where the level is no less severe than its filter.
pub proof fn law_filter_decides<F>(logger: DualLogger<F>, level: Level)
    ensures
        logger.admits(level) <==> (match logger.level {
            LevelFilter::Off => false,
            LevelFilter::Error => level is Error,
            LevelFilter::Warn => level is Error || level is Warn,
            LevelFilter::Info => level is Error || level is Warn || level is Info,
            LevelFilter::Debug => !(level is Trace),
            LevelFilter::Trace => true,
        }),
{
}

/// A log line is the date and time, the name of the level in brackets, and the whole message.
pub proof fn law_line_parts(now: LocalTime, level: Level, message: Seq<char>)
    ensures
        line_text(now, level, message) == clock::date_time_text(now) + (match level {
            Level::Error => " [ERROR] "@,
            Level::Warn => " [WARN] "@,
            Level::Info => " [INFO] "@,
            Level::Debug => " [DEBUG] "@,
            Level::Trace => " [TRACE] "@,
        }) + message,
{
    reveal_strlit(" [");
    reveal_strlit("] ");
    reveal_strlit("ERROR");
    reveal_strlit("WARN");
    reveal_strlit("INFO");
    reveal_strlit("DEBUG");
    reveal_strlit("TRACE");
    reveal_strlit(" [ERROR] ");
    reveal_strlit(" [WARN] ");
    reveal_strlit(" [INFO] ");
    reveal_strlit(" [DEBUG] ");
    reveal_strlit(" [TRACE] ");
    let bracketed = match level {
        Level::Error => " [ERROR] "@,
        Level::Warn => " [WARN] "@,
        Level::Info => " [INFO] "@,
        Level::Debug => " [DEBUG] "@,
        Level::Trace => " [TRACE] "@,
    };
    assert(" ["@ + level.name_text() + "] "@ =~= bracketed);
    assert(line_text(now, level, message) =~= clock::date_time_text(now) + (" ["@
        + level.name_text() + "] "@) + message);
}

/// The name of a log file is that of the service, the date and the extension.
pub proof fn law_file_name_parts(now: LocalTime)
    ensures
        file_name_text(now) == "qb_sync_"@ + clock::date_text(now) + ".log"@,
{
}

/// A line goes to the file of the log, where the log has one, and to no other.
pub proof fn law_destination_is_the_own_file<F>(logger: DualLogger<F>, file: Option<&F>)
    ensures
        logger.file is Some ==> (logger.is_destination(file) <==> file is Some && *file->0
            == logger.file->0),
        logger.file is None ==> (logger.is_destination(file) <==> file is None),
{
}

/// A record is the one expected exactly where there is one just where one is expected, with that
/// level and with that message, whole.
pub proof fn law_record_is_the_expected(record: LogRecord, level: Level, message: Seq<char>)
    ensures
        is_record(Some(record), Some((level, message))) <==> record.level == level
            && record.message@ == message,
        !is_record(Some(record), None),
        !is_record(None, Some((level, message))),
        is_record(None, None),
{
}

} // verus!
