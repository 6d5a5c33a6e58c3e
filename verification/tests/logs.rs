use chrono::Local;
use qb_sync::clock::{cell_stamp, date_stamp, date_time_stamp, LocalTime};
use qb_sync::logging::{
    log_dir, log_file_name, open_log_file, setup_logging, Level, LevelFilter, LogBase,
};

fn at(year: i32, month: u32, day: u32, hour: u32, minute: u32, second: u32) -> LocalTime {
    LocalTime { year, month, day, hour, minute, second }
}

#[test]
fn stamps_are_zero_padded() {
    let t = at(2024, 2, 9, 3, 4, 5);
    assert_eq!(cell_stamp(&t), "09-02-2024:03:04");
    assert_eq!(date_stamp(&t), "2024-02-09");
    assert_eq!(date_time_stamp(&t), "2024-02-09 03:04:05");
    let t = at(2024, 12, 31, 23, 59, 58);
    assert_eq!(cell_stamp(&t), "31-12-2024:23:59");
    assert_eq!(date_time_stamp(&t), "2024-12-31 23:59:58");
}

#[test]
fn unusual_years_are_signed_and_padded() {
    assert_eq!(date_stamp(&at(7, 1, 1, 0, 0, 0)), "0007-01-01");
    assert_eq!(date_stamp(&at(0, 2, 29, 0, 0, 0)), "0000-02-29");
    assert_eq!(date_stamp(&at(9999, 12, 31, 0, 0, 0)), "9999-12-31");
    assert_eq!(date_stamp(&at(10000, 1, 1, 0, 0, 0)), "+10000-01-01");
    assert_eq!(date_stamp(&at(-5, 3, 1, 0, 0, 0)), "-0005-03-01");
    assert_eq!(date_stamp(&at(-12345, 3, 1, 0, 0, 0)), "-12345-03-01");
    assert_eq!(date_stamp(&at(262142, 12, 31, 0, 0, 0)), "+262142-12-31");
    assert_eq!(date_stamp(&at(-262143, 1, 1, 0, 0, 0)), "-262143-01-01");
}

#[test]
fn levels_by_verbosity() {
    let quiet = setup_logging::<u8>(false, None);
    let verbose = setup_logging::<u8>(true, Some(9));
    assert_eq!(quiet.level, LevelFilter::Info);
    assert_eq!(quiet.file, None);
    assert_eq!(verbose.level, LevelFilter::Debug);
    assert_eq!(verbose.file, Some(9));
    assert_eq!(verbose.level.announced(true), Some(LevelFilter::Debug));
    assert_eq!(quiet.level.announced(true), Some(LevelFilter::Info));
    assert_eq!(quiet.level.announced(false), None);
    for level in [Level::Error, Level::Warn, Level::Info] {
        assert!(quiet.enabled(level));
        assert!(verbose.enabled(level));
    }
    assert!(!quiet.enabled(Level::Debug));
    assert!(verbose.enabled(Level::Debug));
    assert!(!quiet.enabled(Level::Trace));
    assert!(!verbose.enabled(Level::Trace));
}

#[test]
fn enabled_orders_as_the_log_crate_does() {
    let levels = [
        (Level::Error, log::Level::Error),
        (Level::Warn, log::Level::Warn),
        (Level::Info, log::Level::Info),
        (Level::Debug, log::Level::Debug),
        (Level::Trace, log::Level::Trace),
    ];
    let filters = [
        (LevelFilter::Off, log::LevelFilter::Off),
        (LevelFilter::Error, log::LevelFilter::Error),
        (LevelFilter::Warn, log::LevelFilter::Warn),
        (LevelFilter::Info, log::LevelFilter::Info),
        (LevelFilter::Debug, log::LevelFilter::Debug),
        (LevelFilter::Trace, log::LevelFilter::Trace),
    ];
    for (level, theirs) in levels {
        assert_eq!(level.name(), theirs.to_string());
        for (filter, their_filter) in filters {
            let mut logger = setup_logging::<u8>(true, None);
            logger.level = filter;
            assert_eq!(logger.enabled(level), theirs <= their_filter);
        }
    }
}

#[test]
fn lines_hold_time_level_and_message() {
    let logger = setup_logging::<u8>(false, None);
    let now = at(2024, 2, 9, 3, 4, 5);
    assert_eq!(
        logger.line_at(Level::Warn, "end_session errored: gone", &now).unwrap(),
        "2024-02-09 03:04:05 [WARN] end_session errored: gone"
    );
    assert_eq!(logger.line_at(Level::Info, "", &now).unwrap(), "2024-02-09 03:04:05 [INFO] ");
    assert_eq!(logger.line_at(Level::Debug, "hidden", &now), None);
}

#[test]
fn logging_now_uses_the_local_clock() {
    let logger = setup_logging::<u8>(true, None);
    let before = Local::now().format("%Y-%m-%d %H:%M:%S").to_string();
    let line = logger.log(Level::Debug, "tick").unwrap().line;
    let after = Local::now().format("%Y-%m-%d %H:%M:%S").to_string();
    assert!(line.ends_with(" [DEBUG] tick"));
    let stamp = line[..19].to_string();
    assert!(before <= stamp && stamp <= after);
    assert!(logger.log(Level::Trace, "tick").is_none());
}

#[test]
fn one_log_file_per_day() {
    assert_eq!(log_file_name(&at(2024, 2, 9, 3, 4, 5)), "qb_sync_2024-02-09.log");
    assert_eq!(
        log_file_name(&at(2024, 2, 9, 0, 0, 0)),
        log_file_name(&at(2024, 2, 9, 23, 59, 59))
    );
    assert_ne!(
        log_file_name(&at(2024, 1, 12, 0, 0, 0)),
        log_file_name(&at(2024, 12, 1, 0, 0, 0))
    );
}

#[test]
fn todays_file_needs_its_directory() {
    assert!(open_log_file(false).is_none());
    let before = Local::now().format("qb_sync_%Y-%m-%d.log").to_string();
    let file = open_log_file(true).unwrap();
    let after = Local::now().format("qb_sync_%Y-%m-%d.log").to_string();
    assert!(file.name == before || file.name == after);
    assert!(file.create);
    assert!(file.append);
}

#[test]
fn logs_are_next_to_the_executable() {
    let dir = log_dir(Some("C:\\service"));
    assert_eq!(dir.name, "logs");
    assert!(matches!(dir.base, LogBase::ExecutableDir("C:\\service")));
    let dir = log_dir::<&str>(None);
    assert_eq!(dir.name, "logs");
    assert!(matches!(dir.base, LogBase::Relative(".")));
}

#[test]
fn a_flush_is_for_the_file() {
    assert_eq!(setup_logging::<u8>(false, Some(9)).flush(), Some(&9));
    assert_eq!(setup_logging::<u8>(true, None).flush(), None);
}

#[test]
fn written_lines_also_go_to_the_file() {
    let now = at(2024, 2, 9, 3, 4, 5);
    let both = setup_logging::<u8>(false, Some(9));
    let entry = both.entry_at(Level::Info, "up", &now).unwrap();
    assert_eq!(entry.line, "2024-02-09 03:04:05 [INFO] up");
    assert_eq!(entry.file, Some(&9));
    assert!(both.entry_at(Level::Debug, "up", &now).is_none());
    assert_eq!(both.log(Level::Error, "down").unwrap().file, Some(&9));

    let stream_only = setup_logging::<u8>(false, None);
    let entry = stream_only.entry_at(Level::Info, "up", &now).unwrap();
    assert_eq!(entry.line, "2024-02-09 03:04:05 [INFO] up");
    assert_eq!(entry.file, None);
    assert_eq!(stream_only.log(Level::Error, "down").unwrap().file, None);
}
