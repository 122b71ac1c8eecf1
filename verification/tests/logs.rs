use atlas_local_lib_py::logs::{LogsArgs, build_logs_options, parse_tail};
use atlas_local_lib_py::models::Tail;
use atlas_local_lib_py::python_error::ExceptionClass;
use chrono::{DateTime, TimeZone, Utc};

fn default_args() -> LogsArgs<DateTime<Utc>> {
    LogsArgs {
        stdout: true,
        stderr: true,
        tail: None,
        timestamps: false,
        since: None,
        until: None,
    }
}

#[test]
fn test_missing_tail_returns_every_line() {
    let options = build_logs_options(default_args()).unwrap();

    assert_eq!(options.tail, Some(Tail::All));
}

#[test]
fn test_negative_tail_is_rejected() {
    let args = LogsArgs {
        tail: Some(-1),
        ..default_args()
    };

    let error = build_logs_options(args).unwrap_err();

    assert!(error.class.is_instance_of(&ExceptionClass::ValueError));
    assert_eq!(error.message, "tail must be a non-negative number of lines");
}

#[test]
fn logs_test_all_fields_are_mapped() {
    let since = Utc.with_ymd_and_hms(2026, 1, 1, 0, 0, 0).unwrap();
    let until = Utc.with_ymd_and_hms(2026, 1, 1, 1, 0, 0).unwrap();

    let options = build_logs_options(LogsArgs {
        stdout: false,
        stderr: true,
        tail: Some(10),
        timestamps: true,
        since: Some(since),
        until: Some(until),
    })
    .unwrap();

    assert!(!options.stdout);
    assert!(options.stderr);
    assert_eq!(options.tail, Some(Tail::Number(10)));
    assert!(options.timestamps);
    assert_eq!(options.since, Some(since));
    assert_eq!(options.until, Some(until));
}

#[test]
fn test_zero_tail_is_accepted() {
    assert_eq!(parse_tail(Some(0)).unwrap(), Tail::Number(0));
    assert_eq!(parse_tail(None).unwrap(), Tail::All);
}
