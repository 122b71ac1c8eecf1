use atlas_local_lib_py::python_error::ExceptionClass;
use atlas_local_lib_py::start::{build_start_options, parse_timeout};

#[test]
fn test_timeout_is_converted_to_seconds() {
    assert_eq!(parse_timeout(Some(30)).unwrap(), Some(30));
}

#[test]
fn test_missing_timeout_leaves_the_default_to_atlas_local() {
    assert_eq!(parse_timeout(None).unwrap(), None);
}

#[test]
fn start_test_negative_timeout_is_rejected() {
    let error = parse_timeout(Some(-1)).unwrap_err();

    assert!(error.class.is_instance_of(&ExceptionClass::ValueError));
    assert_eq!(
        error.message,
        "wait_until_healthy_timeout must be non-negative number of seconds"
    );
}

#[test]
fn test_start_options_keep_the_wait_flag() {
    let options = build_start_options(false, Some(0)).unwrap();
    assert_eq!(options.wait_until_healthy, Some(false));
    assert_eq!(options.wait_until_healthy_timeout, Some(0));

    let options = build_start_options(true, None).unwrap();
    assert_eq!(options.wait_until_healthy, Some(true));
    assert_eq!(options.wait_until_healthy_timeout, None);

    assert!(build_start_options(true, Some(-3)).is_err());
}
