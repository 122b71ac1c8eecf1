//! The options an existing deployment is started with.

use vstd::prelude::*;
use crate::models::StartDeploymentOptions;
use crate::python_error::{
    ExceptionClass, PythonError, PythonErrorView, python_error, result_view,
};

verus! {

/// The message that refuses a negative timeout.
pub open spec fn negative_timeout_message() -> Seq<char> {
    "wait_until_healthy_timeout must be non-negative number of seconds"@
}

/// A timeout given in seconds, checked: absent stays absent, a negative
/// number of seconds is refused.
pub open spec fn timeout_outcome(seconds: Option<i64>) -> Result<Option<u64>, PythonErrorView> {
    match seconds {
        None => Ok(None),
        Some(s) => if s < 0 {
            Err(python_error(ExceptionClass::ValueError, negative_timeout_message()))
        } else {
            Ok(Some(s as u64))
        },
    }
}

/// Checks a timeout given in seconds; absent leaves the default to the
/// deployment.
pub fn parse_timeout(seconds: Option<i64>) -> (timeout: Result<Option<u64>, PythonError>)
    ensures
        result_view(timeout) == timeout_outcome(seconds),
{
    match seconds {
        None => Ok(None),
        Some(s) => if s < 0 {
            Err(
                PythonError::new(
                    ExceptionClass::ValueError,
                    "wait_until_healthy_timeout must be non-negative number of seconds",
                ),
            )
        } else {
            Ok(Some(s as u64))
        },
    }
}

/// The options to start a deployment with: whether to wait until it is
/// healthy, and for how long at most.
pub fn build_start_options(
    wait_until_healthy: bool,
    wait_until_healthy_timeout: Option<i64>,
) -> (options: Result<StartDeploymentOptions, PythonError>)
    ensures
        result_view(options) == match timeout_outcome(wait_until_healthy_timeout) {
            Ok(timeout) => Ok(
                StartDeploymentOptions {
                    wait_until_healthy: Some(wait_until_healthy),
                    wait_until_healthy_timeout: timeout,
                },
            ),
            Err(e) => Err(e),
        },
{
    let timeout = parse_timeout(wait_until_healthy_timeout)?;
    Ok(
        StartDeploymentOptions {
            wait_until_healthy: Some(wait_until_healthy),
            wait_until_healthy_timeout: timeout,
        },
    )
}

/// A timeout is refused exactly when it is negative. A timeout that is not
/// negative is kept as the very number of seconds given, however large, and
/// no timeout leaves the deployment's default.
pub proof fn timeout_is_kept_unless_negative(seconds: Option<i64>)
    ensures
        seconds is None ==> timeout_outcome(seconds) == Ok::<Option<u64>, PythonErrorView>(None),
        seconds is Some && seconds->Some_0 >= 0 ==> {
            &&& timeout_outcome(seconds) is Ok
            &&& timeout_outcome(seconds)->Ok_0 is Some
            &&& timeout_outcome(seconds)->Ok_0->Some_0 as int == seconds->Some_0 as int
        },
        seconds is Some && seconds->Some_0 < 0 ==> {
            &&& timeout_outcome(seconds) is Err
            &&& timeout_outcome(seconds)->Err_0.class == ExceptionClass::ValueError
        },
{
}

} // verus!
