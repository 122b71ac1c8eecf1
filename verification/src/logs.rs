//! The options a deployment's logs are read with.

use vstd::prelude::*;
use crate::models::Tail;
use crate::python_error::{
    ExceptionClass, PythonError, PythonErrorView, python_error, result_view,
};

verus! {

/// What a caller asks of a deployment's logs; `Time` is the type of the
/// instants that bound the lines read.
#[derive(Debug)]
pub struct LogsArgs<Time> {
    pub stdout: bool,
    pub stderr: bool,
    pub tail: Option<i64>,
    pub timestamps: bool,
    pub since: Option<Time>,
    pub until: Option<Time>,
}

/// The options a deployment's logs are read with.
#[derive(Debug)]
pub struct LogsOptions<Time> {
    pub stdout: bool,
    pub stderr: bool,
    pub since: Option<Time>,
    pub until: Option<Time>,
    pub timestamps: bool,
    pub tail: Option<Tail>,
}

/// The lines a caller asks for: every line when no number is given, the
/// last `n` lines for a number `n` that is not negative.
pub open spec fn tail_outcome(lines: Option<i64>) -> Result<Tail, PythonErrorView> {
    match lines {
        None => Ok(Tail::All),
        Some(n) => if n < 0 {
            Err(
                python_error(
                    ExceptionClass::ValueError,
                    "tail must be a non-negative number of lines"@,
                ),
            )
        } else {
            Ok(Tail::Number(n as u64))
        },
    }
}

/// Checks how many lines of the log a caller asks for.
pub fn parse_tail(lines: Option<i64>) -> (tail: Result<Tail, PythonError>)
    ensures
        result_view(tail) == tail_outcome(lines),
{
    let lines = match lines {
        None => {
            return Ok(Tail::All);
        },
        Some(n) => n,
    };
    if lines < 0 {
        Err(
            PythonError::new(
                ExceptionClass::ValueError,
                "tail must be a non-negative number of lines",
            ),
        )
    } else {
        Ok(Tail::Number(lines as u64))
    }
}

/// Checks what a caller asks of a deployment's logs and builds the options
/// to read them with.
pub fn build_logs_options<Time>(args: LogsArgs<Time>) -> (options: Result<
    LogsOptions<Time>,
    PythonError,
>)
    ensures
        options.is_err() == tail_outcome(args.tail).is_err(),
        options matches Err(e) ==> Err::<Tail, PythonErrorView>(e@) == tail_outcome(args.tail),
        options matches Ok(o) ==> {
            &&& o.stdout == args.stdout
            &&& o.stderr == args.stderr
            &&& Ok::<Tail, PythonErrorView>(o.tail.unwrap()) == tail_outcome(args.tail)
            &&& o.tail.is_some()
            &&& o.timestamps == args.timestamps
            &&& o.since == args.since
            &&& o.until == args.until
        },
{
    let tail = parse_tail(args.tail)?;
    Ok(
        LogsOptions {
            stdout: args.stdout,
            stderr: args.stderr,
            tail: Some(tail),
            timestamps: args.timestamps,
            since: args.since,
            until: args.until,
        },
    )
}

/// A number of lines is refused exactly when it is negative. A number that is
/// not negative asks for exactly that many of the last lines, however many,
/// and no number asks for every line.
pub proof fn tail_is_kept_unless_negative(lines: Option<i64>)
    ensures
        lines is None ==> tail_outcome(lines) == Ok::<Tail, PythonErrorView>(Tail::All),
        lines is Some && lines->Some_0 >= 0 ==> {
            &&& tail_outcome(lines) is Ok
            &&& tail_outcome(lines)->Ok_0 is Number
            &&& tail_outcome(lines)->Ok_0->Number_0 as int == lines->Some_0 as int
        },
        lines is Some && lines->Some_0 < 0 ==> {
            &&& tail_outcome(lines) is Err
            &&& tail_outcome(lines)->Err_0.class == ExceptionClass::ValueError
        },
{
}

} // verus!
