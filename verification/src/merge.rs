//! Combining the result of a command with the result of re-locking after it.
use vstd::prelude::*;
use vstd::string::*;

verus! {

/// A result whose error message is taken by its view.
pub open spec fn err_view<T>(r: Result<T, String>) -> Result<T, Seq<char>> {
    match r {
        Ok(v) => Ok(v),
        Err(e) => Err(e@),
    }
}

/// The result an invocation reports, given the result of its command and the
/// result of re-locking the device afterwards: a re-lock failure is never
/// hidden, and a command failure keeps its own message in front.
pub open spec fn merged<T>(value: Result<T, Seq<char>>, restore: Result<(), Seq<char>>) -> Result<
    T,
    Seq<char>,
> {
    match (value, restore) {
        (Ok(v), Ok(_)) => Ok(v),
        (Ok(_), Err(re)) => Err("Failed to restore lock: "@ + re),
        (Err(ce), Ok(_)) => Err(ce),
        (Err(ce), Err(re)) => Err(ce + "; additionally failed to restore lock: "@ + re),
    }
}

/// Merges the result of a command with the result of restoring the lock.
pub fn merge_value_results<T>(value_result: Result<T, String>, restore_result: Result<(), String>) -> (r:
    Result<T, String>)
    ensures
        err_view(r) == merged(err_view(value_result), err_view(restore_result)),
        value_result is Err && restore_result is Ok ==> r == value_result,
{
    match (value_result, restore_result) {
        (Ok(value), Ok(())) => Ok(value),
        (Ok(_), Err(restore_error)) => {
            let prefix = "Failed to restore lock: ".to_owned();
            Err(prefix.concat(restore_error.as_str()))
        },
        (Err(value_error), Ok(())) => Err(value_error),
        (Err(value_error), Err(restore_error)) => {
            let joined = value_error.concat("; additionally failed to restore lock: ");
            Err(joined.concat(restore_error.as_str()))
        },
    }
}

/// Merges the printed lines of a command with the result of restoring the lock.
pub fn merge_results(command_result: Result<Vec<String>, String>, restore_result: Result<(), String>) -> (r:
    Result<Vec<String>, String>)
    ensures
        err_view(r) == merged(err_view(command_result), err_view(restore_result)),
        command_result is Err && restore_result is Ok ==> r == command_result,
{
    merge_value_results(command_result, restore_result)
}

} // verus!
