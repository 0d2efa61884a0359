//! The configuration store: one `NAME=value` line per entry.

use vstd::prelude::*;

verus! {

/// File that holds the configuration, in the working directory.
pub const CONFIG_FILE: &'static str = ".env";

/// Name under which the token is kept.
pub const TOKEN_KEY: &'static str = "ASTRA_TOKEN";

/// What is said when a variable is not set and the caller gave no words of
/// its own.
pub const MISSING_VARIABLE: &'static str = "Target env is not set.";

/// The line that stores `value` under `name`.
pub open spec fn entry_line(name: Seq<char>, value: Seq<char>) -> Seq<char> {
    name + seq!['='] + value + seq!['\n']
}

/// Writes out the line that stores `value` under `name`.
pub fn config_entry(name: &str, value: &str) -> (line: String)
    ensures
        line@ == entry_line(name@, value@),
{
    let mut line: String = name.to_owned();
    line.push('=');
    line.append(value);
    line.push('\n');
    line
}

/// The complaint about a variable that is not set: the caller's own words,
/// or the stock sentence.
pub open spec fn missing_message(custom: Option<String>) -> Seq<char> {
    match custom {
        Some(message) => message@,
        None => MISSING_VARIABLE@,
    }
}

/// Settles a lookup in the environment: the value where the variable is set,
/// the complaint where it is not.
pub fn require_variable(
    value: Option<String>,
    custom: Option<String>,
) -> (settled: Result<String, String>)
    ensures
        value matches Some(v) ==> settled == Ok::<String, String>(v),
        value is None ==> (settled matches Err(message) && message@ == missing_message(custom)),
{
    match value {
        Some(v) => Ok(v),
        None => match custom {
            Some(message) => Err(message),
            None => Err(MISSING_VARIABLE.to_owned()),
        },
    }
}

} // verus!
