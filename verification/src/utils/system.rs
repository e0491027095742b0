//! What the library asks of the machine it runs on.

use vstd::prelude::*;

verus! {

/// The home directory of the current user, as `dirs::home_dir` reports it.
///
/// Nothing is claimed of the result: it depends on the environment of the
/// process. `None` comes back where `dirs::home_dir` finds no home
/// directory, and also where the path it finds is not valid Unicode.
#[verifier::external_body]
pub(crate) fn home_directory() -> (home: Option<String>) {
    match dirs::home_dir() {
        Some(path) => match path.into_os_string().into_string() {
            Ok(text) => Some(text),
            Err(_) => None,
        },
        None => None,
    }
}

/// The current time in whole seconds since the Unix epoch, as
/// `chrono::Utc::now` followed by `DateTime::timestamp` gives it.
///
/// Nothing is claimed of the result: it depends on the clock. `Utc::now`
/// does not return on a machine whose clock stands before the epoch.
#[verifier::external_body]
pub(crate) fn current_timestamp() -> (seconds: i64) {
    chrono::Utc::now().timestamp()
}

} // verus!
