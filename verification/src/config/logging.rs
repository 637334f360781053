//! Which old log files are removed at start-up: daily log files of this
//! program last modified before the cutoff, the retention period before
//! now. Listing the directory, reading the clock, computing the cutoff and
//! removing files are left to the caller. Times are signed nanoseconds from
//! the Unix epoch, so that any system time can be compared.

use vstd::prelude::*;

use crate::text::str_starts_with;

verus! {

/// How long log files are kept.
pub const LOG_RETENTION_DAYS: u64 = 7;

/// The name that every log file of this program starts with (the daily
/// files append the date to it).
pub const LOG_FILE_PREFIX: &'static str = "mimi-ime.log";

/// Whether a directory entry is an old log file to remove: a regular file
/// whose name starts with the log file name and that was last modified
/// before the cutoff.
pub fn is_expired_log(file_name: &str, is_file: bool, modified: i128, cutoff: i128) -> (expired: bool)
    ensures
        expired == (is_file && file_name@.len() >= LOG_FILE_PREFIX@.len() && file_name@.subrange(
            0,
            LOG_FILE_PREFIX@.len() as int,
        ) == LOG_FILE_PREFIX@ && modified < cutoff),
{
    if !is_file {
        return false;
    }
    if !str_starts_with(file_name, LOG_FILE_PREFIX) {
        return false;
    }
    modified < cutoff
}

/// A file modified at or after the cutoff is never removed, whatever its name.
pub proof fn lemma_recent_logs_are_kept(file_name: &str, is_file: bool, modified: i128, cutoff: i128)
    requires
        modified >= cutoff,
    ensures
        !(is_file && file_name@.len() >= LOG_FILE_PREFIX@.len() && file_name@.subrange(
            0,
            LOG_FILE_PREFIX@.len() as int,
        ) == LOG_FILE_PREFIX@ && modified < cutoff),
{
}

} // verus!
